//! Reading a secret from a terminal without echoing it.
//!
//! The crate holds the rules of that task as verified code: how a raw input
//! line becomes a secret, which terminal attributes hide typed characters and
//! how they are put back, and how often a rejected secret is asked for again.
//! The device itself is reached through a driver that the caller supplies.

pub mod attributes;
mod erase;
pub mod error;
pub mod guard;
pub mod line;
pub mod retry;
pub mod session;

pub use attributes::{EchoFlags, TerminalAttributes};
pub use error::{io_result, PasswordError};
pub use guard::EchoSuppressionGuard;
pub use line::{fix_line_issues, normalize};
pub use retry::{ask_password, attempt, validate, Next, RetryController, RetryOutcome, MAX_ATTEMPTS};
pub use session::{read_password, Progress, ReadSession, Reply, Request};
