//! The guard that hides typed characters for as long as it is held.

use vstd::prelude::*;
use crate::attributes::{EchoFlags, TerminalAttributes};

verus! {

/// Two copies of a terminal's attributes: the working copy, which hides what
/// is typed and is installed while the guard is held, and the backup, which
/// is put back when the guard is released. Nothing changes either copy once
/// the guard exists.
#[derive(Debug)]
pub struct EchoSuppressionGuard {
    working: TerminalAttributes,
    backup: TerminalAttributes,
}

impl EchoSuppressionGuard {
    /// The attributes that are installed while the guard is held.
    pub closed spec fn spec_working(&self) -> TerminalAttributes {
        self.working
    }

    /// The attributes that the terminal had before the guard.
    pub closed spec fn spec_backup(&self) -> TerminalAttributes {
        self.backup
    }

    /// Makes the guard from two snapshots of the terminal's attributes. The
    /// working copy is the first snapshot with echo off and the newline still
    /// echoed; the backup is the second snapshot, untouched.
    pub fn acquire(working: TerminalAttributes, backup: TerminalAttributes, flags: EchoFlags) -> (guard:
        EchoSuppressionGuard)
        ensures
            guard.working() == working.hidden(flags),
            guard.backup() == backup,
            !guard.working().echo_enabled(flags),
            guard.working().echo_newline_enabled(flags),
    {
        EchoSuppressionGuard { working: working.with_echo_suppressed(flags), backup }
    }

    /// The attributes to install while the guard is held.
    #[verifier::when_used_as_spec(spec_working)]
    pub fn working(&self) -> (attributes: TerminalAttributes)
        ensures
            attributes == self.spec_working(),
    {
        self.working
    }

    /// The attributes that the terminal had before the guard.
    #[verifier::when_used_as_spec(spec_backup)]
    pub fn backup(&self) -> (attributes: TerminalAttributes)
        ensures
            attributes == self.spec_backup(),
    {
        self.backup
    }

    /// Ends the guard and gives the attributes to put back: the backup, whole
    /// and unchanged.
    pub fn release(self) -> (attributes: TerminalAttributes)
        ensures
            attributes == self.backup(),
    {
        self.backup
    }
}

} // verus!
