//! One echo-suppressed read of a line, as a conversation with the terminal.
//!
//! The session decides what is asked of the terminal and in which order; a
//! driver carries each request out and reports what came of it.

use vstd::prelude::*;
use crate::attributes::{EchoFlags, TerminalAttributes};
use crate::erase::erase;
use crate::error::PasswordError;
use crate::guard::EchoSuppressionGuard;
use crate::line::{content, fix_line_issues, is_terminated};

verus! {

/// What the session asks of the terminal.
#[derive(Clone, Copy, Debug, PartialEq, Eq, Structural)]
pub enum Request {
    /// Report the current attributes.
    Query,
    /// Install these attributes, which hide what is typed.
    Suppress(TerminalAttributes),
    /// Read one line, up to and including its terminator or to the end of
    /// the input.
    ReadLine,
    /// Put these attributes back. Whether that succeeds does not matter to
    /// the session.
    Restore(TerminalAttributes),
}

/// What came of a request.
#[derive(Debug, PartialEq, Eq)]
pub enum Reply {
    /// The attributes that were asked for.
    Attributes(TerminalAttributes),
    /// The attributes were installed.
    Applied,
    /// The line that was read.
    Line(String),
    /// The request failed.
    Failed(PasswordError),
}

/// How far the session has come.
#[derive(Debug, PartialEq, Eq)]
pub enum Progress {
    /// The terminal is to carry out this request.
    Ask(Request),
    /// The session is over, with this result.
    Done(Result<String, PasswordError>),
}

/// A reply, with text as a sequence of characters.
pub enum ReplyView {
    Attributes(TerminalAttributes),
    Applied,
    Line(Seq<char>),
    Failed(PasswordError),
}

/// Progress, with text as a sequence of characters.
pub enum ProgressView {
    Ask(Request),
    Done(Result<Seq<char>, PasswordError>),
}

/// What the session waits for.
pub enum Phase {
    /// The first snapshot of the attributes, to become the working copy.
    AwaitingWorking,
    /// The second snapshot, to become the backup.
    AwaitingBackup { working: TerminalAttributes },
    /// Word that the working copy was installed.
    Suppressing { backup: TerminalAttributes },
    /// The line. The guard is held.
    Reading { backup: TerminalAttributes },
    /// Word that the backup was put back, whatever that word is.
    Restoring { raw: Result<Seq<char>, PasswordError> },
    /// Nothing: the session is over.
    Finished,
}

impl View for Reply {
    type V = ReplyView;

    open spec fn view(&self) -> ReplyView {
        match *self {
            Reply::Attributes(attributes) => ReplyView::Attributes(attributes),
            Reply::Applied => ReplyView::Applied,
            Reply::Line(text) => ReplyView::Line(text@),
            Reply::Failed(error) => ReplyView::Failed(error),
        }
    }
}

impl View for Progress {
    type V = ProgressView;

    open spec fn view(&self) -> ProgressView {
        match *self {
            Progress::Ask(request) => ProgressView::Ask(request),
            Progress::Done(Ok(text)) => ProgressView::Done(Ok(text@)),
            Progress::Done(Err(error)) => ProgressView::Done(Err(error)),
        }
    }
}

/// The error that a reply stands for where it is not the one awaited: the
/// error it reports, or `Other` where it reports none.
pub open spec fn failure(reply: ReplyView) -> PasswordError {
    match reply {
        ReplyView::Failed(error) => error,
        _ => PasswordError::Other,
    }
}

/// The result of a session whose read ended in `raw`: the content of a
/// terminated line, `UnexpectedEof` for a line without terminator, and the
/// failure of a read that failed.
pub open spec fn outcome(raw: Result<Seq<char>, PasswordError>) -> Result<
    Seq<char>,
    PasswordError,
> {
    match raw {
        Ok(line) => if is_terminated(line) {
            Ok(content(line))
        } else {
            Err(PasswordError::UnexpectedEof)
        },
        Err(error) => Err(error),
    }
}

/// The session's move on a reply: the phase it enters and what it asks or
/// returns.
///
/// Both snapshots are taken before anything is changed. A failure before the
/// working copy is installed, or of installing it, ends the session at once,
/// with nothing to put back. Once the working copy is installed the backup is
/// put back whatever the read came to, and only then is the line looked at.
pub open spec fn advance(phase: Phase, flags: EchoFlags, reply: ReplyView) -> (Phase, ProgressView) {
    match phase {
        Phase::AwaitingWorking => match reply {
            ReplyView::Attributes(working) => (
                Phase::AwaitingBackup { working },
                ProgressView::Ask(Request::Query),
            ),
            _ => (Phase::Finished, ProgressView::Done(Err(failure(reply)))),
        },
        Phase::AwaitingBackup { working } => match reply {
            ReplyView::Attributes(backup) => (
                Phase::Suppressing { backup },
                ProgressView::Ask(Request::Suppress(working.hidden(flags))),
            ),
            _ => (Phase::Finished, ProgressView::Done(Err(failure(reply)))),
        },
        Phase::Suppressing { backup } => match reply {
            ReplyView::Applied => (Phase::Reading { backup }, ProgressView::Ask(Request::ReadLine)),
            _ => (Phase::Finished, ProgressView::Done(Err(failure(reply)))),
        },
        Phase::Reading { backup } => match reply {
            ReplyView::Line(line) => (
                Phase::Restoring { raw: Ok(line) },
                ProgressView::Ask(Request::Restore(backup)),
            ),
            _ => (
                Phase::Restoring { raw: Err(failure(reply)) },
                ProgressView::Ask(Request::Restore(backup)),
            ),
        },
        Phase::Restoring { raw } => (Phase::Finished, ProgressView::Done(outcome(raw))),
        Phase::Finished => (Phase::Finished, ProgressView::Done(Err(PasswordError::Other))),
    }
}

/// The number of replies that a session in this phase can still take before
/// it is over.
pub open spec fn replies_left(phase: Phase) -> nat {
    match phase {
        Phase::AwaitingWorking => 5,
        Phase::AwaitingBackup { .. } => 4,
        Phase::Suppressing { .. } => 3,
        Phase::Reading { .. } => 2,
        Phase::Restoring { .. } => 1,
        Phase::Finished => 0,
    }
}

enum State {
    AwaitingWorking,
    AwaitingBackup { working: TerminalAttributes },
    Suppressing { guard: EchoSuppressionGuard },
    Reading { guard: EchoSuppressionGuard },
    Restoring { raw: Result<String, PasswordError> },
    Finished,
}

/// One echo-suppressed read in progress.
pub struct ReadSession {
    flags: EchoFlags,
    state: State,
}

impl View for ReadSession {
    type V = Phase;

    closed spec fn view(&self) -> Phase {
        match self.state {
            State::AwaitingWorking => Phase::AwaitingWorking,
            State::AwaitingBackup { working } => Phase::AwaitingBackup { working },
            State::Suppressing { guard } => Phase::Suppressing { backup: guard.backup() },
            State::Reading { guard } => Phase::Reading { backup: guard.backup() },
            State::Restoring { raw: Ok(line) } => Phase::Restoring { raw: Ok(line@) },
            State::Restoring { raw: Err(error) } => Phase::Restoring { raw: Err(error) },
            State::Finished => Phase::Finished,
        }
    }
}

/// Disposes of a reply that is not the one awaited: erases a line that came
/// with it and gives the error that it stands for.
fn reject(reply: Reply) -> (error: PasswordError)
    ensures
        error == failure(reply@),
{
    match reply {
        Reply::Failed(error) => error,
        Reply::Line(line) => {
            let mut line = line;
            erase(&mut line);
            PasswordError::Other
        },
        _ => PasswordError::Other,
    }
}

impl ReadSession {
    /// The echo bits that the session works with.
    pub closed spec fn flags(&self) -> EchoFlags {
        self.flags
    }

    /// Opens a session. Its first request is for the terminal's attributes.
    pub fn begin(flags: EchoFlags) -> (opened: (ReadSession, Request))
        ensures
            opened.0@ == Phase::AwaitingWorking,
            opened.0.flags() == flags,
            opened.1 == Request::Query,
    {
        (ReadSession { flags, state: State::AwaitingWorking }, Request::Query)
    }

    /// Takes the reply to the last request and gives the session's next
    /// move.
    pub fn step(self, reply: Reply) -> (moved: (ReadSession, Progress))
        ensures
            (moved.0@, moved.1@) == advance(self@, self.flags(), reply@),
            moved.0.flags() == self.flags(),
    {
        let flags = self.flags;
        match self.state {
            State::AwaitingWorking => match reply {
                Reply::Attributes(working) => (
                    ReadSession { flags, state: State::AwaitingBackup { working } },
                    Progress::Ask(Request::Query),
                ),
                other => (
                    ReadSession { flags, state: State::Finished },
                    Progress::Done(Err(reject(other))),
                ),
            },
            State::AwaitingBackup { working } => match reply {
                Reply::Attributes(backup) => {
                    let guard = EchoSuppressionGuard::acquire(working, backup, flags);
                    let hidden = guard.working();
                    (
                        ReadSession { flags, state: State::Suppressing { guard } },
                        Progress::Ask(Request::Suppress(hidden)),
                    )
                },
                other => (
                    ReadSession { flags, state: State::Finished },
                    Progress::Done(Err(reject(other))),
                ),
            },
            State::Suppressing { guard } => match reply {
                Reply::Applied => (
                    ReadSession { flags, state: State::Reading { guard } },
                    Progress::Ask(Request::ReadLine),
                ),
                other => (
                    ReadSession { flags, state: State::Finished },
                    Progress::Done(Err(reject(other))),
                ),
            },
            State::Reading { guard } => {
                let backup = guard.release();
                match reply {
                    Reply::Line(line) => (
                        ReadSession { flags, state: State::Restoring { raw: Ok(line) } },
                        Progress::Ask(Request::Restore(backup)),
                    ),
                    other => (
                        ReadSession { flags, state: State::Restoring { raw: Err(reject(other)) } },
                        Progress::Ask(Request::Restore(backup)),
                    ),
                }
            },
            State::Restoring { raw } => {
                let _ = reject(reply);
                let result = match raw {
                    Ok(line) => fix_line_issues(line),
                    Err(error) => Err(error),
                };
                (ReadSession { flags, state: State::Finished }, Progress::Done(result))
            },
            State::Finished => {
                let _ = reject(reply);
                (
                    ReadSession { flags, state: State::Finished },
                    Progress::Done(Err(PasswordError::Other)),
                )
            },
        }
    }
}

/// The session after these replies, counted from its opening: the phase it
/// is in and its last move.
pub open spec fn session_after(flags: EchoFlags, replies: Seq<ReplyView>) -> (Phase, ProgressView)
    decreases replies.len(),
{
    if replies.len() == 0 {
        (Phase::AwaitingWorking, ProgressView::Ask(Request::Query))
    } else {
        advance(session_after(flags, replies.drop_last()).0, flags, replies.last())
    }
}

/// Whether the driver can have given this reply to this request.
pub open spec fn driver_gives<D>(driver: D, request: Request, reply: ReplyView) -> bool where
    D: Fn(Request) -> Reply,
 {
    exists|given: Reply| given@ == reply && call_ensures(driver, (request,), given)
}

/// Whether the replies make up a conversation between a session and the
/// driver: each is the driver's reply to what the session asked after the
/// replies before it.
pub open spec fn conversation<D>(driver: D, flags: EchoFlags, replies: Seq<ReplyView>) -> bool where
    D: Fn(Request) -> Reply,

    decreases replies.len(),
{
    replies.len() > 0 ==> {
        let earlier = replies.drop_last();
        &&& conversation(driver, flags, earlier)
        &&& session_after(flags, earlier).1 matches ProgressView::Ask(request)
        &&& driver_gives(driver, request, replies.last())
    }
}

/// Reads one line from the terminal with echo suppressed and returns the
/// secret it holds.
///
/// The terminal is reached through `driver`, which carries out one request
/// at a time. The requests are those of a `ReadSession` with the echo bits of
/// this platform, and the result is that of the session.
pub fn read_password<D>(driver: D) -> (result: Result<String, PasswordError>) where
    D: Fn(Request) -> Reply,

    requires
        forall|request: Request| call_requires(driver, (request,)),
    ensures
        exists|flags: EchoFlags, replies: Seq<ReplyView>|
            {
                &&& flags.wf()
                &&& conversation(driver, flags, replies)
                &&& session_after(flags, replies).1 == Progress::Done(result)@
            },
{
    let flags = EchoFlags::platform();
    let opened = ReadSession::begin(flags);
    let mut session = opened.0;
    let mut request = opened.1;
    let ghost mut replies: Seq<ReplyView> = Seq::empty();
    loop
        invariant
            flags.wf(),
            session.flags() == flags,
            forall|request: Request| call_requires(driver, (request,)),
            conversation(driver, flags, replies),
            session_after(flags, replies) == (session@, ProgressView::Ask(request)),
            session@ !is Finished,
        decreases replies_left(session@),
    {
        let reply = driver(request);
        proof {
            assert(driver_gives(driver, request, reply@));
            assert(replies.push(reply@).drop_last() =~= replies);
            replies = replies.push(reply@);
        }
        let moved = session.step(reply);
        session = moved.0;
        match moved.1 {
            Progress::Ask(next) => {
                request = next;
            },
            Progress::Done(result) => {
                assert(conversation(driver, flags, replies) && session_after(flags, replies).1
                    == Progress::Done(result)@);
                return result;
            },
        }
    }
}

/// While the guard is held the session asks for the backup to be put back,
/// whatever the read came to, and does not end before it has asked.
pub proof fn lemma_guard_is_released(backup: TerminalAttributes, flags: EchoFlags, reply: ReplyView)
    ensures
        advance(Phase::Reading { backup }, flags, reply).1 == ProgressView::Ask(
            Request::Restore(backup),
        ),
        advance(Phase::Reading { backup }, flags, reply).0 is Restoring,
{
}

/// What a terminal that holds `terminal` holds once it has answered
/// `request` with `reply`: attributes that it reports as installed, and else
/// what it held.
pub open spec fn terminal_after(
    terminal: TerminalAttributes,
    request: Request,
    reply: ReplyView,
) -> TerminalAttributes {
    match (request, reply) {
        (Request::Suppress(attributes), ReplyView::Applied) => attributes,
        (Request::Restore(attributes), ReplyView::Applied) => attributes,
        _ => terminal,
    }
}

/// Whether a terminal that holds `terminal` can answer `request` with
/// `reply`: it reports the attributes it holds, and any request may fail.
pub open spec fn answers(terminal: TerminalAttributes, request: Request, reply: ReplyView) -> bool {
    match request {
        Request::Query => reply is Failed || reply == ReplyView::Attributes(terminal),
        Request::Suppress(_) => reply is Failed || reply is Applied,
        Request::ReadLine => reply is Failed || reply is Line,
        Request::Restore(_) => reply is Failed || reply is Applied,
    }
}

/// What a terminal that held `initial` when the session was opened holds
/// after these replies.
pub open spec fn terminal_at(
    flags: EchoFlags,
    initial: TerminalAttributes,
    replies: Seq<ReplyView>,
) -> TerminalAttributes
    decreases replies.len(),
{
    if replies.len() == 0 {
        initial
    } else {
        let earlier = replies.drop_last();
        match session_after(flags, earlier).1 {
            ProgressView::Ask(request) => terminal_after(
                terminal_at(flags, initial, earlier),
                request,
                replies.last(),
            ),
            ProgressView::Done(_) => terminal_at(flags, initial, earlier),
        }
    }
}

/// Whether the replies are those of a terminal that held `initial` when the
/// session was opened and that nothing but the session's requests changes.
pub open spec fn terminal_replies(
    flags: EchoFlags,
    initial: TerminalAttributes,
    replies: Seq<ReplyView>,
) -> bool
    decreases replies.len(),
{
    replies.len() > 0 ==> {
        let earlier = replies.drop_last();
        &&& terminal_replies(flags, initial, earlier)
        &&& session_after(flags, earlier).1 matches ProgressView::Ask(request)
        &&& answers(terminal_at(flags, initial, earlier), request, replies.last())
    }
}

/// Whether the backup was asked to be put back and the terminal reported
/// failure.
pub open spec fn restore_failed(flags: EchoFlags, replies: Seq<ReplyView>) -> bool {
    &&& replies.len() > 0
    &&& session_after(flags, replies.drop_last()).1 matches ProgressView::Ask(Request::Restore(_))
    &&& replies.last() is Failed
}

/// How the terminal and the session stand to each other at every point of a
/// conversation.
pub open spec fn in_step(
    flags: EchoFlags,
    initial: TerminalAttributes,
    replies: Seq<ReplyView>,
) -> bool {
    let terminal = terminal_at(flags, initial, replies);
    let last_move = session_after(flags, replies).1;
    match session_after(flags, replies).0 {
        Phase::AwaitingWorking => terminal == initial && last_move == ProgressView::Ask(
            Request::Query,
        ),
        Phase::AwaitingBackup { working } => terminal == initial && working == initial
            && last_move == ProgressView::Ask(Request::Query),
        Phase::Suppressing { backup } => terminal == initial && backup == initial && last_move
            == ProgressView::Ask(Request::Suppress(initial.hidden(flags))),
        Phase::Reading { backup } => terminal == initial.hidden(flags) && backup == initial
            && last_move == ProgressView::Ask(Request::ReadLine),
        Phase::Restoring { .. } => terminal == initial.hidden(flags) && last_move
            == ProgressView::Ask(Request::Restore(initial)),
        Phase::Finished => last_move is Done && (terminal == initial || restore_failed(
            flags,
            replies,
        )),
    }
}

/// The terminal and the session stay in step through every conversation.
pub proof fn lemma_in_step(flags: EchoFlags, initial: TerminalAttributes, replies: Seq<ReplyView>)
    requires
        terminal_replies(flags, initial, replies),
    ensures
        in_step(flags, initial, replies),
    decreases replies.len(),
{
    if replies.len() > 0 {
        lemma_in_step(flags, initial, replies.drop_last());
    }
}

/// Once a session is over, the terminal holds the attributes that it held
/// before the session, all of them, whatever the read came to and wherever
/// the session failed; unless putting them back was tried and failed.
pub proof fn lemma_terminal_restored(
    flags: EchoFlags,
    initial: TerminalAttributes,
    replies: Seq<ReplyView>,
)
    requires
        terminal_replies(flags, initial, replies),
        session_after(flags, replies).1 is Done,
        !restore_failed(flags, replies),
    ensures
        terminal_at(flags, initial, replies) == initial,
        terminal_at(flags, initial, replies).echo_enabled(flags) == initial.echo_enabled(flags),
{
    lemma_in_step(flags, initial, replies);
}

/// While the line is read, the terminal does not echo what is typed and
/// still echoes the newline.
pub proof fn lemma_hidden_while_reading(
    flags: EchoFlags,
    initial: TerminalAttributes,
    replies: Seq<ReplyView>,
)
    requires
        flags.wf(),
        terminal_replies(flags, initial, replies),
        session_after(flags, replies).1 == ProgressView::Ask(Request::ReadLine),
    ensures
        !terminal_at(flags, initial, replies).echo_enabled(flags),
        terminal_at(flags, initial, replies).echo_newline_enabled(flags),
{
    lemma_in_step(flags, initial, replies);
    flags.lemma_wf();
    crate::attributes::lemma_hidden_flags(
        initial.local_flags,
        flags.echo_bit(),
        flags.echo_newline_bit(),
    );
}

} // verus!
