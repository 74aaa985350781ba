use rpassword::{
    read_password, EchoFlags, PasswordError, Progress, ReadSession, Reply, Request,
    TerminalAttributes,
};
use std::cell::RefCell;

fn flags() -> EchoFlags {
    EchoFlags::new(0x8, 0x40).unwrap()
}

fn attributes(local_flags: u64) -> TerminalAttributes {
    TerminalAttributes { local_flags }
}

/// Runs a session on the given replies and returns every move it made.
fn moves(replies: Vec<Reply>) -> Vec<Progress> {
    let (mut session, first) = ReadSession::begin(flags());
    let mut made = vec![Progress::Ask(first)];
    for reply in replies {
        let (next, progress) = session.step(reply);
        session = next;
        made.push(progress);
    }
    made
}

#[test]
fn session_opens_with_a_query() {
    let (_, first) = ReadSession::begin(flags());
    assert_eq!(first, Request::Query);
}

#[test]
fn session_reads_a_line() {
    let made = moves(vec![
        Reply::Attributes(attributes(0x8a3b)),
        Reply::Attributes(attributes(0x8a3b)),
        Reply::Applied,
        Reply::Line(String::from("hunter2\n")),
        Reply::Applied,
    ]);
    assert_eq!(
        made,
        vec![
            Progress::Ask(Request::Query),
            Progress::Ask(Request::Query),
            Progress::Ask(Request::Suppress(attributes(0x8a73))),
            Progress::Ask(Request::ReadLine),
            Progress::Ask(Request::Restore(attributes(0x8a3b))),
            Progress::Done(Ok(String::from("hunter2"))),
        ]
    );
}

#[test]
fn session_strips_carriage_return() {
    let made = moves(vec![
        Reply::Attributes(attributes(0x8)),
        Reply::Attributes(attributes(0x8)),
        Reply::Applied,
        Reply::Line(String::from("hello\r\n")),
        Reply::Applied,
    ]);
    assert_eq!(made[5], Progress::Done(Ok(String::from("hello"))));
}

#[test]
fn session_reports_end_of_input() {
    let made = moves(vec![
        Reply::Attributes(attributes(0x8)),
        Reply::Attributes(attributes(0x8)),
        Reply::Applied,
        Reply::Line(String::from("cut short")),
        Reply::Applied,
    ]);
    assert_eq!(made[4], Progress::Ask(Request::Restore(attributes(0x8))));
    assert_eq!(made[5], Progress::Done(Err(PasswordError::UnexpectedEof)));
}

#[test]
fn session_ends_when_first_query_fails() {
    let made = moves(vec![Reply::Failed(PasswordError::Os(25))]);
    assert_eq!(
        made,
        vec![Progress::Ask(Request::Query), Progress::Done(Err(PasswordError::Os(25)))]
    );
}

#[test]
fn session_ends_when_second_query_fails() {
    let made = moves(vec![Reply::Attributes(attributes(0x8)), Reply::Failed(PasswordError::Os(9))]);
    assert_eq!(
        made,
        vec![
            Progress::Ask(Request::Query),
            Progress::Ask(Request::Query),
            Progress::Done(Err(PasswordError::Os(9))),
        ]
    );
}

#[test]
fn session_puts_nothing_back_when_suppressing_fails() {
    let made = moves(vec![
        Reply::Attributes(attributes(0x8)),
        Reply::Attributes(attributes(0x8)),
        Reply::Failed(PasswordError::Os(5)),
    ]);
    assert_eq!(
        made,
        vec![
            Progress::Ask(Request::Query),
            Progress::Ask(Request::Query),
            Progress::Ask(Request::Suppress(attributes(0x40))),
            Progress::Done(Err(PasswordError::Os(5))),
        ]
    );
}

#[test]
fn session_restores_after_failed_read() {
    let made = moves(vec![
        Reply::Attributes(attributes(0x1b)),
        Reply::Attributes(attributes(0x1b)),
        Reply::Applied,
        Reply::Failed(PasswordError::Os(4)),
        Reply::Applied,
    ]);
    assert_eq!(made[4], Progress::Ask(Request::Restore(attributes(0x1b))));
    assert_eq!(made[5], Progress::Done(Err(PasswordError::Os(4))));
}

#[test]
fn session_ignores_failure_to_restore() {
    let made = moves(vec![
        Reply::Attributes(attributes(0x8)),
        Reply::Attributes(attributes(0x8)),
        Reply::Applied,
        Reply::Line(String::from("secret\n")),
        Reply::Failed(PasswordError::Os(5)),
    ]);
    assert_eq!(made[5], Progress::Done(Ok(String::from("secret"))));
}

#[test]
fn session_restores_the_second_snapshot() {
    let made = moves(vec![
        Reply::Attributes(attributes(0x0b)),
        Reply::Attributes(attributes(0x1b)),
        Reply::Applied,
        Reply::Line(String::from("x\n")),
    ]);
    assert_eq!(made[2], Progress::Ask(Request::Suppress(attributes(0x43))));
    assert_eq!(made[4], Progress::Ask(Request::Restore(attributes(0x1b))));
}

#[test]
fn session_takes_an_unexpected_reply_for_a_failure() {
    assert_eq!(moves(vec![Reply::Applied])[1], Progress::Done(Err(PasswordError::Other)));
    assert_eq!(
        moves(vec![Reply::Line(String::from("early\n"))])[1],
        Progress::Done(Err(PasswordError::Other))
    );
    let made = moves(vec![
        Reply::Attributes(attributes(0x8)),
        Reply::Attributes(attributes(0x8)),
        Reply::Attributes(attributes(0x8)),
    ]);
    assert_eq!(made[3], Progress::Done(Err(PasswordError::Other)));
    let made = moves(vec![
        Reply::Attributes(attributes(0x8)),
        Reply::Attributes(attributes(0x8)),
        Reply::Applied,
        Reply::Applied,
        Reply::Applied,
    ]);
    assert_eq!(made[4], Progress::Ask(Request::Restore(attributes(0x8))));
    assert_eq!(made[5], Progress::Done(Err(PasswordError::Other)));
}

#[test]
fn finished_session_stays_finished() {
    let made = moves(vec![Reply::Failed(PasswordError::Os(1)), Reply::Applied, Reply::Applied]);
    assert_eq!(made[2], Progress::Done(Err(PasswordError::Other)));
    assert_eq!(made[3], Progress::Done(Err(PasswordError::Other)));
}

/// A terminal that holds its flags in memory and answers from a script.
struct Terminal {
    local_flags: u64,
    line: Result<String, PasswordError>,
    fail_query_at: Option<usize>,
    fail_suppress: bool,
    queries: usize,
    requests: Vec<Request>,
    flags_while_reading: Option<u64>,
}

impl Terminal {
    fn new(local_flags: u64, line: Result<String, PasswordError>) -> Terminal {
        Terminal {
            local_flags,
            line,
            fail_query_at: None,
            fail_suppress: false,
            queries: 0,
            requests: Vec::new(),
            flags_while_reading: None,
        }
    }

    fn perform(&mut self, request: Request) -> Reply {
        self.requests.push(request);
        match request {
            Request::Query => {
                self.queries += 1;
                if self.fail_query_at == Some(self.queries) {
                    Reply::Failed(PasswordError::Os(25))
                } else {
                    Reply::Attributes(TerminalAttributes { local_flags: self.local_flags })
                }
            }
            Request::Suppress(attributes) => {
                if self.fail_suppress {
                    Reply::Failed(PasswordError::Os(5))
                } else {
                    self.local_flags = attributes.local_flags;
                    Reply::Applied
                }
            }
            Request::ReadLine => {
                self.flags_while_reading = Some(self.local_flags);
                match self.line.clone() {
                    Ok(line) => Reply::Line(line),
                    Err(error) => Reply::Failed(error),
                }
            }
            Request::Restore(attributes) => {
                self.local_flags = attributes.local_flags;
                Reply::Applied
            }
        }
    }
}

fn read_from(terminal: Terminal) -> (Result<String, PasswordError>, Terminal) {
    let terminal = RefCell::new(terminal);
    let result = read_password(|request| terminal.borrow_mut().perform(request));
    (result, terminal.into_inner())
}

#[test]
fn read_password_returns_the_secret_and_restores_the_terminal() {
    let echo = libc::ECHO as u64;
    let echo_newline = libc::ECHONL as u64;
    let before = echo | 0x1_0000_0000;
    let (result, terminal) = read_from(Terminal::new(before, Ok(String::from("hunter2\r\n"))));
    assert_eq!(result, Ok(String::from("hunter2")));
    assert_eq!(terminal.local_flags, before);
    assert_eq!(terminal.flags_while_reading, Some((before & !echo) | echo_newline));
    assert_eq!(
        terminal.requests,
        vec![
            Request::Query,
            Request::Query,
            Request::Suppress(TerminalAttributes { local_flags: (before & !echo) | echo_newline }),
            Request::ReadLine,
            Request::Restore(TerminalAttributes { local_flags: before }),
        ]
    );
}

#[test]
fn read_password_restores_the_terminal_when_the_read_fails() {
    let before = libc::ECHO as u64;
    let (result, terminal) = read_from(Terminal::new(before, Err(PasswordError::Os(4))));
    assert_eq!(result, Err(PasswordError::Os(4)));
    assert_eq!(terminal.local_flags, before);
    assert_eq!(terminal.requests.len(), 5);
}

#[test]
fn read_password_restores_the_terminal_at_end_of_input() {
    let before = libc::ECHO as u64 | libc::ECHONL as u64;
    let (result, terminal) = read_from(Terminal::new(before, Ok(String::from("no newline"))));
    assert_eq!(result, Err(PasswordError::UnexpectedEof));
    assert_eq!(terminal.local_flags, before);
}

#[test]
fn read_password_keeps_echo_off_where_it_was_off() {
    let (result, terminal) = read_from(Terminal::new(0, Ok(String::from("\n"))));
    assert_eq!(result, Ok(String::new()));
    assert_eq!(terminal.local_flags, 0);
    assert_eq!(terminal.flags_while_reading, Some(libc::ECHONL as u64));
}

#[test]
fn read_password_fails_when_attributes_cannot_be_read() {
    let mut before = Terminal::new(libc::ECHO as u64, Ok(String::from("x\n")));
    before.fail_query_at = Some(1);
    let (result, terminal) = read_from(before);
    assert_eq!(result, Err(PasswordError::Os(25)));
    assert_eq!(terminal.requests, vec![Request::Query]);
    assert_eq!(terminal.local_flags, libc::ECHO as u64);

    let mut before = Terminal::new(libc::ECHO as u64, Ok(String::from("x\n")));
    before.fail_query_at = Some(2);
    let (result, terminal) = read_from(before);
    assert_eq!(result, Err(PasswordError::Os(25)));
    assert_eq!(terminal.requests, vec![Request::Query, Request::Query]);
}

#[test]
fn read_password_fails_when_echo_cannot_be_suppressed() {
    let mut before = Terminal::new(libc::ECHO as u64, Ok(String::from("x\n")));
    before.fail_suppress = true;
    let (result, terminal) = read_from(before);
    assert_eq!(result, Err(PasswordError::Os(5)));
    assert_eq!(terminal.requests.len(), 3);
    assert_eq!(terminal.flags_while_reading, None);
    assert_eq!(terminal.local_flags, libc::ECHO as u64);
}
