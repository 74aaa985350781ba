//! Turning a raw input line into a secret.

use vstd::prelude::*;
use crate::erase::erase;
use crate::error::PasswordError;

verus! {

/// Whether the raw line ends in the line terminator.
pub open spec fn is_terminated(raw: Seq<char>) -> bool {
    raw.len() > 0 && raw.last() == '\n'
}

/// What a terminated raw line holds: the line without its terminator, and
/// without the carriage return that may stand before it.
pub open spec fn content(raw: Seq<char>) -> Seq<char>
    recommends
        is_terminated(raw),
{
    let body = raw.drop_last();
    if body.len() > 0 && body.last() == '\r' {
        body.drop_last()
    } else {
        body
    }
}

/// Tells whether the text ends in `last`.
///
/// Trusted: the body calls `str::ends_with` with a `char` as the pattern,
/// which is true exactly when that character is the last one of the text.
#[verifier::external_body]
fn ends_with_char(text: &str, last: char) -> (found: bool)
    ensures
        found == (text@.len() > 0 && text@.last() == last),
{
    text.ends_with(last)
}

/// `String::pop` removes the last character and returns it, and returns
/// `None` and changes nothing where the string is empty.
pub assume_specification[ String::pop ](text: &mut String) -> (removed: Option<char>)
    ensures
        old(text)@.len() == 0 ==> removed is None && final(text)@ == old(text)@,
        old(text)@.len() > 0 ==> removed == Some(old(text)@.last()) && final(text)@ == old(
            text,
        )@.drop_last(),
;

/// Strips the terminator from the raw line in place.
///
/// A line that does not end in the terminator was cut short by the end of
/// the input: it is erased and the result is `UnexpectedEof`.
pub fn normalize(line: &mut String) -> (result: Result<(), PasswordError>)
    ensures
        is_terminated(old(line)@) ==> result == Ok::<(), PasswordError>(()) && final(line)@
            == content(old(line)@),
        !is_terminated(old(line)@) ==> result == Err::<(), PasswordError>(
            PasswordError::UnexpectedEof,
        ) && final(line)@ == Seq::<char>::empty(),
{
    if !ends_with_char(line.as_str(), '\n') {
        erase(line);
        return Err(PasswordError::UnexpectedEof);
    }
    line.pop();
    if ends_with_char(line.as_str(), '\r') {
        line.pop();
    }
    Ok(())
}

/// Turns the raw line that was read into the secret it holds.
///
/// The result is the line without its terminator and without a carriage
/// return before it; no other character is looked at or changed. A line that
/// does not end in the terminator is erased and gives `UnexpectedEof`.
pub fn fix_line_issues(line: String) -> (result: Result<String, PasswordError>)
    ensures
        is_terminated(line@) ==> result is Ok && result->Ok_0@ == content(line@),
        !is_terminated(line@) ==> result == Err::<String, PasswordError>(
            PasswordError::UnexpectedEof,
        ),
{
    let mut line = line;
    match normalize(&mut line) {
        Ok(()) => Ok(line),
        Err(error) => Err(error),
    }
}

/// A secret that is followed by the terminator comes back as it was,
/// provided that it does not itself end in a carriage return.
pub proof fn lemma_content_of_terminated(secret: Seq<char>)
    requires
        secret.len() == 0 || secret.last() != '\r',
    ensures
        is_terminated(secret.push('\n')),
        content(secret.push('\n')) == secret,
{
    assert(secret.push('\n').drop_last() =~= secret);
}

/// A secret that is followed by a carriage return and the terminator comes
/// back as it was.
pub proof fn lemma_content_of_crlf_terminated(secret: Seq<char>)
    ensures
        is_terminated(secret.push('\r').push('\n')),
        content(secret.push('\r').push('\n')) == secret,
{
    assert(secret.push('\r').push('\n').drop_last() =~= secret.push('\r'));
    assert(secret.push('\r').drop_last() =~= secret);
}

/// A terminated line is its content followed by the terminator, with or
/// without a carriage return between them; without one only where the
/// content does not end in a carriage return.
pub proof fn lemma_content_then_terminator(raw: Seq<char>)
    requires
        is_terminated(raw),
    ensures
        raw == content(raw).push('\r').push('\n') || (raw == content(raw).push('\n') && (content(
            raw,
        ).len() == 0 || content(raw).last() != '\r')),
{
    let body = raw.drop_last();
    assert(raw =~= body.push('\n'));
    if body.len() > 0 && body.last() == '\r' {
        assert(body =~= body.drop_last().push('\r'));
    }
}

} // verus!
