//! The vocabulary of the console: the line of each command, and what a
//! response line means for the command that it answers.

use crate::decimal::decimal;
use crate::text::{
    characters, count, ends_with, is_whitespace, lemma_count_absent, lemma_count_concat,
    leading, lemma_count_none, lemma_count_trim, lemma_leading, lemma_position, lemma_trailing,
    lemma_trim_end, lemma_trim_start, position, scan, trim, trim_bounds, trim_start,
};
use vstd::prelude::*;

verus! {

/// A command that is answered by one response line.
#[derive(Clone, Copy, PartialEq, Eq, Debug, Structural)]
pub enum Command {
    /// Suspend the simulation.
    Hold,
    /// Let the simulation run.
    Resume,
    /// Advance the simulation by a number of steps.
    Iterate,
    /// Write a property.
    SetProperty,
    /// Read a property.
    GetProperty,
}

/// What a command that succeeded brought back.
#[derive(Clone, Debug, PartialEq, Eq)]
pub enum Reply {
    /// The console acknowledged the command.
    Done,
    /// The text of the property's value.
    Value(String),
}

/// Why a command, or the start of a session, did not succeed.
#[derive(Clone, Debug, PartialEq, Eq)]
pub enum Error {
    /// Transport: the stream ended before a response arrived.
    Closed,
    /// Transport: a line of the stream is not UTF-8 text.
    NotText,
    /// Transport: the embedding program reported that an I/O operation failed.
    Io,
    /// Protocol: the response, held here without the whitespace around it, does
    /// not have the form that the command expects.
    Protocol(Command, String),
    /// Launch: the simulator could not be spawned.
    Spawn,
    /// Launch: the simulator's output ended before it announced readiness.
    NotReady,
}

/// The model of a `Reply`.
pub enum ReplyView {
    Done,
    Value(Seq<char>),
}

/// The model of an `Error`.
pub enum ErrorView {
    Closed,
    NotText,
    Io,
    Protocol(Command, Seq<char>),
    Spawn,
    NotReady,
}

impl View for Reply {
    type V = ReplyView;

    open spec fn view(&self) -> ReplyView {
        match self {
            Reply::Done => ReplyView::Done,
            Reply::Value(text) => ReplyView::Value(text@),
        }
    }
}

impl View for Error {
    type V = ErrorView;

    open spec fn view(&self) -> ErrorView {
        match self {
            Error::Closed => ErrorView::Closed,
            Error::NotText => ErrorView::NotText,
            Error::Io => ErrorView::Io,
            Error::Protocol(command, text) => ErrorView::Protocol(*command, text@),
            Error::Spawn => ErrorView::Spawn,
            Error::NotReady => ErrorView::NotReady,
        }
    }
}

/// The model of a command's result.
pub open spec fn result_view(r: Result<Reply, Error>) -> Result<ReplyView, ErrorView> {
    match r {
        Ok(reply) => Ok(reply@),
        Err(error) => Err(error@),
    }
}

/// How the failure of `command` is announced, before the response that failed it.
pub open spec fn failure_prefix(command: Command) -> Seq<char> {
    match command {
        Command::Hold => "Failed to hold: "@,
        Command::Resume => "Failed to resume: "@,
        Command::Iterate => "Failed to iterate: "@,
        Command::SetProperty => "Failed to set property: "@,
        Command::GetProperty => "No value returned: "@,
    }
}

/// What is said of the error `e`.
pub open spec fn message(e: ErrorView) -> Seq<char> {
    match e {
        ErrorView::Closed => "the console closed the connection"@,
        ErrorView::NotText => "stream did not contain valid UTF-8"@,
        ErrorView::Io => "an I/O operation failed"@,
        ErrorView::Protocol(command, response) => failure_prefix(command) + response,
        ErrorView::Spawn => "JSBSim could not be spawned"@,
        ErrorView::NotReady => "JSBSim ended its output before it was ready"@,
    }
}

impl Error {
    /// Says what went wrong, with the response where one was at fault.
    pub fn message(&self) -> (r: String)
        ensures
            r@ == message(self@),
    {
        match self {
            Error::Closed => "the console closed the connection".to_owned(),
            Error::NotText => "stream did not contain valid UTF-8".to_owned(),
            Error::Io => "an I/O operation failed".to_owned(),
            Error::Protocol(command, response) => {
                let prefix: &str = match command {
                    Command::Hold => "Failed to hold: ",
                    Command::Resume => "Failed to resume: ",
                    Command::Iterate => "Failed to iterate: ",
                    Command::SetProperty => "Failed to set property: ",
                    Command::GetProperty => "No value returned: ",
                };
                let mut r = prefix.to_owned();
                r.append(response.as_str());
                r
            },
            Error::Spawn => "JSBSim could not be spawned".to_owned(),
            Error::NotReady => "JSBSim ended its output before it was ready".to_owned(),
        }
    }
}

/// The line that suspends the simulation.
pub open spec fn hold_line() -> Seq<char> {
    "hold\n"@
}

/// The line that lets the simulation run.
pub open spec fn resume_line() -> Seq<char> {
    "resume\n"@
}

/// The line that advances the simulation by `steps` steps.
pub open spec fn iterate_line(steps: int) -> Seq<char> {
    "iterate "@ + decimal(steps) + "\n"@
}

/// The line that writes `value` to the property `key`.
pub open spec fn set_line(key: Seq<char>, value: Seq<char>) -> Seq<char> {
    "set "@ + key + " "@ + value + "\n"@
}

/// The line that reads the property `key`.
pub open spec fn get_line(key: Seq<char>) -> Seq<char> {
    "get "@ + key + "\n"@
}

/// The line that asks the console to end the session.
pub open spec fn quit_line() -> Seq<char> {
    "quit\n"@
}

/// The prompt that the console writes between responses.
pub open spec fn prompt() -> Seq<char> {
    "JSBSim>"@
}

/// Whether `line` is no response: blank, or the prompt alone.
pub open spec fn is_noise(line: Seq<char>) -> bool {
    trim(line).len() == 0 || trim(line) == prompt()
}

/// The words that a response to `command` ends with where the command
/// succeeded; empty where any response will do.
pub open spec fn acknowledgement(command: Command) -> Seq<char> {
    match command {
        Command::Resume => "Resuming"@,
        Command::Iterate => "Iterations performed"@,
        Command::SetProperty => "set successful"@,
        Command::Hold | Command::GetProperty => Seq::empty(),
    }
}

/// The value in the response `text` to a `get`: what follows the `=`, without
/// the whitespace around it, where `text` holds exactly one `=`.
pub open spec fn value_of(text: Seq<char>) -> Option<Seq<char>> {
    if count(text, '=') == 1 {
        Some(trim(text.skip(position(text, '=') as int + 1)))
    } else {
        None
    }
}

/// What the response `line` means as the answer to `command`.
pub open spec fn meaning(command: Command, line: Seq<char>) -> Result<ReplyView, ErrorView> {
    let text = trim(line);
    match command {
        Command::Hold => Ok(ReplyView::Done),
        Command::GetProperty => match value_of(text) {
            Some(value) => Ok(ReplyView::Value(value)),
            None => Err(ErrorView::Protocol(command, text)),
        },
        _ => if acknowledgement(command).is_suffix_of(text) {
            Ok(ReplyView::Done)
        } else {
            Err(ErrorView::Protocol(command, text))
        },
    }
}

/// A response to a `get` that does not hold exactly one `=` is a protocol
/// error that carries the response; one that does is a value.
pub proof fn lemma_malformed_get(line: Seq<char>)
    ensures
        count(line, '=') != 1 ==> meaning(Command::GetProperty, line) == Err::<
            ReplyView,
            ErrorView,
        >(ErrorView::Protocol(Command::GetProperty, trim(line))),
        count(line, '=') == 1 ==> meaning(Command::GetProperty, line) is Ok,
{
    lemma_count_trim(line, '=');
}

/// Whether `text` can stand as the value in a response to `get`: it holds no
/// `=` and no whitespace surrounds it.
pub open spec fn plain(text: Seq<char>) -> bool {
    count(text, '=') == 0 && trim(text) == text
}

/// A response made of a key without `=`, an `=` between two spaces, and a
/// plain text holds that text as its value.
pub proof fn lemma_get_echo(key: Seq<char>, text: Seq<char>)
    requires
        count(key, '=') == 0,
        plain(text),
    ensures
        meaning(Command::GetProperty, key + " = "@ + text + "\n"@) == Ok::<ReplyView, ErrorView>(
            ReplyView::Value(text),
        ),
{
    reveal_strlit(" = ");
    reveal_strlit("\n");
    let line = key + " = "@ + text + "\n"@;
    let head = key + seq![' ', '='];
    let tail = seq![' '] + text + seq!['\n'];
    assert(line =~= head + tail);
    // The leading whitespace ends within `head`, whose last character is `=`.
    lemma_trim_start(head);
    let k = leading(head);
    assert(k < head.len()) by {
        if k == head.len() {
            assert(is_whitespace(head[head.len() - 1]));
        }
    }
    lemma_leading(line, k as int);
    lemma_trim_start(line);
    let left = head.skip(k as int);
    assert(trim_start(line) =~= left + tail);
    // Nothing of `text` is whitespace at its ends.
    lemma_trim_start(text);
    lemma_trim_end(trim_start(text));
    let kept = if text.len() > 0 {
        seq![' '] + text
    } else {
        Seq::<char>::empty()
    };
    let middle = left + tail;
    if text.len() > 0 {
        lemma_trailing(middle, 1);
    } else {
        lemma_trailing(middle, 2);
    }
    lemma_trim_end(middle);
    let trimmed = left + kept;
    assert(trim(line) =~= trimmed);
    // `left` holds one `=`, at its end.
    lemma_count_absent(key, '=');
    assert forall|i: int| 0 <= i < trimmed.len() && i != left.len() - 1 implies trimmed[i]
        != '=' by {
        if i < left.len() - 1 {
            assert(trimmed[i] == head[k + i]);
            if k + i < key.len() {
                assert(head[k + i] == key[k + i]);
            }
        } else {
            lemma_count_absent(text, '=');
            assert(trimmed[i] == kept[i - left.len()]);
        }
    }
    lemma_position(trimmed, '=', left.len() - 1);
    assert(trimmed =~= trimmed.take(left.len() - 1) + seq!['='] + trimmed.skip(left.len() as int));
    lemma_count_none(trimmed.take(left.len() - 1), '=');
    lemma_count_none(trimmed.skip(left.len() as int), '=');
    lemma_count_concat(trimmed.take(left.len() - 1), seq!['='], '=');
    lemma_count_concat(
        trimmed.take(left.len() - 1) + seq!['='],
        trimmed.skip(left.len() as int),
        '=',
    );
    assert(count(seq!['='], '=') == 1) by {
        reveal_with_fuel(count, 2);
        assert(seq!['='].drop_last() =~= Seq::<char>::empty());
    }
    assert(count(trimmed, '=') == 1);
    // What follows the `=` is `text` behind at most one space.
    assert(trimmed.skip(left.len() as int) =~= kept);
    if text.len() > 0 {
        lemma_leading(kept, 1);
        lemma_trim_start(kept);
        assert(kept.skip(1) =~= text);
        assert(trim_start(text) == text) by {
            assert(text.skip(0) == text);
        }
    }
    assert(trim(kept) == text);
}

/// Decides `is_noise`.
pub fn noise(line: &str) -> (r: bool)
    ensures
        r == is_noise(line@),
{
    let chars = characters(line);
    let (a, b) = trim_bounds(&chars, 0, chars.len());
    assert(chars@.subrange(0, chars.len() as int) == chars@);
    if a == b {
        return true;
    }
    let sentinel = characters("JSBSim>");
    if b - a != sentinel.len() {
        return false;
    }
    let r = ends_with(&chars, a, b, &sentinel);
    assert(r == (sentinel@ =~= chars@.subrange(a as int, b as int)));
    r
}

fn acknowledgement_of(command: Command) -> (r: Vec<char>)
    ensures
        r@ == acknowledgement(command),
{
    match command {
        Command::Resume => characters("Resuming"),
        Command::Iterate => characters("Iterations performed"),
        Command::SetProperty => characters("set successful"),
        _ => Vec::new(),
    }
}

/// Says what the response `line` means as the answer to `command`.
pub fn interpret(command: Command, line: &str) -> (r: Result<Reply, Error>)
    ensures
        result_view(r) == meaning(command, line@),
{
    let chars = characters(line);
    let (a, b) = trim_bounds(&chars, 0, chars.len());
    assert(chars@.subrange(0, chars.len() as int) == chars@);
    let ghost text = trim(line@);
    match command {
        Command::Hold => Ok(Reply::Done),
        Command::GetProperty => {
            let (n, at) = scan(&chars, a, b, '=');
            if n == 1 {
                let (c, d) = trim_bounds(&chars, at + 1, b);
                assert(chars@.subrange(at + 1, b as int) == text.skip(
                    position(text, '=') as int + 1,
                ));
                assert(line@.subrange(c as int, d as int) == value_of(text).unwrap());
                Ok(Reply::Value(line.substring_char(c, d).to_owned()))
            } else {
                Err(Error::Protocol(command, line.substring_char(a, b).to_owned()))
            }
        },
        _ => {
            let suffix = acknowledgement_of(command);
            if ends_with(&chars, a, b, &suffix) {
                Ok(Reply::Done)
            } else {
                Err(Error::Protocol(command, line.substring_char(a, b).to_owned()))
            }
        },
    }
}

} // verus!
