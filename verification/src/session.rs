//! An established session with the console.

use crate::decimal::append_decimal;
use crate::framing::{last_response, lemma_arrival, next_response, Framed, LineBuffer};
use crate::protocol::{
    get_line, hold_line, interpret, iterate_line, meaning, quit_line, resume_line, result_view,
    set_line, Command, Error, ErrorView, Reply, ReplyView,
};
use vstd::prelude::*;

verus! {

/// The model of a session.
pub struct Session {
    /// The bytes that were received and not yet taken as lines.
    pub buffered: Seq<u8>,
    /// The command whose response is awaited, if any.
    pub awaiting: Option<Command>,
    /// Whether this client spawned the simulator, and so has to end it.
    pub owns_process: bool,
}

/// A session with the console, after the console's banner was read.
///
/// Each command is a method that returns the line to send and notes what is
/// awaited. What arrives is handed to `receive`, which answers once the
/// response is whole. One command is awaited at a time: a new one takes the
/// place of one that was not answered.
#[derive(Debug, PartialEq, Eq)]
pub struct JSBSim {
    input: LineBuffer,
    awaiting: Option<Command>,
    owns_process: bool,
}

/// What releasing a session asks of the embedding program, in this order.
#[derive(Clone, Debug, PartialEq, Eq)]
pub struct Teardown {
    /// The line to send, where a connection stands. Whether it could be sent
    /// does not matter.
    pub quit: Option<String>,
    /// Whether to kill the spawned simulator and wait for it.
    pub terminate: bool,
}

/// The model of a `Teardown`.
pub struct TeardownView {
    pub quit: Option<Seq<char>>,
    pub terminate: bool,
}

impl View for Teardown {
    type V = TeardownView;

    open spec fn view(&self) -> TeardownView {
        TeardownView { quit: self.quit.deep_view(), terminate: self.terminate }
    }
}

impl View for JSBSim {
    type V = Session;

    closed spec fn view(&self) -> Session {
        Session { buffered: self.input@, awaiting: self.awaiting, owns_process: self.owns_process }
    }
}

/// What `receive` answers when `bytes` arrive in the session `s`, and the
/// session after it.
pub open spec fn received(s: Session, bytes: Seq<u8>) -> (
    Option<Result<ReplyView, ErrorView>>,
    Session,
) {
    let all = s.buffered + bytes;
    match s.awaiting {
        None => (None, Session { buffered: all, ..s }),
        Some(command) => match next_response(all) {
            Framed::Pending(rest) => (None, Session { buffered: rest, ..s }),
            Framed::Line(line, rest) => (
                Some(meaning(command, line)),
                Session { buffered: rest, awaiting: None, ..s },
            ),
            Framed::NotText(rest) => (
                Some(Err(ErrorView::NotText)),
                Session { buffered: rest, awaiting: None, ..s },
            ),
        },
    }
}

/// What `closed` answers when the stream ends in the session `s`, and the
/// session after it.
pub open spec fn ended(s: Session) -> (Result<ReplyView, ErrorView>, Session) {
    match s.awaiting {
        None => (Err(ErrorView::Closed), s),
        Some(command) => {
            let (last, rest) = last_response(s.buffered);
            (
                match last {
                    Ok(line) => meaning(command, line),
                    Err(error) => Err(error),
                },
                Session { buffered: rest, awaiting: None, ..s },
            )
        },
    }
}

/// A response may arrive in pieces: as long as no answer has come, two
/// arrivals are as one.
pub proof fn lemma_receive_in_pieces(s: Session, a: Seq<u8>, b: Seq<u8>)
    requires
        received(s, a).0 is None,
    ensures
        received(received(s, a).1, b) == received(s, a + b),
{
    assert(s.buffered + a + b == s.buffered + (a + b));
    lemma_arrival(s.buffered + a, b);
}

/// What is said of a simulator that did not end cleanly.
pub open spec fn unclean_exit_warning() -> Seq<char> {
    "Warning: JSBSim process did not exit cleanly"@
}

/// The diagnostic for the end of a spawned simulator. `status` says whether
/// the simulator ended with success, and is empty where waiting for it failed.
/// Only an end with success is clean.
pub fn exit_warning(status: Option<bool>) -> (r: Option<String>)
    ensures
        r.deep_view() == if status == Some(true) {
            None
        } else {
            Some(unclean_exit_warning())
        },
{
    match status {
        Some(true) => None,
        _ => Some("Warning: JSBSim process did not exit cleanly".to_owned()),
    }
}

impl JSBSim {
    /// The session that stands once the banner was taken from `input`.
    pub(crate) fn established(input: LineBuffer, owns_process: bool) -> (r: Self)
        ensures
            r@ == (Session { buffered: input@, awaiting: None, owns_process }),
    {
        JSBSim { input, awaiting: None, owns_process }
    }

    /// Whether this client spawned the simulator.
    pub fn owns_process(&self) -> (r: bool)
        ensures
            r == self@.owns_process,
    {
        self.owns_process
    }

    /// The command whose response is awaited, if any.
    pub fn awaiting(&self) -> (r: Option<Command>)
        ensures
            r == self@.awaiting,
    {
        self.awaiting
    }

    /// Suspends the simulation. Any response counts as success.
    pub fn hold(&mut self) -> (line: String)
        ensures
            line@ == hold_line(),
            final(self)@ == (Session { awaiting: Some(Command::Hold), ..old(self)@ }),
    {
        self.awaiting = Some(Command::Hold);
        "hold\n".to_owned()
    }

    /// Lets the simulation run. The response has to end with `Resuming`.
    pub fn resume(&mut self) -> (line: String)
        ensures
            line@ == resume_line(),
            final(self)@ == (Session { awaiting: Some(Command::Resume), ..old(self)@ }),
    {
        self.awaiting = Some(Command::Resume);
        "resume\n".to_owned()
    }

    /// Advances the simulation by `steps` steps. The response has to end with
    /// `Iterations performed`.
    pub fn iterate(&mut self, steps: i32) -> (line: String)
        ensures
            line@ == iterate_line(steps as int),
            final(self)@ == (Session { awaiting: Some(Command::Iterate), ..old(self)@ }),
    {
        self.awaiting = Some(Command::Iterate);
        let mut line = "iterate ".to_owned();
        append_decimal(&mut line, steps as i64);
        line.append("\n");
        line
    }

    /// Writes `value`, in its textual form, to the property `key`. The
    /// response has to end with `set successful`.
    pub fn set(&mut self, key: &str, value: &str) -> (line: String)
        ensures
            line@ == set_line(key@, value@),
            final(self)@ == (Session { awaiting: Some(Command::SetProperty), ..old(self)@ }),
    {
        self.awaiting = Some(Command::SetProperty);
        let mut line = "set ".to_owned();
        line.append(key);
        line.append(" ");
        line.append(value);
        line.append("\n");
        line
    }

    /// Reads the property `key`. The response has to hold exactly one `=`,
    /// and what follows it is the value.
    pub fn get(&mut self, key: &str) -> (line: String)
        ensures
            line@ == get_line(key@),
            final(self)@ == (Session { awaiting: Some(Command::GetProperty), ..old(self)@ }),
    {
        self.awaiting = Some(Command::GetProperty);
        let mut line = "get ".to_owned();
        line.append(key);
        line.append("\n");
        line
    }

    /// Takes in the bytes that arrived, and answers the awaited command once
    /// its response is whole. What follows the response stays for the next
    /// command. While no command is awaited, the bytes are only kept.
    pub fn receive(&mut self, bytes: &[u8]) -> (r: Option<Result<Reply, Error>>)
        ensures
            match received(old(self)@, bytes@).0 {
                None => r is None,
                Some(answer) => r matches Some(result) && result_view(result) == answer,
            },
            final(self)@ == received(old(self)@, bytes@).1,
    {
        self.input.extend(bytes);
        match self.awaiting {
            None => None,
            Some(command) => match self.input.recv_line() {
                Ok(None) => None,
                Ok(Some(line)) => {
                    self.awaiting = None;
                    Some(interpret(command, line.as_str()))
                },
                Err(error) => {
                    self.awaiting = None;
                    Some(Err(error))
                },
            },
        }
    }

    /// Answers the awaited command when the stream has ended: from the
    /// response that is buffered, or else from the unfinished last line.
    pub fn closed(&mut self) -> (r: Result<Reply, Error>)
        ensures
            result_view(r) == ended(old(self)@).0,
            final(self)@ == ended(old(self)@).1,
    {
        match self.awaiting {
            None => Err(Error::Closed),
            Some(command) => {
                self.awaiting = None;
                match self.input.recv_last() {
                    Ok(line) => interpret(command, line.as_str()),
                    Err(error) => Err(error),
                }
            },
        }
    }

    /// Ends the session: says what to send and whether a simulator has to be
    /// ended. A simulator that this client spawned is ended whatever becomes
    /// of the `quit` line, and only once however often the session is released.
    pub fn release(&mut self) -> (plan: Teardown)
        ensures
            plan@ == (TeardownView {
                quit: Some(quit_line()),
                terminate: old(self)@.owns_process,
            }),
            final(self)@ == (Session { awaiting: None, owns_process: false, ..old(self)@ }),
    {
        let terminate = self.owns_process;
        self.owns_process = false;
        self.awaiting = None;
        Teardown { quit: Some("quit\n".to_owned()), terminate }
    }
}

} // verus!
