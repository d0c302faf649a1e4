//! The input side of a session: one buffer that lives as long as the session,
//! from which responses are taken line by line.

use crate::protocol::{is_noise, noise, Error, ErrorView};
use crate::text::{lemma_position, lemma_position_found, position};
use vstd::prelude::*;
use vstd::utf8::{decode_utf8, valid_utf8};

verus! {

/// The byte that ends a line.
pub const NEWLINE: u8 = 10;

/// What a buffer holds, read from its front.
pub enum Framed {
    /// No response yet. The bytes are those of an unfinished line, which stay.
    Pending(Seq<u8>),
    /// A response, and the bytes that follow its line.
    Line(Seq<char>, Seq<u8>),
    /// A line that is not UTF-8 text, and the bytes that follow it.
    NotText(Seq<u8>),
}

/// The first response in `buffer`: its first whole line that is neither blank
/// nor the prompt. The lines before it are dropped.
pub open spec fn next_response(buffer: Seq<u8>) -> Framed
    decreases buffer.len(),
{
    let end = position(buffer, NEWLINE) as int;
    if end >= buffer.len() {
        Framed::Pending(buffer)
    } else {
        let line = buffer.take(end + 1);
        let rest = buffer.skip(end + 1);
        if !valid_utf8(line) {
            Framed::NotText(rest)
        } else if is_noise(decode_utf8(line)) {
            next_response(rest)
        } else {
            Framed::Line(decode_utf8(line), rest)
        }
    }
}

/// The last response of a stream that ended with `buffer` unread: its first
/// response, or else its unfinished last line where that is one.
pub open spec fn last_response(buffer: Seq<u8>) -> (Result<Seq<char>, ErrorView>, Seq<u8>) {
    match next_response(buffer) {
        Framed::Line(line, rest) => (Ok(line), rest),
        Framed::NotText(rest) => (Err(ErrorView::NotText), rest),
        Framed::Pending(rest) => if !valid_utf8(rest) {
            (Err(ErrorView::NotText), Seq::empty())
        } else if is_noise(decode_utf8(rest)) {
            (Err(ErrorView::Closed), Seq::empty())
        } else {
            (Ok(decode_utf8(rest)), Seq::empty())
        },
    }
}

/// What is taken as a response is neither blank nor the prompt, and what
/// stays while no response is found holds no whole line.
pub proof fn lemma_response(buffer: Seq<u8>)
    ensures
        match next_response(buffer) {
            Framed::Pending(rest) => position(rest, NEWLINE) == rest.len(),
            Framed::Line(line, _) => !is_noise(line),
            Framed::NotText(_) => true,
        },
    decreases buffer.len(),
{
    let end = position(buffer, NEWLINE) as int;
    lemma_position_found(buffer, NEWLINE);
    if end < buffer.len() {
        lemma_response(buffer.skip(end + 1));
    }
}

/// What has arrived decides. Bytes that arrive behind `a` change neither the
/// response that `a` holds nor what is dropped before it: they come behind what
/// stays. So a response is the same in whatever pieces its bytes arrive.
pub proof fn lemma_arrival(a: Seq<u8>, b: Seq<u8>)
    ensures
        match next_response(a) {
            Framed::Pending(rest) => next_response(a + b) == next_response(rest + b),
            Framed::Line(line, rest) => next_response(a + b) == Framed::Line(line, rest + b),
            Framed::NotText(rest) => next_response(a + b) == Framed::NotText(rest + b),
        },
    decreases a.len(),
{
    let end = position(a, NEWLINE) as int;
    lemma_position_found(a, NEWLINE);
    if end < a.len() {
        lemma_position(a + b, NEWLINE, end);
        assert((a + b).take(end + 1) == a.take(end + 1));
        assert((a + b).skip(end + 1) == a.skip(end + 1) + b);
        lemma_arrival(a.skip(end + 1), b);
    }
}

/// `String::from_utf8`: the text that `bytes` encode, where they are valid
/// UTF-8, and nothing where they are not.
#[verifier::external_body]
fn decode(bytes: Vec<u8>) -> (r: Option<String>)
    ensures
        r is Some == valid_utf8(bytes@),
        r is Some ==> r.unwrap()@ == decode_utf8(bytes@),
{
    String::from_utf8(bytes).ok()
}

/// The bytes that were received and not yet taken as lines.
#[derive(Debug, PartialEq, Eq)]
pub struct LineBuffer {
    bytes: Vec<u8>,
}

impl View for LineBuffer {
    type V = Seq<u8>;

    closed spec fn view(&self) -> Seq<u8> {
        self.bytes@
    }
}

impl LineBuffer {
    /// An empty buffer.
    pub fn new() -> (r: Self)
        ensures
            r@ == Seq::<u8>::empty(),
    {
        LineBuffer { bytes: Vec::new() }
    }

    /// Puts `received` behind what the buffer holds.
    pub fn extend(&mut self, received: &[u8])
        ensures
            final(self)@ == old(self)@ + received@,
    {
        self.bytes.extend_from_slice(received);
        assert(self.bytes@ =~= old(self).bytes@ + received@);
    }

    /// Takes the first line, with its newline, where the buffer holds a whole
    /// line.
    pub fn next_line(&mut self) -> (r: Option<Vec<u8>>)
        ensures
            match r {
                Some(line) => {
                    let end = position(old(self)@, NEWLINE) as int;
                    &&& end < old(self)@.len()
                    &&& line@ == old(self)@.take(end + 1)
                    &&& final(self)@ == old(self)@.skip(end + 1)
                },
                None => {
                    &&& position(old(self)@, NEWLINE) == old(self)@.len()
                    &&& final(self)@ == old(self)@
                },
            },
    {
        let n: usize = self.bytes.len();
        let mut i: usize = 0;
        while i < n && self.bytes[i] != NEWLINE
            invariant
                i <= n,
                n == self.bytes.len(),
                forall|k: int| 0 <= k < i ==> self.bytes@[k] != NEWLINE,
            decreases n - i,
        {
            i += 1;
        }
        proof {
            lemma_position(self.bytes@, NEWLINE, i as int);
        }
        if i == n {
            return None;
        }
        let mut rest = self.bytes.split_off(i + 1);
        std::mem::swap(&mut self.bytes, &mut rest);
        Some(rest)
    }

    /// Takes everything that the buffer holds.
    pub fn take_all(&mut self) -> (r: Vec<u8>)
        ensures
            r@ == old(self)@,
            final(self)@ == Seq::<u8>::empty(),
    {
        let mut all: Vec<u8> = Vec::new();
        std::mem::swap(&mut self.bytes, &mut all);
        all
    }

    /// Takes the first response, where the buffer holds one, and drops the
    /// blank lines and prompts before it.
    pub fn recv_line(&mut self) -> (r: Result<Option<String>, Error>)
        ensures
            match next_response(old(self)@) {
                Framed::Pending(rest) => r matches Ok(None) && final(self)@ == rest,
                Framed::Line(line, rest) => {
                    &&& r matches Ok(Some(text))
                    &&& text@ == line
                    &&& final(self)@ == rest
                },
                Framed::NotText(rest) => r matches Err(Error::NotText) && final(self)@ == rest,
            },
    {
        loop
            invariant
                next_response(self@) == next_response(old(self)@),
            decreases self@.len(),
        {
            match self.next_line() {
                None => {
                    return Ok(None);
                },
                Some(bytes) => match decode(bytes) {
                    None => {
                        return Err(Error::NotText);
                    },
                    Some(text) => {
                        if !noise(text.as_str()) {
                            return Ok(Some(text));
                        }
                    },
                },
            }
        }
    }

    /// Takes the last response of a stream that has ended.
    pub fn recv_last(&mut self) -> (r: Result<String, Error>)
        ensures
            match last_response(old(self)@).0 {
                Ok(line) => r matches Ok(text) && text@ == line,
                Err(error) => r matches Err(e) && e@ == error,
            },
            final(self)@ == last_response(old(self)@).1,
    {
        match self.recv_line() {
            Ok(Some(text)) => Ok(text),
            Err(error) => Err(error),
            Ok(None) => match decode(self.take_all()) {
                None => Err(Error::NotText),
                Some(text) => {
                    if noise(text.as_str()) {
                        Err(Error::Closed)
                    } else {
                        Ok(text)
                    }
                },
            },
        }
    }
}

} // verus!
