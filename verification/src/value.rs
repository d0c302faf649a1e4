//! Property values and their text: what `set` sends for a value, and what
//! value the text in a response to `get` denotes.

use crate::decimal::{append_decimal, decimal, digits};
use crate::protocol::{meaning, plain, lemma_get_echo, Command, Error, ErrorView, ReplyView};
use crate::text::{
    characters, count, is_whitespace, lemma_count_none, lemma_leading, lemma_trailing,
    lemma_trim_end, lemma_trim_start,
};
use vstd::prelude::*;
use vstd::std_specs::convert::FromSpecImpl;

verus! {

/// Why a property could not be read.
#[derive(Clone, Debug, PartialEq, Eq)]
pub enum GetError {
    /// The command failed.
    IoError(Error),
    /// The response held a value whose text, kept here, does not denote a
    /// value of the type that was asked for.
    ParseError(String),
}

/// The model of a `GetError`.
pub enum GetErrorView {
    IoError(ErrorView),
    ParseError(Seq<char>),
}

impl View for GetError {
    type V = GetErrorView;

    open spec fn view(&self) -> GetErrorView {
        match self {
            GetError::IoError(error) => GetErrorView::IoError(error@),
            GetError::ParseError(text) => GetErrorView::ParseError(text@),
        }
    }
}

impl From<Error> for GetError {
    fn from(error: Error) -> (r: GetError) {
        GetError::IoError(error)
    }
}

impl FromSpecImpl<Error> for GetError {
    open spec fn obeys_from_spec() -> bool {
        true
    }

    open spec fn from_spec(error: Error) -> GetError {
        GetError::IoError(error)
    }
}

/// Whether `c` is a decimal digit.
pub open spec fn is_digit(c: char) -> bool {
    48 <= c as u32 <= 57
}

/// The number that the digits `s` denote.
pub open spec fn number(s: Seq<char>) -> nat
    decreases s.len(),
{
    if s.len() == 0 {
        0
    } else {
        number(s.drop_last()) * 10 + (s.last() as u32 - 48) as nat
    }
}

/// The number that `s` denotes: digits, one at least.
pub open spec fn natural(s: Seq<char>) -> Option<nat> {
    if s.len() > 0 && forall|i: int| 0 <= i < s.len() ==> is_digit(#[trigger] s[i]) {
        Some(number(s))
    } else {
        None
    }
}

/// The integer that `text` denotes: a number, after a sign or without one.
pub open spec fn integer(text: Seq<char>) -> Option<int> {
    if text.len() > 0 && text[0] == '-' {
        match natural(text.drop_first()) {
            Some(n) => Some(-(n as int)),
            None => None,
        }
    } else if text.len() > 0 && text[0] == '+' {
        match natural(text.drop_first()) {
            Some(n) => Some(n as int),
            None => None,
        }
    } else {
        match natural(text) {
            Some(n) => Some(n as int),
            None => None,
        }
    }
}

/// The integer that `text` denotes, where it lies between `low` and `high`.
pub open spec fn integer_within(text: Seq<char>, low: int, high: int) -> Option<int> {
    match integer(text) {
        Some(n) => if low <= n <= high {
            Some(n)
        } else {
            None
        },
        None => None,
    }
}

/// A type of property values.
pub trait PropertyValue: Sized {
    /// The text of the value, as `set` sends it.
    spec fn text(&self) -> Seq<char>;

    /// The value that `text` denotes, if any.
    spec fn denoted(text: Seq<char>) -> Option<Self>;

    /// Writes the value as text.
    fn render(&self) -> (r: String)
        ensures
            r@ == self.text(),
    ;

    /// Reads a value from text.
    fn parse(text: &str) -> (r: Option<Self>)
        ensures
            r == Self::denoted(text@),
    ;

    /// The text of a value denotes that value, and can stand in a response.
    proof fn lemma_text(&self)
        ensures
            Self::denoted(self.text()) == Some(*self),
            plain(self.text()),
    ;
}

/// The digits of a number are digits, and denote it.
pub proof fn lemma_digits(n: nat)
    ensures
        digits(n).len() > 0,
        forall|i: int| 0 <= i < digits(n).len() ==> is_digit(#[trigger] digits(n)[i]),
        number(digits(n)) == n,
    decreases n,
{
    if n < 10 {
        reveal_with_fuel(number, 2);
        assert(digits(n).drop_last() =~= Seq::<char>::empty());
        assert(digits(n).last() as u32 == n + 48);
    } else {
        lemma_digits(n / 10);
        assert(digits(n).drop_last() =~= digits(n / 10));
        assert(digits(n).last() as u32 == n % 10 + 48);
    }
}

/// The decimal text of an integer denotes it, and can stand in a response.
pub proof fn lemma_decimal(n: int)
    ensures
        integer(decimal(n)) == Some(n),
        plain(decimal(n)),
{
    let text = decimal(n);
    if n < 0 {
        lemma_digits((-n) as nat);
        assert(text.drop_first() =~= digits((-n) as nat));
    } else {
        lemma_digits(n as nat);
    }
    assert forall|i: int| 0 <= i < text.len() implies text[i] != '=' && !is_whitespace(
        text[i],
    ) by {
        if n < 0 && i > 0 {
            assert(text[i] == digits((-n) as nat)[i - 1]);
        }
    }
    lemma_count_none(text, '=');
    lemma_leading(text, 0);
    lemma_trim_start(text);
    assert(text.skip(0) == text);
    lemma_trailing(text, 0);
    lemma_trim_end(text);
    assert(text.take(text.len() as int) == text);
}

/// Reads an integer between `low` and `high`.
#[verifier::loop_isolation(false)]
fn parse_integer(text: &str, low: i128, high: i128) -> (r: Option<i128>)
    requires
        -0x1_0000_0000_0000_0000 < low,
        high < 0x1_0000_0000_0000_0000,
    ensures
        r is Some == integer_within(text@, low as int, high as int) is Some,
        r is Some ==> r.unwrap() == integer_within(text@, low as int, high as int).unwrap(),
{
    let chars = characters(text);
    let n: usize = chars.len();
    let signed: bool = n > 0 && (chars[0] == '-' || chars[0] == '+');
    let start: usize = if signed {
        1
    } else {
        0
    };
    let ghost body = chars@.skip(start as int);
    assert(signed ==> body == chars@.drop_first());
    assert(!signed ==> body == chars@);
    if start == n {
        return None;
    }
    let cap: i128 = 0x1_0000_0000_0000_0000;
    let mut magnitude: i128 = 0;
    let mut i: usize = start;
    while i < n
        invariant
            start <= i <= n,
            n == chars.len(),
            body == chars@.skip(start as int),
            cap == 0x1_0000_0000_0000_0000,
            forall|k: int| 0 <= k < i - start ==> is_digit(#[trigger] body[k]),
            0 <= magnitude <= cap,
            magnitude == if number(body.take(i - start)) < cap {
                number(body.take(i - start)) as int
            } else {
                cap as int
            },
        decreases n - i,
    {
        let d: u32 = chars[i] as u32;
        if d < 48 || d > 57 {
            assert(!is_digit(body[i - start]));
            return None;
        }
        proof {
            assert(body.take(i - start + 1).drop_last() == body.take(i - start));
            assert(body.take(i - start + 1).last() == chars@[i as int]);
        }
        let next: i128 = magnitude * 10 + (d - 48) as i128;
        magnitude = if next < cap {
            next
        } else {
            cap
        };
        i += 1;
    }
    assert(body.take(n - start) == body);
    if magnitude == cap {
        return None;
    }
    let value: i128 = if signed && chars[0] == '-' {
        -magnitude
    } else {
        magnitude
    };
    if low <= value && value <= high {
        Some(value)
    } else {
        None
    }
}

impl PropertyValue for i32 {
    open spec fn text(&self) -> Seq<char> {
        decimal(*self as int)
    }

    open spec fn denoted(text: Seq<char>) -> Option<i32> {
        match integer_within(text, i32::MIN as int, i32::MAX as int) {
            Some(n) => Some(n as i32),
            None => None,
        }
    }

    fn render(&self) -> (r: String) {
        let mut r = String::new();
        append_decimal(&mut r, *self as i64);
        r
    }

    fn parse(text: &str) -> (r: Option<i32>) {
        match parse_integer(text, i32::MIN as i128, i32::MAX as i128) {
            Some(n) => Some(n as i32),
            None => None,
        }
    }

    proof fn lemma_text(&self) {
        lemma_decimal(*self as int);
    }
}

impl PropertyValue for i64 {
    open spec fn text(&self) -> Seq<char> {
        decimal(*self as int)
    }

    open spec fn denoted(text: Seq<char>) -> Option<i64> {
        match integer_within(text, i64::MIN as int, i64::MAX as int) {
            Some(n) => Some(n as i64),
            None => None,
        }
    }

    fn render(&self) -> (r: String) {
        let mut r = String::new();
        append_decimal(&mut r, *self);
        r
    }

    fn parse(text: &str) -> (r: Option<i64>) {
        match parse_integer(text, i64::MIN as i128, i64::MAX as i128) {
            Some(n) => Some(n as i64),
            None => None,
        }
    }

    proof fn lemma_text(&self) {
        lemma_decimal(*self as int);
    }
}

/// The value of type `V` that the text in a response to `get` denotes.
pub fn parse_value<V: PropertyValue>(text: &str) -> (r: Result<V, GetError>)
    ensures
        match V::denoted(text@) {
            Some(v) => r == Ok::<V, GetError>(v),
            None => r matches Err(GetError::ParseError(raw)) && raw@ == text@,
        },
{
    match V::parse(text) {
        Some(v) => Ok(v),
        None => Err(GetError::ParseError(text.to_owned())),
    }
}

/// A value that was written is the value that is read: where the console
/// answers a `get` of `key` with the key, an `=` and the text that `set` sent
/// for `value`, the response holds that text, and the text denotes `value`.
pub proof fn lemma_round_trip<V: PropertyValue>(key: Seq<char>, value: V)
    requires
        count(key, '=') == 0,
    ensures
        meaning(Command::GetProperty, key + " = "@ + value.text() + "\n"@) == Ok::<
            ReplyView,
            ErrorView,
        >(ReplyView::Value(value.text())),
        V::denoted(value.text()) == Some(value),
{
    value.lemma_text();
    lemma_get_echo(key, value.text());
}

} // verus!
