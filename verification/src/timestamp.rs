//! Timestamps of observations.
//!
//! A timestamp is text in the form in which RFC 3339 writes a date and a
//! time: `1996-12-19T16:39:57-08:00`. The seconds may have a fraction, and
//! the offset from UTC may be the letter `Z`. A year outside the four
//! digits of RFC 3339 is written with a sign and more digits, as ISO 8601
//! has it. The empty text is a timestamp too: that of a source which has
//! not been fetched yet.
//!
//! The form is all that a timestamp is held to. Which digits stand in a
//! field is left open: `2024-99-99T99:99:99+99:99` has the form, though it
//! names no moment. What is known of every timestamp is that it is one
//! field of a row, without a comma or a line break.

use crate::decimal::{chars_of, digits_end, is_digit, lemma_digits_end, scan_digits};
use vstd::prelude::*;

verus! {

/// Whether `c` is a plus or a minus sign.
pub open spec fn is_sign(c: char) -> bool {
    c == '+' || c == '-'
}

/// Whether `s` holds two digits at `at`.
pub open spec fn two_digits_at(s: Seq<char>, at: int) -> bool {
    0 <= at && at + 2 <= s.len() && is_digit(s[at]) && is_digit(s[at + 1])
}

/// Whether `s` holds the character `c` at `at`.
pub open spec fn char_at(s: Seq<char>, at: int, c: char) -> bool {
    0 <= at < s.len() && s[at] == c
}

/// Where the year of `s` ends: after the digits at the start, or after a
/// sign and the digits behind it.
pub open spec fn year_end(s: Seq<char>) -> int {
    if s.len() > 0 && is_sign(s[0]) {
        digits_end(s, 1)
    } else {
        digits_end(s, 0)
    }
}

/// Whether the year of `s` is four digits, or a sign and four digits or more.
pub open spec fn has_year(s: Seq<char>) -> bool {
    if s.len() > 0 && is_sign(s[0]) {
        year_end(s) >= 5
    } else {
        year_end(s) == 4
    }
}

/// Whether `s` holds, from `at` on, what follows a year: `-MM-DDTHH:MM:SS`.
pub open spec fn has_day_and_time(s: Seq<char>, at: int) -> bool {
    &&& char_at(s, at, '-')
    &&& two_digits_at(s, at + 1)
    &&& char_at(s, at + 3, '-')
    &&& two_digits_at(s, at + 4)
    &&& char_at(s, at + 6, 'T')
    &&& two_digits_at(s, at + 7)
    &&& char_at(s, at + 9, ':')
    &&& two_digits_at(s, at + 10)
    &&& char_at(s, at + 12, ':')
    &&& two_digits_at(s, at + 13)
}

/// Where the fraction of the seconds ends, if it begins at `at`: after a
/// point and the digits behind it, or at `at` where there is no point.
pub open spec fn fraction_end(s: Seq<char>, at: int) -> int {
    if char_at(s, at, '.') {
        digits_end(s, at + 1)
    } else {
        at
    }
}

/// Whether a fraction that begins at `at` has a digit.
pub open spec fn has_fraction(s: Seq<char>, at: int) -> bool {
    char_at(s, at, '.') ==> fraction_end(s, at) > at + 1
}

/// Whether `s` ends, from `at` on, with an offset: `Z`, or `+HH:MM`, or
/// `-HH:MM`.
pub open spec fn has_offset(s: Seq<char>, at: int) -> bool {
    ||| at + 1 == s.len() && char_at(s, at, 'Z')
    ||| {
        &&& at + 6 == s.len()
        &&& 0 <= at
        &&& is_sign(s[at])
        &&& two_digits_at(s, at + 1)
        &&& char_at(s, at + 3, ':')
        &&& two_digits_at(s, at + 4)
    }
}

/// Whether `s` has the form of a date and a time as RFC 3339 writes them:
/// a year, then `-MM-DDTHH:MM:SS`, then a fraction of the seconds or none,
/// then the offset from UTC. Each field is digits, as many as the form
/// asks for; no field is held to a range.
pub open spec fn has_date_time_form(s: Seq<char>) -> bool {
    &&& has_year(s)
    &&& has_day_and_time(s, year_end(s))
    &&& has_fraction(s, year_end(s) + 15)
    &&& has_offset(s, fraction_end(s, year_end(s) + 15))
}

/// Whether `s` is the text of a timestamp: text that has the form of a
/// date and a time, or nothing.
pub open spec fn is_stamp_text(s: Seq<char>) -> bool {
    s.len() == 0 || has_date_time_form(s)
}

/// A timestamp is one field of a row: its text holds no comma and no line
/// break, and nothing beyond ASCII.
pub proof fn lemma_stamp_text_is_one_field(s: Seq<char>)
    requires
        is_stamp_text(s),
    ensures
        forall|i: int| 0 <= i < s.len() ==> #[trigger] s[i] != ',' && s[i] != '\n',
        vstd::utf8::is_ascii_chars(s),
{
    if s.len() > 0 {
        let y = year_end(s);
        if is_sign(s[0]) {
            lemma_digits_end(s, 1);
        } else {
            lemma_digits_end(s, 0);
        }
        if char_at(s, y + 15, '.') {
            lemma_digits_end(s, y + 16);
        }
        assert forall|i: int| 0 <= i < s.len() implies #[trigger] s[i] != ',' && s[i] != '\n'
            && '\0' <= s[i] <= '\u{7f}' by {}
    }
}

/// A date and a time take fifteen characters after the year, and the
/// offset takes one more at the least.
proof fn lemma_date_time_has_an_offset(s: Seq<char>)
    requires
        has_date_time_form(s),
    ensures
        s.len() >= year_end(s) + 16,
{
    let t = year_end(s) + 15;
    if char_at(s, t, '.') {
        lemma_digits_end(s, t + 1);
    }
}

fn holds_digit(bytes: &[u8], at: usize) -> (r: bool)
    ensures
        r == (at < bytes@.len() && is_digit(chars_of(bytes@)[at as int])),
{
    at < bytes.len() && '0' as u8 <= bytes[at] && bytes[at] <= '9' as u8
}

fn holds_two_digits(bytes: &[u8], at: usize) -> (r: bool)
    ensures
        r == two_digits_at(chars_of(bytes@), at as int),
{
    assert(bytes@.len() == bytes.len());
    at < usize::MAX && holds_digit(bytes, at) && holds_digit(bytes, at + 1)
}

fn holds_char(bytes: &[u8], at: usize, c: char) -> (r: bool)
    requires
        c <= '\u{7f}',
    ensures
        r == char_at(chars_of(bytes@), at as int, c),
{
    at < bytes.len() && bytes[at] == c as u8
}

fn holds_sign(bytes: &[u8], at: usize) -> (r: bool)
    ensures
        r == (at < bytes@.len() && is_sign(chars_of(bytes@)[at as int])),
{
    holds_char(bytes, at, '+') || holds_char(bytes, at, '-')
}

fn holds_day_and_time(bytes: &[u8], at: usize) -> (r: bool)
    requires
        at + 15 <= bytes@.len(),
    ensures
        r == has_day_and_time(chars_of(bytes@), at as int),
{
    assert(bytes@.len() == bytes.len());
    holds_char(bytes, at, '-') && holds_two_digits(bytes, at + 1) && holds_char(bytes, at + 3, '-')
        && holds_two_digits(bytes, at + 4) && holds_char(bytes, at + 6, 'T') && holds_two_digits(
        bytes,
        at + 7,
    ) && holds_char(bytes, at + 9, ':') && holds_two_digits(bytes, at + 10) && holds_char(
        bytes,
        at + 12,
        ':',
    ) && holds_two_digits(bytes, at + 13)
}

fn holds_offset(bytes: &[u8], at: usize) -> (r: bool)
    requires
        at < bytes@.len(),
    ensures
        r == has_offset(chars_of(bytes@), at as int),
{
    let rest = bytes.len() - at;
    if rest == 1 {
        holds_char(bytes, at, 'Z')
    } else {
        rest == 6 && holds_sign(bytes, at) && holds_two_digits(bytes, at + 1) && holds_char(
            bytes,
            at + 3,
            ':',
        ) && holds_two_digits(bytes, at + 4)
    }
}

fn holds_date_time(bytes: &[u8]) -> (r: bool)
    ensures
        r == has_date_time_form(chars_of(bytes@)),
{
    let ghost s = chars_of(bytes@);
    let n = bytes.len();
    let signed = holds_sign(bytes, 0);
    let y = if signed {
        scan_digits(bytes, 1)
    } else {
        scan_digits(bytes, 0)
    };
    let year = if signed {
        y >= 5
    } else {
        y == 4
    };
    if !year || n - y < 16 {
        proof {
            if has_date_time_form(s) {
                lemma_date_time_has_an_offset(s);
            }
        }
        return false;
    }
    if !holds_day_and_time(bytes, y) {
        return false;
    }
    let t = y + 15;
    let pointed = holds_char(bytes, t, '.');
    let f = if pointed {
        scan_digits(bytes, t + 1)
    } else {
        t
    };
    if pointed && f == t + 1 {
        return false;
    }
    f < n && holds_offset(bytes, f)
}

/// Whether `text` is the text of a timestamp.
pub fn is_stamp(text: &str) -> (ok: bool)
    ensures
        ok == is_stamp_text(text@),
{
    if !text.is_ascii() {
        proof {
            if is_stamp_text(text@) {
                lemma_stamp_text_is_one_field(text@);
            }
        }
        return false;
    }
    let bytes = text.as_bytes();
    proof {
        vstd::string::is_ascii_spec_bytes(text);
        assert(chars_of(bytes@) =~= text@);
    }
    bytes.len() == 0 || holds_date_time(bytes)
}

/// What the local date and time read as, written as RFC 3339 writes them.
/// Every reading may differ from the one before.
///
/// This is `std::time::SystemTime::now()`, made a `chrono::DateTime` of the
/// local time zone by chrono's `From<SystemTime>` and written by its
/// `to_rfc3339`, all taken on trust. The contract claims what holds of
/// every reading. chrono writes the year as four digits, or with a sign and
/// four digits or more where it is outside 0 to 9999; then
/// `-MM-DDTHH:MM:SS`; then a point and three, six or nine digits where the
/// time has a fraction of a second; then the offset from UTC as a sign, two
/// digits, a colon and two digits.
#[verifier::external_body]
fn local_now_text() -> (r: String)
    ensures
        has_date_time_form(r@),
{
    chrono::DateTime::<chrono::Local>::from(std::time::SystemTime::now()).to_rfc3339()
}

/// The time of an observation, as text.
#[derive(Debug, PartialEq, Eq)]
pub struct Timestamp {
    text: String,
}

impl View for Timestamp {
    type V = Seq<char>;

    /// The text of the timestamp.
    closed spec fn view(&self) -> Seq<char> {
        self.text@
    }
}

impl Timestamp {
    /// Every timestamp has the form of a date and a time, or is empty.
    #[verifier::type_invariant]
    pub open spec fn well_formed(&self) -> bool {
        is_stamp_text(self@)
    }

    /// The timestamp of a source that has not been fetched yet: the empty text.
    pub fn unset() -> (r: Timestamp)
        ensures
            r@ == Seq::<char>::empty(),
    {
        Timestamp { text: String::new() }
    }

    /// The local date and time of this moment, as the clock shows them.
    pub fn now() -> (r: Timestamp)
        ensures
            has_date_time_form(r@),
    {
        Timestamp { text: local_now_text() }
    }

    /// Takes `text` as a timestamp if it is the text of one, and refuses it
    /// otherwise.
    pub fn from_text(text: String) -> (r: Option<Timestamp>)
        ensures
            r is Some <==> is_stamp_text(text@),
            r matches Some(t) ==> t@ == text@,
    {
        if is_stamp(text.as_str()) {
            Some(Timestamp { text })
        } else {
            None
        }
    }

    /// The text of the timestamp.
    pub fn text(&self) -> (r: &str)
        ensures
            r@ == self@,
            is_stamp_text(self@),
    {
        proof {
            use_type_invariant(self);
        }
        self.text.as_str()
    }
}

impl Clone for Timestamp {
    fn clone(&self) -> (r: Timestamp)
        ensures
            r@ == self@,
    {
        proof {
            use_type_invariant(self);
        }
        Timestamp { text: self.text.clone() }
    }
}

} // verus!
