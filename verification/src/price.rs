//! Prices as decimal text.
//!
//! A quoted price is a double-precision number. What the sampler does with
//! one is store it and write it out, so a [`Price`] holds the number as the
//! decimal text that prints it: an optional minus sign, digits, and at most
//! one point with digits on both sides, or one of the three special texts
//! `NaN`, `inf` and `-inf`.

use crate::decimal::{chars_of, digits_end, is_digit, lemma_digits_end, scan_digits};
use vstd::prelude::*;

verus! {

/// Whether `s` holds, from `from` to its end, an unsigned decimal numeral:
/// digits, or digits, a point and digits.
pub open spec fn is_numeral(s: Seq<char>, from: int) -> bool {
    let whole = digits_end(s, from);
    &&& 0 <= from < whole
    &&& whole == s.len() || {
        &&& s[whole] == '.'
        &&& whole + 1 < digits_end(s, whole + 1)
        &&& digits_end(s, whole + 1) == s.len()
    }
}

/// The texts that print a double: a numeral with an optional minus sign, or
/// one of `NaN`, `inf`, `-inf`.
pub open spec fn is_decimal_text(s: Seq<char>) -> bool {
    ||| s == seq!['N', 'a', 'N']
    ||| s == seq!['i', 'n', 'f']
    ||| s == seq!['-', 'i', 'n', 'f']
    ||| is_numeral(s, 0)
    ||| (s.len() > 0 && s[0] == '-' && is_numeral(s, 1))
}

/// A price is one field of a row: decimal text holds no comma and no line
/// break, and nothing beyond ASCII. It is never empty.
pub proof fn lemma_decimal_text_is_one_field(s: Seq<char>)
    requires
        is_decimal_text(s),
    ensures
        s.len() > 0,
        forall|i: int| 0 <= i < s.len() ==> #[trigger] s[i] != ',' && s[i] != '\n',
        vstd::utf8::is_ascii_chars(s),
{
    let from: int = if is_numeral(s, 0) {
        0
    } else {
        1
    };
    if is_numeral(s, from) {
        let whole = digits_end(s, from);
        lemma_digits_end(s, from);
        if whole < s.len() {
            lemma_digits_end(s, whole + 1);
        }
        assert forall|i: int| 0 <= i < s.len() implies #[trigger] s[i] != ',' && s[i] != '\n'
            && '\0' <= s[i] <= '\u{7f}' by {}
    }
}

fn holds_numeral(bytes: &[u8], from: usize) -> (ok: bool)
    requires
        from <= bytes@.len(),
    ensures
        ok == is_numeral(chars_of(bytes@), from as int),
{
    let n = bytes.len();
    let whole = scan_digits(bytes, from);
    if whole == from {
        return false;
    }
    if whole == n {
        return true;
    }
    if bytes[whole] != '.' as u8 {
        return false;
    }
    let end = scan_digits(bytes, whole + 1);
    whole + 1 < end && end == n
}

/// Whether `text` is decimal text.
pub fn is_decimal(text: &str) -> (ok: bool)
    ensures
        ok == is_decimal_text(text@),
{
    if !text.is_ascii() {
        proof {
            if is_decimal_text(text@) {
                lemma_decimal_text_is_one_field(text@);
            }
        }
        return false;
    }
    let bytes = text.as_bytes();
    let n = bytes.len();
    proof {
        vstd::string::is_ascii_spec_bytes(text);
        assert(chars_of(bytes@) =~= text@);
    }
    if n == 3 && bytes[0] == 'N' as u8 && bytes[1] == 'a' as u8 && bytes[2] == 'N' as u8 {
        assert(text@ =~= seq!['N', 'a', 'N']);
        return true;
    }
    if n == 3 && bytes[0] == 'i' as u8 && bytes[1] == 'n' as u8 && bytes[2] == 'f' as u8 {
        assert(text@ =~= seq!['i', 'n', 'f']);
        return true;
    }
    if n == 4 && bytes[0] == '-' as u8 && bytes[1] == 'i' as u8 && bytes[2] == 'n' as u8
        && bytes[3] == 'f' as u8 {
        assert(text@ =~= seq!['-', 'i', 'n', 'f']);
        return true;
    }
    if n > 0 && bytes[0] == '-' as u8 {
        holds_numeral(bytes, 1)
    } else {
        holds_numeral(bytes, 0)
    }
}

/// A price: decimal text, and nothing else.
#[derive(Debug, PartialEq, Eq)]
pub struct Price {
    text: String,
}

impl View for Price {
    type V = Seq<char>;

    /// The decimal text of the price.
    closed spec fn view(&self) -> Seq<char> {
        self.text@
    }
}

impl Price {
    /// Every price holds decimal text.
    #[verifier::type_invariant]
    pub open spec fn well_formed(&self) -> bool {
        is_decimal_text(self@)
    }

    /// The price of a source that has not been fetched yet: `0`.
    pub fn zero() -> (r: Price)
        ensures
            r@ == seq!['0'],
    {
        let text = String::from_str("0");
        proof {
            reveal_strlit("0");
            assert(digits_end(text@, 1) == 1);
        }
        Price { text }
    }

    /// Takes `text` as a price if it is decimal text, and refuses it otherwise.
    pub fn from_text(text: String) -> (r: Option<Price>)
        ensures
            r is Some <==> is_decimal_text(text@),
            r matches Some(p) ==> p@ == text@,
    {
        if is_decimal(text.as_str()) {
            Some(Price { text })
        } else {
            None
        }
    }

    /// The decimal text of the price.
    pub fn text(&self) -> (r: &str)
        ensures
            r@ == self@,
            is_decimal_text(self@),
    {
        proof {
            use_type_invariant(self);
        }
        self.text.as_str()
    }
}

impl Clone for Price {
    fn clone(&self) -> (r: Price)
        ensures
            r@ == self@,
    {
        proof {
            use_type_invariant(self);
        }
        Price { text: self.text.clone() }
    }
}

} // verus!
