//! JSON number literals.
//!
//! The library never computes with the decimal quantities of the protocol
//! (volumes, prices, balances). It carries each as the literal that stands on
//! the wire, and a `Number` is such a literal.

use crate::text::is_digit;
use vstd::prelude::*;
use vstd::string::*;

verus! {

/// The first position at or behind `from` that holds no decimal digit.
pub open spec fn digit_run_end(text: Seq<char>, from: int) -> int
    decreases text.len() - from,
{
    if 0 <= from < text.len() && is_digit(text[from]) {
        digit_run_end(text, from + 1)
    } else {
        from
    }
}

/// The position behind an optional minus sign at the start.
pub open spec fn after_sign(text: Seq<char>) -> int {
    if text.len() > 0 && text[0] == '-' {
        1
    } else {
        0
    }
}

/// The position behind the integer part that starts at `from`: a single `0`,
/// or a run of digits that starts with another digit. It is -1 if there is no
/// integer part at `from`.
pub open spec fn after_integer(text: Seq<char>, from: int) -> int {
    if 0 <= from < text.len() && text[from] == '0' {
        from + 1
    } else if 0 <= from < text.len() && is_digit(text[from]) {
        digit_run_end(text, from)
    } else {
        -1
    }
}

/// The position behind an optional fraction at `from`: a point and at least
/// one digit. It is -1 if `from` is -1 or a point stands at `from` without a
/// digit behind it.
pub open spec fn after_fraction(text: Seq<char>, from: int) -> int {
    if from < 0 {
        -1
    } else if from < text.len() && text[from] == '.' {
        if from + 1 < text.len() && is_digit(text[from + 1]) {
            digit_run_end(text, from + 1)
        } else {
            -1
        }
    } else {
        from
    }
}

/// The position behind an optional exponent at `from`: the letter `e`, a
/// sign and at least one digit. It is -1 if `from` is -1 or an `e` stands at
/// `from` without a sign and a digit behind it.
pub open spec fn after_exponent(text: Seq<char>, from: int) -> int {
    if from < 0 {
        -1
    } else if from < text.len() && text[from] == 'e' {
        if from + 2 < text.len() && (text[from + 1] == '+' || text[from + 1] == '-') && is_digit(
            text[from + 2],
        ) {
            digit_run_end(text, from + 2)
        } else {
            -1
        }
    } else {
        from
    }
}

/// Whether `text` is a JSON number literal in the form in which the wire
/// codec keeps numbers: an optional minus sign, an integer part without a
/// superfluous leading zero, an optional fraction, and an optional exponent
/// written with a lower-case `e` and an explicit sign.
pub open spec fn is_number_literal(text: Seq<char>) -> bool {
    after_exponent(text, after_fraction(text, after_integer(text, after_sign(text))))
        == text.len()
}

/// The end of a digit run lies between its start and the end of the text.
pub proof fn lemma_digit_run_end(text: Seq<char>, from: int)
    requires
        0 <= from <= text.len(),
    ensures
        from <= digit_run_end(text, from) <= text.len(),
    decreases text.len() - from,
{
    if from < text.len() && is_digit(text[from]) {
        lemma_digit_run_end(text, from + 1);
    }
}

/// Every character of a number literal is an ASCII character.
pub proof fn lemma_number_literal_is_ascii(text: Seq<char>)
    requires
        is_number_literal(text),
    ensures
        vstd::utf8::is_ascii_chars(text),
{
    let a = after_sign(text);
    let b = after_integer(text, a);
    let c = after_fraction(text, b);
    let d = after_exponent(text, c);
    assert forall|i: int| 0 <= i < text.len() implies '\0' <= #[trigger] text[i] <= '\u{7f}' by {
        if b >= 0 {
            lemma_digit_run_end(text, a);
            lemma_run_is_digits(text, a, i);
        }
        if b >= 0 && c >= 0 && b < text.len() && text[b] == '.' {
            lemma_digit_run_end(text, b + 1);
            lemma_run_is_digits(text, b + 1, i);
        }
        if c >= 0 && d >= 0 && c < text.len() && text[c] == 'e' {
            lemma_digit_run_end(text, c + 2);
            lemma_run_is_digits(text, c + 2, i);
        }
    }
}

/// Every position inside a digit run holds a digit.
pub proof fn lemma_run_is_digits(text: Seq<char>, from: int, at: int)
    requires
        0 <= from <= text.len(),
    ensures
        from <= at < digit_run_end(text, from) ==> is_digit(text[at]),
    decreases text.len() - from,
{
    if from < text.len() && is_digit(text[from]) {
        lemma_run_is_digits(text, from + 1, at);
    }
}

/// Skips the digits of `text` from position `from` on.
fn skip_digits(text: &str, len: usize, from: usize) -> (end: usize)
    requires
        text.is_ascii(),
        len == text@.len(),
        from <= len,
    ensures
        end == digit_run_end(text@, from as int),
        from <= end <= len,
{
    let mut i: usize = from;
    while i < len && is_digit_byte(text.get_ascii(i))
        invariant
            from <= i <= len,
            len == text@.len(),
            text.is_ascii(),
            digit_run_end(text@, from as int) == digit_run_end(text@, i as int),
        decreases len - i,
    {
        i = i + 1;
    }
    i
}

/// Whether the byte is the ASCII code of a decimal digit.
fn is_digit_byte(b: u8) -> (r: bool)
    ensures
        r == (48 <= b <= 57),
{
    b >= 48u8 && b <= 57u8
}

/// Whether `text` is a number literal.
pub fn check_number_literal(text: &str) -> (ok: bool)
    ensures
        ok == is_number_literal(text@),
{
    if !text.is_ascii() {
        proof {
            if is_number_literal(text@) {
                lemma_number_literal_is_ascii(text@);
            }
        }
        return false;
    }
    let len: usize = text.unicode_len();
    let mut at: usize = 0;
    if len > 0 && text.get_ascii(0) == 45u8 {
        at = 1;
    }
    assert(at == after_sign(text@));
    if at >= len {
        return false;
    }
    let first: u8 = text.get_ascii(at);
    if first == 48u8 {
        at = at + 1;
    } else if is_digit_byte(first) {
        at = skip_digits(text, len, at);
    } else {
        return false;
    }
    assert(at == after_integer(text@, after_sign(text@)));
    if at < len && text.get_ascii(at) == 46u8 {
        if len - at > 1 && is_digit_byte(text.get_ascii(at + 1)) {
            at = skip_digits(text, len, at + 1);
        } else {
            return false;
        }
    }
    assert(at == after_fraction(text@, after_integer(text@, after_sign(text@))));
    if at < len && text.get_ascii(at) == 101u8 {
        if len - at > 2 && (text.get_ascii(at + 1) == 43u8 || text.get_ascii(at + 1) == 45u8)
            && is_digit_byte(text.get_ascii(at + 2)) {
            at = skip_digits(text, len, at + 2);
        } else {
            return false;
        }
    }
    at == len
}

/// A JSON number, held as its literal.
#[derive(Debug, PartialEq, Eq)]
pub struct Number {
    text: String,
}

impl View for Number {
    type V = Seq<char>;

    closed spec fn view(&self) -> Seq<char> {
        self.text@
    }
}

impl Clone for Number {
    fn clone(&self) -> (copy: Number)
        ensures
            copy@ == self@,
    {
        proof {
            use_type_invariant(self);
        }
        Number { text: self.text.clone() }
    }
}

impl Number {
    #[verifier::type_invariant]
    spec fn well_formed(self) -> bool {
        is_number_literal(self.text@)
    }

    /// The number that `text` denotes, if `text` is a number literal.
    pub fn parse(text: &str) -> (number: Option<Number>)
        ensures
            number is Some <==> is_number_literal(text@),
            number matches Some(n) ==> n@ == text@,
    {
        if check_number_literal(text) {
            Some(Number { text: text.to_owned() })
        } else {
            None
        }
    }

    /// The literal.
    pub fn as_str(&self) -> (text: &str)
        ensures
            text@ == self@,
            is_number_literal(text@),
    {
        proof {
            use_type_invariant(self);
        }
        self.text.as_str()
    }

    /// The number zero, written as a decimal: `0.0`.
    pub fn zero() -> (number: Number)
        ensures
            number@ == "0.0"@,
    {
        proof {
            reveal_strlit("0.0");
            reveal_with_fuel(digit_run_end, 3);
        }
        Number { text: "0.0".to_owned() }
    }

    /// The number one, written as a decimal: `1.0`.
    pub fn one() -> (number: Number)
        ensures
            number@ == "1.0"@,
    {
        proof {
            reveal_strlit("1.0");
            reveal_with_fuel(digit_run_end, 3);
        }
        Number { text: "1.0".to_owned() }
    }
}

/// A digit run that starts within a sequence of digits ends at its end.
pub proof fn lemma_all_digits_run(text: Seq<char>, from: int)
    requires
        0 <= from <= text.len(),
        crate::text::all_digits(text),
    ensures
        digit_run_end(text, from) == text.len(),
    decreases text.len() - from,
{
    if from < text.len() {
        assert(is_digit(text[from]));
        lemma_all_digits_run(text, from + 1);
    }
}

/// The decimal notation of a natural number is a number literal.
pub proof fn lemma_decimal_is_literal(text: Seq<char>)
    requires
        crate::text::is_decimal_notation(text),
    ensures
        is_number_literal(text),
{
    assert(is_digit(text[0]));
    lemma_all_digits_run(text, 0);
    if text.len() > 1 {
        lemma_all_digits_run(text, 1);
    }
}

} // verus!
