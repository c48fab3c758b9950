//! Text helpers: decimal numerals and the case mappings of `std`.

use vstd::prelude::*;

verus! {

/// Whether a text holds no character beyond the 128 of ASCII.
pub open spec fn ascii_only(text: Seq<char>) -> bool {
    forall|i: int| 0 <= i < text.len() ==> (#[trigger] text[i]) <= '\u{7f}'
}

/// The small letter of a capital of `A` to `Z`; any other character itself.
pub open spec fn small_letter(c: char) -> char {
    if 'A' <= c && c <= 'Z' {
        ((c as u8 + 32) as u8) as char
    } else {
        c
    }
}

/// The capital of a small letter of `a` to `z`; any other character itself.
pub open spec fn capital_letter(c: char) -> char {
    if 'a' <= c && c <= 'z' {
        ((c as u8 - 32) as u8) as char
    } else {
        c
    }
}

/// A text with each of the letters `A` to `Z` made small and every other
/// character kept, as `to_ascii_lowercase` gives it.
pub open spec fn ascii_lowercase(text: Seq<char>) -> Seq<char> {
    text.map_values(|c: char| small_letter(c))
}

/// A text with each of the letters `a` to `z` made a capital and every other
/// character kept.
pub open spec fn ascii_uppercase(text: Seq<char>) -> Seq<char> {
    text.map_values(|c: char| capital_letter(c))
}

/// The lowercase form that `str::to_lowercase` gives a text.
pub uninterp spec fn lowercase(text: Seq<char>) -> Seq<char>;

/// The uppercase form that `str::to_uppercase` gives a text.
pub uninterp spec fn uppercase(text: Seq<char>) -> Seq<char>;

/// `str::to_lowercase`: the text with each character mapped to its lowercase
/// form as Unicode defines it. Of the characters of ASCII, Unicode makes the
/// letters `A` to `Z` small and keeps the others.
#[verifier::external_body]
pub(crate) fn to_lowercase(text: &str) -> (lowered: String)
    ensures
        lowered@ == lowercase(text@),
        ascii_only(text@) ==> lowered@ == ascii_lowercase(text@),
{
    text.to_lowercase()
}

/// `str::to_uppercase`: the text with each character mapped to its uppercase
/// form as Unicode defines it. Of the characters of ASCII, Unicode makes the
/// letters `a` to `z` capitals and keeps the others.
#[verifier::external_body]
pub(crate) fn to_uppercase(text: &str) -> (raised: String)
    ensures
        raised@ == uppercase(text@),
        ascii_only(text@) ==> raised@ == ascii_uppercase(text@),
{
    text.to_uppercase()
}

/// The text of a string that may be missing.
pub open spec fn optional_text(text: Option<String>) -> Option<Seq<char>> {
    match text {
        Some(s) => Some(s@),
        None => None,
    }
}

/// Whether a string reads as the given text.
pub fn reads_as(text: &String, wanted: &str) -> (same: bool)
    ensures
        same == (text@ == wanted@),
{
    let wanted = String::from_str(wanted);
    text.eq(&wanted)
}

/// The character that writes the digit `d`.
pub open spec fn digit_char(d: nat) -> char {
    if d == 0 {
        '0'
    } else if d == 1 {
        '1'
    } else if d == 2 {
        '2'
    } else if d == 3 {
        '3'
    } else if d == 4 {
        '4'
    } else if d == 5 {
        '5'
    } else if d == 6 {
        '6'
    } else if d == 7 {
        '7'
    } else if d == 8 {
        '8'
    } else {
        '9'
    }
}

/// The decimal numeral of `n`: no sign, no leading zero, `"0"` for zero.
pub open spec fn decimal(n: nat) -> Seq<char>
    decreases n,
{
    if n < 10 {
        seq![digit_char(n)]
    } else {
        decimal(n / 10).push(digit_char(n % 10))
    }
}

/// The one-character text of a digit.
fn digit_text(d: u64) -> (s: &'static str)
    requires
        d < 10,
    ensures
        s@ == seq![digit_char(d as nat)],
{
    proof {
        reveal_strlit("0");
        reveal_strlit("1");
        reveal_strlit("2");
        reveal_strlit("3");
        reveal_strlit("4");
        reveal_strlit("5");
        reveal_strlit("6");
        reveal_strlit("7");
        reveal_strlit("8");
        reveal_strlit("9");
    }
    let s = if d == 0 {
        "0"
    } else if d == 1 {
        "1"
    } else if d == 2 {
        "2"
    } else if d == 3 {
        "3"
    } else if d == 4 {
        "4"
    } else if d == 5 {
        "5"
    } else if d == 6 {
        "6"
    } else if d == 7 {
        "7"
    } else if d == 8 {
        "8"
    } else {
        "9"
    };
    assert(s@ =~= seq![digit_char(d as nat)]);
    s
}

/// Writes `n` in decimal.
pub fn decimal_string(n: u64) -> (s: String)
    ensures
        s@ == decimal(n as nat),
    decreases n,
{
    if n < 10 {
        String::from_str(digit_text(n))
    } else {
        let mut s = decimal_string(n / 10);
        s.append(digit_text(n % 10));
        s
    }
}

} // verus!
