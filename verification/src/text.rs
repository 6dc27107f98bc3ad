//! String helpers shared by the parsers: comparison with and without regard
//! to the case of ASCII letters, and decimal notation.

use vstd::prelude::*;
use vstd::string::*;

verus! {

/// `String::from` on a string slice makes a string of the same characters.
pub assume_specification<'a>[ <String as core::convert::From<&'a str>>::from ](s: &str) -> (ret:
    String)
    ensures
        ret@ == s@,
;

/// `From::from` on a value of the type asked for hands the value back.
pub assume_specification<Same>[ <Same as core::convert::From<Same>>::from ](same: Same) -> (ret:
    Same)
    ensures
        ret == same,
;

/// The ASCII uppercase form of a character: the letters `a` to `z` become
/// `A` to `Z`, and every other character stays as it is.
pub open spec fn ascii_upper_char(c: char) -> char {
    if 'a' <= c && c <= 'z' {
        ((c as u32) - 32) as char
    } else {
        c
    }
}

/// The ASCII uppercase form of a string, character by character.
pub open spec fn ascii_upper(s: Seq<char>) -> Seq<char> {
    s.map_values(|c: char| ascii_upper_char(c))
}

/// Whether the ASCII uppercase form of `s` is `upper`: whether the two are
/// as long as each other and agree at every place, once a letter of `s`
/// from `a` to `z` is taken for its capital.
pub fn ascii_upper_is(s: &str, upper: &str) -> (same: bool)
    ensures
        same == (ascii_upper(s@) == upper@),
{
    let n = s.unicode_len();
    if upper.unicode_len() != n {
        return false;
    }
    let mut i: usize = 0;
    while i < n
        invariant
            n == s@.len(),
            n == upper@.len(),
            i <= n,
            forall|j: int| 0 <= j < i ==> ascii_upper_char(#[trigger] s@[j]) == upper@[j],
        decreases n - i,
    {
        let c = s.get_char(i);
        let u = upper.get_char(i);
        let agree = if 'a' <= c && c <= 'z' {
            (c as u32) - 32 == (u as u32)
        } else {
            c == u
        };
        if !agree {
            assert(ascii_upper(s@)[i as int] != upper@[i as int]);
            return false;
        }
        i += 1;
    }
    assert(ascii_upper(s@) =~= upper@);
    true
}

/// The ASCII lowercase form of a character: the letters `A` to `Z` become
/// `a` to `z`, and every other character stays as it is.
pub open spec fn ascii_lower_char(c: char) -> char {
    if 'A' <= c && c <= 'Z' {
        ((c as u32) + 32) as char
    } else {
        c
    }
}

/// The ASCII lowercase form of a string, character by character.
pub open spec fn ascii_lower(s: Seq<char>) -> Seq<char> {
    s.map_values(|c: char| ascii_lower_char(c))
}

/// Whether the ASCII lowercase form of `s` is `lower`: whether the two are
/// as long as each other and agree at every place, once a letter of `s`
/// from `A` to `Z` is taken for its small letter.
pub fn ascii_lower_is(s: &str, lower: &str) -> (same: bool)
    ensures
        same == (ascii_lower(s@) == lower@),
{
    let n = s.unicode_len();
    if lower.unicode_len() != n {
        return false;
    }
    let mut i: usize = 0;
    while i < n
        invariant
            n == s@.len(),
            n == lower@.len(),
            i <= n,
            forall|j: int| 0 <= j < i ==> ascii_lower_char(#[trigger] s@[j]) == lower@[j],
        decreases n - i,
    {
        let c = s.get_char(i);
        let l = lower.get_char(i);
        let agree = if 'A' <= c && c <= 'Z' {
            (c as u32) + 32 == (l as u32)
        } else {
            c == l
        };
        if !agree {
            assert(ascii_lower(s@)[i as int] != lower@[i as int]);
            return false;
        }
        i += 1;
    }
    assert(ascii_lower(s@) =~= lower@);
    true
}

/// One decimal digit as text.
pub open spec fn digit_text(d: nat) -> Seq<char> {
    if d == 0 {
        "0"@
    } else if d == 1 {
        "1"@
    } else if d == 2 {
        "2"@
    } else if d == 3 {
        "3"@
    } else if d == 4 {
        "4"@
    } else if d == 5 {
        "5"@
    } else if d == 6 {
        "6"@
    } else if d == 7 {
        "7"@
    } else if d == 8 {
        "8"@
    } else {
        "9"@
    }
}

/// A number in decimal notation, without leading zeros.
pub open spec fn decimal(n: nat) -> Seq<char>
    decreases n,
{
    if n < 10 {
        digit_text(n)
    } else {
        decimal(n / 10) + digit_text(n % 10)
    }
}

fn digit_str(d: usize) -> (text: &'static str)
    requires
        d < 10,
    ensures
        text@ == digit_text(d as nat),
{
    if d == 0 {
        "0"
    } else if d == 1 {
        "1"
    } else if d == 2 {
        "2"
    } else if d == 3 {
        "3"
    } else if d == 4 {
        "4"
    } else if d == 5 {
        "5"
    } else if d == 6 {
        "6"
    } else if d == 7 {
        "7"
    } else if d == 8 {
        "8"
    } else {
        "9"
    }
}

/// Writes a number in decimal notation.
pub fn decimal_string(n: usize) -> (text: String)
    ensures
        text@ == decimal(n as nat),
    decreases n,
{
    if n < 10 {
        String::from_str(digit_str(n))
    } else {
        let mut text = decimal_string(n / 10);
        text.append(digit_str(n % 10));
        text
    }
}

} // verus!
