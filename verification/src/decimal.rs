//! Decimal literals and their writing with two decimals.

use crate::text::{append_digit, append_wide_digits, digit_char, digits};
use vstd::prelude::*;
use vstd::string::*;

verus! {

/// The digit that a character writes, or -1 for a character that is no digit.
pub open spec fn digit_value(c: char) -> int {
    if c == '0' {
        0
    } else if c == '1' {
        1
    } else if c == '2' {
        2
    } else if c == '3' {
        3
    } else if c == '4' {
        4
    } else if c == '5' {
        5
    } else if c == '6' {
        6
    } else if c == '7' {
        7
    } else if c == '8' {
        8
    } else if c == '9' {
        9
    } else {
        -1
    }
}

/// Whether the characters of a text from `from` up to `to` are digits.
pub open spec fn digits_only(text: Seq<char>, from: int, to: int) -> bool {
    forall|i: int| from <= i < to ==> digit_value(#[trigger] text[i]) >= 0
}

/// The number that the digits of a text from `from` up to `to` write.
pub open spec fn number(text: Seq<char>, from: int, to: int) -> int
    decreases to - from,
{
    if to <= from {
        0
    } else {
        number(text, from, to - 1) * 10 + digit_value(text[to - 1])
    }
}

/// The position of the first decimal point of a text at or after `from`, or
/// the length of the text where there is none.
pub open spec fn point_of(text: Seq<char>, from: int) -> int
    decreases text.len() - from,
{
    if from < 0 || from >= text.len() {
        text.len() as int
    } else if text[from] == '.' {
        from
    } else {
        point_of(text, from + 1)
    }
}

/// The largest whole part of a literal that is written anew.
pub const LARGEST_WHOLE_PART: u128 = 0xffff_ffff_ffff_ffff_ffff_ffff_ffff;

/// The position at which the digits of a literal start: after its sign.
pub open spec fn start_of(text: Seq<char>) -> int {
    if text.len() > 0 && text[0] == '-' {
        1
    } else {
        0
    }
}

/// Whether a text is a plain decimal literal: an optional minus sign, one or
/// more digits that write no more than the largest whole part, and
/// optionally a point and digits after it.
pub open spec fn is_plain(text: Seq<char>) -> bool {
    let start = start_of(text);
    let point = point_of(text, start);
    &&& start < point
    &&& digits_only(text, start, point)
    &&& digits_only(text, point + 1, text.len() as int)
    &&& number(text, start, point) <= LARGEST_WHOLE_PART
}

/// The digit at a position of a text, zero beyond its end.
pub open spec fn digit_at(text: Seq<char>, at: int) -> int {
    if 0 <= at < text.len() {
        digit_value(text[at])
    } else {
        0
    }
}

/// Whether a digit other than zero stands at or after a position of a text.
pub open spec fn has_more(text: Seq<char>, from: int) -> bool {
    exists|i: int| from <= i < text.len() && digit_value(#[trigger] text[i]) > 0
}

/// The number of hundredths nearest to a plain literal without its sign, a
/// literal half way between two numbers going to the even one.
pub open spec fn nearest_hundredths(text: Seq<char>) -> int {
    let start = start_of(text);
    let point = point_of(text, start);
    let below = number(text, start, point) * 100 + digit_at(text, point + 1) * 10 + digit_at(
        text,
        point + 2,
    );
    let next = digit_at(text, point + 3);
    if next > 5 || (next == 5 && (has_more(text, point + 4) || below % 2 == 1)) {
        below + 1
    } else {
        below
    }
}

/// The writing of a number of hundredths with two decimals.
pub open spec fn two_decimals(hundredths: int) -> Seq<char> {
    digits((hundredths / 100) as nat) + "."@ + seq![
        digit_char((hundredths / 10) % 10),
        digit_char(hundredths % 10),
    ]
}

/// A literal written with two decimals: a plain decimal literal is rounded to
/// the nearest hundredth and keeps its sign; any other text stays as it is.
pub open spec fn with_two_decimals(text: Seq<char>) -> Seq<char> {
    if is_plain(text) {
        if start_of(text) == 1 {
            "-"@ + two_decimals(nearest_hundredths(text))
        } else {
            two_decimals(nearest_hundredths(text))
        }
    } else {
        text
    }
}

proof fn lemma_number_grows(text: Seq<char>, from: int, upto: int, to: int)
    requires
        from <= upto <= to,
        digits_only(text, from, to),
    ensures
        0 <= number(text, from, upto) <= number(text, from, to),
    decreases to - upto,
{
    lemma_number_is_natural(text, from, upto);
    if upto < to {
        lemma_number_grows(text, from, upto, to - 1);
        assert(digit_value(text[to - 1]) >= 0);
    }
}

proof fn lemma_number_is_natural(text: Seq<char>, from: int, to: int)
    requires
        digits_only(text, from, to),
    ensures
        0 <= number(text, from, to),
    decreases to - from,
{
    if from < to {
        lemma_number_is_natural(text, from, to - 1);
        assert(digit_value(text[to - 1]) >= 0);
    }
}

proof fn lemma_point(text: Seq<char>, from: int)
    requires
        0 <= from <= text.len(),
    ensures
        from <= point_of(text, from) <= text.len(),
        point_of(text, from) < text.len() ==> text[point_of(text, from)] == '.',
        forall|i: int| from <= i < point_of(text, from) ==> text[i] != '.',
    decreases text.len() - from,
{
    if from < text.len() && text[from] != '.' {
        lemma_point(text, from + 1);
    }
}

proof fn lemma_point_is_first(text: Seq<char>, from: int, at: int)
    requires
        0 <= from <= at <= text.len(),
        forall|i: int| from <= i < at ==> text[i] != '.',
        at < text.len() ==> text[at] == '.',
    ensures
        point_of(text, from) == at,
    decreases at - from,
{
    if from < at {
        lemma_point_is_first(text, from + 1, at);
    }
}

/// The digit that a character writes.
pub fn digit_of(c: char) -> (r: Option<u8>)
    ensures
        match r {
            Some(d) => d == digit_value(c) && d <= 9,
            None => digit_value(c) == -1,
        },
{
    if c == '0' {
        Some(0)
    } else if c == '1' {
        Some(1)
    } else if c == '2' {
        Some(2)
    } else if c == '3' {
        Some(3)
    } else if c == '4' {
        Some(4)
    } else if c == '5' {
        Some(5)
    } else if c == '6' {
        Some(6)
    } else if c == '7' {
        Some(7)
    } else if c == '8' {
        Some(8)
    } else if c == '9' {
        Some(9)
    } else {
        None
    }
}

/// Appends a number of hundredths, written with two decimals.
pub fn append_two_decimals(s: &mut String, hundredths: u128)
    ensures
        final(s)@ == old(s)@ + two_decimals(hundredths as int),
{
    append_wide_digits(s, hundredths / 100);
    s.append(".");
    append_digit(s, ((hundredths / 10) % 10) as u64);
    append_digit(s, (hundredths % 10) as u64);
    assert(s@ =~= old(s)@ + two_decimals(hundredths as int));
}

/// Writes a literal with two decimals.
#[verifier::loop_isolation(false)]
pub fn two_decimals_of(text: &str) -> (r: String)
    ensures
        r@ == with_two_decimals(text@),
{
    let length = text.unicode_len();
    let negative = length > 0 && text.get_char(0) == '-';
    let start: usize = if negative {
        1
    } else {
        0
    };
    let mut whole: u128 = 0;
    let mut i: usize = start;
    while i < length && text.get_char(i) != '.'
        invariant
            start <= i <= length,
            forall|k: int| start <= k < i ==> text@[k] != '.',
            digits_only(text@, start as int, i as int),
            whole == number(text@, start as int, i as int),
            whole <= LARGEST_WHOLE_PART,
        decreases length - i,
    {
        let digit = match digit_of(text.get_char(i)) {
            Some(d) => d,
            None => {
                proof {
                    if is_plain(text@) {
                        lemma_point(text@, start as int);
                        let point = point_of(text@, start as int);
                        if i < point {
                            assert(digit_value(text@[i as int]) >= 0);
                        } else {
                            assert(text@[point] == '.');
                        }
                    }
                }
                return String::from_str(text);
            },
        };
        whole = whole * 10 + digit as u128;
        if whole > LARGEST_WHOLE_PART {
            proof {
                if is_plain(text@) {
                    lemma_point(text@, start as int);
                    let point = point_of(text@, start as int);
                    if i + 1 <= point {
                        lemma_number_grows(text@, start as int, i + 1, point);
                    } else {
                        assert(text@[point] == '.');
                    }
                }
            }
            return String::from_str(text);
        }
        i += 1;
    }
    let point = i;
    proof {
        lemma_point_is_first(text@, start as int, point as int);
    }
    if point == start {
        return String::from_str(text);
    }
    let mut tenths: u128 = 0;
    let mut hundredths: u128 = 0;
    let mut next: u8 = 0;
    let mut more = false;
    let mut j: usize = if point < length {
        point + 1
    } else {
        length
    };
    while j < length
        invariant
            point < j <= length || (point == length && j == length),
            digits_only(text@, point + 1, j as int),
            tenths == if point + 1 < j {
                digit_value(text@[point + 1])
            } else {
                0
            },
            hundredths == if point + 2 < j {
                digit_value(text@[point + 2])
            } else {
                0
            },
            next == if point + 3 < j {
                digit_value(text@[point + 3])
            } else {
                0
            },
            tenths <= 9 && hundredths <= 9 && next <= 9,
            more <==> exists|k: int| point + 4 <= k < j && digit_value(#[trigger] text@[k]) > 0,
        decreases length - j,
    {
        let digit = match digit_of(text.get_char(j)) {
            Some(d) => d,
            None => {
                assert(!digits_only(text@, point + 1, text@.len() as int));
                return String::from_str(text);
            },
        };
        if j == point + 1 {
            tenths = digit as u128;
        } else if j == point + 2 {
            hundredths = digit as u128;
        } else if j == point + 3 {
            next = digit;
        } else if digit > 0 {
            more = true;
        }
        j += 1;
    }
    assert(is_plain(text@));
    assert(more == has_more(text@, point + 4));
    let below: u128 = whole * 100 + tenths * 10 + hundredths;
    let rounded: u128 = if next > 5 || (next == 5 && (more || below % 2 == 1)) {
        below + 1
    } else {
        below
    };
    assert(rounded == nearest_hundredths(text@));
    let mut r = String::new();
    if negative {
        r.append("-");
    }
    append_two_decimals(&mut r, rounded);
    proof {
        if negative {
            assert(r@ =~= "-"@ + two_decimals(rounded as int));
        } else {
            assert(r@ =~= two_decimals(rounded as int));
        }
    }
    r
}

} // verus!
