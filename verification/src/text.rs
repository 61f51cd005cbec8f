//! Text helpers: comparison and the decimal notation of integers.

use vstd::prelude::*;
use vstd::string::*;

verus! {

/// Whether two texts hold the same characters.
pub fn text_eq(a: &str, b: &str) -> (r: bool)
    ensures
        r == (a@ == b@),
{
    String::from_str(a) == String::from_str(b)
}

/// The character that writes the digit `d`.
pub open spec fn digit_char(d: int) -> char {
    if d == 0 {
        '0'
    } else if d == 1 {
        '1'
    } else if d == 2 {
        '2'
    } else if d == 3 {
        '3'
    } else if d == 4 {
        '4'
    } else if d == 5 {
        '5'
    } else if d == 6 {
        '6'
    } else if d == 7 {
        '7'
    } else if d == 8 {
        '8'
    } else {
        '9'
    }
}

/// The decimal digits of a natural number, most significant first.
pub open spec fn digits(n: nat) -> Seq<char>
    decreases n,
{
    if n < 10 {
        seq![digit_char(n as int)]
    } else {
        digits(n / 10).push(digit_char((n % 10) as int))
    }
}

/// The decimal notation of an integer: a minus sign for a negative number, then
/// its digits.
pub open spec fn decimal(i: int) -> Seq<char> {
    if i < 0 {
        seq!['-'] + digits((-i) as nat)
    } else {
        digits(i as nat)
    }
}

fn digit_text(d: u64) -> (r: &'static str)
    requires
        d < 10,
    ensures
        r@ == seq![digit_char(d as int)],
{
    proof {
        reveal_strlit("0");
        reveal_strlit("1");
        reveal_strlit("2");
        reveal_strlit("3");
        reveal_strlit("4");
        reveal_strlit("5");
        reveal_strlit("6");
        reveal_strlit("7");
        reveal_strlit("8");
        reveal_strlit("9");
    }
    let r = if d == 0 {
        "0"
    } else if d == 1 {
        "1"
    } else if d == 2 {
        "2"
    } else if d == 3 {
        "3"
    } else if d == 4 {
        "4"
    } else if d == 5 {
        "5"
    } else if d == 6 {
        "6"
    } else if d == 7 {
        "7"
    } else if d == 8 {
        "8"
    } else {
        "9"
    };
    assert(r@ =~= seq![digit_char(d as int)]);
    r
}

/// Appends the digit `d` to `s`.
pub fn append_digit(s: &mut String, d: u64)
    requires
        d < 10,
    ensures
        final(s)@ == old(s)@.push(digit_char(d as int)),
{
    s.append(digit_text(d));
    assert(s@ =~= old(s)@.push(digit_char(d as int)));
}

/// Appends the decimal digits of `n` to `s`.
pub fn append_wide_digits(s: &mut String, n: u128)
    ensures
        final(s)@ == old(s)@ + digits(n as nat),
    decreases n,
{
    if n >= 10 {
        append_wide_digits(s, n / 10);
    }
    s.append(digit_text((n % 10) as u64));
    assert(s@ =~= old(s)@ + digits(n as nat));
}

/// Appends the decimal digits of `n` to `s`.
pub fn append_digits(s: &mut String, n: u64)
    ensures
        final(s)@ == old(s)@ + digits(n as nat),
{
    append_wide_digits(s, n as u128)
}

/// Appends the decimal notation of `i` to `s`.
pub fn append_decimal(s: &mut String, i: i64)
    ensures
        final(s)@ == old(s)@ + decimal(i as int),
{
    if i < 0 {
        proof {
            reveal_strlit("-");
        }
        s.append("-");
        let magnitude: u64 = ((-(i + 1)) as u64) + 1;
        append_digits(s, magnitude);
        assert(s@ =~= old(s)@ + decimal(i as int));
    } else {
        append_digits(s, i as u64);
    }
}

/// The decimal notation of `i`.
pub fn decimal_text(i: i64) -> (r: String)
    ensures
        r@ == decimal(i as int),
{
    let mut s = String::new();
    append_decimal(&mut s, i);
    assert(s@ =~= decimal(i as int));
    s
}

/// The writing of the first `upto` numbers of a list, separated by a comma and
/// a space.
pub open spec fn list_items_text(list: Seq<i64>, upto: int) -> Seq<char>
    decreases upto,
{
    if upto <= 0 {
        Seq::empty()
    } else if upto == 1 {
        decimal(list[0] as int)
    } else {
        list_items_text(list, upto - 1) + ", "@ + decimal(list[upto - 1] as int)
    }
}

/// The writing of a list of numbers, in square brackets.
pub open spec fn list_text(list: Seq<i64>) -> Seq<char> {
    "["@ + list_items_text(list, list.len() as int) + "]"@
}

/// The writing of a list of numbers.
pub fn list_text_of(list: &Vec<i64>) -> (r: String)
    ensures
        r@ == list_text(list@),
{
    let mut items = String::new();
    let mut i: usize = 0;
    while i < list.len()
        invariant
            i <= list.len(),
            items@ == list_items_text(list@, i as int),
        decreases list.len() - i,
    {
        if i > 0 {
            items.append(", ");
        }
        append_decimal(&mut items, list[i]);
        assert(items@ =~= list_items_text(list@, i + 1));
        i += 1;
    }
    let mut r = String::from_str("[");
    r.append(items.as_str());
    r.append("]");
    r
}

} // verus!
