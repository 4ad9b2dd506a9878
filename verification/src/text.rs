//! Decimal, hexadecimal, octal and binary forms of integers, and padded text, as the archive
//! reports print them.
use vstd::prelude::*;
use vstd::string::*;

verus! {

/// The digit that stands for `d` (below 16), with upper case letters when `upper`.
pub open spec fn digit_char(d: nat, upper: bool) -> char {
    if d == 0 {
        '0'
    } else if d == 1 {
        '1'
    } else if d == 2 {
        '2'
    } else if d == 3 {
        '3'
    } else if d == 4 {
        '4'
    } else if d == 5 {
        '5'
    } else if d == 6 {
        '6'
    } else if d == 7 {
        '7'
    } else if d == 8 {
        '8'
    } else if d == 9 {
        '9'
    } else if d == 10 {
        if upper { 'A' } else { 'a' }
    } else if d == 11 {
        if upper { 'B' } else { 'b' }
    } else if d == 12 {
        if upper { 'C' } else { 'c' }
    } else if d == 13 {
        if upper { 'D' } else { 'd' }
    } else if d == 14 {
        if upper { 'E' } else { 'e' }
    } else {
        if upper { 'F' } else { 'f' }
    }
}

/// The digits of `n` in base `base`, most significant first, without leading zeros (a single
/// `0` for zero).
pub open spec fn radix_text(n: nat, base: nat, upper: bool) -> Seq<char>
    decreases n,
{
    if base < 2 || n < base {
        seq![digit_char(n, upper)]
    } else {
        proof {
            assert(n / base < n) by (nonlinear_arith)
                requires
                    base >= 2,
                    n >= base,
            ;
        }
        radix_text(n / base, base, upper).push(digit_char(n % base, upper))
    }
}

/// The decimal digits of `n`.
pub open spec fn decimal_text(n: nat) -> Seq<char> {
    radix_text(n, 10, false)
}

/// `t` preceded by as many `c` as it takes to make it `width` characters long.
pub open spec fn left_padded(t: Seq<char>, width: nat, c: char) -> Seq<char> {
    if t.len() >= width {
        t
    } else {
        Seq::new((width - t.len()) as nat, |i: int| c) + t
    }
}

/// `t` followed by as many spaces as it takes to make it `width` characters long.
pub open spec fn right_padded(t: Seq<char>, width: nat) -> Seq<char> {
    if t.len() >= width {
        t
    } else {
        t + Seq::new((width - t.len()) as nat, |i: int| ' ')
    }
}

/// The one-character text of the digit `d`.
fn digit_str(d: u64, upper: bool) -> (s: &'static str)
    requires
        d < 16,
    ensures
        s@ == seq![digit_char(d as nat, upper)],
{
    proof {
        reveal_strlit("0");
        reveal_strlit("1");
        reveal_strlit("2");
        reveal_strlit("3");
        reveal_strlit("4");
        reveal_strlit("5");
        reveal_strlit("6");
        reveal_strlit("7");
        reveal_strlit("8");
        reveal_strlit("9");
        reveal_strlit("a");
        reveal_strlit("b");
        reveal_strlit("c");
        reveal_strlit("d");
        reveal_strlit("e");
        reveal_strlit("f");
        reveal_strlit("A");
        reveal_strlit("B");
        reveal_strlit("C");
        reveal_strlit("D");
        reveal_strlit("E");
        reveal_strlit("F");
    }
    if d == 0 {
        "0"
    } else if d == 1 {
        "1"
    } else if d == 2 {
        "2"
    } else if d == 3 {
        "3"
    } else if d == 4 {
        "4"
    } else if d == 5 {
        "5"
    } else if d == 6 {
        "6"
    } else if d == 7 {
        "7"
    } else if d == 8 {
        "8"
    } else if d == 9 {
        "9"
    } else if d == 10 {
        if upper { "A" } else { "a" }
    } else if d == 11 {
        if upper { "B" } else { "b" }
    } else if d == 12 {
        if upper { "C" } else { "c" }
    } else if d == 13 {
        if upper { "D" } else { "d" }
    } else if d == 14 {
        if upper { "E" } else { "e" }
    } else {
        if upper { "F" } else { "f" }
    }
}

/// The digits of `n` in base `base`, most significant first, without leading zeros.
pub fn radix_string(n: u64, base: u64, upper: bool) -> (s: String)
    requires
        2 <= base <= 16,
    ensures
        s@ == radix_text(n as nat, base as nat, upper),
    decreases n,
{
    if n < base {
        String::from_str(digit_str(n, upper))
    } else {
        proof {
            assert(n / base < n) by (nonlinear_arith)
                requires
                    base >= 2,
                    n >= base,
            ;
        }
        let mut s = radix_string(n / base, base, upper);
        s.append(digit_str(n % base, upper));
        s
    }
}

/// The decimal digits of `n`.
pub fn decimal_string(n: u64) -> (s: String)
    ensures
        s@ == decimal_text(n as nat),
{
    radix_string(n, 10, false)
}

/// `t` preceded by as many `fill` as it takes to make it `width` characters long; `fill` is a
/// one-character text.
pub fn left_pad(t: &str, width: usize, fill: &str) -> (s: String)
    requires
        fill@.len() == 1,
    ensures
        s@ == left_padded(t@, width as nat, fill@[0]),
{
    let n = t.unicode_len();
    let mut s = String::new();
    if n < width {
        let mut i: usize = 0;
        while i < width - n
            invariant
                n == t@.len(),
                n < width,
                i <= width - n,
                fill@.len() == 1,
                s@ == Seq::new(i as nat, |j: int| fill@[0]),
            decreases width - n - i,
        {
            s.append(fill);
            i = i + 1;
            assert(s@ =~= Seq::new(i as nat, |j: int| fill@[0]));
        }
    }
    s.append(t);
    assert(s@ =~= left_padded(t@, width as nat, fill@[0]));
    s
}

/// `t` followed by as many spaces as it takes to make it `width` characters long.
pub fn right_pad(t: &str, width: usize) -> (s: String)
    ensures
        s@ == right_padded(t@, width as nat),
{
    proof {
        reveal_strlit(" ");
    }
    let n = t.unicode_len();
    let mut s = String::from_str(t);
    if n < width {
        let mut i: usize = 0;
        while i < width - n
            invariant
                n == t@.len(),
                n < width,
                i <= width - n,
                " "@ == seq![' '],
                s@ == t@ + Seq::new(i as nat, |j: int| ' '),
            decreases width - n - i,
        {
            s.append(" ");
            i = i + 1;
            assert(s@ =~= t@ + Seq::new(i as nat, |j: int| ' '));
        }
    }
    assert(s@ =~= right_padded(t@, width as nat));
    s
}

} // verus!
