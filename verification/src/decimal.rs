//! Decimal notation of integers.

use vstd::math::abs;
use vstd::prelude::*;
use vstd::string::*;

verus! {

/// The character that denotes the digit `d`, for `d` below ten.
pub open spec fn digit(d: nat) -> char {
    seq!['0', '1', '2', '3', '4', '5', '6', '7', '8', '9'][d as int]
}

/// The decimal digits of `n`, most significant first, without leading zeros.
pub open spec fn nat_decimal(n: nat) -> Seq<char>
    decreases n,
{
    if n < 10 {
        seq![digit(n)]
    } else {
        nat_decimal(n / 10).push(digit(n % 10))
    }
}

/// The decimal notation of `i`: a minus sign if `i` is negative, then the
/// digits of its magnitude.
pub open spec fn decimal(i: int) -> Seq<char> {
    if i < 0 {
        seq!['-'] + nat_decimal(abs(i))
    } else {
        nat_decimal(abs(i))
    }
}

/// Where the digits begin in the notation of `i`: after the minus sign, if
/// there is one.
pub open spec fn digits_start(i: int) -> int {
    if i < 0 {
        1
    } else {
        0
    }
}

/// Whether `c` is one of the ten digit characters.
pub open spec fn is_digit(c: char) -> bool {
    '0' as int <= c as int <= '9' as int
}

/// The number that a string of digits denotes; zero for the empty string.
pub open spec fn digits_value(s: Seq<char>) -> int
    decreases s.len(),
{
    if s.len() == 0 {
        0
    } else {
        10 * digits_value(s.drop_last()) + (s.last() as int - '0' as int)
    }
}

/// The integer that `s` denotes: a leading minus sign negates the digits
/// after it.
pub open spec fn decimal_value(s: Seq<char>) -> int {
    if s.len() > 0 && s[0] == '-' {
        -digits_value(s.subrange(1, s.len() as int))
    } else {
        digits_value(s)
    }
}

/// The digits of a natural number are one or more digit characters, begin
/// with `0` only for zero itself, and denote that number.
pub proof fn lemma_nat_decimal(n: nat)
    ensures
        nat_decimal(n).len() >= 1,
        forall|k: int| 0 <= k < nat_decimal(n).len() ==> is_digit(#[trigger] nat_decimal(n)[k]),
        nat_decimal(n)[0] == '0' <==> n == 0,
        n == 0 ==> nat_decimal(n) == seq!['0'],
        digits_value(nat_decimal(n)) == n,
    decreases n,
{
    if n < 10 {
        assert(digits_value(nat_decimal(n).drop_last()) == 0);
    } else {
        lemma_nat_decimal(n / 10);
        assert(nat_decimal(n).drop_last() =~= nat_decimal(n / 10));
    }
}

/// The notation of an integer begins with a minus sign exactly when the
/// integer is negative. What follows is the digits of its magnitude: digit
/// characters only, at least one, the first of them `0` only for zero. And
/// the notation denotes that integer, so no two integers are written alike.
pub proof fn lemma_decimal(i: int)
    ensures
        decimal(i)[0] == '-' <==> i < 0,
        decimal(i).subrange(digits_start(i), decimal(i).len() as int) == nat_decimal(abs(i)),
        decimal(i).len() > digits_start(i),
        forall|k: int|
            digits_start(i) <= k < decimal(i).len() ==> is_digit(#[trigger] decimal(i)[k]),
        decimal(i)[digits_start(i)] == '0' <==> i == 0,
        decimal_value(decimal(i)) == i,
{
    lemma_nat_decimal(abs(i));
    if i < 0 {
        assert(decimal(i).subrange(1, decimal(i).len() as int) =~= nat_decimal(abs(i)));
    } else {
        assert(decimal(i).subrange(0, decimal(i).len() as int) =~= nat_decimal(abs(i)));
    }
}

/// The one-character string for the digit `d`.
fn digit_str(d: u64) -> (s: &'static str)
    requires
        d < 10,
    ensures
        s@ == seq![digit(d as nat)],
{
    proof {
        reveal_strlit("0");
        reveal_strlit("1");
        reveal_strlit("2");
        reveal_strlit("3");
        reveal_strlit("4");
        reveal_strlit("5");
        reveal_strlit("6");
        reveal_strlit("7");
        reveal_strlit("8");
        reveal_strlit("9");
    }
    match d {
        0 => "0",
        1 => "1",
        2 => "2",
        3 => "3",
        4 => "4",
        5 => "5",
        6 => "6",
        7 => "7",
        8 => "8",
        _ => "9",
    }
}

/// Appends the decimal digits of `n` to `out`.
pub fn write_nat(n: u64, out: &mut String)
    ensures
        final(out)@ == old(out)@ + nat_decimal(n as nat),
    decreases n,
{
    if n >= 10 {
        write_nat(n / 10, out);
    }
    out.append(digit_str(n % 10));
}

/// Appends the decimal notation of `i` to `out`.
pub fn write_int(i: i64, out: &mut String)
    ensures
        final(out)@ == old(out)@ + decimal(i as int),
{
    if i < 0 {
        proof {
            reveal_strlit("-");
        }
        out.append("-");
        let magnitude: u64 = (-(i + 1)) as u64 + 1;
        write_nat(magnitude, out);
    } else {
        write_nat(i as u64, out);
    }
}

} // verus!
