//! Decimal rendering of integers, the one formatting primitive that the
//! gateway's messages are built from.

use vstd::prelude::*;

verus! {

/// The ASCII character of the decimal digit `d`.
pub open spec fn digit_char(d: nat) -> char {
    ('0' as int + d) as char
}

/// The decimal digits of `n`, most significant first, without leading zeros.
pub open spec fn digits(n: nat) -> Seq<char>
    decreases n,
{
    if n < 10 {
        seq![digit_char(n)]
    } else {
        digits(n / 10).push(digit_char(n % 10))
    }
}

/// The decimal form of `n`, with a leading minus sign when `n` is negative.
pub open spec fn decimal(n: int) -> Seq<char> {
    if n < 0 {
        seq!['-'] + digits((-n) as nat)
    } else {
        digits(n as nat)
    }
}

/// The text of the single decimal digit `d`.
fn digit_text(d: u64) -> (text: &'static str)
    requires
        d < 10,
    ensures
        text@ == seq![digit_char(d as nat)],
{
    proof {
        reveal_strlit("0");
        reveal_strlit("1");
        reveal_strlit("2");
        reveal_strlit("3");
        reveal_strlit("4");
        reveal_strlit("5");
        reveal_strlit("6");
        reveal_strlit("7");
        reveal_strlit("8");
        reveal_strlit("9");
    }
    let text = match d {
        0 => "0",
        1 => "1",
        2 => "2",
        3 => "3",
        4 => "4",
        5 => "5",
        6 => "6",
        7 => "7",
        8 => "8",
        _ => "9",
    };
    assert(text@ =~= seq![digit_char(d as nat)]);
    text
}

/// Appends the decimal digits of `n` to `out`.
pub fn append_digits(out: &mut String, n: u64)
    ensures
        final(out)@ == old(out)@ + digits(n as nat),
    decreases n,
{
    if n >= 10 {
        append_digits(out, n / 10);
    }
    out.append(digit_text(n % 10));
    assert(out@ =~= old(out)@ + digits(n as nat));
}

/// Appends the decimal form of `n` to `out`.
pub fn append_decimal(out: &mut String, n: i64)
    ensures
        final(out)@ == old(out)@ + decimal(n as int),
{
    if n < 0 {
        let magnitude: i128 = -(n as i128);
        proof {
            reveal_strlit("-");
        }
        out.append("-");
        append_digits(out, magnitude as u64);
        assert(out@ =~= old(out)@ + decimal(n as int));
    } else {
        append_digits(out, n as u64);
    }
}

/// Joins `prefix`, the decimal form of `n` and `suffix`.
pub fn with_number(prefix: &str, n: i64, suffix: &str) -> (text: String)
    ensures
        text@ == prefix@ + decimal(n as int) + suffix@,
{
    let mut text = String::new();
    text.append(prefix);
    append_decimal(&mut text, n);
    text.append(suffix);
    assert(text@ =~= prefix@ + decimal(n as int) + suffix@);
    text
}

/// The value that a sequence of decimal digits stands for.
pub open spec fn digits_value(s: Seq<char>) -> int
    decreases s.len(),
{
    if s.len() == 0 {
        0
    } else {
        10 * digits_value(s.drop_last()) + (s.last() as int - '0' as int)
    }
}

/// Reading the digits of a number back gives the number.
pub proof fn digits_read_back(n: nat)
    ensures
        digits_value(digits(n)) == n,
        digits(n).len() >= 1,
        forall|i: int| 0 <= i < digits(n).len() ==> '0' <= #[trigger] digits(n)[i] <= '9',
    decreases n,
{
    reveal_with_fuel(digits_value, 2);
    if n < 10 {
        assert(digits(n).drop_last() =~= Seq::<char>::empty());
    } else {
        digits_read_back(n / 10);
        assert(digits(n).drop_last() =~= digits(n / 10));
    }
}

/// Different numbers have different decimal forms, so a message that names a
/// transaction names exactly one.
pub proof fn decimal_is_injective(a: int, b: int)
    requires
        decimal(a) == decimal(b),
    ensures
        a == b,
{
    let x = if a < 0 { -a } else { a };
    let y = if b < 0 { -b } else { b };
    digits_read_back(x as nat);
    digits_read_back(y as nat);
    if a < 0 && b < 0 {
        assert(decimal(a).skip(1) =~= digits(x as nat));
        assert(decimal(b).skip(1) =~= digits(y as nat));
    } else if a < 0 {
        assert(decimal(a)[0] == '-');
        assert(digits(y as nat)[0] >= '0');
    } else if b < 0 {
        assert(decimal(b)[0] == '-');
        assert(digits(x as nat)[0] >= '0');
    }
}

/// Reading a decimal form back gives the number: a minus sign and the digits of
/// its magnitude when it is negative, and its digits alone when it is not. There is
/// no leading zero but for the number zero itself.
pub proof fn decimal_reads_back(n: int)
    ensures
        n >= 0 ==> digits_value(decimal(n)) == n,
        n < 0 ==> decimal(n)[0] == '-' && digits_value(decimal(n).skip(1)) == -n,
        n >= 0 ==> (decimal(n).len() > 1 ==> decimal(n)[0] != '0'),
        n < 0 ==> decimal(n)[1] != '0',
{
    let magnitude = if n < 0 { (-n) as nat } else { n as nat };
    digits_read_back(magnitude);
    first_digit_counts(magnitude);
    if n < 0 {
        assert(decimal(n).skip(1) =~= digits(magnitude));
    }
}

proof fn first_digit_counts(n: nat)
    ensures
        digits(n).len() >= 1,
        n > 0 ==> digits(n)[0] != '0',
    decreases n,
{
    if n >= 10 {
        first_digit_counts(n / 10);
    }
}

} // verus!
