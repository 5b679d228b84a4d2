//! Text that messages are built from.

use vstd::prelude::*;
use vstd::string::*;

verus! {

/// The decimal digit of value `d`, for `d` below ten.
pub open spec fn digit(d: int) -> char {
    (48 + d) as char
}

/// The decimal notation of `n`, without leading zeros.
pub open spec fn decimal(n: nat) -> Seq<char>
    decreases n,
{
    if n < 10 {
        seq![digit(n as int)]
    } else {
        decimal(n / 10).push(digit((n % 10) as int))
    }
}

/// The decimal notation of `n`, with a minus sign in front of a negative number.
pub open spec fn signed_decimal(n: int) -> Seq<char> {
    if n < 0 {
        "-"@ + decimal((-n) as nat)
    } else {
        decimal(n as nat)
    }
}

/// The number that a sequence of decimal digits denotes.
pub open spec fn decimal_value(digits: Seq<char>) -> int
    decreases digits.len(),
{
    if digits.len() == 0 {
        0
    } else {
        10 * decimal_value(digits.drop_last()) + (digits.last() as int - 48)
    }
}

/// A width and a height as messages show them: `640x480`.
pub open spec fn extent_text(width: int, height: int) -> Seq<char> {
    signed_decimal(width) + "x"@ + signed_decimal(height)
}

/// Decimal notation loses nothing: read back, it gives the number again.
pub proof fn decimal_reads_back(n: nat)
    ensures
        decimal_value(decimal(n)) == n,
    decreases n,
{
    reveal_with_fuel(decimal_value, 2);
    if n >= 10 {
        decimal_reads_back(n / 10);
        assert(decimal(n).drop_last() =~= decimal(n / 10));
    } else {
        assert(decimal(n).drop_last() =~= Seq::<char>::empty());
    }
}

fn digit_text(d: u64) -> (r: &'static str)
    requires
        d < 10,
    ensures
        r@ == seq![digit(d as int)],
{
    proof {
        reveal_strlit("0");
        reveal_strlit("1");
        reveal_strlit("2");
        reveal_strlit("3");
        reveal_strlit("4");
        reveal_strlit("5");
        reveal_strlit("6");
        reveal_strlit("7");
        reveal_strlit("8");
        reveal_strlit("9");
    }
    let r = match d {
        0 => "0",
        1 => "1",
        2 => "2",
        3 => "3",
        4 => "4",
        5 => "5",
        6 => "6",
        7 => "7",
        8 => "8",
        _ => "9",
    };
    assert(r@ =~= seq![digit(d as int)]);
    r
}

/// Appends the decimal notation of `n`.
pub fn push_decimal(out: &mut String, n: u64)
    ensures
        final(out)@ == old(out)@ + decimal(n as nat),
    decreases n,
{
    if n >= 10 {
        push_decimal(out, n / 10);
    }
    let d: u64 = n % 10;
    out.append(digit_text(d));
    assert(out@ =~= old(out)@ + decimal(n as nat));
}

/// Appends the decimal notation of `n`, with its sign.
pub fn push_signed(out: &mut String, n: i32)
    ensures
        final(out)@ == old(out)@ + signed_decimal(n as int),
{
    let wide: i64 = n as i64;
    if wide < 0 {
        out.append("-");
        push_decimal(out, (-wide) as u64);
        assert(out@ =~= old(out)@ + signed_decimal(n as int));
    } else {
        push_decimal(out, wide as u64);
    }
}

/// Appends a width and a height.
pub fn push_extent(out: &mut String, width: u32, height: u32)
    ensures
        final(out)@ == old(out)@ + extent_text(width as int, height as int),
{
    push_decimal(out, width as u64);
    out.append("x");
    push_decimal(out, height as u64);
    assert(out@ =~= old(out)@ + extent_text(width as int, height as int));
}

/// Appends a signed width and height.
pub fn push_signed_extent(out: &mut String, width: i32, height: i32)
    ensures
        final(out)@ == old(out)@ + extent_text(width as int, height as int),
{
    push_signed(out, width);
    out.append("x");
    push_signed(out, height);
    assert(out@ =~= old(out)@ + extent_text(width as int, height as int));
}

/// Whether the two texts have the same characters.
pub fn same_text(first: &str, second: &str) -> (r: bool)
    ensures
        r == (first@ == second@),
{
    first.to_owned() == second.to_owned()
}

/// The two texts, one after the other.
pub fn join2(first: &str, second: &str) -> (r: String)
    ensures
        r@ == first@ + second@,
{
    let mut out = first.to_owned();
    out.append(second);
    out
}

/// The three texts, one after the other.
pub fn join3(first: &str, second: &str, third: &str) -> (r: String)
    ensures
        r@ == first@ + second@ + third@,
{
    let mut out = first.to_owned();
    out.append(second);
    out.append(third);
    out
}

/// Decimal notation is the usual one: nothing but digits, and a zero in front only
/// in that of zero.
pub proof fn decimal_is_written_in_digits(n: nat)
    ensures
        decimal(n).len() > 0,
        forall|i: int| 0 <= i < decimal(n).len() ==> '0' <= #[trigger] decimal(n)[i] <= '9',
        decimal(n)[0] == '0' <==> n == 0,
    decreases n,
{
    if n >= 10 {
        decimal_is_written_in_digits(n / 10);
    }
}

/// A size reads as its width, a cross and its height, in this order.
pub proof fn extent_is_width_by_height(width: u32, height: u32)
    ensures
        extent_text(width as int, height as int) == decimal(width as nat) + seq!['x'] + decimal(
            height as nat,
        ),
{
    reveal_strlit("x");
    assert("x"@ =~= seq!['x']);
}

/// A negative number reads as the positive one with a minus sign in front.
pub proof fn negation_is_a_minus_sign(n: int)
    requires
        n > 0,
    ensures
        signed_decimal(n) == decimal(n as nat),
        signed_decimal(-n) == seq!['-'] + signed_decimal(n),
        signed_decimal(0) == decimal(0),
{
    reveal_strlit("-");
    assert("-"@ =~= seq!['-']);
}

} // verus!
