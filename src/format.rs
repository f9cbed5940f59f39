//! Elapsed time as text for the progress display.
use vstd::prelude::*;

verus! {

pub open spec fn digit_char(d: nat) -> char {
    (d + '0' as int) as char
}

/// `n` in decimal, without leading zeros.
pub open spec fn decimal(n: nat) -> Seq<char>
    decreases n,
{
    if n < 10 {
        seq![digit_char(n)]
    } else {
        decimal(n / 10) + seq![digit_char(n % 10)]
    }
}

/// `s` seconds as whole minutes and the seconds left over.
pub open spec fn duration_text(s: nat) -> Seq<char> {
    decimal(s / 60) + " mins, "@ + decimal(s % 60) + " seconds"@
}

/// The one-digit string for `d`.
fn digit_str(d: usize) -> (r: &'static str)
    requires
        d < 10,
    ensures
        r@ == seq![digit_char(d as nat)],
{
    proof {
        reveal_strlit("0");
        reveal_strlit("1");
        reveal_strlit("2");
        reveal_strlit("3");
        reveal_strlit("4");
        reveal_strlit("5");
        reveal_strlit("6");
        reveal_strlit("7");
        reveal_strlit("8");
        reveal_strlit("9");
    }
    let r = match d {
        0 => "0",
        1 => "1",
        2 => "2",
        3 => "3",
        4 => "4",
        5 => "5",
        6 => "6",
        7 => "7",
        8 => "8",
        _ => "9",
    };
    assert(r@ =~= seq![digit_char(d as nat)]);
    r
}

/// Appends `n` in decimal to `out`.
fn push_decimal(out: &mut String, n: usize)
    ensures
        final(out)@ == old(out)@ + decimal(n as nat),
    decreases n,
{
    if n >= 10 {
        push_decimal(out, n / 10);
    }
    out.append(digit_str(n % 10));
    assert(final(out)@ =~= old(out)@ + decimal(n as nat));
}

/// `seconds` written as "<m> mins, <s> seconds".
pub fn format_duration(seconds: usize) -> (r: String)
    ensures
        r@ == duration_text(seconds as nat),
{
    let mut out = String::new();
    push_decimal(&mut out, seconds / 60);
    out.append(" mins, ");
    push_decimal(&mut out, seconds % 60);
    out.append(" seconds");
    assert(out@ =~= duration_text(seconds as nat));
    out
}

} // verus!
