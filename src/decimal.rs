use vstd::prelude::*;

verus! {

/// The text of one decimal digit `d` in `0..10`.
pub open spec fn digit_text(d: int) -> Seq<char> {
    if d == 0 {
        "0"@
    } else if d == 1 {
        "1"@
    } else if d == 2 {
        "2"@
    } else if d == 3 {
        "3"@
    } else if d == 4 {
        "4"@
    } else if d == 5 {
        "5"@
    } else if d == 6 {
        "6"@
    } else if d == 7 {
        "7"@
    } else if d == 8 {
        "8"@
    } else {
        "9"@
    }
}

/// The decimal digits of `n`, most significant first, without leading zeros
/// (`0` is written `"0"`).
pub open spec fn digits(n: nat) -> Seq<char>
    decreases n,
{
    if n < 10 {
        digit_text(n as int)
    } else {
        digits(n / 10) + digit_text((n % 10) as int)
    }
}

pub open spec fn magnitude(x: int) -> nat {
    if x < 0 {
        (-x) as nat
    } else {
        x as nat
    }
}

/// `m` millionths rounded to the nearest hundredth, ties to the even one.
pub open spec fn hundredths(m: nat) -> nat {
    let h = m / 10000;
    let rest = m % 10000;
    if rest > 5000 || (rest == 5000 && h % 2 == 1) {
        h + 1
    } else {
        h
    }
}

/// `x` millionths written with two decimals, such as `"-3.25"`: a minus sign
/// when `x` is negative, the whole part, a point and two digits.
pub open spec fn decimal_text(x: int) -> Seq<char> {
    let h = hundredths(magnitude(x));
    (if x < 0 {
        "-"@
    } else {
        ""@
    }) + digits(h / 100) + "."@ + digit_text(((h % 100) / 10) as int) + digit_text((h % 10) as int)
}

fn digit_str(d: u64) -> (r: &'static str)
    requires
        d < 10,
    ensures
        r@ == digit_text(d as int),
{
    if d == 0 {
        "0"
    } else if d == 1 {
        "1"
    } else if d == 2 {
        "2"
    } else if d == 3 {
        "3"
    } else if d == 4 {
        "4"
    } else if d == 5 {
        "5"
    } else if d == 6 {
        "6"
    } else if d == 7 {
        "7"
    } else if d == 8 {
        "8"
    } else {
        "9"
    }
}

fn push_digits(out: &mut String, n: u64)
    ensures
        final(out)@ == old(out)@ + digits(n as nat),
    decreases n,
{
    if n >= 10 {
        push_digits(out, n / 10);
        out.append(digit_str(n % 10));
        assert(final(out)@ =~= old(out)@ + digits(n as nat));
    } else {
        out.append(digit_str(n));
    }
}

/// Writes `x` millionths with two decimals: see [`decimal_text`].
pub fn decimal_string(x: i64) -> (r: String)
    ensures
        r@ == decimal_text(x as int),
{
    let wide: i128 = x as i128;
    let m: u64 = if wide < 0 {
        (-wide) as u64
    } else {
        wide as u64
    };
    let h0: u64 = m / 10000;
    let rest: u64 = m % 10000;
    let h: u64 = if rest > 5000 || (rest == 5000 && h0 % 2 == 1) {
        h0 + 1
    } else {
        h0
    };
    let mut out = String::new();
    if x < 0 {
        out.append("-");
    }
    let ghost sign = out@;
    push_digits(&mut out, h / 100);
    out.append(".");
    out.append(digit_str((h % 100) / 10));
    out.append(digit_str(h % 10));
    proof {
        reveal_strlit("");
        assert(sign =~= (if x < 0 { "-"@ } else { ""@ }));
    }
    out
}

} // verus!
