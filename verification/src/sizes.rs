//! Numbers of bytes as people read them.

use vstd::prelude::*;

use crate::text;

verus! {

/// Up to here every integer is a double.
pub const DOUBLE_LIMIT: u64 = 9_007_199_254_740_992;

/// `n / d` to the nearest integer, and to the even one of two.
pub open spec fn nearest(n: nat, d: nat) -> nat {
    let q = n / d;
    let r = n % d;
    if 2 * r > d || (2 * r == d && q % 2 == 1) {
        q + 1
    } else {
        q
    }
}

/// The distance between neighbouring doubles around `n`.
pub open spec fn spacing(n: nat) -> nat
    decreases n,
{
    if n < DOUBLE_LIMIT {
        1
    } else {
        2 * spacing(n / 2)
    }
}

/// The double that is nearest to an integer.
pub open spec fn as_double(n: nat) -> nat {
    if n < DOUBLE_LIMIT {
        n
    } else {
        nearest(n, spacing(n)) * spacing(n)
    }
}

/// The bytes in the unit that a number of bytes is given in.
pub open spec fn unit_size(value: nat) -> nat {
    if value < 1024 {
        1
    } else if value < 1_048_576 {
        1024
    } else if value < 1_073_741_824 {
        1_048_576
    } else {
        1_073_741_824
    }
}

/// The name of the unit that a number of bytes is given in.
pub open spec fn unit_name(value: nat) -> Seq<char> {
    if value < 1024 {
        "B"@
    } else if value < 1_048_576 {
        "KiB"@
    } else if value < 1_073_741_824 {
        "MiB"@
    } else {
        "GiB"@
    }
}

/// A number of tenths with one digit behind the point.
pub open spec fn tenths(n: nat) -> Seq<char> {
    text::decimal(n / 10) + "."@ + text::decimal(n % 10)
}

/// A number of bytes as people read it: as it is below 1024, and else in a
/// larger unit, as a double and with one digit behind the point.
pub open spec fn bytes_text(bytes: nat) -> Seq<char> {
    if bytes < 1024 {
        text::decimal(bytes) + " B"@
    } else {
        let value = as_double(bytes);
        tenths(nearest(value * 10, unit_size(value))) + " "@ + unit_name(value)
    }
}

/// `n / d` to the nearest integer, and to the even one of two.
fn rounded(n: u128, d: u128) -> (r: u128)
    requires
        0 < d <= u64::MAX,
    ensures
        r == nearest(n as nat, d as nat),
        r <= n / d + 1,
{
    let q: u128 = n / d;
    let r: u128 = n % d;
    proof {
        assert(q <= n) by (nonlinear_arith)
            requires
                q == n / d,
                d > 0,
        ;
        if q == u128::MAX {
            assert(d == 1) by (nonlinear_arith)
                requires
                    q == n / d,
                    q == u128::MAX,
                    n <= u128::MAX,
                    d > 0,
            ;
        }
    }
    if 2 * r > d || (2 * r == d && q % 2 == 1) {
        q + 1
    } else {
        q
    }
}

/// The distance between neighbouring doubles around `n`.
fn double_spacing(n: u64) -> (r: u64)
    ensures
        r == spacing(n as nat),
        1 <= r <= 2048,
{
    let mut rest: u64 = n;
    let mut step: u64 = 1;
    proof {
        assert(spacing(n as nat) == 1 * spacing(n as nat));
        lemma_spacing(n as nat);
    }
    while rest >= DOUBLE_LIMIT
        invariant
            step >= 1,
            spacing(n as nat) == step * spacing(rest as nat),
            1 <= spacing(n as nat) <= 2048,
            spacing(rest as nat) >= 1,
        decreases rest,
    {
        proof {
            let inner = spacing((rest / 2) as nat);
            lemma_spacing_positive((rest / 2) as nat);
            assert(step * (2 * inner) == (2 * step) * inner) by (nonlinear_arith);
            assert(2 * step <= (2 * step) * inner) by (nonlinear_arith)
                requires
                    inner >= 1,
                    step >= 1,
            ;
        }
        step = 2 * step;
        rest = rest / 2;
    }
    proof {
        assert(step * spacing(rest as nat) == step) by (nonlinear_arith)
            requires
                spacing(rest as nat) == 1,
        ;
    }
    step
}

/// Doubles are never closer than integers.
proof fn lemma_spacing_positive(n: nat)
    ensures
        spacing(n) >= 1,
    decreases n,
{
    if n >= DOUBLE_LIMIT {
        lemma_spacing_positive(n / 2);
    }
}

/// How far apart doubles are among 64-bit integers.
proof fn lemma_spacing(n: nat)
    requires
        n <= u64::MAX,
    ensures
        1 <= spacing(n) <= 2048,
{
    reveal_with_fuel(spacing, 13);
}

/// A number of bytes as people read it.
pub fn human_bytes(bytes: u64) -> (r: String)
    ensures
        r@ == bytes_text(bytes as nat),
{
    if bytes < 1024 {
        return text::decimal_text(bytes).concat(" B");
    }
    let step: u128 = double_spacing(bytes) as u128;
    let quotient: u128 = rounded(bytes as u128, step);
    proof {
        assert(quotient * step <= (bytes as u128 / step + 1) * step) by (nonlinear_arith)
            requires
                quotient <= bytes as u128 / step + 1,
                step >= 1,
        ;
        assert((bytes as u128 / step) * step <= bytes) by (nonlinear_arith)
            requires
                step >= 1,
        ;
        assert((bytes as u128 / step + 1) * step == (bytes as u128 / step) * step + step)
            by (nonlinear_arith);
        if bytes < DOUBLE_LIMIT {
            assert(step == 1);
            assert(bytes as nat / 1 == bytes);
            assert(bytes as nat % 1 == 0);
            assert(quotient * step == quotient) by (nonlinear_arith)
                requires
                    step == 1,
            ;
        }
    }
    let value: u128 = quotient * step;
    let (size, name): (u128, &'static str) = if value < 1024 {
        (1, "B")
    } else if value < 1_048_576 {
        (1024, "KiB")
    } else if value < 1_073_741_824 {
        (1_048_576, "MiB")
    } else {
        (1_073_741_824, "GiB")
    };
    let parts: u128 = rounded(value * 10, size);
    proof {
        assert(value * 10 / size as int <= value * 10) by (nonlinear_arith)
            requires
                size >= 1,
                value >= 0,
        ;
        lemma_parts(value as nat, size as nat);
    }
    let whole: u64 = (parts / 10) as u64;
    let part: u64 = (parts % 10) as u64;
    text::decimal_text(whole).concat(".").concat(text::decimal_text(part).as_str()).concat(
        " ",
    ).concat(name)
}

/// The tenths of a size fit in 64 bits.
proof fn lemma_parts(value: nat, size: nat)
    requires
        value <= u64::MAX + 2048,
        size == unit_size(value),
    ensures
        nearest(value * 10, size) / 10 <= u64::MAX,
{
    assert(value * 10 / size <= value * 10) by (nonlinear_arith)
        requires
            size >= 1,
    ;
    if size == 1 {
        assert(value * 10 / size <= 10240);
    } else {
        assert(value * 10 / size <= value * 10 / 1024) by (nonlinear_arith)
            requires
                size >= 1024,
        ;
    }
}

} // verus!
