//! IEEE-754 doubles as the integers that their bit patterns stand for.

use vstd::prelude::*;
use vstd::arithmetic::div_mod::*;
use vstd::arithmetic::power2::*;
use vstd::bits::*;

verus! {

/// The exponent field of a double.
pub open spec fn exponent_field(bits: u64) -> nat {
    ((bits / 0x10_0000_0000_0000) % 2048) as nat
}

/// The fraction field of a double.
pub open spec fn fraction_field(bits: u64) -> nat {
    (bits % 0x10_0000_0000_0000) as nat
}

pub open spec fn is_negative(bits: u64) -> bool {
    bits >= 0x8000_0000_0000_0000
}

/// Neither an infinity nor a NaN.
pub open spec fn is_finite(bits: u64) -> bool {
    exponent_field(bits) < 2047
}

/// The magnitude of a finite double as a multiple of the smallest positive double, 2^-1074.
pub open spec fn units(bits: u64) -> nat {
    if exponent_field(bits) == 0 {
        fraction_field(bits)
    } else {
        (0x10_0000_0000_0000 + fraction_field(bits)) * pow2((exponent_field(bits) - 1) as nat)
    }
}

/// The number of `units` in one.
pub open spec fn one() -> nat {
    pow2(1074)
}

/// A finite value between zero and one hundred, both included.
pub open spec fn percentage(bits: u64) -> bool {
    is_finite(bits) && units(bits) <= 100 * one() && (is_negative(bits) ==> units(bits) == 0)
}

/// Whether the magnitude exceeds the whole number `n`.
pub open spec fn exceeds(bits: u64, n: nat) -> bool {
    units(bits) > n * one()
}

/// The magnitude without its fractional part.
pub open spec fn whole_part(bits: u64) -> nat {
    units(bits) / one()
}

/// Integers below this one are all doubles.
pub const EXACT_INTEGERS: u64 = 0x20_0000_0000_0000;

/// Whether a double is exactly this number.
pub open spec fn denotes(bits: u64, n: nat) -> bool {
    is_finite(bits) && !is_negative(bits) && units(bits) == n * one()
}

/// The significand of a normal double, an integer between 2^52 and 2^53.
fn significand(bits: u64) -> (r: u64)
    ensures
        r == 0x10_0000_0000_0000 + fraction_field(bits),
        0x10_0000_0000_0000 <= r < 0x20_0000_0000_0000,
{
    0x10_0000_0000_0000 + bits % 0x10_0000_0000_0000
}

/// A normal double below one, or any double with a zero exponent field, is below one.
proof fn lemma_small(bits: u64)
    requires
        exponent_field(bits) < 1023,
    ensures
        units(bits) < one(),
{
    let e = exponent_field(bits);
    lemma_pow2_52_53();
    if e == 0 {
        lemma_pow2_strictly_increases(52, 1074);
    } else {
        let m = 0x10_0000_0000_0000 + fraction_field(bits);
        lemma_pow2_adds(53, (e - 1) as nat);
        lemma_pow2_pos((e - 1) as nat);
        assert(m * pow2((e - 1) as nat) < pow2(53) * pow2((e - 1) as nat)) by (nonlinear_arith)
            requires
                m < pow2(53),
                pow2((e - 1) as nat) > 0,
        ;
        if e + 52 < 1074 {
            lemma_pow2_strictly_increases((e + 52) as nat, 1074);
        }
        assert(53 + (e - 1) == e + 52);
    }
}

proof fn lemma_pow2_52_53()
    ensures
        pow2(52) == 0x10_0000_0000_0000,
        pow2(53) == 0x20_0000_0000_0000,
{
    lemma2_to64();
    lemma2_to64_rest();
}

/// For an exponent field between 1 and 1075 the value is the significand over a power of two.
pub proof fn fractional_values(bits: u64)
    requires
        1 <= exponent_field(bits) <= 1075,
    ensures
        ({
            let m = 0x10_0000_0000_0000 + fraction_field(bits);
            let d = pow2((1075 - exponent_field(bits)) as nat);
            &&& d > 0
            &&& whole_part(bits) == m / d
            &&& forall|n: nat| #[trigger] exceeds(bits, n) <==> m > n * d
        }),
{
    let e = exponent_field(bits);
    let m = 0x10_0000_0000_0000 + fraction_field(bits);
    let scale = pow2((e - 1) as nat);
    let d = pow2((1075 - e) as nat);
    lemma_pow2_pos((e - 1) as nat);
    lemma_pow2_pos((1075 - e) as nat);
    lemma_pow2_adds((e - 1) as nat, (1075 - e) as nat);
    assert((e - 1) + (1075 - e) == 1074);
    assert(one() == scale * d);
    lemma_div_multiples_vanish_quotient(scale as int, m as int, d as int);
    assert(m * scale == scale * m) by (nonlinear_arith);
    assert forall|n: nat| #[trigger] exceeds(bits, n) <==> m > n * d by {
        assert(n * (scale * d) == (n * d) * scale) by (nonlinear_arith);
        assert(m * scale > (n * d) * scale <==> m > n * d) by (nonlinear_arith)
            requires
                scale > 0,
        ;
    }
}

/// For an exponent field from 1075 on the value is a whole multiple of the significand.
pub proof fn whole_values(bits: u64)
    requires
        1075 <= exponent_field(bits),
    ensures
        ({
            let m = 0x10_0000_0000_0000 + fraction_field(bits);
            let f = pow2((exponent_field(bits) - 1075) as nat);
            &&& f > 0
            &&& whole_part(bits) == m * f
            &&& forall|n: nat| #[trigger] exceeds(bits, n) <==> m * f > n
        }),
{
    let e = exponent_field(bits);
    let m = 0x10_0000_0000_0000 + fraction_field(bits);
    let f = pow2((e - 1075) as nat);
    lemma_pow2_pos((e - 1075) as nat);
    lemma_pow2_pos(1074);
    lemma_pow2_adds((e - 1075) as nat, 1074);
    assert((e - 1075) + 1074 == e - 1);
    assert(pow2((e - 1) as nat) == f * one());
    assert(m * (f * one()) == (m * f) * one()) by (nonlinear_arith);
    lemma_div_multiples_vanish((m * f) as int, one() as int);
    assert((m * f) * one() == one() * (m * f)) by (nonlinear_arith);
    assert forall|n: nat| #[trigger] exceeds(bits, n) <==> m * f > n by {
        assert((m * f) * one() > n * one() <==> m * f > n) by (nonlinear_arith)
            requires
                one() > 0,
        ;
    }
}

/// The magnitude cut to a whole number, and whether anything was cut off, when it is below 2^60.
pub fn whole_and_rest(bits: u64) -> (r: Option<(u64, bool)>)
    ensures
        match r {
            Some((whole, rest)) => {
                &&& is_finite(bits)
                &&& whole == whole_part(bits)
                &&& whole < 0x1000_0000_0000_0000
                &&& forall|n: nat| #[trigger]
                    exceeds(bits, n) <==> whole > n || (whole == n && rest)
            },
            None => !is_finite(bits) || whole_part(bits) >= 0x1000_0000_0000_0000,
        },
{
    let e: u64 = (bits / 0x10_0000_0000_0000) % 2048;
    assert(e == exponent_field(bits));
    if e >= 1083 {
        proof {
            if is_finite(bits) {
                whole_values(bits);
                lemma_pow2_of_8();
                if e > 1083 {
                    lemma_pow2_strictly_increases(8, (e - 1075) as nat);
                }
                let m = 0x10_0000_0000_0000 + fraction_field(bits);
                let f = pow2((e - 1075) as nat);
                assert(m * f >= 0x10_0000_0000_0000 * 256) by (nonlinear_arith)
                    requires
                        m >= 0x10_0000_0000_0000,
                        f >= 256,
                ;
            }
        }
        return None;
    }
    if e < 1023 {
        let rest: bool = bits % 0x8000_0000_0000_0000 != 0;
        proof {
            lemma_small(bits);
            lemma_pow2_pos(1074);
            lemma_basic_div(units(bits) as int, one() as int);
            lemma_units_zero(bits);
            assert forall|n: nat| #[trigger] exceeds(bits, n) <==> 0 > n || (0 == n && rest) by {
                if n > 0 {
                    assert(n * one() >= one()) by (nonlinear_arith)
                        requires
                            n > 0,
                            one() > 0,
                    ;
                }
            }
        }
        return Some((0, rest));
    }
    let m: u64 = significand(bits);
    if e >= 1075 {
        let k: u64 = e - 1075;
        proof {
            whole_values(bits);
            lemma_pow2_of_8();
            if k < 7 {
                lemma_pow2_strictly_increases(k as nat, 7);
            }
            let f = pow2(k as nat);
            assert(m * f < 0x1000_0000_0000_0000) by (nonlinear_arith)
                requires
                    m < 0x20_0000_0000_0000,
                    0 < f <= 128,
            ;
            lemma_u64_shl_is_mul(m, k);
        }
        let whole: u64 = m << k;
        Some((whole, false))
    } else {
        let k: u64 = 1075 - e;
        let ghost d = pow2(k as nat);
        proof {
            fractional_values(bits);
            lemma_u64_shr_is_div(m, k);
            if k < 52 {
                lemma_pow2_strictly_increases(k as nat, 52);
            }
            lemma_pow2_52_53();
            lemma_pow2_pos(k as nat);
            lemma_u64_shl_is_mul(1, k);
        }
        let whole: u64 = m >> k;
        let divisor: u64 = 1u64 << k;
        let rest: bool = m % divisor != 0;
        proof {
            assert(divisor == d);
            lemma_fundamental_div_mod(m as int, d as int);
            let q = whole as int;
            let left = m as int % d as int;
            assert(m == d * q + left);
            assert(q <= m) by (nonlinear_arith)
                requires
                    m == d * q + left,
                    left >= 0,
                    d >= 1,
                    q >= 0,
            ;
            assert forall|n: nat| #[trigger] exceeds(bits, n) <==> whole > n || (whole == n
                && rest) by {
                assert(m > n * d <==> whole > n || (whole == n && left > 0)) by (nonlinear_arith)
                    requires
                        m == d * whole + left,
                        0 <= left < d,
                        d > 0,
                ;
            }
        }
        Some((whole, rest))
    }
}

proof fn lemma_pow2_of_8()
    ensures
        pow2(7) == 128,
        pow2(8) == 256,
{
    lemma2_to64();
}

/// A double with all bits but the sign clear, and no other, is zero.
proof fn lemma_units_zero(bits: u64)
    ensures
        units(bits) == 0 <==> bits % 0x8000_0000_0000_0000 == 0,
{
    let e = exponent_field(bits);
    assert(bits % 0x8000_0000_0000_0000 == e * 0x10_0000_0000_0000 + fraction_field(bits));
    if e > 0 {
        lemma_pow2_pos((e - 1) as nat);
        let m = 0x10_0000_0000_0000 + fraction_field(bits);
        let f = pow2((e - 1) as nat);
        assert(m * f > 0) by (nonlinear_arith)
            requires
                m > 0,
                f > 0,
        ;
    }
}

pub fn is_percentage(bits: u64) -> (r: bool)
    ensures
        r == percentage(bits),
{
    proof {
        lemma_pow2_pos(1074);
        lemma_units_zero(bits);
        assert(100 * one() == 100nat * one());
        if is_finite(bits) {
            lemma_basic_div_bound(bits);
        }
    }
    match whole_and_rest(bits) {
        Some((whole, rest)) => {
            assert(exceeds(bits, 100) <==> whole > 100 || (whole == 100 && rest));
            if bits >= 0x8000_0000_0000_0000 {
                bits == 0x8000_0000_0000_0000
            } else {
                whole < 100 || (whole == 100 && !rest)
            }
        },
        None => false,
    }
}

proof fn lemma_basic_div_bound(bits: u64)
    ensures
        whole_part(bits) > 100 ==> units(bits) > 100 * one(),
{
    lemma_pow2_pos(1074);
    lemma_fundamental_div_mod(units(bits) as int, one() as int);
    let w = whole_part(bits);
    let u = units(bits);
    let d = one();
    assert(w > 100 ==> u > 100 * d) by (nonlinear_arith)
        requires
            u == d * w + u % d,
            u % d >= 0,
            d > 0,
    ;
}

/// The percentages are the doubles up to one hundred in the order of their bits, and negative zero.
pub proof fn percentages_by_their_bits(bits: u64)
    ensures
        percentage(bits) <==> bits <= 0x4059_0000_0000_0000 || bits == 0x8000_0000_0000_0000,
{
    let e = exponent_field(bits);
    let f = fraction_field(bits);
    let m = 0x10_0000_0000_0000 + f;
    assert(bits % 0x8000_0000_0000_0000 == e * 0x10_0000_0000_0000 + f);
    lemma_units_zero(bits);
    lemma_pow2_pos(1074);
    lemma_pow2_52_53();
    if e < 1023 {
        lemma_small(bits);
    } else if e <= 1075 {
        fractional_values(bits);
        let d = pow2((1075 - e) as nat);
        assert(exceeds(bits, 100) <==> m > 100 * d);
        assert(pow2(46) == 0x4000_0000_0000 && pow2(47) == 0x8000_0000_0000 && pow2(45)
            == 0x2000_0000_0000) by {
            lemma2_to64();
            lemma2_to64_rest();
        }
        if e < 1028 {
            lemma_pow2_strictly_increases(47, (1075 - e) as nat);
        }
        if 1030 < e {
            lemma_pow2_strictly_increases((1075 - e) as nat, 45);
        }
    } else if is_finite(bits) {
        whole_values(bits);
        let scale = pow2((e - 1075) as nat);
        assert(exceeds(bits, 100) <==> m * scale > 100);
        assert(m * scale > 100) by (nonlinear_arith)
            requires
                m > 100,
                scale >= 1,
        ;
    }
}

/// The double with the bits of one is one, the next exponent doubles a value, and the next fraction
/// adds one unit of its exponent: what every other double is follows.
pub proof fn doubles_grow_with_their_bits(bits: u64)
    requires
        !is_negative(bits),
    ensures
        units(0x3ff0_0000_0000_0000) == one(),
        units(0) == 0,
        1 <= exponent_field(bits) < 2046 ==> units((bits + 0x10_0000_0000_0000) as u64) == 2 * units(
            bits,
        ),
        1 <= exponent_field(bits) < 2047 && fraction_field(bits) < 0xf_ffff_ffff_ffff ==> units(
            (bits + 1) as u64,
        ) == units(bits) + pow2((exponent_field(bits) - 1) as nat),
        exponent_field(bits) == 0 && fraction_field(bits) < 0xf_ffff_ffff_ffff ==> units(
            (bits + 1) as u64,
        ) == units(bits) + 1,
        is_finite(bits) <==> bits < 0x7ff0_0000_0000_0000,
{
    let e = exponent_field(bits);
    let f = fraction_field(bits);
    lemma_pow2_52_53();
    assert(exponent_field(0x3ff0_0000_0000_0000) == 1023);
    assert(fraction_field(0x3ff0_0000_0000_0000) == 0);
    lemma_pow2_adds(52, 1022);
    assert(bits == e * 0x10_0000_0000_0000 + f);
    if 1 <= e < 2046 {
        let next = (bits + 0x10_0000_0000_0000) as u64;
        assert(exponent_field(next) == e + 1 && fraction_field(next) == f);
        lemma_pow2_unfold(e);
        let m = 0x10_0000_0000_0000 + f;
        let d = pow2((e - 1) as nat);
        assert(m * (2 * d) == 2 * (m * d)) by (nonlinear_arith);
    }
    if e < 2047 && f < 0xf_ffff_ffff_ffff {
        let next = (bits + 1) as u64;
        assert(exponent_field(next) == e && fraction_field(next) == f + 1);
        if e >= 1 {
            let m = 0x10_0000_0000_0000 + f;
            let d = pow2((e - 1) as nat);
            assert((m + 1) * d == m * d + d) by (nonlinear_arith);
        }
    }
}

} // verus!
