//! Fixed-point arithmetic of the processing element.

use vstd::arithmetic::div_mod::{lemma_fundamental_div_mod, lemma_fundamental_div_mod_converse};
use vstd::arithmetic::power2::{lemma2_to64, lemma_pow2_unfold, pow2};
use vstd::prelude::*;

verus! {

/// Width of an input: an activation or a weight.
pub const INPUT_BITS: usize = 8;

/// Width of a value that moves from one processing element to the next.
pub const OUTPUT_BITS: usize = 20;

/// Width of an accumulator.
pub const ACC_BITS: usize = 32;

/// Largest signed number of `OUTPUT_BITS` bits.
pub const OUTPUT_MAX: i32 = 0x7_ffff;

/// Smallest signed number of `OUTPUT_BITS` bits.
pub const OUTPUT_MIN: i32 = -0x8_0000;

/// The number is a signed number of `OUTPUT_BITS` bits.
pub open spec fn is_output(v: int) -> bool {
    OUTPUT_MIN <= v <= OUTPUT_MAX
}

/// The signed number of 8 bits that has the 8 low bits of `v` in two's complement.
pub open spec fn low_input_bits(v: int) -> int {
    (v + 0x80) % 0x100 - 0x80
}

/// The signed number of 20 bits that has the 20 low bits of `v` in two's complement.
pub open spec fn low_output_bits(v: int) -> int {
    (v + 0x8_0000) % 0x10_0000 - 0x8_0000
}

/// `v` divided by `2^shamt` and rounded to the nearest integer, a tie to the even one.
pub open spec fn rounded_shift(v: int, shamt: nat) -> int {
    let unit = pow2(shamt) as int;
    let quotient = v / unit;
    let rest = v % unit;
    if 2 * rest > unit || (2 * rest == unit && quotient % 2 == 1) {
        quotient + 1
    } else {
        quotient
    }
}

/// `v` where it is a signed number of `OUTPUT_BITS` bits, else the bound of that range nearest to it.
pub open spec fn saturated(v: int) -> int {
    if v > OUTPUT_MAX {
        OUTPUT_MAX as int
    } else if v < OUTPUT_MIN {
        OUTPUT_MIN as int
    } else {
        v
    }
}

/// Keeps the 8 low bits of a number.
pub fn resize_to_input(v: i32) -> (r: i8)
    ensures
        r == low_input_bits(v as int),
{
    let shifted: i64 = v as i64 + 0x80 + 0x1_0000_0000;
    let low: i64 = shifted % 0x100;
    (low - 0x80) as i8
}

/// Keeps the 20 low bits of a number.
pub fn resize_to_output(v: i32) -> (r: i32)
    ensures
        r == low_output_bits(v as int),
        is_output(r as int),
{
    let shifted: i64 = v as i64 + 0x8_0000 + 0x1_0000_0000;
    let low: i64 = shifted % 0x10_0000;
    (low - 0x8_0000) as i32
}

/// Clips a number to `OUTPUT_BITS` bits.
pub fn clip_with_saturation(v: i64) -> (r: i32)
    ensures
        r == saturated(v as int),
        is_output(r as int),
{
    if v > OUTPUT_MAX as i64 {
        OUTPUT_MAX
    } else if v < OUTPUT_MIN as i64 {
        OUTPUT_MIN
    } else {
        v as i32
    }
}

/// MAC unit (computes `a * b + c`), keeping the `OUTPUT_BITS` low bits of the result.
pub fn mac(a: i8, b: i8, c: i32) -> (r: i32)
    ensures
        r == low_output_bits(a as int * b as int + c as int),
        is_output(r as int),
{
    assert(-0x4000 <= a as int * b as int <= 0x4000) by (nonlinear_arith)
        requires
            -0x80 <= a as int <= 0x7f,
            -0x80 <= b as int <= 0x7f,
    ;
    let product: i64 = a as i64 * b as i64;
    let sum: i64 = product + c as i64;
    let shifted: i64 = sum + 0x8_0000 + 0x1_0000_0000;
    let low: i64 = shifted % 0x10_0000;
    (low - 0x8_0000) as i32
}

/// Shifts `val` right by `shamt` bits, rounding to the nearest integer and a tie to the even one.
pub fn rounding_shift(val: i32, shamt: u8) -> (r: i32)
    requires
        shamt < ACC_BITS,
    ensures
        r == rounded_shift(val as int, shamt as nat),
{
    // `unit` is 2^shamt, and `lift` times `unit` is 2^31, which lifts `val` to a number that is not negative.
    let mut unit: i64 = 1;
    let mut lift: i64 = 0x8000_0000;
    let mut i: u8 = 0;
    proof {
        lemma2_to64();
    }
    while i < shamt
        invariant
            0 <= i <= shamt < 32,
            unit == pow2(i as nat),
            1 <= unit <= 0x8000_0000,
            1 <= lift <= 0x8000_0000,
            unit * lift == 0x8000_0000,
            i < 31 ==> lift % 2 == 0,
            i == 31 ==> lift == 1,
        decreases shamt - i,
    {
        proof {
            lemma_pow2_unfold((i + 1) as nat);
            assert((unit * 2) * (lift / 2) == unit * lift) by (nonlinear_arith)
                requires
                    lift % 2 == 0,
            ;
        }
        unit = unit * 2;
        lift = lift / 2;
        i += 1;
        proof {
            // `lift` is 2^(31 - i): even until it reaches one.
            lemma_lift_is_power(unit as int, lift as int, i as nat);
        }
    }
    let lifted: i64 = val as i64 + 0x8000_0000;
    let quotient: i64 = lifted / unit - lift;
    let rest: i64 = lifted % unit;
    proof {
        lemma_fundamental_div_mod(lifted as int, unit as int);
        assert(val as int == quotient as int * unit as int + rest as int) by (nonlinear_arith)
            requires
                lifted as int == unit as int * (lifted as int / unit as int) + rest as int,
                quotient as int == lifted as int / unit as int - lift as int,
                unit as int * lift as int == 0x8000_0000,
                lifted as int == val as int + 0x8000_0000,
        ;
        lemma_fundamental_div_mod_converse(val as int, unit as int, quotient as int, rest as int);
        assert(-0x8000_0000 <= quotient <= 0x7fff_ffff && (unit >= 2 ==> quotient < 0x4000_0000))
            by (nonlinear_arith)
            requires
                val as int == quotient as int * unit as int + rest as int,
                0 <= rest < unit,
                -0x8000_0000 <= val <= 0x7fff_ffff,
                1 <= unit,
        ;
    }
    let odd = (quotient + 0x1_0000_0000) % 2 == 1;
    if 2 * rest > unit || (2 * rest == unit && odd) {
        (quotient + 1) as i32
    } else {
        quotient as i32
    }
}

proof fn lemma_lift_is_power(unit: int, lift: int, i: nat)
    requires
        0 < i <= 31,
        unit == pow2(i),
        unit * lift == 0x8000_0000,
    ensures
        i < 31 ==> lift % 2 == 0,
        i == 31 ==> lift == 1,
        1 <= lift <= 0x8000_0000,
        1 <= unit <= 0x8000_0000,
{
    lemma2_to64();
    vstd::arithmetic::power2::lemma_pow2_adds(i, (31 - i) as nat);
    let other = pow2((31 - i) as nat) as int;
    assert(unit * other == 0x8000_0000);
    vstd::arithmetic::power2::lemma_pow2_pos(i);
    vstd::arithmetic::power2::lemma_pow2_pos((31 - i) as nat);
    assert(lift == other) by (nonlinear_arith)
        requires
            unit * lift == 0x8000_0000,
            unit * other == 0x8000_0000,
            unit > 0,
    ;
    if i < 31 {
        lemma_pow2_unfold((31 - i) as nat);
    }
    assert(unit <= 0x8000_0000 && lift <= 0x8000_0000) by (nonlinear_arith)
        requires
            unit * lift == 0x8000_0000,
            unit >= 1,
            lift >= 1,
    ;
}

/// Performs right-shift (`val >> shamt`) and then clips to `OUTPUT_BITS`.
///
/// It preserves the signedness of `val`.
pub fn shift_and_clip(val: i32, shamt: u8) -> (r: i32)
    requires
        shamt < ACC_BITS,
    ensures
        r == saturated(rounded_shift(val as int, shamt as nat)),
        is_output(r as int),
{
    let shifted = rounding_shift(val, shamt);
    clip_with_saturation(shifted as i64)
}

} // verus!
