use vstd::prelude::*;

use soroban_fixed_point_math::FixedPoint;

verus! {

/// `floor(x / d)` over mathematical integers, for a positive divisor.
/// Euclidean division rounds toward negative infinity when `d > 0`.
pub open spec fn floor_div(x: int, d: int) -> int
    recommends
        d > 0,
{
    x / d
}

/// `ceil(x / d)` over mathematical integers, for a positive divisor.
pub open spec fn ceil_div(x: int, d: int) -> int
    recommends
        d > 0,
{
    -((-x) / d)
}

/// `floor(x * y / z)`: a fixed-point multiply-divide rounded down.
pub open spec fn muldiv_floor(x: int, y: int, z: int) -> int
    recommends
        z > 0,
{
    floor_div(x * y, z)
}

/// `ceil(x * y / z)`: a fixed-point multiply-divide rounded up.
pub open spec fn muldiv_ceil(x: int, y: int, z: int) -> int
    recommends
        z > 0,
{
    ceil_div(x * y, z)
}

/// Whether a mathematical integer is representable as an `i128`.
pub open spec fn fits_i128(x: int) -> bool {
    i128::MIN <= x <= i128::MAX
}

/// A floored quotient is bracketed by the two nearest multiples of the
/// divisor.
pub proof fn lemma_floor_div_range(x: int, d: int)
    requires
        d > 0,
    ensures
        d * floor_div(x, d) <= x,
        x < d * (floor_div(x, d) + 1),
{
    vstd::arithmetic::div_mod::lemma_fundamental_div_mod(x, d);
    vstd::arithmetic::div_mod::lemma_mod_division_less_than_divisor(x, d);
    assert(d * (floor_div(x, d) + 1) == d * floor_div(x, d) + d) by (nonlinear_arith);
}

/// A ceiled quotient is bracketed by the two nearest multiples of the
/// divisor.
pub proof fn lemma_ceil_div_range(x: int, d: int)
    requires
        d > 0,
    ensures
        d * (ceil_div(x, d) - 1) < x,
        x <= d * ceil_div(x, d),
{
    lemma_floor_div_range(-x, d);
    assert(d * ceil_div(x, d) == -(d * floor_div(-x, d))) by (nonlinear_arith);
    assert(d * (ceil_div(x, d) - 1) == -(d * (floor_div(-x, d) + 1))) by (nonlinear_arith);
}

/// A floored quotient keeps the dividend's sign when the divisor is positive.
pub proof fn lemma_floor_div_sign(x: int, d: int)
    requires
        d > 0,
    ensures
        x >= 0 ==> floor_div(x, d) >= 0,
        x <= 0 ==> floor_div(x, d) <= 0,
{
    if x >= 0 {
        vstd::arithmetic::div_mod::lemma_div_pos_is_pos(x, d);
    }
    if x <= 0 {
        lemma_floor_div_range(x, d);
        if floor_div(x, d) > 0 {
            assert(d * floor_div(x, d) > 0) by (nonlinear_arith)
                requires
                    d > 0,
                    floor_div(x, d) > 0,
            ;
        }
    }
}

/// A ceiled quotient keeps the dividend's sign when the divisor is positive.
pub proof fn lemma_ceil_div_sign(x: int, d: int)
    requires
        d > 0,
    ensures
        x >= 0 ==> ceil_div(x, d) >= 0,
        x <= 0 ==> ceil_div(x, d) <= 0,
{
    lemma_floor_div_sign(-x, d);
}

/// Floored division is superadditive: rounding two parts down never beats
/// rounding their sum down.
pub proof fn lemma_floor_div_superadd(x: int, y: int, d: int)
    requires
        d > 0,
    ensures
        floor_div(x, d) + floor_div(y, d) <= floor_div(x + y, d),
{
    lemma_floor_div_range(x, d);
    lemma_floor_div_range(y, d);
    let q = floor_div(x, d) + floor_div(y, d);
    assert(d * q <= x + y) by (nonlinear_arith)
        requires
            d * floor_div(x, d) <= x,
            d * floor_div(y, d) <= y,
            q == floor_div(x, d) + floor_div(y, d),
    ;
    vstd::arithmetic::div_mod::lemma_div_multiples_vanish(q, d);
    vstd::arithmetic::div_mod::lemma_div_is_ordered(d * q, x + y, d);
}

/// Floored division by a positive divisor is monotonic.
pub proof fn lemma_floor_div_ordered(x: int, y: int, d: int)
    requires
        d > 0,
        x <= y,
    ensures
        floor_div(x, d) <= floor_div(y, d),
{
    vstd::arithmetic::div_mod::lemma_div_is_ordered(x, y, d);
}

/// Relies on `soroban_fixed_point_math::FixedPoint::fixed_mul_floor` for
/// `i128`: returns `floor(x * y / z)`, or `None` when the intermediate
/// product `x * y` overflows an `i128`.
#[verifier::external_body]
pub fn fixed_mul_floor(x: i128, y: i128, z: i128) -> (r: Option<i128>)
    requires
        z > 0,
    ensures
        fits_i128(x * y) ==> r == Some((muldiv_floor(x as int, y as int, z as int)) as i128),
        !fits_i128(x * y) ==> r is None,
        r is Some ==> fits_i128(muldiv_floor(x as int, y as int, z as int)),
{
    x.fixed_mul_floor(y, z)
}

/// Relies on `soroban_fixed_point_math::FixedPoint::fixed_mul_ceil` for
/// `i128`: returns `ceil(x * y / z)`, or `None` when the intermediate
/// product `x * y` overflows an `i128`.
#[verifier::external_body]
pub fn fixed_mul_ceil(x: i128, y: i128, z: i128) -> (r: Option<i128>)
    requires
        z > 0,
    ensures
        fits_i128(x * y) ==> r == Some((muldiv_ceil(x as int, y as int, z as int)) as i128),
        !fits_i128(x * y) ==> r is None,
        r is Some ==> fits_i128(muldiv_ceil(x as int, y as int, z as int)),
{
    x.fixed_mul_ceil(y, z)
}

/// Relies on `soroban_fixed_point_math::FixedPoint::fixed_div_floor` for
/// `i128`: returns `floor(x * z / y)` (`z` is the fixed-point scalar, `y` the
/// divisor), or `None` when the intermediate product `x * z` overflows an
/// `i128`.
#[verifier::external_body]
pub fn fixed_div_floor(x: i128, y: i128, z: i128) -> (r: Option<i128>)
    requires
        y > 0,
    ensures
        fits_i128(x * z) ==> r == Some((muldiv_floor(x as int, z as int, y as int)) as i128),
        !fits_i128(x * z) ==> r is None,
        r is Some ==> fits_i128(muldiv_floor(x as int, z as int, y as int)),
{
    x.fixed_div_floor(y, z)
}

/// Relies on `soroban_fixed_point_math::FixedPoint::fixed_div_ceil` for
/// `i128`: returns `ceil(x * z / y)` (`z` is the fixed-point scalar, `y` the
/// divisor), or `None` when the intermediate product `x * z` overflows an
/// `i128`.
#[verifier::external_body]
pub fn fixed_div_ceil(x: i128, y: i128, z: i128) -> (r: Option<i128>)
    requires
        y > 0,
    ensures
        fits_i128(x * z) ==> r == Some((muldiv_ceil(x as int, z as int, y as int)) as i128),
        !fits_i128(x * z) ==> r is None,
        r is Some ==> fits_i128(muldiv_ceil(x as int, z as int, y as int)),
{
    x.fixed_div_ceil(y, z)
}

} // verus!
