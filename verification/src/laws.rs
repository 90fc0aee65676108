//! Laws of the library: how its operations relate to one another.

use vstd::prelude::*;
use vstd::std_specs::ops::{DivSpec, MulSpec};
use crate::exponents::{Dimension, Scale};
use crate::lossy::LossyFrom;
use crate::quantity::Quantity;

verus! {

/// The exponents of a product do not depend on the order of the factors.
pub proof fn dimension_product_commutes(a: Dimension, b: Dimension)
    ensures
        a.can_multiply(b) == b.can_multiply(a),
        a.times(b) == b.times(a),
{
}

/// Combining three exponent vectors by products does not depend on grouping.
pub proof fn dimension_product_associates(a: Dimension, b: Dimension, c: Dimension)
    requires
        a.can_multiply(b),
        b.can_multiply(c),
        a.times(b).can_multiply(c),
    ensures
        a.can_multiply(b.times(c)),
        a.times(b).times(c) == a.times(b.times(c)),
{
}

/// The all-zero exponent vector is neutral for products and quotients.
pub proof fn dimension_zero_is_neutral(a: Dimension, z: Dimension)
    requires
        z.spec_is_dimensionless(),
    ensures
        a.can_multiply(z),
        a.times(z) == a,
        a.can_divide(z),
        a.over(z) == a,
{
}

/// Dividing a product by one factor gives back the other factor.
pub proof fn dimension_quotient_undoes_product(a: Dimension, b: Dimension)
    requires
        a.can_multiply(b),
    ensures
        a.times(b).can_divide(b),
        a.times(b).over(b) == a,
{
}

/// Multiplying a quotient by its divisor gives back the dividend.
pub proof fn dimension_product_undoes_quotient(a: Dimension, b: Dimension)
    requires
        a.can_divide(b),
    ensures
        a.over(b).can_multiply(b),
        a.over(b).times(b) == a,
{
}

/// A quotient is a product by the reciprocal.
pub proof fn dimension_quotient_is_product_by_reciprocal(a: Dimension, b: Dimension)
    requires
        a.can_divide(b),
        b.can_invert(),
    ensures
        a.can_multiply(b.inverted()),
        a.over(b) == a.times(b.inverted()),
{
}

/// Taking the reciprocal twice gives back the original exponents.
pub proof fn dimension_reciprocal_is_involutive(a: Dimension)
    requires
        a.can_invert(),
    ensures
        a.inverted().can_invert(),
        a.inverted().inverted() == a,
{
}

/// A quotient of equal exponent vectors is the all-zero vector.
pub proof fn dimension_self_quotient_is_zero(a: Dimension)
    ensures
        a.can_divide(a),
        a.over(a).spec_is_dimensionless(),
{
}

/// The exponents of a product do not depend on the order of the factors.
pub proof fn scale_product_commutes(a: Scale, b: Scale)
    ensures
        a.can_multiply(b) == b.can_multiply(a),
        a.times(b) == b.times(a),
{
}

/// Combining three exponent vectors by products does not depend on grouping.
pub proof fn scale_product_associates(a: Scale, b: Scale, c: Scale)
    requires
        a.can_multiply(b),
        b.can_multiply(c),
        a.times(b).can_multiply(c),
    ensures
        a.can_multiply(b.times(c)),
        a.times(b).times(c) == a.times(b.times(c)),
{
}

/// The all-zero exponent vector is neutral for products and quotients.
pub proof fn scale_zero_is_neutral(a: Scale, z: Scale)
    requires
        z.spec_is_unity(),
    ensures
        a.can_multiply(z),
        a.times(z) == a,
        a.can_divide(z),
        a.over(z) == a,
{
}

/// Dividing a product by one factor gives back the other factor.
pub proof fn scale_quotient_undoes_product(a: Scale, b: Scale)
    requires
        a.can_multiply(b),
    ensures
        a.times(b).can_divide(b),
        a.times(b).over(b) == a,
{
}

/// Multiplying a quotient by its divisor gives back the dividend.
pub proof fn scale_product_undoes_quotient(a: Scale, b: Scale)
    requires
        a.can_divide(b),
    ensures
        a.over(b).can_multiply(b),
        a.over(b).times(b) == a,
{
}

/// A quotient is a product by the reciprocal.
pub proof fn scale_quotient_is_product_by_reciprocal(a: Scale, b: Scale)
    requires
        a.can_divide(b),
        b.can_invert(),
    ensures
        a.can_multiply(b.inverted()),
        a.over(b) == a.times(b.inverted()),
{
}

/// Taking the reciprocal twice gives back the original exponents.
pub proof fn scale_reciprocal_is_involutive(a: Scale)
    requires
        a.can_invert(),
    ensures
        a.inverted().can_invert(),
        a.inverted().inverted() == a,
{
}

/// A quotient of equal exponent vectors is the all-zero vector.
pub proof fn scale_self_quotient_is_zero(a: Scale)
    ensures
        a.can_divide(a),
        a.over(a).spec_is_unity(),
{
}

/// Erasing the angle exponent is idempotent and commutes with products.
pub proof fn angle_erasure_commutes_with_product(a: Dimension, b: Dimension)
    requires
        a.can_multiply(b),
    ensures
        a.without_angle().without_angle() == a.without_angle(),
        a.without_angle().can_multiply(b.without_angle()),
        a.times(b).without_angle() == a.without_angle().times(b.without_angle()),
{
}

/// Multiplying two quantities and dividing the product by the second factor gives
/// back the scale and dimension of the first factor.
pub proof fn quantity_quotient_undoes_product<T, Brand>(a: Quantity<T, Brand>, b: Quantity<T, Brand>)
    where
        T: core::ops::Mul<Output = T> + core::ops::Div<Output = T>,
    requires
        a.scale.can_multiply(b.scale),
        a.dimension.can_multiply(b.dimension),
    ensures
        a.mul_spec(b).scale.can_divide(b.scale),
        a.mul_spec(b).dimension.can_divide(b.dimension),
        a.mul_spec(b).div_spec(b).scale == a.scale,
        a.mul_spec(b).div_spec(b).dimension == a.dimension,
{
}

/// The units of a product of quantities do not depend on the order of the factors.
pub proof fn quantity_product_units_commute<T, Brand>(a: Quantity<T, Brand>, b: Quantity<T, Brand>)
    where
        T: core::ops::Mul<Output = T>,
    ensures
        a.mul_spec(b).scale == b.mul_spec(a).scale,
        a.mul_spec(b).dimension == b.mul_spec(a).dimension,
{
}

/// Dividing a quantity by another of the same units gives a dimensionless quantity at
/// the SI base scale.
pub proof fn quantity_self_quotient_is_dimensionless<T, Brand>(a: Quantity<T, Brand>, b: Quantity<T, Brand>)
    where
        T: core::ops::Div<Output = T>,
    requires
        a.scale == b.scale,
        a.dimension == b.dimension,
    ensures
        a.div_spec(b).scale.spec_is_unity(),
        a.div_spec(b).dimension.spec_is_dimensionless(),
{
}

/// A cast to the same storage type leaves every value unchanged.
pub proof fn lossy_identity_is_noop(x_i8: i8, x_i16: i16, x_i32: i32, x_i64: i64, x_i128: i128, x_u8: u8, x_u16: u16, x_u32: u32, x_u64: u64, x_u128: u128, x_isize: isize, x_usize: usize)
    ensures
        <i8 as LossyFrom<i8>>::lossy_from_spec(x_i8) == x_i8,
        <i16 as LossyFrom<i16>>::lossy_from_spec(x_i16) == x_i16,
        <i32 as LossyFrom<i32>>::lossy_from_spec(x_i32) == x_i32,
        <i64 as LossyFrom<i64>>::lossy_from_spec(x_i64) == x_i64,
        <i128 as LossyFrom<i128>>::lossy_from_spec(x_i128) == x_i128,
        <u8 as LossyFrom<u8>>::lossy_from_spec(x_u8) == x_u8,
        <u16 as LossyFrom<u16>>::lossy_from_spec(x_u16) == x_u16,
        <u32 as LossyFrom<u32>>::lossy_from_spec(x_u32) == x_u32,
        <u64 as LossyFrom<u64>>::lossy_from_spec(x_u64) == x_u64,
        <u128 as LossyFrom<u128>>::lossy_from_spec(x_u128) == x_u128,
        <isize as LossyFrom<isize>>::lossy_from_spec(x_isize) == x_isize,
        <usize as LossyFrom<usize>>::lossy_from_spec(x_usize) == x_usize,
{
}

/// Every lossless conversion `Dest::from` of a `Source` value yields the value that the
/// lossy cast yields, and the lossy cast back to `Source` recovers the original value.
pub open spec fn lossless_is_exact_widening<Source, Dest>() -> bool
    where
        Source: LossyFrom<Dest>,
        Dest: From<Source> + LossyFrom<Source>,
{
    forall|x: Source, y: Dest|
        #[trigger] call_ensures(<Dest as From<Source>>::from, (x,), y) ==> {
            &&& y == Dest::lossy_from_spec(x)
            &&& Source::lossy_from_spec(y) == x
        }
}

/// For every lossless integer conversion of std, the conversion agrees with the lossy
/// cast, and narrowing its result back with the lossy cast gives back the value.
pub proof fn integer_widenings_are_exact()
    ensures
        lossless_is_exact_widening::<u8, u16>(),
        lossless_is_exact_widening::<u8, u32>(),
        lossless_is_exact_widening::<u8, u64>(),
        lossless_is_exact_widening::<u8, usize>(),
        lossless_is_exact_widening::<u8, u128>(),
        lossless_is_exact_widening::<u8, i16>(),
        lossless_is_exact_widening::<u8, i32>(),
        lossless_is_exact_widening::<u8, i64>(),
        lossless_is_exact_widening::<u8, i128>(),
        lossless_is_exact_widening::<u8, isize>(),
        lossless_is_exact_widening::<u16, u32>(),
        lossless_is_exact_widening::<u16, u64>(),
        lossless_is_exact_widening::<u16, usize>(),
        lossless_is_exact_widening::<u16, u128>(),
        lossless_is_exact_widening::<u16, i32>(),
        lossless_is_exact_widening::<u16, i64>(),
        lossless_is_exact_widening::<u16, i128>(),
        lossless_is_exact_widening::<u32, u64>(),
        lossless_is_exact_widening::<u32, u128>(),
        lossless_is_exact_widening::<u32, i64>(),
        lossless_is_exact_widening::<u32, i128>(),
        lossless_is_exact_widening::<u64, u128>(),
        lossless_is_exact_widening::<u64, i128>(),
        lossless_is_exact_widening::<i8, i16>(),
        lossless_is_exact_widening::<i8, i32>(),
        lossless_is_exact_widening::<i8, i64>(),
        lossless_is_exact_widening::<i8, isize>(),
        lossless_is_exact_widening::<i8, i128>(),
        lossless_is_exact_widening::<i16, i32>(),
        lossless_is_exact_widening::<i16, i64>(),
        lossless_is_exact_widening::<i16, isize>(),
        lossless_is_exact_widening::<i16, i128>(),
        lossless_is_exact_widening::<i32, i64>(),
        lossless_is_exact_widening::<i32, i128>(),
        lossless_is_exact_widening::<i64, i128>(),
{
}

/// Where a lossless conversion is exact, `lossless_into` and `lossy_into` give the same
/// quantity: same raw value, same scale, same dimension.
pub proof fn lossless_into_agrees_with_lossy_into<Source, Dest, Brand>(
    q: Quantity<Source, Brand>,
    r: Quantity<Dest, Brand>,
)
    where
        Source: LossyFrom<Dest>,
        Dest: From<Source> + LossyFrom<Source>,
    requires
        lossless_is_exact_widening::<Source, Dest>(),
        r.scale == q.scale,
        r.dimension == q.dimension,
        call_ensures(<Dest as From<Source>>::from, (q.unsafe_value,), r.unsafe_value),
    ensures
        r.unsafe_value == Dest::lossy_from_spec(q.unsafe_value),
        r.scale == q.scale,
        r.dimension == q.dimension,
{
}

/// Widening a quantity with `lossless_into` and narrowing it back with `lossy_into`
/// gives back the quantity's raw value, scale and dimension.
pub proof fn lossless_into_then_lossy_into_round_trips<Source, Dest, Brand>(
    q: Quantity<Source, Brand>,
    r: Quantity<Dest, Brand>,
)
    where
        Source: LossyFrom<Dest>,
        Dest: From<Source> + LossyFrom<Source>,
    requires
        lossless_is_exact_widening::<Source, Dest>(),
        r.scale == q.scale,
        r.dimension == q.dimension,
        call_ensures(<Dest as From<Source>>::from, (q.unsafe_value,), r.unsafe_value),
    ensures
        Source::lossy_from_spec(r.unsafe_value) == q.unsafe_value,
        r.scale == q.scale,
        r.dimension == q.dimension,
{
}

/// Each exponent of `r` is the sum of the exponents of `a` and `b`.
pub open spec fn dimension_is_sum(a: Dimension, b: Dimension, r: Dimension) -> bool {
    &&& r.mass == a.mass + b.mass
    &&& r.length == a.length + b.length
    &&& r.time == a.time + b.time
    &&& r.current == a.current + b.current
    &&& r.temperature == a.temperature + b.temperature
    &&& r.amount == a.amount + b.amount
    &&& r.luminosity == a.luminosity + b.luminosity
    &&& r.angle == a.angle + b.angle
}

/// Each exponent of `r` is the exponent of `a` minus that of `b`.
pub open spec fn dimension_is_difference(a: Dimension, b: Dimension, r: Dimension) -> bool {
    &&& r.mass == a.mass - b.mass
    &&& r.length == a.length - b.length
    &&& r.time == a.time - b.time
    &&& r.current == a.current - b.current
    &&& r.temperature == a.temperature - b.temperature
    &&& r.amount == a.amount - b.amount
    &&& r.luminosity == a.luminosity - b.luminosity
    &&& r.angle == a.angle - b.angle
}

/// Each exponent of `r` is the negation of the exponent of `a`.
pub open spec fn dimension_is_negation(a: Dimension, r: Dimension) -> bool {
    &&& r.mass == -a.mass
    &&& r.length == -a.length
    &&& r.time == -a.time
    &&& r.current == -a.current
    &&& r.temperature == -a.temperature
    &&& r.amount == -a.amount
    &&& r.luminosity == -a.luminosity
    &&& r.angle == -a.angle
}

/// `multiply`, `divide` and `invert` of `Dimension` add, subtract and negate each exponent.
pub proof fn dimension_operations_act_on_each_exponent()
    ensures
        forall|a: Dimension, b: Dimension, r: Dimension|
            #[trigger] call_ensures(Dimension::multiply, (&a, &b), r) && a.can_multiply(b)
                ==> dimension_is_sum(a, b, r),
        forall|a: Dimension, b: Dimension, r: Dimension|
            #[trigger] call_ensures(Dimension::divide, (&a, &b), r) && a.can_divide(b)
                ==> dimension_is_difference(a, b, r),
        forall|a: Dimension, r: Dimension|
            #[trigger] call_ensures(Dimension::invert, (&a,), r) && a.can_invert()
                ==> dimension_is_negation(a, r),
{
}

/// Each exponent of `r` is the sum of the exponents of `a` and `b`.
pub open spec fn scale_is_sum(a: Scale, b: Scale, r: Scale) -> bool {
    &&& r.p2 == a.p2 + b.p2
    &&& r.p3 == a.p3 + b.p3
    &&& r.p5 == a.p5 + b.p5
    &&& r.pi == a.pi + b.pi
}

/// Each exponent of `r` is the exponent of `a` minus that of `b`.
pub open spec fn scale_is_difference(a: Scale, b: Scale, r: Scale) -> bool {
    &&& r.p2 == a.p2 - b.p2
    &&& r.p3 == a.p3 - b.p3
    &&& r.p5 == a.p5 - b.p5
    &&& r.pi == a.pi - b.pi
}

/// Each exponent of `r` is the negation of the exponent of `a`.
pub open spec fn scale_is_negation(a: Scale, r: Scale) -> bool {
    &&& r.p2 == -a.p2
    &&& r.p3 == -a.p3
    &&& r.p5 == -a.p5
    &&& r.pi == -a.pi
}

/// `multiply`, `divide` and `invert` of `Scale` add, subtract and negate each exponent.
pub proof fn scale_operations_act_on_each_exponent()
    ensures
        forall|a: Scale, b: Scale, r: Scale|
            #[trigger] call_ensures(Scale::multiply, (&a, &b), r) && a.can_multiply(b)
                ==> scale_is_sum(a, b, r),
        forall|a: Scale, b: Scale, r: Scale|
            #[trigger] call_ensures(Scale::divide, (&a, &b), r) && a.can_divide(b)
                ==> scale_is_difference(a, b, r),
        forall|a: Scale, r: Scale|
            #[trigger] call_ensures(Scale::invert, (&a,), r) && a.can_invert()
                ==> scale_is_negation(a, r),
{
}

/// Erasing the angle sets the angle exponent to zero and keeps every other exponent.
pub proof fn angle_erasure_keeps_other_exponents()
    ensures
        forall|d: Dimension, r: Dimension|
            #[trigger] call_ensures(Dimension::erase_angle, (&d,), r) ==> {
                &&& r.mass == d.mass
                &&& r.length == d.length
                &&& r.time == d.time
                &&& r.current == d.current
                &&& r.temperature == d.temperature
                &&& r.amount == d.amount
                &&& r.luminosity == d.luminosity
                &&& r.angle == 0
            },
        forall|q: Quantity<i64, ()>, r: Quantity<i64, ()>|
            #[trigger] call_ensures(Quantity::<i64, ()>::erase_angle, (q,), r) ==> {
                &&& r.unsafe_value == q.unsafe_value
                &&& r.scale == q.scale
                &&& r.dimension.mass == q.dimension.mass
                &&& r.dimension.length == q.dimension.length
                &&& r.dimension.time == q.dimension.time
                &&& r.dimension.current == q.dimension.current
                &&& r.dimension.temperature == q.dimension.temperature
                &&& r.dimension.amount == q.dimension.amount
                &&& r.dimension.luminosity == q.dimension.luminosity
                &&& r.dimension.angle == 0
            },
{
}

/// `add` of two quantities keeps their common scale and dimension.
pub proof fn quantity_add_keeps_units<T: core::ops::Add<Output = T>, Brand>()
    ensures
        forall|a: Quantity<T, Brand>, b: Quantity<T, Brand>, r: Quantity<T, Brand>|
            #[trigger] call_ensures(<Quantity<T, Brand> as core::ops::Add>::add, (a, b), r)
                ==> r.scale == a.scale && r.dimension == a.dimension,
{
}

/// `sub` of two quantities keeps their common scale and dimension.
pub proof fn quantity_sub_keeps_units<T: core::ops::Sub<Output = T>, Brand>()
    ensures
        forall|a: Quantity<T, Brand>, b: Quantity<T, Brand>, r: Quantity<T, Brand>|
            #[trigger] call_ensures(<Quantity<T, Brand> as core::ops::Sub>::sub, (a, b), r)
                ==> r.scale == a.scale && r.dimension == a.dimension,
{
}

/// `rem` of two quantities keeps their common scale and dimension.
pub proof fn quantity_rem_keeps_units<T: core::ops::Rem<Output = T>, Brand>()
    ensures
        forall|a: Quantity<T, Brand>, b: Quantity<T, Brand>, r: Quantity<T, Brand>|
            #[trigger] call_ensures(<Quantity<T, Brand> as core::ops::Rem>::rem, (a, b), r)
                ==> r.scale == a.scale && r.dimension == a.dimension,
        forall|a: Quantity<T, Brand>, s: T, r: Quantity<T, Brand>|
            #[trigger] call_ensures(<Quantity<T, Brand> as core::ops::Rem<T>>::rem, (a, s), r)
                ==> r.scale == a.scale && r.dimension == a.dimension,
{
}

/// A product of two quantities adds their exponents; a product with a bare scalar keeps
/// the quantity's units.
pub proof fn quantity_mul_combines_units<T: core::ops::Mul<Output = T>, Brand>()
    ensures
        forall|a: Quantity<T, Brand>, b: Quantity<T, Brand>, r: Quantity<T, Brand>|
            #[trigger] call_ensures(<Quantity<T, Brand> as core::ops::Mul>::mul, (a, b), r)
                && a.scale.can_multiply(b.scale) && a.dimension.can_multiply(b.dimension)
                ==> scale_is_sum(a.scale, b.scale, r.scale)
                && dimension_is_sum(a.dimension, b.dimension, r.dimension),
        forall|a: Quantity<T, Brand>, s: T, r: Quantity<T, Brand>|
            #[trigger] call_ensures(<Quantity<T, Brand> as core::ops::Mul<T>>::mul, (a, s), r)
                ==> r.scale == a.scale && r.dimension == a.dimension,
{
}

/// A quotient of two quantities subtracts their exponents; a quotient by a bare scalar
/// keeps the quantity's units.
pub proof fn quantity_div_combines_units<T: core::ops::Div<Output = T>, Brand>()
    ensures
        forall|a: Quantity<T, Brand>, b: Quantity<T, Brand>, r: Quantity<T, Brand>|
            #[trigger] call_ensures(<Quantity<T, Brand> as core::ops::Div>::div, (a, b), r)
                && a.scale.can_divide(b.scale) && a.dimension.can_divide(b.dimension)
                ==> scale_is_difference(a.scale, b.scale, r.scale)
                && dimension_is_difference(a.dimension, b.dimension, r.dimension),
        forall|a: Quantity<T, Brand>, s: T, r: Quantity<T, Brand>|
            #[trigger] call_ensures(<Quantity<T, Brand> as core::ops::Div<T>>::div, (a, s), r)
                ==> r.scale == a.scale && r.dimension == a.dimension,
{
}

/// Negation keeps a quantity's scale and dimension.
pub proof fn quantity_neg_keeps_units<T: core::ops::Neg<Output = T>, Brand>()
    ensures
        forall|a: Quantity<T, Brand>, r: Quantity<T, Brand>|
            #[trigger] call_ensures(<Quantity<T, Brand> as core::ops::Neg>::neg, (a,), r)
                ==> r.scale == a.scale && r.dimension == a.dimension,
{
}

/// A bare scalar times a quantity keeps the quantity's units; a bare scalar over a
/// quantity negates each of its exponents.
pub proof fn generic_scalar_operations_track_units<T, Brand>()
    where
        T: core::ops::Mul<Output = T> + core::ops::Div<Output = T>,
    ensures
        forall|s: T, q: Quantity<T, Brand>, r: Quantity<T, Brand>|
            #[trigger] call_ensures(Quantity::<T, Brand>::scalar_mul, (s, q), r)
                ==> r.scale == q.scale && r.dimension == q.dimension,
        forall|s: T, q: Quantity<T, Brand>, r: Quantity<T, Brand>|
            #[trigger] call_ensures(Quantity::<T, Brand>::scalar_div, (s, q), r)
                && q.scale.can_invert() && q.dimension.can_invert()
                ==> scale_is_negation(q.scale, r.scale) && dimension_is_negation(q.dimension, r.dimension),
{
}

/// A primitive scalar times a quantity has the quantity's scale and dimension, and, where
/// the product fits the storage type, its raw value is the product of the scalar and the
/// raw value.
pub proof fn primitive_scalar_times_quantity_keeps_units<Brand>()
    ensures
        forall|s: i8, q: Quantity<i8, Brand>, r: Quantity<i8, Brand>|
            #[trigger] call_ensures(<i8 as core::ops::Mul<Quantity<i8, Brand>>>::mul, (s, q), r)
                && i8::MIN <= s * q.unsafe_value <= i8::MAX
                ==> r.scale == q.scale && r.dimension == q.dimension
                && r.unsafe_value == s * q.unsafe_value,
        forall|s: i16, q: Quantity<i16, Brand>, r: Quantity<i16, Brand>|
            #[trigger] call_ensures(<i16 as core::ops::Mul<Quantity<i16, Brand>>>::mul, (s, q), r)
                && i16::MIN <= s * q.unsafe_value <= i16::MAX
                ==> r.scale == q.scale && r.dimension == q.dimension
                && r.unsafe_value == s * q.unsafe_value,
        forall|s: i32, q: Quantity<i32, Brand>, r: Quantity<i32, Brand>|
            #[trigger] call_ensures(<i32 as core::ops::Mul<Quantity<i32, Brand>>>::mul, (s, q), r)
                && i32::MIN <= s * q.unsafe_value <= i32::MAX
                ==> r.scale == q.scale && r.dimension == q.dimension
                && r.unsafe_value == s * q.unsafe_value,
        forall|s: i64, q: Quantity<i64, Brand>, r: Quantity<i64, Brand>|
            #[trigger] call_ensures(<i64 as core::ops::Mul<Quantity<i64, Brand>>>::mul, (s, q), r)
                && i64::MIN <= s * q.unsafe_value <= i64::MAX
                ==> r.scale == q.scale && r.dimension == q.dimension
                && r.unsafe_value == s * q.unsafe_value,
        forall|s: i128, q: Quantity<i128, Brand>, r: Quantity<i128, Brand>|
            #[trigger] call_ensures(<i128 as core::ops::Mul<Quantity<i128, Brand>>>::mul, (s, q), r)
                && i128::MIN <= s * q.unsafe_value <= i128::MAX
                ==> r.scale == q.scale && r.dimension == q.dimension
                && r.unsafe_value == s * q.unsafe_value,
        forall|s: isize, q: Quantity<isize, Brand>, r: Quantity<isize, Brand>|
            #[trigger] call_ensures(<isize as core::ops::Mul<Quantity<isize, Brand>>>::mul, (s, q), r)
                && isize::MIN <= s * q.unsafe_value <= isize::MAX
                ==> r.scale == q.scale && r.dimension == q.dimension
                && r.unsafe_value == s * q.unsafe_value,
        forall|s: u8, q: Quantity<u8, Brand>, r: Quantity<u8, Brand>|
            #[trigger] call_ensures(<u8 as core::ops::Mul<Quantity<u8, Brand>>>::mul, (s, q), r)
                && u8::MIN <= s * q.unsafe_value <= u8::MAX
                ==> r.scale == q.scale && r.dimension == q.dimension
                && r.unsafe_value == s * q.unsafe_value,
        forall|s: u16, q: Quantity<u16, Brand>, r: Quantity<u16, Brand>|
            #[trigger] call_ensures(<u16 as core::ops::Mul<Quantity<u16, Brand>>>::mul, (s, q), r)
                && u16::MIN <= s * q.unsafe_value <= u16::MAX
                ==> r.scale == q.scale && r.dimension == q.dimension
                && r.unsafe_value == s * q.unsafe_value,
        forall|s: u32, q: Quantity<u32, Brand>, r: Quantity<u32, Brand>|
            #[trigger] call_ensures(<u32 as core::ops::Mul<Quantity<u32, Brand>>>::mul, (s, q), r)
                && u32::MIN <= s * q.unsafe_value <= u32::MAX
                ==> r.scale == q.scale && r.dimension == q.dimension
                && r.unsafe_value == s * q.unsafe_value,
        forall|s: u64, q: Quantity<u64, Brand>, r: Quantity<u64, Brand>|
            #[trigger] call_ensures(<u64 as core::ops::Mul<Quantity<u64, Brand>>>::mul, (s, q), r)
                && u64::MIN <= s * q.unsafe_value <= u64::MAX
                ==> r.scale == q.scale && r.dimension == q.dimension
                && r.unsafe_value == s * q.unsafe_value,
        forall|s: u128, q: Quantity<u128, Brand>, r: Quantity<u128, Brand>|
            #[trigger] call_ensures(<u128 as core::ops::Mul<Quantity<u128, Brand>>>::mul, (s, q), r)
                && u128::MIN <= s * q.unsafe_value <= u128::MAX
                ==> r.scale == q.scale && r.dimension == q.dimension
                && r.unsafe_value == s * q.unsafe_value,
        forall|s: usize, q: Quantity<usize, Brand>, r: Quantity<usize, Brand>|
            #[trigger] call_ensures(<usize as core::ops::Mul<Quantity<usize, Brand>>>::mul, (s, q), r)
                && usize::MIN <= s * q.unsafe_value <= usize::MAX
                ==> r.scale == q.scale && r.dimension == q.dimension
                && r.unsafe_value == s * q.unsafe_value,
{
}

/// A primitive scalar over a quantity negates each scale and dimension exponent of the
/// quantity.
pub proof fn primitive_scalar_over_quantity_inverts_units<Brand>()
    ensures
        forall|s: i8, q: Quantity<i8, Brand>, r: Quantity<i8, Brand>|
            #[trigger] call_ensures(<i8 as core::ops::Div<Quantity<i8, Brand>>>::div, (s, q), r)
                && q.scale.can_invert() && q.dimension.can_invert()
                ==> scale_is_negation(q.scale, r.scale) && dimension_is_negation(q.dimension, r.dimension),
        forall|s: i16, q: Quantity<i16, Brand>, r: Quantity<i16, Brand>|
            #[trigger] call_ensures(<i16 as core::ops::Div<Quantity<i16, Brand>>>::div, (s, q), r)
                && q.scale.can_invert() && q.dimension.can_invert()
                ==> scale_is_negation(q.scale, r.scale) && dimension_is_negation(q.dimension, r.dimension),
        forall|s: i32, q: Quantity<i32, Brand>, r: Quantity<i32, Brand>|
            #[trigger] call_ensures(<i32 as core::ops::Div<Quantity<i32, Brand>>>::div, (s, q), r)
                && q.scale.can_invert() && q.dimension.can_invert()
                ==> scale_is_negation(q.scale, r.scale) && dimension_is_negation(q.dimension, r.dimension),
        forall|s: i64, q: Quantity<i64, Brand>, r: Quantity<i64, Brand>|
            #[trigger] call_ensures(<i64 as core::ops::Div<Quantity<i64, Brand>>>::div, (s, q), r)
                && q.scale.can_invert() && q.dimension.can_invert()
                ==> scale_is_negation(q.scale, r.scale) && dimension_is_negation(q.dimension, r.dimension),
        forall|s: i128, q: Quantity<i128, Brand>, r: Quantity<i128, Brand>|
            #[trigger] call_ensures(<i128 as core::ops::Div<Quantity<i128, Brand>>>::div, (s, q), r)
                && q.scale.can_invert() && q.dimension.can_invert()
                ==> scale_is_negation(q.scale, r.scale) && dimension_is_negation(q.dimension, r.dimension),
        forall|s: isize, q: Quantity<isize, Brand>, r: Quantity<isize, Brand>|
            #[trigger] call_ensures(<isize as core::ops::Div<Quantity<isize, Brand>>>::div, (s, q), r)
                && q.scale.can_invert() && q.dimension.can_invert()
                ==> scale_is_negation(q.scale, r.scale) && dimension_is_negation(q.dimension, r.dimension),
        forall|s: u8, q: Quantity<u8, Brand>, r: Quantity<u8, Brand>|
            #[trigger] call_ensures(<u8 as core::ops::Div<Quantity<u8, Brand>>>::div, (s, q), r)
                && q.scale.can_invert() && q.dimension.can_invert()
                ==> scale_is_negation(q.scale, r.scale) && dimension_is_negation(q.dimension, r.dimension),
        forall|s: u16, q: Quantity<u16, Brand>, r: Quantity<u16, Brand>|
            #[trigger] call_ensures(<u16 as core::ops::Div<Quantity<u16, Brand>>>::div, (s, q), r)
                && q.scale.can_invert() && q.dimension.can_invert()
                ==> scale_is_negation(q.scale, r.scale) && dimension_is_negation(q.dimension, r.dimension),
        forall|s: u32, q: Quantity<u32, Brand>, r: Quantity<u32, Brand>|
            #[trigger] call_ensures(<u32 as core::ops::Div<Quantity<u32, Brand>>>::div, (s, q), r)
                && q.scale.can_invert() && q.dimension.can_invert()
                ==> scale_is_negation(q.scale, r.scale) && dimension_is_negation(q.dimension, r.dimension),
        forall|s: u64, q: Quantity<u64, Brand>, r: Quantity<u64, Brand>|
            #[trigger] call_ensures(<u64 as core::ops::Div<Quantity<u64, Brand>>>::div, (s, q), r)
                && q.scale.can_invert() && q.dimension.can_invert()
                ==> scale_is_negation(q.scale, r.scale) && dimension_is_negation(q.dimension, r.dimension),
        forall|s: u128, q: Quantity<u128, Brand>, r: Quantity<u128, Brand>|
            #[trigger] call_ensures(<u128 as core::ops::Div<Quantity<u128, Brand>>>::div, (s, q), r)
                && q.scale.can_invert() && q.dimension.can_invert()
                ==> scale_is_negation(q.scale, r.scale) && dimension_is_negation(q.dimension, r.dimension),
        forall|s: usize, q: Quantity<usize, Brand>, r: Quantity<usize, Brand>|
            #[trigger] call_ensures(<usize as core::ops::Div<Quantity<usize, Brand>>>::div, (s, q), r)
                && q.scale.can_invert() && q.dimension.can_invert()
                ==> scale_is_negation(q.scale, r.scale) && dimension_is_negation(q.dimension, r.dimension),
{
}

/// Casting an `i8` to any integer type in which its value is representable keeps the
/// number unchanged.
pub proof fn lossy_from_i8_keeps_representable_values()
    ensures
        forall|x: i8, r: i8|
            #[trigger] call_ensures(<i8 as LossyFrom<i8>>::lossy_from, (x,), r)
                && i8::MIN <= x <= i8::MAX ==> r == x,
        forall|x: i8, r: i16|
            #[trigger] call_ensures(<i16 as LossyFrom<i8>>::lossy_from, (x,), r)
                && i16::MIN <= x <= i16::MAX ==> r == x,
        forall|x: i8, r: i32|
            #[trigger] call_ensures(<i32 as LossyFrom<i8>>::lossy_from, (x,), r)
                && i32::MIN <= x <= i32::MAX ==> r == x,
        forall|x: i8, r: i64|
            #[trigger] call_ensures(<i64 as LossyFrom<i8>>::lossy_from, (x,), r)
                && i64::MIN <= x <= i64::MAX ==> r == x,
        forall|x: i8, r: i128|
            #[trigger] call_ensures(<i128 as LossyFrom<i8>>::lossy_from, (x,), r)
                && i128::MIN <= x <= i128::MAX ==> r == x,
        forall|x: i8, r: isize|
            #[trigger] call_ensures(<isize as LossyFrom<i8>>::lossy_from, (x,), r)
                && isize::MIN <= x <= isize::MAX ==> r == x,
        forall|x: i8, r: u8|
            #[trigger] call_ensures(<u8 as LossyFrom<i8>>::lossy_from, (x,), r)
                && u8::MIN <= x <= u8::MAX ==> r == x,
        forall|x: i8, r: u16|
            #[trigger] call_ensures(<u16 as LossyFrom<i8>>::lossy_from, (x,), r)
                && u16::MIN <= x <= u16::MAX ==> r == x,
        forall|x: i8, r: u32|
            #[trigger] call_ensures(<u32 as LossyFrom<i8>>::lossy_from, (x,), r)
                && u32::MIN <= x <= u32::MAX ==> r == x,
        forall|x: i8, r: u64|
            #[trigger] call_ensures(<u64 as LossyFrom<i8>>::lossy_from, (x,), r)
                && u64::MIN <= x <= u64::MAX ==> r == x,
        forall|x: i8, r: u128|
            #[trigger] call_ensures(<u128 as LossyFrom<i8>>::lossy_from, (x,), r)
                && u128::MIN <= x <= u128::MAX ==> r == x,
        forall|x: i8, r: usize|
            #[trigger] call_ensures(<usize as LossyFrom<i8>>::lossy_from, (x,), r)
                && usize::MIN <= x <= usize::MAX ==> r == x,
{
}

/// Casting an `i16` to any integer type in which its value is representable keeps the
/// number unchanged.
pub proof fn lossy_from_i16_keeps_representable_values()
    ensures
        forall|x: i16, r: i8|
            #[trigger] call_ensures(<i8 as LossyFrom<i16>>::lossy_from, (x,), r)
                && i8::MIN <= x <= i8::MAX ==> r == x,
        forall|x: i16, r: i16|
            #[trigger] call_ensures(<i16 as LossyFrom<i16>>::lossy_from, (x,), r)
                && i16::MIN <= x <= i16::MAX ==> r == x,
        forall|x: i16, r: i32|
            #[trigger] call_ensures(<i32 as LossyFrom<i16>>::lossy_from, (x,), r)
                && i32::MIN <= x <= i32::MAX ==> r == x,
        forall|x: i16, r: i64|
            #[trigger] call_ensures(<i64 as LossyFrom<i16>>::lossy_from, (x,), r)
                && i64::MIN <= x <= i64::MAX ==> r == x,
        forall|x: i16, r: i128|
            #[trigger] call_ensures(<i128 as LossyFrom<i16>>::lossy_from, (x,), r)
                && i128::MIN <= x <= i128::MAX ==> r == x,
        forall|x: i16, r: isize|
            #[trigger] call_ensures(<isize as LossyFrom<i16>>::lossy_from, (x,), r)
                && isize::MIN <= x <= isize::MAX ==> r == x,
        forall|x: i16, r: u8|
            #[trigger] call_ensures(<u8 as LossyFrom<i16>>::lossy_from, (x,), r)
                && u8::MIN <= x <= u8::MAX ==> r == x,
        forall|x: i16, r: u16|
            #[trigger] call_ensures(<u16 as LossyFrom<i16>>::lossy_from, (x,), r)
                && u16::MIN <= x <= u16::MAX ==> r == x,
        forall|x: i16, r: u32|
            #[trigger] call_ensures(<u32 as LossyFrom<i16>>::lossy_from, (x,), r)
                && u32::MIN <= x <= u32::MAX ==> r == x,
        forall|x: i16, r: u64|
            #[trigger] call_ensures(<u64 as LossyFrom<i16>>::lossy_from, (x,), r)
                && u64::MIN <= x <= u64::MAX ==> r == x,
        forall|x: i16, r: u128|
            #[trigger] call_ensures(<u128 as LossyFrom<i16>>::lossy_from, (x,), r)
                && u128::MIN <= x <= u128::MAX ==> r == x,
        forall|x: i16, r: usize|
            #[trigger] call_ensures(<usize as LossyFrom<i16>>::lossy_from, (x,), r)
                && usize::MIN <= x <= usize::MAX ==> r == x,
{
}

/// Casting an `i32` to any integer type in which its value is representable keeps the
/// number unchanged.
pub proof fn lossy_from_i32_keeps_representable_values()
    ensures
        forall|x: i32, r: i8|
            #[trigger] call_ensures(<i8 as LossyFrom<i32>>::lossy_from, (x,), r)
                && i8::MIN <= x <= i8::MAX ==> r == x,
        forall|x: i32, r: i16|
            #[trigger] call_ensures(<i16 as LossyFrom<i32>>::lossy_from, (x,), r)
                && i16::MIN <= x <= i16::MAX ==> r == x,
        forall|x: i32, r: i32|
            #[trigger] call_ensures(<i32 as LossyFrom<i32>>::lossy_from, (x,), r)
                && i32::MIN <= x <= i32::MAX ==> r == x,
        forall|x: i32, r: i64|
            #[trigger] call_ensures(<i64 as LossyFrom<i32>>::lossy_from, (x,), r)
                && i64::MIN <= x <= i64::MAX ==> r == x,
        forall|x: i32, r: i128|
            #[trigger] call_ensures(<i128 as LossyFrom<i32>>::lossy_from, (x,), r)
                && i128::MIN <= x <= i128::MAX ==> r == x,
        forall|x: i32, r: isize|
            #[trigger] call_ensures(<isize as LossyFrom<i32>>::lossy_from, (x,), r)
                && isize::MIN <= x <= isize::MAX ==> r == x,
        forall|x: i32, r: u8|
            #[trigger] call_ensures(<u8 as LossyFrom<i32>>::lossy_from, (x,), r)
                && u8::MIN <= x <= u8::MAX ==> r == x,
        forall|x: i32, r: u16|
            #[trigger] call_ensures(<u16 as LossyFrom<i32>>::lossy_from, (x,), r)
                && u16::MIN <= x <= u16::MAX ==> r == x,
        forall|x: i32, r: u32|
            #[trigger] call_ensures(<u32 as LossyFrom<i32>>::lossy_from, (x,), r)
                && u32::MIN <= x <= u32::MAX ==> r == x,
        forall|x: i32, r: u64|
            #[trigger] call_ensures(<u64 as LossyFrom<i32>>::lossy_from, (x,), r)
                && u64::MIN <= x <= u64::MAX ==> r == x,
        forall|x: i32, r: u128|
            #[trigger] call_ensures(<u128 as LossyFrom<i32>>::lossy_from, (x,), r)
                && u128::MIN <= x <= u128::MAX ==> r == x,
        forall|x: i32, r: usize|
            #[trigger] call_ensures(<usize as LossyFrom<i32>>::lossy_from, (x,), r)
                && usize::MIN <= x <= usize::MAX ==> r == x,
{
}

/// Casting an `i64` to any integer type in which its value is representable keeps the
/// number unchanged.
pub proof fn lossy_from_i64_keeps_representable_values()
    ensures
        forall|x: i64, r: i8|
            #[trigger] call_ensures(<i8 as LossyFrom<i64>>::lossy_from, (x,), r)
                && i8::MIN <= x <= i8::MAX ==> r == x,
        forall|x: i64, r: i16|
            #[trigger] call_ensures(<i16 as LossyFrom<i64>>::lossy_from, (x,), r)
                && i16::MIN <= x <= i16::MAX ==> r == x,
        forall|x: i64, r: i32|
            #[trigger] call_ensures(<i32 as LossyFrom<i64>>::lossy_from, (x,), r)
                && i32::MIN <= x <= i32::MAX ==> r == x,
        forall|x: i64, r: i64|
            #[trigger] call_ensures(<i64 as LossyFrom<i64>>::lossy_from, (x,), r)
                && i64::MIN <= x <= i64::MAX ==> r == x,
        forall|x: i64, r: i128|
            #[trigger] call_ensures(<i128 as LossyFrom<i64>>::lossy_from, (x,), r)
                && i128::MIN <= x <= i128::MAX ==> r == x,
        forall|x: i64, r: isize|
            #[trigger] call_ensures(<isize as LossyFrom<i64>>::lossy_from, (x,), r)
                && isize::MIN <= x <= isize::MAX ==> r == x,
        forall|x: i64, r: u8|
            #[trigger] call_ensures(<u8 as LossyFrom<i64>>::lossy_from, (x,), r)
                && u8::MIN <= x <= u8::MAX ==> r == x,
        forall|x: i64, r: u16|
            #[trigger] call_ensures(<u16 as LossyFrom<i64>>::lossy_from, (x,), r)
                && u16::MIN <= x <= u16::MAX ==> r == x,
        forall|x: i64, r: u32|
            #[trigger] call_ensures(<u32 as LossyFrom<i64>>::lossy_from, (x,), r)
                && u32::MIN <= x <= u32::MAX ==> r == x,
        forall|x: i64, r: u64|
            #[trigger] call_ensures(<u64 as LossyFrom<i64>>::lossy_from, (x,), r)
                && u64::MIN <= x <= u64::MAX ==> r == x,
        forall|x: i64, r: u128|
            #[trigger] call_ensures(<u128 as LossyFrom<i64>>::lossy_from, (x,), r)
                && u128::MIN <= x <= u128::MAX ==> r == x,
        forall|x: i64, r: usize|
            #[trigger] call_ensures(<usize as LossyFrom<i64>>::lossy_from, (x,), r)
                && usize::MIN <= x <= usize::MAX ==> r == x,
{
}

/// Casting an `i128` to any integer type in which its value is representable keeps the
/// number unchanged.
pub proof fn lossy_from_i128_keeps_representable_values()
    ensures
        forall|x: i128, r: i8|
            #[trigger] call_ensures(<i8 as LossyFrom<i128>>::lossy_from, (x,), r)
                && i8::MIN <= x <= i8::MAX ==> r == x,
        forall|x: i128, r: i16|
            #[trigger] call_ensures(<i16 as LossyFrom<i128>>::lossy_from, (x,), r)
                && i16::MIN <= x <= i16::MAX ==> r == x,
        forall|x: i128, r: i32|
            #[trigger] call_ensures(<i32 as LossyFrom<i128>>::lossy_from, (x,), r)
                && i32::MIN <= x <= i32::MAX ==> r == x,
        forall|x: i128, r: i64|
            #[trigger] call_ensures(<i64 as LossyFrom<i128>>::lossy_from, (x,), r)
                && i64::MIN <= x <= i64::MAX ==> r == x,
        forall|x: i128, r: i128|
            #[trigger] call_ensures(<i128 as LossyFrom<i128>>::lossy_from, (x,), r)
                && i128::MIN <= x <= i128::MAX ==> r == x,
        forall|x: i128, r: isize|
            #[trigger] call_ensures(<isize as LossyFrom<i128>>::lossy_from, (x,), r)
                && isize::MIN <= x <= isize::MAX ==> r == x,
        forall|x: i128, r: u8|
            #[trigger] call_ensures(<u8 as LossyFrom<i128>>::lossy_from, (x,), r)
                && u8::MIN <= x <= u8::MAX ==> r == x,
        forall|x: i128, r: u16|
            #[trigger] call_ensures(<u16 as LossyFrom<i128>>::lossy_from, (x,), r)
                && u16::MIN <= x <= u16::MAX ==> r == x,
        forall|x: i128, r: u32|
            #[trigger] call_ensures(<u32 as LossyFrom<i128>>::lossy_from, (x,), r)
                && u32::MIN <= x <= u32::MAX ==> r == x,
        forall|x: i128, r: u64|
            #[trigger] call_ensures(<u64 as LossyFrom<i128>>::lossy_from, (x,), r)
                && u64::MIN <= x <= u64::MAX ==> r == x,
        forall|x: i128, r: u128|
            #[trigger] call_ensures(<u128 as LossyFrom<i128>>::lossy_from, (x,), r)
                && u128::MIN <= x <= u128::MAX ==> r == x,
        forall|x: i128, r: usize|
            #[trigger] call_ensures(<usize as LossyFrom<i128>>::lossy_from, (x,), r)
                && usize::MIN <= x <= usize::MAX ==> r == x,
{
}

/// Casting an `isize` to any integer type in which its value is representable keeps the
/// number unchanged.
pub proof fn lossy_from_isize_keeps_representable_values()
    ensures
        forall|x: isize, r: i8|
            #[trigger] call_ensures(<i8 as LossyFrom<isize>>::lossy_from, (x,), r)
                && i8::MIN <= x <= i8::MAX ==> r == x,
        forall|x: isize, r: i16|
            #[trigger] call_ensures(<i16 as LossyFrom<isize>>::lossy_from, (x,), r)
                && i16::MIN <= x <= i16::MAX ==> r == x,
        forall|x: isize, r: i32|
            #[trigger] call_ensures(<i32 as LossyFrom<isize>>::lossy_from, (x,), r)
                && i32::MIN <= x <= i32::MAX ==> r == x,
        forall|x: isize, r: i64|
            #[trigger] call_ensures(<i64 as LossyFrom<isize>>::lossy_from, (x,), r)
                && i64::MIN <= x <= i64::MAX ==> r == x,
        forall|x: isize, r: i128|
            #[trigger] call_ensures(<i128 as LossyFrom<isize>>::lossy_from, (x,), r)
                && i128::MIN <= x <= i128::MAX ==> r == x,
        forall|x: isize, r: isize|
            #[trigger] call_ensures(<isize as LossyFrom<isize>>::lossy_from, (x,), r)
                && isize::MIN <= x <= isize::MAX ==> r == x,
        forall|x: isize, r: u8|
            #[trigger] call_ensures(<u8 as LossyFrom<isize>>::lossy_from, (x,), r)
                && u8::MIN <= x <= u8::MAX ==> r == x,
        forall|x: isize, r: u16|
            #[trigger] call_ensures(<u16 as LossyFrom<isize>>::lossy_from, (x,), r)
                && u16::MIN <= x <= u16::MAX ==> r == x,
        forall|x: isize, r: u32|
            #[trigger] call_ensures(<u32 as LossyFrom<isize>>::lossy_from, (x,), r)
                && u32::MIN <= x <= u32::MAX ==> r == x,
        forall|x: isize, r: u64|
            #[trigger] call_ensures(<u64 as LossyFrom<isize>>::lossy_from, (x,), r)
                && u64::MIN <= x <= u64::MAX ==> r == x,
        forall|x: isize, r: u128|
            #[trigger] call_ensures(<u128 as LossyFrom<isize>>::lossy_from, (x,), r)
                && u128::MIN <= x <= u128::MAX ==> r == x,
        forall|x: isize, r: usize|
            #[trigger] call_ensures(<usize as LossyFrom<isize>>::lossy_from, (x,), r)
                && usize::MIN <= x <= usize::MAX ==> r == x,
{
}

/// Casting an `u8` to any integer type in which its value is representable keeps the
/// number unchanged.
pub proof fn lossy_from_u8_keeps_representable_values()
    ensures
        forall|x: u8, r: i8|
            #[trigger] call_ensures(<i8 as LossyFrom<u8>>::lossy_from, (x,), r)
                && i8::MIN <= x <= i8::MAX ==> r == x,
        forall|x: u8, r: i16|
            #[trigger] call_ensures(<i16 as LossyFrom<u8>>::lossy_from, (x,), r)
                && i16::MIN <= x <= i16::MAX ==> r == x,
        forall|x: u8, r: i32|
            #[trigger] call_ensures(<i32 as LossyFrom<u8>>::lossy_from, (x,), r)
                && i32::MIN <= x <= i32::MAX ==> r == x,
        forall|x: u8, r: i64|
            #[trigger] call_ensures(<i64 as LossyFrom<u8>>::lossy_from, (x,), r)
                && i64::MIN <= x <= i64::MAX ==> r == x,
        forall|x: u8, r: i128|
            #[trigger] call_ensures(<i128 as LossyFrom<u8>>::lossy_from, (x,), r)
                && i128::MIN <= x <= i128::MAX ==> r == x,
        forall|x: u8, r: isize|
            #[trigger] call_ensures(<isize as LossyFrom<u8>>::lossy_from, (x,), r)
                && isize::MIN <= x <= isize::MAX ==> r == x,
        forall|x: u8, r: u8|
            #[trigger] call_ensures(<u8 as LossyFrom<u8>>::lossy_from, (x,), r)
                && u8::MIN <= x <= u8::MAX ==> r == x,
        forall|x: u8, r: u16|
            #[trigger] call_ensures(<u16 as LossyFrom<u8>>::lossy_from, (x,), r)
                && u16::MIN <= x <= u16::MAX ==> r == x,
        forall|x: u8, r: u32|
            #[trigger] call_ensures(<u32 as LossyFrom<u8>>::lossy_from, (x,), r)
                && u32::MIN <= x <= u32::MAX ==> r == x,
        forall|x: u8, r: u64|
            #[trigger] call_ensures(<u64 as LossyFrom<u8>>::lossy_from, (x,), r)
                && u64::MIN <= x <= u64::MAX ==> r == x,
        forall|x: u8, r: u128|
            #[trigger] call_ensures(<u128 as LossyFrom<u8>>::lossy_from, (x,), r)
                && u128::MIN <= x <= u128::MAX ==> r == x,
        forall|x: u8, r: usize|
            #[trigger] call_ensures(<usize as LossyFrom<u8>>::lossy_from, (x,), r)
                && usize::MIN <= x <= usize::MAX ==> r == x,
{
}

/// Casting an `u16` to any integer type in which its value is representable keeps the
/// number unchanged.
pub proof fn lossy_from_u16_keeps_representable_values()
    ensures
        forall|x: u16, r: i8|
            #[trigger] call_ensures(<i8 as LossyFrom<u16>>::lossy_from, (x,), r)
                && i8::MIN <= x <= i8::MAX ==> r == x,
        forall|x: u16, r: i16|
            #[trigger] call_ensures(<i16 as LossyFrom<u16>>::lossy_from, (x,), r)
                && i16::MIN <= x <= i16::MAX ==> r == x,
        forall|x: u16, r: i32|
            #[trigger] call_ensures(<i32 as LossyFrom<u16>>::lossy_from, (x,), r)
                && i32::MIN <= x <= i32::MAX ==> r == x,
        forall|x: u16, r: i64|
            #[trigger] call_ensures(<i64 as LossyFrom<u16>>::lossy_from, (x,), r)
                && i64::MIN <= x <= i64::MAX ==> r == x,
        forall|x: u16, r: i128|
            #[trigger] call_ensures(<i128 as LossyFrom<u16>>::lossy_from, (x,), r)
                && i128::MIN <= x <= i128::MAX ==> r == x,
        forall|x: u16, r: isize|
            #[trigger] call_ensures(<isize as LossyFrom<u16>>::lossy_from, (x,), r)
                && isize::MIN <= x <= isize::MAX ==> r == x,
        forall|x: u16, r: u8|
            #[trigger] call_ensures(<u8 as LossyFrom<u16>>::lossy_from, (x,), r)
                && u8::MIN <= x <= u8::MAX ==> r == x,
        forall|x: u16, r: u16|
            #[trigger] call_ensures(<u16 as LossyFrom<u16>>::lossy_from, (x,), r)
                && u16::MIN <= x <= u16::MAX ==> r == x,
        forall|x: u16, r: u32|
            #[trigger] call_ensures(<u32 as LossyFrom<u16>>::lossy_from, (x,), r)
                && u32::MIN <= x <= u32::MAX ==> r == x,
        forall|x: u16, r: u64|
            #[trigger] call_ensures(<u64 as LossyFrom<u16>>::lossy_from, (x,), r)
                && u64::MIN <= x <= u64::MAX ==> r == x,
        forall|x: u16, r: u128|
            #[trigger] call_ensures(<u128 as LossyFrom<u16>>::lossy_from, (x,), r)
                && u128::MIN <= x <= u128::MAX ==> r == x,
        forall|x: u16, r: usize|
            #[trigger] call_ensures(<usize as LossyFrom<u16>>::lossy_from, (x,), r)
                && usize::MIN <= x <= usize::MAX ==> r == x,
{
}

/// Casting an `u32` to any integer type in which its value is representable keeps the
/// number unchanged.
pub proof fn lossy_from_u32_keeps_representable_values()
    ensures
        forall|x: u32, r: i8|
            #[trigger] call_ensures(<i8 as LossyFrom<u32>>::lossy_from, (x,), r)
                && i8::MIN <= x <= i8::MAX ==> r == x,
        forall|x: u32, r: i16|
            #[trigger] call_ensures(<i16 as LossyFrom<u32>>::lossy_from, (x,), r)
                && i16::MIN <= x <= i16::MAX ==> r == x,
        forall|x: u32, r: i32|
            #[trigger] call_ensures(<i32 as LossyFrom<u32>>::lossy_from, (x,), r)
                && i32::MIN <= x <= i32::MAX ==> r == x,
        forall|x: u32, r: i64|
            #[trigger] call_ensures(<i64 as LossyFrom<u32>>::lossy_from, (x,), r)
                && i64::MIN <= x <= i64::MAX ==> r == x,
        forall|x: u32, r: i128|
            #[trigger] call_ensures(<i128 as LossyFrom<u32>>::lossy_from, (x,), r)
                && i128::MIN <= x <= i128::MAX ==> r == x,
        forall|x: u32, r: isize|
            #[trigger] call_ensures(<isize as LossyFrom<u32>>::lossy_from, (x,), r)
                && isize::MIN <= x <= isize::MAX ==> r == x,
        forall|x: u32, r: u8|
            #[trigger] call_ensures(<u8 as LossyFrom<u32>>::lossy_from, (x,), r)
                && u8::MIN <= x <= u8::MAX ==> r == x,
        forall|x: u32, r: u16|
            #[trigger] call_ensures(<u16 as LossyFrom<u32>>::lossy_from, (x,), r)
                && u16::MIN <= x <= u16::MAX ==> r == x,
        forall|x: u32, r: u32|
            #[trigger] call_ensures(<u32 as LossyFrom<u32>>::lossy_from, (x,), r)
                && u32::MIN <= x <= u32::MAX ==> r == x,
        forall|x: u32, r: u64|
            #[trigger] call_ensures(<u64 as LossyFrom<u32>>::lossy_from, (x,), r)
                && u64::MIN <= x <= u64::MAX ==> r == x,
        forall|x: u32, r: u128|
            #[trigger] call_ensures(<u128 as LossyFrom<u32>>::lossy_from, (x,), r)
                && u128::MIN <= x <= u128::MAX ==> r == x,
        forall|x: u32, r: usize|
            #[trigger] call_ensures(<usize as LossyFrom<u32>>::lossy_from, (x,), r)
                && usize::MIN <= x <= usize::MAX ==> r == x,
{
}

/// Casting an `u64` to any integer type in which its value is representable keeps the
/// number unchanged.
pub proof fn lossy_from_u64_keeps_representable_values()
    ensures
        forall|x: u64, r: i8|
            #[trigger] call_ensures(<i8 as LossyFrom<u64>>::lossy_from, (x,), r)
                && i8::MIN <= x <= i8::MAX ==> r == x,
        forall|x: u64, r: i16|
            #[trigger] call_ensures(<i16 as LossyFrom<u64>>::lossy_from, (x,), r)
                && i16::MIN <= x <= i16::MAX ==> r == x,
        forall|x: u64, r: i32|
            #[trigger] call_ensures(<i32 as LossyFrom<u64>>::lossy_from, (x,), r)
                && i32::MIN <= x <= i32::MAX ==> r == x,
        forall|x: u64, r: i64|
            #[trigger] call_ensures(<i64 as LossyFrom<u64>>::lossy_from, (x,), r)
                && i64::MIN <= x <= i64::MAX ==> r == x,
        forall|x: u64, r: i128|
            #[trigger] call_ensures(<i128 as LossyFrom<u64>>::lossy_from, (x,), r)
                && i128::MIN <= x <= i128::MAX ==> r == x,
        forall|x: u64, r: isize|
            #[trigger] call_ensures(<isize as LossyFrom<u64>>::lossy_from, (x,), r)
                && isize::MIN <= x <= isize::MAX ==> r == x,
        forall|x: u64, r: u8|
            #[trigger] call_ensures(<u8 as LossyFrom<u64>>::lossy_from, (x,), r)
                && u8::MIN <= x <= u8::MAX ==> r == x,
        forall|x: u64, r: u16|
            #[trigger] call_ensures(<u16 as LossyFrom<u64>>::lossy_from, (x,), r)
                && u16::MIN <= x <= u16::MAX ==> r == x,
        forall|x: u64, r: u32|
            #[trigger] call_ensures(<u32 as LossyFrom<u64>>::lossy_from, (x,), r)
                && u32::MIN <= x <= u32::MAX ==> r == x,
        forall|x: u64, r: u64|
            #[trigger] call_ensures(<u64 as LossyFrom<u64>>::lossy_from, (x,), r)
                && u64::MIN <= x <= u64::MAX ==> r == x,
        forall|x: u64, r: u128|
            #[trigger] call_ensures(<u128 as LossyFrom<u64>>::lossy_from, (x,), r)
                && u128::MIN <= x <= u128::MAX ==> r == x,
        forall|x: u64, r: usize|
            #[trigger] call_ensures(<usize as LossyFrom<u64>>::lossy_from, (x,), r)
                && usize::MIN <= x <= usize::MAX ==> r == x,
{
}

/// Casting an `u128` to any integer type in which its value is representable keeps the
/// number unchanged.
pub proof fn lossy_from_u128_keeps_representable_values()
    ensures
        forall|x: u128, r: i8|
            #[trigger] call_ensures(<i8 as LossyFrom<u128>>::lossy_from, (x,), r)
                && i8::MIN <= x <= i8::MAX ==> r == x,
        forall|x: u128, r: i16|
            #[trigger] call_ensures(<i16 as LossyFrom<u128>>::lossy_from, (x,), r)
                && i16::MIN <= x <= i16::MAX ==> r == x,
        forall|x: u128, r: i32|
            #[trigger] call_ensures(<i32 as LossyFrom<u128>>::lossy_from, (x,), r)
                && i32::MIN <= x <= i32::MAX ==> r == x,
        forall|x: u128, r: i64|
            #[trigger] call_ensures(<i64 as LossyFrom<u128>>::lossy_from, (x,), r)
                && i64::MIN <= x <= i64::MAX ==> r == x,
        forall|x: u128, r: i128|
            #[trigger] call_ensures(<i128 as LossyFrom<u128>>::lossy_from, (x,), r)
                && i128::MIN <= x <= i128::MAX ==> r == x,
        forall|x: u128, r: isize|
            #[trigger] call_ensures(<isize as LossyFrom<u128>>::lossy_from, (x,), r)
                && isize::MIN <= x <= isize::MAX ==> r == x,
        forall|x: u128, r: u8|
            #[trigger] call_ensures(<u8 as LossyFrom<u128>>::lossy_from, (x,), r)
                && u8::MIN <= x <= u8::MAX ==> r == x,
        forall|x: u128, r: u16|
            #[trigger] call_ensures(<u16 as LossyFrom<u128>>::lossy_from, (x,), r)
                && u16::MIN <= x <= u16::MAX ==> r == x,
        forall|x: u128, r: u32|
            #[trigger] call_ensures(<u32 as LossyFrom<u128>>::lossy_from, (x,), r)
                && u32::MIN <= x <= u32::MAX ==> r == x,
        forall|x: u128, r: u64|
            #[trigger] call_ensures(<u64 as LossyFrom<u128>>::lossy_from, (x,), r)
                && u64::MIN <= x <= u64::MAX ==> r == x,
        forall|x: u128, r: u128|
            #[trigger] call_ensures(<u128 as LossyFrom<u128>>::lossy_from, (x,), r)
                && u128::MIN <= x <= u128::MAX ==> r == x,
        forall|x: u128, r: usize|
            #[trigger] call_ensures(<usize as LossyFrom<u128>>::lossy_from, (x,), r)
                && usize::MIN <= x <= usize::MAX ==> r == x,
{
}

/// Casting an `usize` to any integer type in which its value is representable keeps the
/// number unchanged.
pub proof fn lossy_from_usize_keeps_representable_values()
    ensures
        forall|x: usize, r: i8|
            #[trigger] call_ensures(<i8 as LossyFrom<usize>>::lossy_from, (x,), r)
                && i8::MIN <= x <= i8::MAX ==> r == x,
        forall|x: usize, r: i16|
            #[trigger] call_ensures(<i16 as LossyFrom<usize>>::lossy_from, (x,), r)
                && i16::MIN <= x <= i16::MAX ==> r == x,
        forall|x: usize, r: i32|
            #[trigger] call_ensures(<i32 as LossyFrom<usize>>::lossy_from, (x,), r)
                && i32::MIN <= x <= i32::MAX ==> r == x,
        forall|x: usize, r: i64|
            #[trigger] call_ensures(<i64 as LossyFrom<usize>>::lossy_from, (x,), r)
                && i64::MIN <= x <= i64::MAX ==> r == x,
        forall|x: usize, r: i128|
            #[trigger] call_ensures(<i128 as LossyFrom<usize>>::lossy_from, (x,), r)
                && i128::MIN <= x <= i128::MAX ==> r == x,
        forall|x: usize, r: isize|
            #[trigger] call_ensures(<isize as LossyFrom<usize>>::lossy_from, (x,), r)
                && isize::MIN <= x <= isize::MAX ==> r == x,
        forall|x: usize, r: u8|
            #[trigger] call_ensures(<u8 as LossyFrom<usize>>::lossy_from, (x,), r)
                && u8::MIN <= x <= u8::MAX ==> r == x,
        forall|x: usize, r: u16|
            #[trigger] call_ensures(<u16 as LossyFrom<usize>>::lossy_from, (x,), r)
                && u16::MIN <= x <= u16::MAX ==> r == x,
        forall|x: usize, r: u32|
            #[trigger] call_ensures(<u32 as LossyFrom<usize>>::lossy_from, (x,), r)
                && u32::MIN <= x <= u32::MAX ==> r == x,
        forall|x: usize, r: u64|
            #[trigger] call_ensures(<u64 as LossyFrom<usize>>::lossy_from, (x,), r)
                && u64::MIN <= x <= u64::MAX ==> r == x,
        forall|x: usize, r: u128|
            #[trigger] call_ensures(<u128 as LossyFrom<usize>>::lossy_from, (x,), r)
                && u128::MIN <= x <= u128::MAX ==> r == x,
        forall|x: usize, r: usize|
            #[trigger] call_ensures(<usize as LossyFrom<usize>>::lossy_from, (x,), r)
                && usize::MIN <= x <= usize::MAX ==> r == x,
{
}

} // verus!
