//! Arithmetic on quantities.
//!
//! The operations are generic over the storage type: each one asks of `T` only the
//! operation it performs, so a storage type that lacks, say, `Rem` loses only the
//! remainder operations.  Addition, subtraction, remainder and comparison are
//! scale-strict (both operands must have the same scale and dimension); products and
//! quotients combine the exponent vectors.

use vstd::prelude::*;
use vstd::std_specs::ops::{
    AddSpec, AddSpecImpl, DivSpec, DivSpecImpl, MulSpec, MulSpecImpl, NegSpec, NegSpecImpl,
    RemSpec, RemSpecImpl, SubSpec, SubSpecImpl,
};
use core::ops::{Add, Div, Mul, Neg, Rem, Sub};
use crate::quantity::Quantity;

verus! {

impl<T: Add<Output = T>, Brand> AddSpecImpl for Quantity<T, Brand> {
    open spec fn obeys_add_spec() -> bool {
        T::obeys_add_spec()
    }

    open spec fn add_req(self, rhs: Self) -> bool {
        &&& self.scale == rhs.scale
        &&& self.dimension == rhs.dimension
        &&& self.unsafe_value.add_req(rhs.unsafe_value)
    }

    open spec fn add_spec(self, rhs: Self) -> Self {
        Quantity::spec_with(self.unsafe_value.add_spec(rhs.unsafe_value), self.scale, self.dimension)
    }
}

/// Adds two quantities of the same scale and dimension.
///
/// The result keeps the operands' scale and dimension; its raw value is the sum
/// of the raw values.
impl<T: Add<Output = T>, Brand> Add for Quantity<T, Brand> {
    type Output = Self;

    fn add(self, rhs: Self) -> (r: Self)
        ensures
            r.scale == self.scale,
            r.dimension == self.dimension,
            call_ensures(<T as Add>::add, (self.unsafe_value, rhs.unsafe_value), r.unsafe_value),
            T::obeys_add_spec() ==> r.unsafe_value == self.unsafe_value.add_spec(rhs.unsafe_value),
    {
        Quantity::new(self.unsafe_value.add(rhs.unsafe_value), self.scale, self.dimension)
    }
}

impl<T: Sub<Output = T>, Brand> SubSpecImpl for Quantity<T, Brand> {
    open spec fn obeys_sub_spec() -> bool {
        T::obeys_sub_spec()
    }

    open spec fn sub_req(self, rhs: Self) -> bool {
        &&& self.scale == rhs.scale
        &&& self.dimension == rhs.dimension
        &&& self.unsafe_value.sub_req(rhs.unsafe_value)
    }

    open spec fn sub_spec(self, rhs: Self) -> Self {
        Quantity::spec_with(self.unsafe_value.sub_spec(rhs.unsafe_value), self.scale, self.dimension)
    }
}

/// Subtracts two quantities of the same scale and dimension.
///
/// The result keeps the operands' scale and dimension; its raw value is the difference
/// of the raw values.
impl<T: Sub<Output = T>, Brand> Sub for Quantity<T, Brand> {
    type Output = Self;

    fn sub(self, rhs: Self) -> (r: Self)
        ensures
            r.scale == self.scale,
            r.dimension == self.dimension,
            call_ensures(<T as Sub>::sub, (self.unsafe_value, rhs.unsafe_value), r.unsafe_value),
            T::obeys_sub_spec() ==> r.unsafe_value == self.unsafe_value.sub_spec(rhs.unsafe_value),
    {
        Quantity::new(self.unsafe_value.sub(rhs.unsafe_value), self.scale, self.dimension)
    }
}

impl<T: Rem<Output = T>, Brand> RemSpecImpl for Quantity<T, Brand> {
    open spec fn obeys_rem_spec() -> bool {
        T::obeys_rem_spec()
    }

    open spec fn rem_req(self, rhs: Self) -> bool {
        &&& self.scale == rhs.scale
        &&& self.dimension == rhs.dimension
        &&& self.unsafe_value.rem_req(rhs.unsafe_value)
    }

    open spec fn rem_spec(self, rhs: Self) -> Self {
        Quantity::spec_with(self.unsafe_value.rem_spec(rhs.unsafe_value), self.scale, self.dimension)
    }
}

/// The remainder of two quantities of the same scale and dimension.
///
/// The result keeps the operands' scale and dimension; its raw value is the remainder
/// of the raw values.
impl<T: Rem<Output = T>, Brand> Rem for Quantity<T, Brand> {
    type Output = Self;

    fn rem(self, rhs: Self) -> (r: Self)
        ensures
            r.scale == self.scale,
            r.dimension == self.dimension,
            call_ensures(<T as Rem>::rem, (self.unsafe_value, rhs.unsafe_value), r.unsafe_value),
            T::obeys_rem_spec() ==> r.unsafe_value == self.unsafe_value.rem_spec(rhs.unsafe_value),
    {
        Quantity::new(self.unsafe_value.rem(rhs.unsafe_value), self.scale, self.dimension)
    }
}

impl<T: Mul<Output = T>, Brand> MulSpecImpl<T> for Quantity<T, Brand> {
    open spec fn obeys_mul_spec() -> bool {
        T::obeys_mul_spec()
    }

    open spec fn mul_req(self, rhs: T) -> bool {
        self.unsafe_value.mul_req(rhs)
    }

    open spec fn mul_spec(self, rhs: T) -> Self {
        Quantity::spec_with(self.unsafe_value.mul_spec(rhs), self.scale, self.dimension)
    }
}

/// Multiplies a quantity by a bare scalar of its storage type.
///
/// The result keeps the quantity's scale and dimension; its raw value is the product
/// of the raw value and the scalar.
impl<T: Mul<Output = T>, Brand> Mul<T> for Quantity<T, Brand> {
    type Output = Self;

    fn mul(self, rhs: T) -> (r: Self)
        ensures
            r.scale == self.scale,
            r.dimension == self.dimension,
            call_ensures(<T as Mul>::mul, (self.unsafe_value, rhs), r.unsafe_value),
            T::obeys_mul_spec() ==> r.unsafe_value == self.unsafe_value.mul_spec(rhs),
    {
        Quantity::new(self.unsafe_value.mul(rhs), self.scale, self.dimension)
    }
}

impl<T: Div<Output = T>, Brand> DivSpecImpl<T> for Quantity<T, Brand> {
    open spec fn obeys_div_spec() -> bool {
        T::obeys_div_spec()
    }

    open spec fn div_req(self, rhs: T) -> bool {
        self.unsafe_value.div_req(rhs)
    }

    open spec fn div_spec(self, rhs: T) -> Self {
        Quantity::spec_with(self.unsafe_value.div_spec(rhs), self.scale, self.dimension)
    }
}

/// Divides a quantity by a bare scalar of its storage type.
///
/// The result keeps the quantity's scale and dimension; its raw value is the quotient
/// of the raw value and the scalar.
impl<T: Div<Output = T>, Brand> Div<T> for Quantity<T, Brand> {
    type Output = Self;

    fn div(self, rhs: T) -> (r: Self)
        ensures
            r.scale == self.scale,
            r.dimension == self.dimension,
            call_ensures(<T as Div>::div, (self.unsafe_value, rhs), r.unsafe_value),
            T::obeys_div_spec() ==> r.unsafe_value == self.unsafe_value.div_spec(rhs),
    {
        Quantity::new(self.unsafe_value.div(rhs), self.scale, self.dimension)
    }
}

impl<T: Rem<Output = T>, Brand> RemSpecImpl<T> for Quantity<T, Brand> {
    open spec fn obeys_rem_spec() -> bool {
        T::obeys_rem_spec()
    }

    open spec fn rem_req(self, rhs: T) -> bool {
        self.unsafe_value.rem_req(rhs)
    }

    open spec fn rem_spec(self, rhs: T) -> Self {
        Quantity::spec_with(self.unsafe_value.rem_spec(rhs), self.scale, self.dimension)
    }
}

/// The remainder of a quantity by a bare scalar of its storage type.
///
/// The result keeps the quantity's scale and dimension; its raw value is the remainder
/// of the raw value and the scalar.
impl<T: Rem<Output = T>, Brand> Rem<T> for Quantity<T, Brand> {
    type Output = Self;

    fn rem(self, rhs: T) -> (r: Self)
        ensures
            r.scale == self.scale,
            r.dimension == self.dimension,
            call_ensures(<T as Rem>::rem, (self.unsafe_value, rhs), r.unsafe_value),
            T::obeys_rem_spec() ==> r.unsafe_value == self.unsafe_value.rem_spec(rhs),
    {
        Quantity::new(self.unsafe_value.rem(rhs), self.scale, self.dimension)
    }
}

impl<T: Mul<Output = T>, Brand> MulSpecImpl for Quantity<T, Brand> {
    open spec fn obeys_mul_spec() -> bool {
        T::obeys_mul_spec()
    }

    open spec fn mul_req(self, rhs: Self) -> bool {
        &&& self.scale.can_multiply(rhs.scale)
        &&& self.dimension.can_multiply(rhs.dimension)
        &&& self.unsafe_value.mul_req(rhs.unsafe_value)
    }

    open spec fn mul_spec(self, rhs: Self) -> Self {
        Quantity::spec_with(
            self.unsafe_value.mul_spec(rhs.unsafe_value),
            self.scale.times(rhs.scale),
            self.dimension.times(rhs.dimension),
        )
    }
}

/// Multiplies two quantities: scales and dimensions combine by adding exponents.
///
/// The raw value of the result is the product of the raw values.
impl<T: Mul<Output = T>, Brand> Mul for Quantity<T, Brand> {
    type Output = Self;

    fn mul(self, rhs: Self) -> (r: Self)
        ensures
            r.scale == self.scale.times(rhs.scale),
            r.dimension == self.dimension.times(rhs.dimension),
            call_ensures(<T as Mul>::mul, (self.unsafe_value, rhs.unsafe_value), r.unsafe_value),
            T::obeys_mul_spec() ==> r.unsafe_value == self.unsafe_value.mul_spec(rhs.unsafe_value),
    {
        let scale = self.scale.multiply(&rhs.scale);
        let dimension = self.dimension.multiply(&rhs.dimension);
        Quantity::new(self.unsafe_value.mul(rhs.unsafe_value), scale, dimension)
    }
}

impl<T: Div<Output = T>, Brand> DivSpecImpl for Quantity<T, Brand> {
    open spec fn obeys_div_spec() -> bool {
        T::obeys_div_spec()
    }

    open spec fn div_req(self, rhs: Self) -> bool {
        &&& self.scale.can_divide(rhs.scale)
        &&& self.dimension.can_divide(rhs.dimension)
        &&& self.unsafe_value.div_req(rhs.unsafe_value)
    }

    open spec fn div_spec(self, rhs: Self) -> Self {
        Quantity::spec_with(
            self.unsafe_value.div_spec(rhs.unsafe_value),
            self.scale.over(rhs.scale),
            self.dimension.over(rhs.dimension),
        )
    }
}

/// Divides two quantities: scales and dimensions combine by subtracting exponents.
///
/// The raw value of the result is the quotient of the raw values.
impl<T: Div<Output = T>, Brand> Div for Quantity<T, Brand> {
    type Output = Self;

    fn div(self, rhs: Self) -> (r: Self)
        ensures
            r.scale == self.scale.over(rhs.scale),
            r.dimension == self.dimension.over(rhs.dimension),
            call_ensures(<T as Div>::div, (self.unsafe_value, rhs.unsafe_value), r.unsafe_value),
            T::obeys_div_spec() ==> r.unsafe_value == self.unsafe_value.div_spec(rhs.unsafe_value),
    {
        let scale = self.scale.divide(&rhs.scale);
        let dimension = self.dimension.divide(&rhs.dimension);
        Quantity::new(self.unsafe_value.div(rhs.unsafe_value), scale, dimension)
    }
}

impl<T: Neg<Output = T>, Brand> NegSpecImpl for Quantity<T, Brand> {
    open spec fn obeys_neg_spec() -> bool {
        T::obeys_neg_spec()
    }

    open spec fn neg_req(self) -> bool {
        self.unsafe_value.neg_req()
    }

    open spec fn neg_spec(self) -> Self {
        Quantity::spec_with(self.unsafe_value.neg_spec(), self.scale, self.dimension)
    }
}

/// Negates a quantity, keeping its scale and dimension.
impl<T: Neg<Output = T>, Brand> Neg for Quantity<T, Brand> {
    type Output = Self;

    fn neg(self) -> (r: Self)
        ensures
            r.scale == self.scale,
            r.dimension == self.dimension,
            call_ensures(<T as Neg>::neg, (self.unsafe_value,), r.unsafe_value),
            T::obeys_neg_spec() ==> r.unsafe_value == self.unsafe_value.neg_spec(),
    {
        Quantity::new(self.unsafe_value.neg(), self.scale, self.dimension)
    }
}

impl<T, Brand> Quantity<T, Brand> {
    /// Multiplies a bare scalar by a quantity (`scalar * quantity`); the result keeps
    /// the quantity's scale and dimension.
    pub fn scalar_mul(scalar: T, quantity: Self) -> (r: Self)
        where
            T: Mul<Output = T>,
        requires
            scalar.mul_req(quantity.unsafe_value),
        ensures
            r.scale == quantity.scale,
            r.dimension == quantity.dimension,
            call_ensures(<T as Mul>::mul, (scalar, quantity.unsafe_value), r.unsafe_value),
            T::obeys_mul_spec() ==> r.unsafe_value == scalar.mul_spec(quantity.unsafe_value),
    {
        Quantity::new(scalar.mul(quantity.unsafe_value), quantity.scale, quantity.dimension)
    }

    /// Divides a bare scalar by a quantity (`scalar / quantity`); the result has the
    /// reciprocal scale and dimension of the quantity.
    pub fn scalar_div(scalar: T, quantity: Self) -> (r: Self)
        where
            T: Div<Output = T>,
        requires
            quantity.scale.can_invert(),
            quantity.dimension.can_invert(),
            scalar.div_req(quantity.unsafe_value),
        ensures
            r.scale == quantity.scale.inverted(),
            r.dimension == quantity.dimension.inverted(),
            call_ensures(<T as Div>::div, (scalar, quantity.unsafe_value), r.unsafe_value),
            T::obeys_div_spec() ==> r.unsafe_value == scalar.div_spec(quantity.unsafe_value),
    {
        let scale = quantity.scale.invert();
        let dimension = quantity.dimension.invert();
        Quantity::new(scalar.div(quantity.unsafe_value), scale, dimension)
    }


    /// Adds a quantity of the same scale and dimension in place (`+=`).
    pub fn add_assign(&mut self, rhs: Self)
        where
            T: Add<Output = T> + Copy,
        requires
            old(self).scale == rhs.scale,
            old(self).dimension == rhs.dimension,
            old(self).unsafe_value.add_req(rhs.unsafe_value),
        ensures
            final(self).scale == old(self).scale,
            final(self).dimension == old(self).dimension,
            call_ensures(<T as Add>::add, (old(self).unsafe_value, rhs.unsafe_value), final(self).unsafe_value),
            T::obeys_add_spec() ==> final(self).unsafe_value == old(self).unsafe_value.add_spec(rhs.unsafe_value),
    {
        self.unsafe_value = self.unsafe_value.add(rhs.unsafe_value);
    }

    /// Subtracts a quantity of the same scale and dimension in place (`-=`).
    pub fn sub_assign(&mut self, rhs: Self)
        where
            T: Sub<Output = T> + Copy,
        requires
            old(self).scale == rhs.scale,
            old(self).dimension == rhs.dimension,
            old(self).unsafe_value.sub_req(rhs.unsafe_value),
        ensures
            final(self).scale == old(self).scale,
            final(self).dimension == old(self).dimension,
            call_ensures(<T as Sub>::sub, (old(self).unsafe_value, rhs.unsafe_value), final(self).unsafe_value),
            T::obeys_sub_spec() ==> final(self).unsafe_value == old(self).unsafe_value.sub_spec(rhs.unsafe_value),
    {
        self.unsafe_value = self.unsafe_value.sub(rhs.unsafe_value);
    }

    /// Multiplies the raw value by a bare scalar in place (`*=`).
    pub fn mul_assign(&mut self, rhs: T)
        where
            T: Mul<Output = T> + Copy,
        requires
            old(self).unsafe_value.mul_req(rhs),
        ensures
            final(self).scale == old(self).scale,
            final(self).dimension == old(self).dimension,
            call_ensures(<T as Mul>::mul, (old(self).unsafe_value, rhs), final(self).unsafe_value),
            T::obeys_mul_spec() ==> final(self).unsafe_value == old(self).unsafe_value.mul_spec(rhs),
    {
        self.unsafe_value = self.unsafe_value.mul(rhs);
    }

    /// Divides the raw value by a bare scalar in place (`/=`).
    pub fn div_assign(&mut self, rhs: T)
        where
            T: Div<Output = T> + Copy,
        requires
            old(self).unsafe_value.div_req(rhs),
        ensures
            final(self).scale == old(self).scale,
            final(self).dimension == old(self).dimension,
            call_ensures(<T as Div>::div, (old(self).unsafe_value, rhs), final(self).unsafe_value),
            T::obeys_div_spec() ==> final(self).unsafe_value == old(self).unsafe_value.div_spec(rhs),
    {
        self.unsafe_value = self.unsafe_value.div(rhs);
    }
}

impl<Brand> MulSpecImpl<Quantity<i8, Brand>> for i8 {
    open spec fn obeys_mul_spec() -> bool {
        true
    }

    open spec fn mul_req(self, rhs: Quantity<i8, Brand>) -> bool {
        <i8 as MulSpec>::mul_req(self, rhs.unsafe_value)
    }

    open spec fn mul_spec(self, rhs: Quantity<i8, Brand>) -> Quantity<i8, Brand> {
        Quantity::spec_with(<i8 as MulSpec>::mul_spec(self, rhs.unsafe_value), rhs.scale, rhs.dimension)
    }
}

/// `scalar * quantity`: the result keeps the quantity's scale and dimension.
impl<Brand> Mul<Quantity<i8, Brand>> for i8 {
    type Output = Quantity<i8, Brand>;

    fn mul(self, rhs: Quantity<i8, Brand>) -> (r: Quantity<i8, Brand>)
        ensures
            r.scale == rhs.scale,
            r.dimension == rhs.dimension,
            r.unsafe_value == <i8 as MulSpec>::mul_spec(self, rhs.unsafe_value),
    {
        Quantity::new(self * rhs.unsafe_value, rhs.scale, rhs.dimension)
    }
}

impl<Brand> DivSpecImpl<Quantity<i8, Brand>> for i8 {
    open spec fn obeys_div_spec() -> bool {
        true
    }

    open spec fn div_req(self, rhs: Quantity<i8, Brand>) -> bool {
        &&& rhs.scale.can_invert()
        &&& rhs.dimension.can_invert()
        &&& <i8 as DivSpec>::div_req(self, rhs.unsafe_value)
    }

    open spec fn div_spec(self, rhs: Quantity<i8, Brand>) -> Quantity<i8, Brand> {
        Quantity::spec_with(<i8 as DivSpec>::div_spec(self, rhs.unsafe_value), rhs.scale.inverted(), rhs.dimension.inverted())
    }
}

/// `scalar / quantity`: the result has the reciprocal scale and dimension.
impl<Brand> Div<Quantity<i8, Brand>> for i8 {
    type Output = Quantity<i8, Brand>;

    fn div(self, rhs: Quantity<i8, Brand>) -> (r: Quantity<i8, Brand>)
        ensures
            r.scale == rhs.scale.inverted(),
            r.dimension == rhs.dimension.inverted(),
            r.unsafe_value == <i8 as DivSpec>::div_spec(self, rhs.unsafe_value),
    {
        let scale = rhs.scale.invert();
        let dimension = rhs.dimension.invert();
        Quantity::new(self / rhs.unsafe_value, scale, dimension)
    }
}

impl<Brand> MulSpecImpl<Quantity<i16, Brand>> for i16 {
    open spec fn obeys_mul_spec() -> bool {
        true
    }

    open spec fn mul_req(self, rhs: Quantity<i16, Brand>) -> bool {
        <i16 as MulSpec>::mul_req(self, rhs.unsafe_value)
    }

    open spec fn mul_spec(self, rhs: Quantity<i16, Brand>) -> Quantity<i16, Brand> {
        Quantity::spec_with(<i16 as MulSpec>::mul_spec(self, rhs.unsafe_value), rhs.scale, rhs.dimension)
    }
}

/// `scalar * quantity`: the result keeps the quantity's scale and dimension.
impl<Brand> Mul<Quantity<i16, Brand>> for i16 {
    type Output = Quantity<i16, Brand>;

    fn mul(self, rhs: Quantity<i16, Brand>) -> (r: Quantity<i16, Brand>)
        ensures
            r.scale == rhs.scale,
            r.dimension == rhs.dimension,
            r.unsafe_value == <i16 as MulSpec>::mul_spec(self, rhs.unsafe_value),
    {
        Quantity::new(self * rhs.unsafe_value, rhs.scale, rhs.dimension)
    }
}

impl<Brand> DivSpecImpl<Quantity<i16, Brand>> for i16 {
    open spec fn obeys_div_spec() -> bool {
        true
    }

    open spec fn div_req(self, rhs: Quantity<i16, Brand>) -> bool {
        &&& rhs.scale.can_invert()
        &&& rhs.dimension.can_invert()
        &&& <i16 as DivSpec>::div_req(self, rhs.unsafe_value)
    }

    open spec fn div_spec(self, rhs: Quantity<i16, Brand>) -> Quantity<i16, Brand> {
        Quantity::spec_with(<i16 as DivSpec>::div_spec(self, rhs.unsafe_value), rhs.scale.inverted(), rhs.dimension.inverted())
    }
}

/// `scalar / quantity`: the result has the reciprocal scale and dimension.
impl<Brand> Div<Quantity<i16, Brand>> for i16 {
    type Output = Quantity<i16, Brand>;

    fn div(self, rhs: Quantity<i16, Brand>) -> (r: Quantity<i16, Brand>)
        ensures
            r.scale == rhs.scale.inverted(),
            r.dimension == rhs.dimension.inverted(),
            r.unsafe_value == <i16 as DivSpec>::div_spec(self, rhs.unsafe_value),
    {
        let scale = rhs.scale.invert();
        let dimension = rhs.dimension.invert();
        Quantity::new(self / rhs.unsafe_value, scale, dimension)
    }
}

impl<Brand> MulSpecImpl<Quantity<i32, Brand>> for i32 {
    open spec fn obeys_mul_spec() -> bool {
        true
    }

    open spec fn mul_req(self, rhs: Quantity<i32, Brand>) -> bool {
        <i32 as MulSpec>::mul_req(self, rhs.unsafe_value)
    }

    open spec fn mul_spec(self, rhs: Quantity<i32, Brand>) -> Quantity<i32, Brand> {
        Quantity::spec_with(<i32 as MulSpec>::mul_spec(self, rhs.unsafe_value), rhs.scale, rhs.dimension)
    }
}

/// `scalar * quantity`: the result keeps the quantity's scale and dimension.
impl<Brand> Mul<Quantity<i32, Brand>> for i32 {
    type Output = Quantity<i32, Brand>;

    fn mul(self, rhs: Quantity<i32, Brand>) -> (r: Quantity<i32, Brand>)
        ensures
            r.scale == rhs.scale,
            r.dimension == rhs.dimension,
            r.unsafe_value == <i32 as MulSpec>::mul_spec(self, rhs.unsafe_value),
    {
        Quantity::new(self * rhs.unsafe_value, rhs.scale, rhs.dimension)
    }
}

impl<Brand> DivSpecImpl<Quantity<i32, Brand>> for i32 {
    open spec fn obeys_div_spec() -> bool {
        true
    }

    open spec fn div_req(self, rhs: Quantity<i32, Brand>) -> bool {
        &&& rhs.scale.can_invert()
        &&& rhs.dimension.can_invert()
        &&& <i32 as DivSpec>::div_req(self, rhs.unsafe_value)
    }

    open spec fn div_spec(self, rhs: Quantity<i32, Brand>) -> Quantity<i32, Brand> {
        Quantity::spec_with(<i32 as DivSpec>::div_spec(self, rhs.unsafe_value), rhs.scale.inverted(), rhs.dimension.inverted())
    }
}

/// `scalar / quantity`: the result has the reciprocal scale and dimension.
impl<Brand> Div<Quantity<i32, Brand>> for i32 {
    type Output = Quantity<i32, Brand>;

    fn div(self, rhs: Quantity<i32, Brand>) -> (r: Quantity<i32, Brand>)
        ensures
            r.scale == rhs.scale.inverted(),
            r.dimension == rhs.dimension.inverted(),
            r.unsafe_value == <i32 as DivSpec>::div_spec(self, rhs.unsafe_value),
    {
        let scale = rhs.scale.invert();
        let dimension = rhs.dimension.invert();
        Quantity::new(self / rhs.unsafe_value, scale, dimension)
    }
}

impl<Brand> MulSpecImpl<Quantity<i64, Brand>> for i64 {
    open spec fn obeys_mul_spec() -> bool {
        true
    }

    open spec fn mul_req(self, rhs: Quantity<i64, Brand>) -> bool {
        <i64 as MulSpec>::mul_req(self, rhs.unsafe_value)
    }

    open spec fn mul_spec(self, rhs: Quantity<i64, Brand>) -> Quantity<i64, Brand> {
        Quantity::spec_with(<i64 as MulSpec>::mul_spec(self, rhs.unsafe_value), rhs.scale, rhs.dimension)
    }
}

/// `scalar * quantity`: the result keeps the quantity's scale and dimension.
impl<Brand> Mul<Quantity<i64, Brand>> for i64 {
    type Output = Quantity<i64, Brand>;

    fn mul(self, rhs: Quantity<i64, Brand>) -> (r: Quantity<i64, Brand>)
        ensures
            r.scale == rhs.scale,
            r.dimension == rhs.dimension,
            r.unsafe_value == <i64 as MulSpec>::mul_spec(self, rhs.unsafe_value),
    {
        Quantity::new(self * rhs.unsafe_value, rhs.scale, rhs.dimension)
    }
}

impl<Brand> DivSpecImpl<Quantity<i64, Brand>> for i64 {
    open spec fn obeys_div_spec() -> bool {
        true
    }

    open spec fn div_req(self, rhs: Quantity<i64, Brand>) -> bool {
        &&& rhs.scale.can_invert()
        &&& rhs.dimension.can_invert()
        &&& <i64 as DivSpec>::div_req(self, rhs.unsafe_value)
    }

    open spec fn div_spec(self, rhs: Quantity<i64, Brand>) -> Quantity<i64, Brand> {
        Quantity::spec_with(<i64 as DivSpec>::div_spec(self, rhs.unsafe_value), rhs.scale.inverted(), rhs.dimension.inverted())
    }
}

/// `scalar / quantity`: the result has the reciprocal scale and dimension.
impl<Brand> Div<Quantity<i64, Brand>> for i64 {
    type Output = Quantity<i64, Brand>;

    fn div(self, rhs: Quantity<i64, Brand>) -> (r: Quantity<i64, Brand>)
        ensures
            r.scale == rhs.scale.inverted(),
            r.dimension == rhs.dimension.inverted(),
            r.unsafe_value == <i64 as DivSpec>::div_spec(self, rhs.unsafe_value),
    {
        let scale = rhs.scale.invert();
        let dimension = rhs.dimension.invert();
        Quantity::new(self / rhs.unsafe_value, scale, dimension)
    }
}

impl<Brand> MulSpecImpl<Quantity<i128, Brand>> for i128 {
    open spec fn obeys_mul_spec() -> bool {
        true
    }

    open spec fn mul_req(self, rhs: Quantity<i128, Brand>) -> bool {
        <i128 as MulSpec>::mul_req(self, rhs.unsafe_value)
    }

    open spec fn mul_spec(self, rhs: Quantity<i128, Brand>) -> Quantity<i128, Brand> {
        Quantity::spec_with(<i128 as MulSpec>::mul_spec(self, rhs.unsafe_value), rhs.scale, rhs.dimension)
    }
}

/// `scalar * quantity`: the result keeps the quantity's scale and dimension.
impl<Brand> Mul<Quantity<i128, Brand>> for i128 {
    type Output = Quantity<i128, Brand>;

    fn mul(self, rhs: Quantity<i128, Brand>) -> (r: Quantity<i128, Brand>)
        ensures
            r.scale == rhs.scale,
            r.dimension == rhs.dimension,
            r.unsafe_value == <i128 as MulSpec>::mul_spec(self, rhs.unsafe_value),
    {
        Quantity::new(self * rhs.unsafe_value, rhs.scale, rhs.dimension)
    }
}

impl<Brand> DivSpecImpl<Quantity<i128, Brand>> for i128 {
    open spec fn obeys_div_spec() -> bool {
        true
    }

    open spec fn div_req(self, rhs: Quantity<i128, Brand>) -> bool {
        &&& rhs.scale.can_invert()
        &&& rhs.dimension.can_invert()
        &&& <i128 as DivSpec>::div_req(self, rhs.unsafe_value)
    }

    open spec fn div_spec(self, rhs: Quantity<i128, Brand>) -> Quantity<i128, Brand> {
        Quantity::spec_with(<i128 as DivSpec>::div_spec(self, rhs.unsafe_value), rhs.scale.inverted(), rhs.dimension.inverted())
    }
}

/// `scalar / quantity`: the result has the reciprocal scale and dimension.
impl<Brand> Div<Quantity<i128, Brand>> for i128 {
    type Output = Quantity<i128, Brand>;

    fn div(self, rhs: Quantity<i128, Brand>) -> (r: Quantity<i128, Brand>)
        ensures
            r.scale == rhs.scale.inverted(),
            r.dimension == rhs.dimension.inverted(),
            r.unsafe_value == <i128 as DivSpec>::div_spec(self, rhs.unsafe_value),
    {
        let scale = rhs.scale.invert();
        let dimension = rhs.dimension.invert();
        Quantity::new(self / rhs.unsafe_value, scale, dimension)
    }
}

impl<Brand> MulSpecImpl<Quantity<isize, Brand>> for isize {
    open spec fn obeys_mul_spec() -> bool {
        true
    }

    open spec fn mul_req(self, rhs: Quantity<isize, Brand>) -> bool {
        <isize as MulSpec>::mul_req(self, rhs.unsafe_value)
    }

    open spec fn mul_spec(self, rhs: Quantity<isize, Brand>) -> Quantity<isize, Brand> {
        Quantity::spec_with(<isize as MulSpec>::mul_spec(self, rhs.unsafe_value), rhs.scale, rhs.dimension)
    }
}

/// `scalar * quantity`: the result keeps the quantity's scale and dimension.
impl<Brand> Mul<Quantity<isize, Brand>> for isize {
    type Output = Quantity<isize, Brand>;

    fn mul(self, rhs: Quantity<isize, Brand>) -> (r: Quantity<isize, Brand>)
        ensures
            r.scale == rhs.scale,
            r.dimension == rhs.dimension,
            r.unsafe_value == <isize as MulSpec>::mul_spec(self, rhs.unsafe_value),
    {
        Quantity::new(self * rhs.unsafe_value, rhs.scale, rhs.dimension)
    }
}

impl<Brand> DivSpecImpl<Quantity<isize, Brand>> for isize {
    open spec fn obeys_div_spec() -> bool {
        true
    }

    open spec fn div_req(self, rhs: Quantity<isize, Brand>) -> bool {
        &&& rhs.scale.can_invert()
        &&& rhs.dimension.can_invert()
        &&& <isize as DivSpec>::div_req(self, rhs.unsafe_value)
    }

    open spec fn div_spec(self, rhs: Quantity<isize, Brand>) -> Quantity<isize, Brand> {
        Quantity::spec_with(<isize as DivSpec>::div_spec(self, rhs.unsafe_value), rhs.scale.inverted(), rhs.dimension.inverted())
    }
}

/// `scalar / quantity`: the result has the reciprocal scale and dimension.
impl<Brand> Div<Quantity<isize, Brand>> for isize {
    type Output = Quantity<isize, Brand>;

    fn div(self, rhs: Quantity<isize, Brand>) -> (r: Quantity<isize, Brand>)
        ensures
            r.scale == rhs.scale.inverted(),
            r.dimension == rhs.dimension.inverted(),
            r.unsafe_value == <isize as DivSpec>::div_spec(self, rhs.unsafe_value),
    {
        let scale = rhs.scale.invert();
        let dimension = rhs.dimension.invert();
        Quantity::new(self / rhs.unsafe_value, scale, dimension)
    }
}

impl<Brand> MulSpecImpl<Quantity<u8, Brand>> for u8 {
    open spec fn obeys_mul_spec() -> bool {
        true
    }

    open spec fn mul_req(self, rhs: Quantity<u8, Brand>) -> bool {
        <u8 as MulSpec>::mul_req(self, rhs.unsafe_value)
    }

    open spec fn mul_spec(self, rhs: Quantity<u8, Brand>) -> Quantity<u8, Brand> {
        Quantity::spec_with(<u8 as MulSpec>::mul_spec(self, rhs.unsafe_value), rhs.scale, rhs.dimension)
    }
}

/// `scalar * quantity`: the result keeps the quantity's scale and dimension.
impl<Brand> Mul<Quantity<u8, Brand>> for u8 {
    type Output = Quantity<u8, Brand>;

    fn mul(self, rhs: Quantity<u8, Brand>) -> (r: Quantity<u8, Brand>)
        ensures
            r.scale == rhs.scale,
            r.dimension == rhs.dimension,
            r.unsafe_value == <u8 as MulSpec>::mul_spec(self, rhs.unsafe_value),
    {
        Quantity::new(self * rhs.unsafe_value, rhs.scale, rhs.dimension)
    }
}

impl<Brand> DivSpecImpl<Quantity<u8, Brand>> for u8 {
    open spec fn obeys_div_spec() -> bool {
        true
    }

    open spec fn div_req(self, rhs: Quantity<u8, Brand>) -> bool {
        &&& rhs.scale.can_invert()
        &&& rhs.dimension.can_invert()
        &&& <u8 as DivSpec>::div_req(self, rhs.unsafe_value)
    }

    open spec fn div_spec(self, rhs: Quantity<u8, Brand>) -> Quantity<u8, Brand> {
        Quantity::spec_with(<u8 as DivSpec>::div_spec(self, rhs.unsafe_value), rhs.scale.inverted(), rhs.dimension.inverted())
    }
}

/// `scalar / quantity`: the result has the reciprocal scale and dimension.
impl<Brand> Div<Quantity<u8, Brand>> for u8 {
    type Output = Quantity<u8, Brand>;

    fn div(self, rhs: Quantity<u8, Brand>) -> (r: Quantity<u8, Brand>)
        ensures
            r.scale == rhs.scale.inverted(),
            r.dimension == rhs.dimension.inverted(),
            r.unsafe_value == <u8 as DivSpec>::div_spec(self, rhs.unsafe_value),
    {
        let scale = rhs.scale.invert();
        let dimension = rhs.dimension.invert();
        Quantity::new(self / rhs.unsafe_value, scale, dimension)
    }
}

impl<Brand> MulSpecImpl<Quantity<u16, Brand>> for u16 {
    open spec fn obeys_mul_spec() -> bool {
        true
    }

    open spec fn mul_req(self, rhs: Quantity<u16, Brand>) -> bool {
        <u16 as MulSpec>::mul_req(self, rhs.unsafe_value)
    }

    open spec fn mul_spec(self, rhs: Quantity<u16, Brand>) -> Quantity<u16, Brand> {
        Quantity::spec_with(<u16 as MulSpec>::mul_spec(self, rhs.unsafe_value), rhs.scale, rhs.dimension)
    }
}

/// `scalar * quantity`: the result keeps the quantity's scale and dimension.
impl<Brand> Mul<Quantity<u16, Brand>> for u16 {
    type Output = Quantity<u16, Brand>;

    fn mul(self, rhs: Quantity<u16, Brand>) -> (r: Quantity<u16, Brand>)
        ensures
            r.scale == rhs.scale,
            r.dimension == rhs.dimension,
            r.unsafe_value == <u16 as MulSpec>::mul_spec(self, rhs.unsafe_value),
    {
        Quantity::new(self * rhs.unsafe_value, rhs.scale, rhs.dimension)
    }
}

impl<Brand> DivSpecImpl<Quantity<u16, Brand>> for u16 {
    open spec fn obeys_div_spec() -> bool {
        true
    }

    open spec fn div_req(self, rhs: Quantity<u16, Brand>) -> bool {
        &&& rhs.scale.can_invert()
        &&& rhs.dimension.can_invert()
        &&& <u16 as DivSpec>::div_req(self, rhs.unsafe_value)
    }

    open spec fn div_spec(self, rhs: Quantity<u16, Brand>) -> Quantity<u16, Brand> {
        Quantity::spec_with(<u16 as DivSpec>::div_spec(self, rhs.unsafe_value), rhs.scale.inverted(), rhs.dimension.inverted())
    }
}

/// `scalar / quantity`: the result has the reciprocal scale and dimension.
impl<Brand> Div<Quantity<u16, Brand>> for u16 {
    type Output = Quantity<u16, Brand>;

    fn div(self, rhs: Quantity<u16, Brand>) -> (r: Quantity<u16, Brand>)
        ensures
            r.scale == rhs.scale.inverted(),
            r.dimension == rhs.dimension.inverted(),
            r.unsafe_value == <u16 as DivSpec>::div_spec(self, rhs.unsafe_value),
    {
        let scale = rhs.scale.invert();
        let dimension = rhs.dimension.invert();
        Quantity::new(self / rhs.unsafe_value, scale, dimension)
    }
}

impl<Brand> MulSpecImpl<Quantity<u32, Brand>> for u32 {
    open spec fn obeys_mul_spec() -> bool {
        true
    }

    open spec fn mul_req(self, rhs: Quantity<u32, Brand>) -> bool {
        <u32 as MulSpec>::mul_req(self, rhs.unsafe_value)
    }

    open spec fn mul_spec(self, rhs: Quantity<u32, Brand>) -> Quantity<u32, Brand> {
        Quantity::spec_with(<u32 as MulSpec>::mul_spec(self, rhs.unsafe_value), rhs.scale, rhs.dimension)
    }
}

/// `scalar * quantity`: the result keeps the quantity's scale and dimension.
impl<Brand> Mul<Quantity<u32, Brand>> for u32 {
    type Output = Quantity<u32, Brand>;

    fn mul(self, rhs: Quantity<u32, Brand>) -> (r: Quantity<u32, Brand>)
        ensures
            r.scale == rhs.scale,
            r.dimension == rhs.dimension,
            r.unsafe_value == <u32 as MulSpec>::mul_spec(self, rhs.unsafe_value),
    {
        Quantity::new(self * rhs.unsafe_value, rhs.scale, rhs.dimension)
    }
}

impl<Brand> DivSpecImpl<Quantity<u32, Brand>> for u32 {
    open spec fn obeys_div_spec() -> bool {
        true
    }

    open spec fn div_req(self, rhs: Quantity<u32, Brand>) -> bool {
        &&& rhs.scale.can_invert()
        &&& rhs.dimension.can_invert()
        &&& <u32 as DivSpec>::div_req(self, rhs.unsafe_value)
    }

    open spec fn div_spec(self, rhs: Quantity<u32, Brand>) -> Quantity<u32, Brand> {
        Quantity::spec_with(<u32 as DivSpec>::div_spec(self, rhs.unsafe_value), rhs.scale.inverted(), rhs.dimension.inverted())
    }
}

/// `scalar / quantity`: the result has the reciprocal scale and dimension.
impl<Brand> Div<Quantity<u32, Brand>> for u32 {
    type Output = Quantity<u32, Brand>;

    fn div(self, rhs: Quantity<u32, Brand>) -> (r: Quantity<u32, Brand>)
        ensures
            r.scale == rhs.scale.inverted(),
            r.dimension == rhs.dimension.inverted(),
            r.unsafe_value == <u32 as DivSpec>::div_spec(self, rhs.unsafe_value),
    {
        let scale = rhs.scale.invert();
        let dimension = rhs.dimension.invert();
        Quantity::new(self / rhs.unsafe_value, scale, dimension)
    }
}

impl<Brand> MulSpecImpl<Quantity<u64, Brand>> for u64 {
    open spec fn obeys_mul_spec() -> bool {
        true
    }

    open spec fn mul_req(self, rhs: Quantity<u64, Brand>) -> bool {
        <u64 as MulSpec>::mul_req(self, rhs.unsafe_value)
    }

    open spec fn mul_spec(self, rhs: Quantity<u64, Brand>) -> Quantity<u64, Brand> {
        Quantity::spec_with(<u64 as MulSpec>::mul_spec(self, rhs.unsafe_value), rhs.scale, rhs.dimension)
    }
}

/// `scalar * quantity`: the result keeps the quantity's scale and dimension.
impl<Brand> Mul<Quantity<u64, Brand>> for u64 {
    type Output = Quantity<u64, Brand>;

    fn mul(self, rhs: Quantity<u64, Brand>) -> (r: Quantity<u64, Brand>)
        ensures
            r.scale == rhs.scale,
            r.dimension == rhs.dimension,
            r.unsafe_value == <u64 as MulSpec>::mul_spec(self, rhs.unsafe_value),
    {
        Quantity::new(self * rhs.unsafe_value, rhs.scale, rhs.dimension)
    }
}

impl<Brand> DivSpecImpl<Quantity<u64, Brand>> for u64 {
    open spec fn obeys_div_spec() -> bool {
        true
    }

    open spec fn div_req(self, rhs: Quantity<u64, Brand>) -> bool {
        &&& rhs.scale.can_invert()
        &&& rhs.dimension.can_invert()
        &&& <u64 as DivSpec>::div_req(self, rhs.unsafe_value)
    }

    open spec fn div_spec(self, rhs: Quantity<u64, Brand>) -> Quantity<u64, Brand> {
        Quantity::spec_with(<u64 as DivSpec>::div_spec(self, rhs.unsafe_value), rhs.scale.inverted(), rhs.dimension.inverted())
    }
}

/// `scalar / quantity`: the result has the reciprocal scale and dimension.
impl<Brand> Div<Quantity<u64, Brand>> for u64 {
    type Output = Quantity<u64, Brand>;

    fn div(self, rhs: Quantity<u64, Brand>) -> (r: Quantity<u64, Brand>)
        ensures
            r.scale == rhs.scale.inverted(),
            r.dimension == rhs.dimension.inverted(),
            r.unsafe_value == <u64 as DivSpec>::div_spec(self, rhs.unsafe_value),
    {
        let scale = rhs.scale.invert();
        let dimension = rhs.dimension.invert();
        Quantity::new(self / rhs.unsafe_value, scale, dimension)
    }
}

impl<Brand> MulSpecImpl<Quantity<u128, Brand>> for u128 {
    open spec fn obeys_mul_spec() -> bool {
        true
    }

    open spec fn mul_req(self, rhs: Quantity<u128, Brand>) -> bool {
        <u128 as MulSpec>::mul_req(self, rhs.unsafe_value)
    }

    open spec fn mul_spec(self, rhs: Quantity<u128, Brand>) -> Quantity<u128, Brand> {
        Quantity::spec_with(<u128 as MulSpec>::mul_spec(self, rhs.unsafe_value), rhs.scale, rhs.dimension)
    }
}

/// `scalar * quantity`: the result keeps the quantity's scale and dimension.
impl<Brand> Mul<Quantity<u128, Brand>> for u128 {
    type Output = Quantity<u128, Brand>;

    fn mul(self, rhs: Quantity<u128, Brand>) -> (r: Quantity<u128, Brand>)
        ensures
            r.scale == rhs.scale,
            r.dimension == rhs.dimension,
            r.unsafe_value == <u128 as MulSpec>::mul_spec(self, rhs.unsafe_value),
    {
        Quantity::new(self * rhs.unsafe_value, rhs.scale, rhs.dimension)
    }
}

impl<Brand> DivSpecImpl<Quantity<u128, Brand>> for u128 {
    open spec fn obeys_div_spec() -> bool {
        true
    }

    open spec fn div_req(self, rhs: Quantity<u128, Brand>) -> bool {
        &&& rhs.scale.can_invert()
        &&& rhs.dimension.can_invert()
        &&& <u128 as DivSpec>::div_req(self, rhs.unsafe_value)
    }

    open spec fn div_spec(self, rhs: Quantity<u128, Brand>) -> Quantity<u128, Brand> {
        Quantity::spec_with(<u128 as DivSpec>::div_spec(self, rhs.unsafe_value), rhs.scale.inverted(), rhs.dimension.inverted())
    }
}

/// `scalar / quantity`: the result has the reciprocal scale and dimension.
impl<Brand> Div<Quantity<u128, Brand>> for u128 {
    type Output = Quantity<u128, Brand>;

    fn div(self, rhs: Quantity<u128, Brand>) -> (r: Quantity<u128, Brand>)
        ensures
            r.scale == rhs.scale.inverted(),
            r.dimension == rhs.dimension.inverted(),
            r.unsafe_value == <u128 as DivSpec>::div_spec(self, rhs.unsafe_value),
    {
        let scale = rhs.scale.invert();
        let dimension = rhs.dimension.invert();
        Quantity::new(self / rhs.unsafe_value, scale, dimension)
    }
}

impl<Brand> MulSpecImpl<Quantity<usize, Brand>> for usize {
    open spec fn obeys_mul_spec() -> bool {
        true
    }

    open spec fn mul_req(self, rhs: Quantity<usize, Brand>) -> bool {
        <usize as MulSpec>::mul_req(self, rhs.unsafe_value)
    }

    open spec fn mul_spec(self, rhs: Quantity<usize, Brand>) -> Quantity<usize, Brand> {
        Quantity::spec_with(<usize as MulSpec>::mul_spec(self, rhs.unsafe_value), rhs.scale, rhs.dimension)
    }
}

/// `scalar * quantity`: the result keeps the quantity's scale and dimension.
impl<Brand> Mul<Quantity<usize, Brand>> for usize {
    type Output = Quantity<usize, Brand>;

    fn mul(self, rhs: Quantity<usize, Brand>) -> (r: Quantity<usize, Brand>)
        ensures
            r.scale == rhs.scale,
            r.dimension == rhs.dimension,
            r.unsafe_value == <usize as MulSpec>::mul_spec(self, rhs.unsafe_value),
    {
        Quantity::new(self * rhs.unsafe_value, rhs.scale, rhs.dimension)
    }
}

impl<Brand> DivSpecImpl<Quantity<usize, Brand>> for usize {
    open spec fn obeys_div_spec() -> bool {
        true
    }

    open spec fn div_req(self, rhs: Quantity<usize, Brand>) -> bool {
        &&& rhs.scale.can_invert()
        &&& rhs.dimension.can_invert()
        &&& <usize as DivSpec>::div_req(self, rhs.unsafe_value)
    }

    open spec fn div_spec(self, rhs: Quantity<usize, Brand>) -> Quantity<usize, Brand> {
        Quantity::spec_with(<usize as DivSpec>::div_spec(self, rhs.unsafe_value), rhs.scale.inverted(), rhs.dimension.inverted())
    }
}

/// `scalar / quantity`: the result has the reciprocal scale and dimension.
impl<Brand> Div<Quantity<usize, Brand>> for usize {
    type Output = Quantity<usize, Brand>;

    fn div(self, rhs: Quantity<usize, Brand>) -> (r: Quantity<usize, Brand>)
        ensures
            r.scale == rhs.scale.inverted(),
            r.dimension == rhs.dimension.inverted(),
            r.unsafe_value == <usize as DivSpec>::div_spec(self, rhs.unsafe_value),
    {
        let scale = rhs.scale.invert();
        let dimension = rhs.dimension.invert();
        Quantity::new(self / rhs.unsafe_value, scale, dimension)
    }
}

} // verus!
