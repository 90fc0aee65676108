//! The [`Quantity`] type: a raw storage value tagged with a scale, a dimension
//! and a brand.
//!
//! Quantity scale is a prime-factorised exponent vector `2^p2 * 3^p3 * 5^p5 * pi^pi`;
//! quantity dimension is an exponent vector over the eight base dimensions.  The
//! semantic value of a quantity is its raw value times its scale, expressed in the
//! SI base unit of its dimension.  The `Brand` type parameter gives a finer grain of
//! unit safety: quantities only combine with quantities of the same brand.

use vstd::prelude::*;
use vstd::std_specs::cmp::PartialEqSpec;
use vstd::std_specs::convert::FromSpec;
use core::marker::PhantomData;
use crate::exponents::{Dimension, Scale};
use crate::lossy::LossyFrom;

verus! {

/// A value of storage type `T` with a specified scale and dimension.
///
/// The raw value may differ from the "semantic" value by a factor of the scale, so
/// reading `unsafe_value` directly bypasses the unit bookkeeping; the operations of
/// this crate keep the scale and dimension in step with the value.
#[derive(Debug)]
pub struct Quantity<T, Brand = ()> {
    /// The raw numeric value of this quantity (not unit-safe on its own).
    pub unsafe_value: T,
    /// The scale exponents of this quantity.
    pub scale: Scale,
    /// The dimension exponents of this quantity.
    pub dimension: Dimension,
    /// The brand of this quantity, carried only in the type.
    pub brand: PhantomData<Brand>,
}

impl<T, Brand> Quantity<T, Brand> {
    /// The quantity with the given raw value, scale and dimension.
    pub open spec fn spec_with(unsafe_value: T, scale: Scale, dimension: Dimension) -> Self {
        Quantity { unsafe_value, scale, dimension, brand: PhantomData }
    }

    /// Builds a quantity from a raw value whose scale and dimension are given by the caller.
    pub fn from_raw_value(unsafe_value: T, scale: Scale, dimension: Dimension) -> (r: Self)
        ensures
            r == Self::spec_with(unsafe_value, scale, dimension),
    {
        Quantity { unsafe_value, scale, dimension, brand: PhantomData }
    }

    /// Creates a new quantity with the given raw value, scale and dimension.
    pub fn new(unsafe_value: T, scale: Scale, dimension: Dimension) -> (r: Self)
        ensures
            r == Self::spec_with(unsafe_value, scale, dimension),
    {
        Quantity { unsafe_value, scale, dimension, brand: PhantomData }
    }

    /// Converts the raw value to another storage type through `From`, keeping the
    /// scale, the dimension and the brand.
    pub fn lossless_into<Dest: From<T>>(self) -> (r: Quantity<Dest, Brand>)
        ensures
            r.scale == self.scale,
            r.dimension == self.dimension,
            call_ensures(<Dest as From<T>>::from, (self.unsafe_value,), r.unsafe_value),
            Dest::obeys_from_spec() ==> r.unsafe_value == Dest::from_spec(self.unsafe_value),
    {
        Quantity::new(Dest::from(self.unsafe_value), self.scale, self.dimension)
    }

    /// Converts the raw value to another storage type through a possibly lossy
    /// numeric cast, keeping the scale, the dimension and the brand.
    pub fn lossy_into<Dest: LossyFrom<T>>(self) -> (r: Quantity<Dest, Brand>)
        ensures
            r == Quantity::<Dest, Brand>::spec_with(
                Dest::lossy_from_spec(self.unsafe_value),
                self.scale,
                self.dimension,
            ),
    {
        Quantity::new(Dest::lossy_from(self.unsafe_value), self.scale, self.dimension)
    }
}

impl<T> Quantity<T, ()> {
    /// Erases the angle component of this quantity's dimension (radians are
    /// dimensionless), keeping the raw value, the scale and every other exponent.
    pub fn erase_angle(self) -> (r: Self)
        ensures
            r == Self::spec_with(self.unsafe_value, self.scale, self.dimension.without_angle()),
    {
        let dimension = self.dimension.erase_angle();
        Quantity::new(self.unsafe_value, self.scale, dimension)
    }

    /// Extracts the raw value of a dimensionless (or purely angular, in radians)
    /// quantity at the SI base scale, where raw and semantic values coincide.
    pub fn into_value(self) -> (r: T)
        requires
            self.dimension.without_angle().spec_is_dimensionless(),
            self.scale.spec_is_unity(),
        ensures
            r == self.unsafe_value,
    {
        self.unsafe_value
    }
}

/// Cloning a quantity clones its raw value and keeps its scale and dimension.
impl<T: Clone, Brand> Clone for Quantity<T, Brand> {
    fn clone(&self) -> (r: Self)
        ensures
            r.scale == self.scale,
            r.dimension == self.dimension,
            cloned::<T>(self.unsafe_value, r.unsafe_value),
    {
        Quantity {
            unsafe_value: self.unsafe_value.clone(),
            scale: self.scale,
            dimension: self.dimension,
            brand: PhantomData,
        }
    }
}

/// A quantity is `Copy` whenever its storage type is.
impl<T: Copy, Brand> Copy for Quantity<T, Brand> {}

impl<T: PartialEq, Brand> vstd::std_specs::cmp::PartialEqSpecImpl for Quantity<T, Brand> {
    open spec fn obeys_eq_spec() -> bool {
        T::obeys_eq_spec()
    }

    open spec fn eq_spec(&self, other: &Self) -> bool {
        &&& self.scale == other.scale
        &&& self.dimension == other.dimension
        &&& self.unsafe_value.eq_spec(&other.unsafe_value)
    }
}

/// Two quantities are equal when their units agree and their raw values are equal.
impl<T: PartialEq, Brand> PartialEq for Quantity<T, Brand> {
    fn eq(&self, other: &Self) -> (r: bool)
        ensures
            !(self.scale == other.scale && self.dimension == other.dimension) ==> !r,
            (self.scale == other.scale && self.dimension == other.dimension) ==> call_ensures(
                <T as PartialEq>::eq,
                (&self.unsafe_value, &other.unsafe_value),
                r,
            ),
    {
        self.scale == other.scale && self.dimension == other.dimension
            && self.unsafe_value == other.unsafe_value
    }
}

} // verus!
