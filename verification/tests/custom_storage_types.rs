//! Quantity arithmetic over storage types this crate has never heard of.
//!
//! The op impls are storage-generic, so a downstream numeric type can be used as
//! quantity storage.  A storage type that is missing one operation loses only that
//! operation; nothing requires the stored value to be `Copy` or `PartialEq` except
//! the operations that copy or compare it.

use whippyunits::{Dimension, Quantity, Scale};

/// A storage type with the ordinary arithmetic operations but deliberately no `Rem`.
#[derive(Clone, Copy, PartialEq, PartialOrd, Debug)]
struct NoRem(f64);

impl core::ops::Add for NoRem {
    type Output = Self;
    fn add(self, rhs: Self) -> Self {
        NoRem(self.0 + rhs.0)
    }
}

impl core::ops::Sub for NoRem {
    type Output = Self;
    fn sub(self, rhs: Self) -> Self {
        NoRem(self.0 - rhs.0)
    }
}

impl core::ops::Mul for NoRem {
    type Output = Self;
    fn mul(self, rhs: Self) -> Self {
        NoRem(self.0 * rhs.0)
    }
}

impl core::ops::Div for NoRem {
    type Output = Self;
    fn div(self, rhs: Self) -> Self {
        NoRem(self.0 / rhs.0)
    }
}

impl core::ops::Neg for NoRem {
    type Output = Self;
    fn neg(self) -> Self {
        NoRem(-self.0)
    }
}

fn meters() -> Dimension {
    Dimension::new(0, 1, 0, 0, 0, 0, 0, 0)
}

fn seconds() -> Dimension {
    Dimension::new(0, 0, 1, 0, 0, 0, 0, 0)
}

fn meter<T>(value: T) -> Quantity<T> {
    Quantity::from_raw_value(value, Scale::unity(), meters())
}

#[test]
fn dimension_preserving_ops_work_for_a_custom_storage_type() {
    let a = meter(NoRem(3.0));
    let b = meter(NoRem(4.0));

    assert_eq!((a + b).unsafe_value, NoRem(7.0));
    assert_eq!((b - a).unsafe_value, NoRem(1.0));
    assert_eq!((-a).unsafe_value, NoRem(-3.0));
    assert!(b > a);

    let mut acc = a;
    acc.add_assign(b);
    assert_eq!(acc.unsafe_value, NoRem(7.0));
}

#[test]
fn quantity_scalar_ops_work_for_a_custom_storage_type() {
    let a = meter(NoRem(3.0));

    assert_eq!((a * NoRem(2.0)).unsafe_value, NoRem(6.0));
    assert_eq!((a / NoRem(2.0)).unsafe_value, NoRem(1.5));
}

#[test]
fn dimension_combining_ops_work_for_a_custom_storage_type() {
    let d = meter(NoRem(10.0));
    let t: Quantity<NoRem> = Quantity::from_raw_value(NoRem(2.0), Scale::unity(), seconds());

    // The dimensions combine exactly as they do for the built-in storage types.
    let v = d / t;
    assert_eq!(v.dimension, Dimension::new(0, 1, -1, 0, 0, 0, 0, 0));
    assert_eq!(v.unsafe_value, NoRem(5.0));

    let area = d * d;
    assert_eq!(area.dimension, Dimension::new(0, 2, 0, 0, 0, 0, 0, 0));
    assert_eq!(area.unsafe_value, NoRem(100.0));
}

/// A storage type that is neither `Copy` nor `PartialEq` and implements only `Add`.
#[derive(Clone, Debug)]
struct HeapBacked(Vec<u8>, f64);

impl core::ops::Add for HeapBacked {
    type Output = Self;
    fn add(self, rhs: Self) -> Self {
        HeapBacked(self.0, self.1 + rhs.1)
    }
}

#[test]
fn a_non_copy_storage_type_can_still_add() {
    let a = meter(HeapBacked(vec![1], 3.0));
    let b = meter(HeapBacked(vec![2], 4.0));
    assert_eq!((a + b).unsafe_value.1, 7.0);
}
