//! Numeric casts between storage types, as used by `Quantity::lossy_into`.

use vstd::prelude::*;

verus! {

/// Conversion between primitive numeric storage types by an `as` cast.
///
/// Mirrors `From`, but permits truncating or narrowing casts (e.g. `i64` to `i32`,
/// which keeps the low 32 bits, or `i8` to `u8`, which reinterprets the bits).
/// `Quantity::lossy_into` uses it to change a quantity's storage type while keeping
/// its scale, dimension and brand.
pub trait LossyFrom<Source>: Sized {
    /// The value that converting `source` yields.
    spec fn lossy_from_spec(source: Source) -> Self;

    /// Converts `source` into `Self`.
    fn lossy_from(source: Source) -> (r: Self)
        ensures
            r == Self::lossy_from_spec(source),
    ;
}

impl LossyFrom<i8> for i8 {
    open spec fn lossy_from_spec(source: i8) -> i8 {
        source as i8
    }

    fn lossy_from(source: i8) -> (r: i8) {
        source as i8
    }
}

impl LossyFrom<i16> for i16 {
    open spec fn lossy_from_spec(source: i16) -> i16 {
        source as i16
    }

    fn lossy_from(source: i16) -> (r: i16) {
        source as i16
    }
}

impl LossyFrom<i32> for i32 {
    open spec fn lossy_from_spec(source: i32) -> i32 {
        source as i32
    }

    fn lossy_from(source: i32) -> (r: i32) {
        source as i32
    }
}

impl LossyFrom<i64> for i64 {
    open spec fn lossy_from_spec(source: i64) -> i64 {
        source as i64
    }

    fn lossy_from(source: i64) -> (r: i64) {
        source as i64
    }
}

impl LossyFrom<i128> for i128 {
    open spec fn lossy_from_spec(source: i128) -> i128 {
        source as i128
    }

    fn lossy_from(source: i128) -> (r: i128) {
        source as i128
    }
}

impl LossyFrom<u8> for u8 {
    open spec fn lossy_from_spec(source: u8) -> u8 {
        source as u8
    }

    fn lossy_from(source: u8) -> (r: u8) {
        source as u8
    }
}

impl LossyFrom<u16> for u16 {
    open spec fn lossy_from_spec(source: u16) -> u16 {
        source as u16
    }

    fn lossy_from(source: u16) -> (r: u16) {
        source as u16
    }
}

impl LossyFrom<u32> for u32 {
    open spec fn lossy_from_spec(source: u32) -> u32 {
        source as u32
    }

    fn lossy_from(source: u32) -> (r: u32) {
        source as u32
    }
}

impl LossyFrom<u64> for u64 {
    open spec fn lossy_from_spec(source: u64) -> u64 {
        source as u64
    }

    fn lossy_from(source: u64) -> (r: u64) {
        source as u64
    }
}

impl LossyFrom<u128> for u128 {
    open spec fn lossy_from_spec(source: u128) -> u128 {
        source as u128
    }

    fn lossy_from(source: u128) -> (r: u128) {
        source as u128
    }
}

impl LossyFrom<isize> for isize {
    open spec fn lossy_from_spec(source: isize) -> isize {
        source as isize
    }

    fn lossy_from(source: isize) -> (r: isize) {
        source as isize
    }
}

impl LossyFrom<usize> for usize {
    open spec fn lossy_from_spec(source: usize) -> usize {
        source as usize
    }

    fn lossy_from(source: usize) -> (r: usize) {
        source as usize
    }
}

impl LossyFrom<i8> for i16 {
    open spec fn lossy_from_spec(source: i8) -> i16 {
        source as i16
    }

    fn lossy_from(source: i8) -> (r: i16) {
        source as i16
    }
}

impl LossyFrom<i16> for i8 {
    open spec fn lossy_from_spec(source: i16) -> i8 {
        source as i8
    }

    fn lossy_from(source: i16) -> (r: i8) {
        source as i8
    }
}

impl LossyFrom<i8> for i32 {
    open spec fn lossy_from_spec(source: i8) -> i32 {
        source as i32
    }

    fn lossy_from(source: i8) -> (r: i32) {
        source as i32
    }
}

impl LossyFrom<i32> for i8 {
    open spec fn lossy_from_spec(source: i32) -> i8 {
        source as i8
    }

    fn lossy_from(source: i32) -> (r: i8) {
        source as i8
    }
}

impl LossyFrom<i8> for i64 {
    open spec fn lossy_from_spec(source: i8) -> i64 {
        source as i64
    }

    fn lossy_from(source: i8) -> (r: i64) {
        source as i64
    }
}

impl LossyFrom<i64> for i8 {
    open spec fn lossy_from_spec(source: i64) -> i8 {
        source as i8
    }

    fn lossy_from(source: i64) -> (r: i8) {
        source as i8
    }
}

impl LossyFrom<i8> for i128 {
    open spec fn lossy_from_spec(source: i8) -> i128 {
        source as i128
    }

    fn lossy_from(source: i8) -> (r: i128) {
        source as i128
    }
}

impl LossyFrom<i128> for i8 {
    open spec fn lossy_from_spec(source: i128) -> i8 {
        source as i8
    }

    fn lossy_from(source: i128) -> (r: i8) {
        source as i8
    }
}

impl LossyFrom<i8> for u8 {
    open spec fn lossy_from_spec(source: i8) -> u8 {
        source as u8
    }

    fn lossy_from(source: i8) -> (r: u8) {
        source as u8
    }
}

impl LossyFrom<u8> for i8 {
    open spec fn lossy_from_spec(source: u8) -> i8 {
        source as i8
    }

    fn lossy_from(source: u8) -> (r: i8) {
        source as i8
    }
}

impl LossyFrom<i8> for u16 {
    open spec fn lossy_from_spec(source: i8) -> u16 {
        source as u16
    }

    fn lossy_from(source: i8) -> (r: u16) {
        source as u16
    }
}

impl LossyFrom<u16> for i8 {
    open spec fn lossy_from_spec(source: u16) -> i8 {
        source as i8
    }

    fn lossy_from(source: u16) -> (r: i8) {
        source as i8
    }
}

impl LossyFrom<i8> for u32 {
    open spec fn lossy_from_spec(source: i8) -> u32 {
        source as u32
    }

    fn lossy_from(source: i8) -> (r: u32) {
        source as u32
    }
}

impl LossyFrom<u32> for i8 {
    open spec fn lossy_from_spec(source: u32) -> i8 {
        source as i8
    }

    fn lossy_from(source: u32) -> (r: i8) {
        source as i8
    }
}

impl LossyFrom<i8> for u64 {
    open spec fn lossy_from_spec(source: i8) -> u64 {
        source as u64
    }

    fn lossy_from(source: i8) -> (r: u64) {
        source as u64
    }
}

impl LossyFrom<u64> for i8 {
    open spec fn lossy_from_spec(source: u64) -> i8 {
        source as i8
    }

    fn lossy_from(source: u64) -> (r: i8) {
        source as i8
    }
}

impl LossyFrom<i8> for u128 {
    open spec fn lossy_from_spec(source: i8) -> u128 {
        source as u128
    }

    fn lossy_from(source: i8) -> (r: u128) {
        source as u128
    }
}

impl LossyFrom<u128> for i8 {
    open spec fn lossy_from_spec(source: u128) -> i8 {
        source as i8
    }

    fn lossy_from(source: u128) -> (r: i8) {
        source as i8
    }
}

impl LossyFrom<i8> for isize {
    open spec fn lossy_from_spec(source: i8) -> isize {
        source as isize
    }

    fn lossy_from(source: i8) -> (r: isize) {
        source as isize
    }
}

impl LossyFrom<isize> for i8 {
    open spec fn lossy_from_spec(source: isize) -> i8 {
        source as i8
    }

    fn lossy_from(source: isize) -> (r: i8) {
        source as i8
    }
}

impl LossyFrom<i8> for usize {
    open spec fn lossy_from_spec(source: i8) -> usize {
        source as usize
    }

    fn lossy_from(source: i8) -> (r: usize) {
        source as usize
    }
}

impl LossyFrom<usize> for i8 {
    open spec fn lossy_from_spec(source: usize) -> i8 {
        source as i8
    }

    fn lossy_from(source: usize) -> (r: i8) {
        source as i8
    }
}

impl LossyFrom<i16> for i32 {
    open spec fn lossy_from_spec(source: i16) -> i32 {
        source as i32
    }

    fn lossy_from(source: i16) -> (r: i32) {
        source as i32
    }
}

impl LossyFrom<i32> for i16 {
    open spec fn lossy_from_spec(source: i32) -> i16 {
        source as i16
    }

    fn lossy_from(source: i32) -> (r: i16) {
        source as i16
    }
}

impl LossyFrom<i16> for i64 {
    open spec fn lossy_from_spec(source: i16) -> i64 {
        source as i64
    }

    fn lossy_from(source: i16) -> (r: i64) {
        source as i64
    }
}

impl LossyFrom<i64> for i16 {
    open spec fn lossy_from_spec(source: i64) -> i16 {
        source as i16
    }

    fn lossy_from(source: i64) -> (r: i16) {
        source as i16
    }
}

impl LossyFrom<i16> for i128 {
    open spec fn lossy_from_spec(source: i16) -> i128 {
        source as i128
    }

    fn lossy_from(source: i16) -> (r: i128) {
        source as i128
    }
}

impl LossyFrom<i128> for i16 {
    open spec fn lossy_from_spec(source: i128) -> i16 {
        source as i16
    }

    fn lossy_from(source: i128) -> (r: i16) {
        source as i16
    }
}

impl LossyFrom<i16> for u8 {
    open spec fn lossy_from_spec(source: i16) -> u8 {
        source as u8
    }

    fn lossy_from(source: i16) -> (r: u8) {
        source as u8
    }
}

impl LossyFrom<u8> for i16 {
    open spec fn lossy_from_spec(source: u8) -> i16 {
        source as i16
    }

    fn lossy_from(source: u8) -> (r: i16) {
        source as i16
    }
}

impl LossyFrom<i16> for u16 {
    open spec fn lossy_from_spec(source: i16) -> u16 {
        source as u16
    }

    fn lossy_from(source: i16) -> (r: u16) {
        source as u16
    }
}

impl LossyFrom<u16> for i16 {
    open spec fn lossy_from_spec(source: u16) -> i16 {
        source as i16
    }

    fn lossy_from(source: u16) -> (r: i16) {
        source as i16
    }
}

impl LossyFrom<i16> for u32 {
    open spec fn lossy_from_spec(source: i16) -> u32 {
        source as u32
    }

    fn lossy_from(source: i16) -> (r: u32) {
        source as u32
    }
}

impl LossyFrom<u32> for i16 {
    open spec fn lossy_from_spec(source: u32) -> i16 {
        source as i16
    }

    fn lossy_from(source: u32) -> (r: i16) {
        source as i16
    }
}

impl LossyFrom<i16> for u64 {
    open spec fn lossy_from_spec(source: i16) -> u64 {
        source as u64
    }

    fn lossy_from(source: i16) -> (r: u64) {
        source as u64
    }
}

impl LossyFrom<u64> for i16 {
    open spec fn lossy_from_spec(source: u64) -> i16 {
        source as i16
    }

    fn lossy_from(source: u64) -> (r: i16) {
        source as i16
    }
}

impl LossyFrom<i16> for u128 {
    open spec fn lossy_from_spec(source: i16) -> u128 {
        source as u128
    }

    fn lossy_from(source: i16) -> (r: u128) {
        source as u128
    }
}

impl LossyFrom<u128> for i16 {
    open spec fn lossy_from_spec(source: u128) -> i16 {
        source as i16
    }

    fn lossy_from(source: u128) -> (r: i16) {
        source as i16
    }
}

impl LossyFrom<i16> for isize {
    open spec fn lossy_from_spec(source: i16) -> isize {
        source as isize
    }

    fn lossy_from(source: i16) -> (r: isize) {
        source as isize
    }
}

impl LossyFrom<isize> for i16 {
    open spec fn lossy_from_spec(source: isize) -> i16 {
        source as i16
    }

    fn lossy_from(source: isize) -> (r: i16) {
        source as i16
    }
}

impl LossyFrom<i16> for usize {
    open spec fn lossy_from_spec(source: i16) -> usize {
        source as usize
    }

    fn lossy_from(source: i16) -> (r: usize) {
        source as usize
    }
}

impl LossyFrom<usize> for i16 {
    open spec fn lossy_from_spec(source: usize) -> i16 {
        source as i16
    }

    fn lossy_from(source: usize) -> (r: i16) {
        source as i16
    }
}

impl LossyFrom<i32> for i64 {
    open spec fn lossy_from_spec(source: i32) -> i64 {
        source as i64
    }

    fn lossy_from(source: i32) -> (r: i64) {
        source as i64
    }
}

impl LossyFrom<i64> for i32 {
    open spec fn lossy_from_spec(source: i64) -> i32 {
        source as i32
    }

    fn lossy_from(source: i64) -> (r: i32) {
        source as i32
    }
}

impl LossyFrom<i32> for i128 {
    open spec fn lossy_from_spec(source: i32) -> i128 {
        source as i128
    }

    fn lossy_from(source: i32) -> (r: i128) {
        source as i128
    }
}

impl LossyFrom<i128> for i32 {
    open spec fn lossy_from_spec(source: i128) -> i32 {
        source as i32
    }

    fn lossy_from(source: i128) -> (r: i32) {
        source as i32
    }
}

impl LossyFrom<i32> for u8 {
    open spec fn lossy_from_spec(source: i32) -> u8 {
        source as u8
    }

    fn lossy_from(source: i32) -> (r: u8) {
        source as u8
    }
}

impl LossyFrom<u8> for i32 {
    open spec fn lossy_from_spec(source: u8) -> i32 {
        source as i32
    }

    fn lossy_from(source: u8) -> (r: i32) {
        source as i32
    }
}

impl LossyFrom<i32> for u16 {
    open spec fn lossy_from_spec(source: i32) -> u16 {
        source as u16
    }

    fn lossy_from(source: i32) -> (r: u16) {
        source as u16
    }
}

impl LossyFrom<u16> for i32 {
    open spec fn lossy_from_spec(source: u16) -> i32 {
        source as i32
    }

    fn lossy_from(source: u16) -> (r: i32) {
        source as i32
    }
}

impl LossyFrom<i32> for u32 {
    open spec fn lossy_from_spec(source: i32) -> u32 {
        source as u32
    }

    fn lossy_from(source: i32) -> (r: u32) {
        source as u32
    }
}

impl LossyFrom<u32> for i32 {
    open spec fn lossy_from_spec(source: u32) -> i32 {
        source as i32
    }

    fn lossy_from(source: u32) -> (r: i32) {
        source as i32
    }
}

impl LossyFrom<i32> for u64 {
    open spec fn lossy_from_spec(source: i32) -> u64 {
        source as u64
    }

    fn lossy_from(source: i32) -> (r: u64) {
        source as u64
    }
}

impl LossyFrom<u64> for i32 {
    open spec fn lossy_from_spec(source: u64) -> i32 {
        source as i32
    }

    fn lossy_from(source: u64) -> (r: i32) {
        source as i32
    }
}

impl LossyFrom<i32> for u128 {
    open spec fn lossy_from_spec(source: i32) -> u128 {
        source as u128
    }

    fn lossy_from(source: i32) -> (r: u128) {
        source as u128
    }
}

impl LossyFrom<u128> for i32 {
    open spec fn lossy_from_spec(source: u128) -> i32 {
        source as i32
    }

    fn lossy_from(source: u128) -> (r: i32) {
        source as i32
    }
}

impl LossyFrom<i32> for isize {
    open spec fn lossy_from_spec(source: i32) -> isize {
        source as isize
    }

    fn lossy_from(source: i32) -> (r: isize) {
        source as isize
    }
}

impl LossyFrom<isize> for i32 {
    open spec fn lossy_from_spec(source: isize) -> i32 {
        source as i32
    }

    fn lossy_from(source: isize) -> (r: i32) {
        source as i32
    }
}

impl LossyFrom<i32> for usize {
    open spec fn lossy_from_spec(source: i32) -> usize {
        source as usize
    }

    fn lossy_from(source: i32) -> (r: usize) {
        source as usize
    }
}

impl LossyFrom<usize> for i32 {
    open spec fn lossy_from_spec(source: usize) -> i32 {
        source as i32
    }

    fn lossy_from(source: usize) -> (r: i32) {
        source as i32
    }
}

impl LossyFrom<i64> for i128 {
    open spec fn lossy_from_spec(source: i64) -> i128 {
        source as i128
    }

    fn lossy_from(source: i64) -> (r: i128) {
        source as i128
    }
}

impl LossyFrom<i128> for i64 {
    open spec fn lossy_from_spec(source: i128) -> i64 {
        source as i64
    }

    fn lossy_from(source: i128) -> (r: i64) {
        source as i64
    }
}

impl LossyFrom<i64> for u8 {
    open spec fn lossy_from_spec(source: i64) -> u8 {
        source as u8
    }

    fn lossy_from(source: i64) -> (r: u8) {
        source as u8
    }
}

impl LossyFrom<u8> for i64 {
    open spec fn lossy_from_spec(source: u8) -> i64 {
        source as i64
    }

    fn lossy_from(source: u8) -> (r: i64) {
        source as i64
    }
}

impl LossyFrom<i64> for u16 {
    open spec fn lossy_from_spec(source: i64) -> u16 {
        source as u16
    }

    fn lossy_from(source: i64) -> (r: u16) {
        source as u16
    }
}

impl LossyFrom<u16> for i64 {
    open spec fn lossy_from_spec(source: u16) -> i64 {
        source as i64
    }

    fn lossy_from(source: u16) -> (r: i64) {
        source as i64
    }
}

impl LossyFrom<i64> for u32 {
    open spec fn lossy_from_spec(source: i64) -> u32 {
        source as u32
    }

    fn lossy_from(source: i64) -> (r: u32) {
        source as u32
    }
}

impl LossyFrom<u32> for i64 {
    open spec fn lossy_from_spec(source: u32) -> i64 {
        source as i64
    }

    fn lossy_from(source: u32) -> (r: i64) {
        source as i64
    }
}

impl LossyFrom<i64> for u64 {
    open spec fn lossy_from_spec(source: i64) -> u64 {
        source as u64
    }

    fn lossy_from(source: i64) -> (r: u64) {
        source as u64
    }
}

impl LossyFrom<u64> for i64 {
    open spec fn lossy_from_spec(source: u64) -> i64 {
        source as i64
    }

    fn lossy_from(source: u64) -> (r: i64) {
        source as i64
    }
}

impl LossyFrom<i64> for u128 {
    open spec fn lossy_from_spec(source: i64) -> u128 {
        source as u128
    }

    fn lossy_from(source: i64) -> (r: u128) {
        source as u128
    }
}

impl LossyFrom<u128> for i64 {
    open spec fn lossy_from_spec(source: u128) -> i64 {
        source as i64
    }

    fn lossy_from(source: u128) -> (r: i64) {
        source as i64
    }
}

impl LossyFrom<i64> for isize {
    open spec fn lossy_from_spec(source: i64) -> isize {
        source as isize
    }

    fn lossy_from(source: i64) -> (r: isize) {
        source as isize
    }
}

impl LossyFrom<isize> for i64 {
    open spec fn lossy_from_spec(source: isize) -> i64 {
        source as i64
    }

    fn lossy_from(source: isize) -> (r: i64) {
        source as i64
    }
}

impl LossyFrom<i64> for usize {
    open spec fn lossy_from_spec(source: i64) -> usize {
        source as usize
    }

    fn lossy_from(source: i64) -> (r: usize) {
        source as usize
    }
}

impl LossyFrom<usize> for i64 {
    open spec fn lossy_from_spec(source: usize) -> i64 {
        source as i64
    }

    fn lossy_from(source: usize) -> (r: i64) {
        source as i64
    }
}

impl LossyFrom<i128> for u8 {
    open spec fn lossy_from_spec(source: i128) -> u8 {
        source as u8
    }

    fn lossy_from(source: i128) -> (r: u8) {
        source as u8
    }
}

impl LossyFrom<u8> for i128 {
    open spec fn lossy_from_spec(source: u8) -> i128 {
        source as i128
    }

    fn lossy_from(source: u8) -> (r: i128) {
        source as i128
    }
}

impl LossyFrom<i128> for u16 {
    open spec fn lossy_from_spec(source: i128) -> u16 {
        source as u16
    }

    fn lossy_from(source: i128) -> (r: u16) {
        source as u16
    }
}

impl LossyFrom<u16> for i128 {
    open spec fn lossy_from_spec(source: u16) -> i128 {
        source as i128
    }

    fn lossy_from(source: u16) -> (r: i128) {
        source as i128
    }
}

impl LossyFrom<i128> for u32 {
    open spec fn lossy_from_spec(source: i128) -> u32 {
        source as u32
    }

    fn lossy_from(source: i128) -> (r: u32) {
        source as u32
    }
}

impl LossyFrom<u32> for i128 {
    open spec fn lossy_from_spec(source: u32) -> i128 {
        source as i128
    }

    fn lossy_from(source: u32) -> (r: i128) {
        source as i128
    }
}

impl LossyFrom<i128> for u64 {
    open spec fn lossy_from_spec(source: i128) -> u64 {
        source as u64
    }

    fn lossy_from(source: i128) -> (r: u64) {
        source as u64
    }
}

impl LossyFrom<u64> for i128 {
    open spec fn lossy_from_spec(source: u64) -> i128 {
        source as i128
    }

    fn lossy_from(source: u64) -> (r: i128) {
        source as i128
    }
}

impl LossyFrom<i128> for u128 {
    open spec fn lossy_from_spec(source: i128) -> u128 {
        source as u128
    }

    fn lossy_from(source: i128) -> (r: u128) {
        source as u128
    }
}

impl LossyFrom<u128> for i128 {
    open spec fn lossy_from_spec(source: u128) -> i128 {
        source as i128
    }

    fn lossy_from(source: u128) -> (r: i128) {
        source as i128
    }
}

impl LossyFrom<i128> for isize {
    open spec fn lossy_from_spec(source: i128) -> isize {
        source as isize
    }

    fn lossy_from(source: i128) -> (r: isize) {
        source as isize
    }
}

impl LossyFrom<isize> for i128 {
    open spec fn lossy_from_spec(source: isize) -> i128 {
        source as i128
    }

    fn lossy_from(source: isize) -> (r: i128) {
        source as i128
    }
}

impl LossyFrom<i128> for usize {
    open spec fn lossy_from_spec(source: i128) -> usize {
        source as usize
    }

    fn lossy_from(source: i128) -> (r: usize) {
        source as usize
    }
}

impl LossyFrom<usize> for i128 {
    open spec fn lossy_from_spec(source: usize) -> i128 {
        source as i128
    }

    fn lossy_from(source: usize) -> (r: i128) {
        source as i128
    }
}

impl LossyFrom<u8> for u16 {
    open spec fn lossy_from_spec(source: u8) -> u16 {
        source as u16
    }

    fn lossy_from(source: u8) -> (r: u16) {
        source as u16
    }
}

impl LossyFrom<u16> for u8 {
    open spec fn lossy_from_spec(source: u16) -> u8 {
        source as u8
    }

    fn lossy_from(source: u16) -> (r: u8) {
        source as u8
    }
}

impl LossyFrom<u8> for u32 {
    open spec fn lossy_from_spec(source: u8) -> u32 {
        source as u32
    }

    fn lossy_from(source: u8) -> (r: u32) {
        source as u32
    }
}

impl LossyFrom<u32> for u8 {
    open spec fn lossy_from_spec(source: u32) -> u8 {
        source as u8
    }

    fn lossy_from(source: u32) -> (r: u8) {
        source as u8
    }
}

impl LossyFrom<u8> for u64 {
    open spec fn lossy_from_spec(source: u8) -> u64 {
        source as u64
    }

    fn lossy_from(source: u8) -> (r: u64) {
        source as u64
    }
}

impl LossyFrom<u64> for u8 {
    open spec fn lossy_from_spec(source: u64) -> u8 {
        source as u8
    }

    fn lossy_from(source: u64) -> (r: u8) {
        source as u8
    }
}

impl LossyFrom<u8> for u128 {
    open spec fn lossy_from_spec(source: u8) -> u128 {
        source as u128
    }

    fn lossy_from(source: u8) -> (r: u128) {
        source as u128
    }
}

impl LossyFrom<u128> for u8 {
    open spec fn lossy_from_spec(source: u128) -> u8 {
        source as u8
    }

    fn lossy_from(source: u128) -> (r: u8) {
        source as u8
    }
}

impl LossyFrom<u8> for isize {
    open spec fn lossy_from_spec(source: u8) -> isize {
        source as isize
    }

    fn lossy_from(source: u8) -> (r: isize) {
        source as isize
    }
}

impl LossyFrom<isize> for u8 {
    open spec fn lossy_from_spec(source: isize) -> u8 {
        source as u8
    }

    fn lossy_from(source: isize) -> (r: u8) {
        source as u8
    }
}

impl LossyFrom<u8> for usize {
    open spec fn lossy_from_spec(source: u8) -> usize {
        source as usize
    }

    fn lossy_from(source: u8) -> (r: usize) {
        source as usize
    }
}

impl LossyFrom<usize> for u8 {
    open spec fn lossy_from_spec(source: usize) -> u8 {
        source as u8
    }

    fn lossy_from(source: usize) -> (r: u8) {
        source as u8
    }
}

impl LossyFrom<u16> for u32 {
    open spec fn lossy_from_spec(source: u16) -> u32 {
        source as u32
    }

    fn lossy_from(source: u16) -> (r: u32) {
        source as u32
    }
}

impl LossyFrom<u32> for u16 {
    open spec fn lossy_from_spec(source: u32) -> u16 {
        source as u16
    }

    fn lossy_from(source: u32) -> (r: u16) {
        source as u16
    }
}

impl LossyFrom<u16> for u64 {
    open spec fn lossy_from_spec(source: u16) -> u64 {
        source as u64
    }

    fn lossy_from(source: u16) -> (r: u64) {
        source as u64
    }
}

impl LossyFrom<u64> for u16 {
    open spec fn lossy_from_spec(source: u64) -> u16 {
        source as u16
    }

    fn lossy_from(source: u64) -> (r: u16) {
        source as u16
    }
}

impl LossyFrom<u16> for u128 {
    open spec fn lossy_from_spec(source: u16) -> u128 {
        source as u128
    }

    fn lossy_from(source: u16) -> (r: u128) {
        source as u128
    }
}

impl LossyFrom<u128> for u16 {
    open spec fn lossy_from_spec(source: u128) -> u16 {
        source as u16
    }

    fn lossy_from(source: u128) -> (r: u16) {
        source as u16
    }
}

impl LossyFrom<u16> for isize {
    open spec fn lossy_from_spec(source: u16) -> isize {
        source as isize
    }

    fn lossy_from(source: u16) -> (r: isize) {
        source as isize
    }
}

impl LossyFrom<isize> for u16 {
    open spec fn lossy_from_spec(source: isize) -> u16 {
        source as u16
    }

    fn lossy_from(source: isize) -> (r: u16) {
        source as u16
    }
}

impl LossyFrom<u16> for usize {
    open spec fn lossy_from_spec(source: u16) -> usize {
        source as usize
    }

    fn lossy_from(source: u16) -> (r: usize) {
        source as usize
    }
}

impl LossyFrom<usize> for u16 {
    open spec fn lossy_from_spec(source: usize) -> u16 {
        source as u16
    }

    fn lossy_from(source: usize) -> (r: u16) {
        source as u16
    }
}

impl LossyFrom<u32> for u64 {
    open spec fn lossy_from_spec(source: u32) -> u64 {
        source as u64
    }

    fn lossy_from(source: u32) -> (r: u64) {
        source as u64
    }
}

impl LossyFrom<u64> for u32 {
    open spec fn lossy_from_spec(source: u64) -> u32 {
        source as u32
    }

    fn lossy_from(source: u64) -> (r: u32) {
        source as u32
    }
}

impl LossyFrom<u32> for u128 {
    open spec fn lossy_from_spec(source: u32) -> u128 {
        source as u128
    }

    fn lossy_from(source: u32) -> (r: u128) {
        source as u128
    }
}

impl LossyFrom<u128> for u32 {
    open spec fn lossy_from_spec(source: u128) -> u32 {
        source as u32
    }

    fn lossy_from(source: u128) -> (r: u32) {
        source as u32
    }
}

impl LossyFrom<u32> for isize {
    open spec fn lossy_from_spec(source: u32) -> isize {
        source as isize
    }

    fn lossy_from(source: u32) -> (r: isize) {
        source as isize
    }
}

impl LossyFrom<isize> for u32 {
    open spec fn lossy_from_spec(source: isize) -> u32 {
        source as u32
    }

    fn lossy_from(source: isize) -> (r: u32) {
        source as u32
    }
}

impl LossyFrom<u32> for usize {
    open spec fn lossy_from_spec(source: u32) -> usize {
        source as usize
    }

    fn lossy_from(source: u32) -> (r: usize) {
        source as usize
    }
}

impl LossyFrom<usize> for u32 {
    open spec fn lossy_from_spec(source: usize) -> u32 {
        source as u32
    }

    fn lossy_from(source: usize) -> (r: u32) {
        source as u32
    }
}

impl LossyFrom<u64> for u128 {
    open spec fn lossy_from_spec(source: u64) -> u128 {
        source as u128
    }

    fn lossy_from(source: u64) -> (r: u128) {
        source as u128
    }
}

impl LossyFrom<u128> for u64 {
    open spec fn lossy_from_spec(source: u128) -> u64 {
        source as u64
    }

    fn lossy_from(source: u128) -> (r: u64) {
        source as u64
    }
}

impl LossyFrom<u64> for isize {
    open spec fn lossy_from_spec(source: u64) -> isize {
        source as isize
    }

    fn lossy_from(source: u64) -> (r: isize) {
        source as isize
    }
}

impl LossyFrom<isize> for u64 {
    open spec fn lossy_from_spec(source: isize) -> u64 {
        source as u64
    }

    fn lossy_from(source: isize) -> (r: u64) {
        source as u64
    }
}

impl LossyFrom<u64> for usize {
    open spec fn lossy_from_spec(source: u64) -> usize {
        source as usize
    }

    fn lossy_from(source: u64) -> (r: usize) {
        source as usize
    }
}

impl LossyFrom<usize> for u64 {
    open spec fn lossy_from_spec(source: usize) -> u64 {
        source as u64
    }

    fn lossy_from(source: usize) -> (r: u64) {
        source as u64
    }
}

impl LossyFrom<u128> for isize {
    open spec fn lossy_from_spec(source: u128) -> isize {
        source as isize
    }

    fn lossy_from(source: u128) -> (r: isize) {
        source as isize
    }
}

impl LossyFrom<isize> for u128 {
    open spec fn lossy_from_spec(source: isize) -> u128 {
        source as u128
    }

    fn lossy_from(source: isize) -> (r: u128) {
        source as u128
    }
}

impl LossyFrom<u128> for usize {
    open spec fn lossy_from_spec(source: u128) -> usize {
        source as usize
    }

    fn lossy_from(source: u128) -> (r: usize) {
        source as usize
    }
}

impl LossyFrom<usize> for u128 {
    open spec fn lossy_from_spec(source: usize) -> u128 {
        source as u128
    }

    fn lossy_from(source: usize) -> (r: u128) {
        source as u128
    }
}

impl LossyFrom<isize> for usize {
    open spec fn lossy_from_spec(source: isize) -> usize {
        source as usize
    }

    fn lossy_from(source: isize) -> (r: usize) {
        source as usize
    }
}

impl LossyFrom<usize> for isize {
    open spec fn lossy_from_spec(source: usize) -> isize {
        source as isize
    }

    fn lossy_from(source: usize) -> (r: isize) {
        source as isize
    }
}

} // verus!
