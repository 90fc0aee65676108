//! Contracts for the lossless integer conversions of std that vstd leaves unspecified.

use vstd::prelude::*;

verus! {

/// `<i16 as From<u8>>::from`: std documents this conversion as lossless; the
/// contract claims that it yields the same number, `small as i16`.
pub assume_specification[ <i16 as core::convert::From<u8>>::from ](small: u8) -> (ret: i16)
    ensures
        ret == small as i16,
;

/// `<i32 as From<u8>>::from`: std documents this conversion as lossless; the
/// contract claims that it yields the same number, `small as i32`.
pub assume_specification[ <i32 as core::convert::From<u8>>::from ](small: u8) -> (ret: i32)
    ensures
        ret == small as i32,
;

/// `<i64 as From<u8>>::from`: std documents this conversion as lossless; the
/// contract claims that it yields the same number, `small as i64`.
pub assume_specification[ <i64 as core::convert::From<u8>>::from ](small: u8) -> (ret: i64)
    ensures
        ret == small as i64,
;

/// `<i128 as From<u8>>::from`: std documents this conversion as lossless; the
/// contract claims that it yields the same number, `small as i128`.
pub assume_specification[ <i128 as core::convert::From<u8>>::from ](small: u8) -> (ret: i128)
    ensures
        ret == small as i128,
;

/// `<isize as From<u8>>::from`: std documents this conversion as lossless; the
/// contract claims that it yields the same number, `small as isize`.
pub assume_specification[ <isize as core::convert::From<u8>>::from ](small: u8) -> (ret: isize)
    ensures
        ret == small as isize,
;

/// `<i32 as From<u16>>::from`: std documents this conversion as lossless; the
/// contract claims that it yields the same number, `small as i32`.
pub assume_specification[ <i32 as core::convert::From<u16>>::from ](small: u16) -> (ret: i32)
    ensures
        ret == small as i32,
;

/// `<i64 as From<u16>>::from`: std documents this conversion as lossless; the
/// contract claims that it yields the same number, `small as i64`.
pub assume_specification[ <i64 as core::convert::From<u16>>::from ](small: u16) -> (ret: i64)
    ensures
        ret == small as i64,
;

/// `<i128 as From<u16>>::from`: std documents this conversion as lossless; the
/// contract claims that it yields the same number, `small as i128`.
pub assume_specification[ <i128 as core::convert::From<u16>>::from ](small: u16) -> (ret: i128)
    ensures
        ret == small as i128,
;

/// `<i64 as From<u32>>::from`: std documents this conversion as lossless; the
/// contract claims that it yields the same number, `small as i64`.
pub assume_specification[ <i64 as core::convert::From<u32>>::from ](small: u32) -> (ret: i64)
    ensures
        ret == small as i64,
;

/// `<i128 as From<u32>>::from`: std documents this conversion as lossless; the
/// contract claims that it yields the same number, `small as i128`.
pub assume_specification[ <i128 as core::convert::From<u32>>::from ](small: u32) -> (ret: i128)
    ensures
        ret == small as i128,
;

/// `<i128 as From<u64>>::from`: std documents this conversion as lossless; the
/// contract claims that it yields the same number, `small as i128`.
pub assume_specification[ <i128 as core::convert::From<u64>>::from ](small: u64) -> (ret: i128)
    ensures
        ret == small as i128,
;

} // verus!
