//! Lossless and checked conversions between integer widths.

use vstd::prelude::*;

verus! {

/// Converts a `u64` (the platform `c_ulong`) into an `i32` (the platform `c_int`) when the
/// conversion round-trips: when casting to `i32` and back gives the same value. That holds for
/// the values up to `i32::MAX`, and for the values that sign-extend a negative `i32`.
pub fn try_c_ulong_into_c_int(value: u64) -> (r: Option<i32>)
    ensures
        r == (if value <= i32::MAX {
            Some(value as i32)
        } else if value >= 0xffff_ffff_8000_0000u64 {
            Some((value - 0x1_0000_0000_0000_0000int) as i32)
        } else {
            None
        }),
{
    if value <= 0x7fff_ffffu64 {
        Some(value as i32)
    } else if value >= 0xffff_ffff_8000_0000u64 {
        let low = (value - 0xffff_ffff_0000_0000u64) as u32;
        let r = (low as i64 - 0x1_0000_0000i64) as i32;
        Some(r)
    } else {
        None
    }
}

pub fn u16_into_usize(value: u16) -> (r: usize)
    ensures
        r as int == value as int,
{
    value as usize
}

pub fn u32_into_usize(value: u32) -> (r: usize)
    ensures
        r as int == value as int,
{
    proof {
        lemma_usize_holds_u32();
    }
    value as usize
}

/// Converts a `usize` into a `u32` if the value fits.
pub fn try_usize_into_u32(value: usize) -> (r: Option<u32>)
    ensures
        r matches Some(v) ==> v as int == value as int,
        r is Some <==> value <= u32::MAX,
{
    if value <= 0xffff_ffffusize {
        Some(value as u32)
    } else {
        None
    }
}

pub fn usize_into_u64(value: usize) -> (r: u64)
    ensures
        r as int == value as int,
{
    value as u64
}

proof fn lemma_usize_holds_u32()
    ensures
        u32::MAX <= usize::MAX,
{
}

} // verus!
