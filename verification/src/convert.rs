use vstd::prelude::*;

verus! {

/// A type that has a value for a `u64`, wherever it can hold the number.
///
/// The integer types have it from `num_traits::FromPrimitive::from_u64`.
pub trait FromU64: Sized {
    /// The value of this type for `n`, or `None` where the type cannot hold `n`.
    spec fn from_u64_spec(n: u64) -> Option<Self>;

    /// Converts `n` to this type.
    fn from_u64(n: u64) -> (value: Option<Self>)
        ensures
            value == Self::from_u64_spec(n),
    ;
}

/// `<i8 as num_traits::FromPrimitive>::from_u64`: the same number as an `i8` where it
/// is at most `i8::MAX`, and `None` where it is greater.
#[verifier::external_body]
fn i8_from_u64(n: u64) -> (value: Option<i8>)
    ensures
        value == (if n <= i8::MAX {
            Some(n as i8)
        } else {
            None
        }),
{
    num_traits::FromPrimitive::from_u64(n)
}

impl FromU64 for i8 {
    open spec fn from_u64_spec(n: u64) -> Option<i8> {
        if n <= i8::MAX {
            Some(n as i8)
        } else {
            None
        }
    }

    fn from_u64(n: u64) -> (value: Option<i8>) {
        i8_from_u64(n)
    }
}

/// `<i16 as num_traits::FromPrimitive>::from_u64`: the same number as an `i16` where it
/// is at most `i16::MAX`, and `None` where it is greater.
#[verifier::external_body]
fn i16_from_u64(n: u64) -> (value: Option<i16>)
    ensures
        value == (if n <= i16::MAX {
            Some(n as i16)
        } else {
            None
        }),
{
    num_traits::FromPrimitive::from_u64(n)
}

impl FromU64 for i16 {
    open spec fn from_u64_spec(n: u64) -> Option<i16> {
        if n <= i16::MAX {
            Some(n as i16)
        } else {
            None
        }
    }

    fn from_u64(n: u64) -> (value: Option<i16>) {
        i16_from_u64(n)
    }
}

/// `<i32 as num_traits::FromPrimitive>::from_u64`: the same number as an `i32` where it
/// is at most `i32::MAX`, and `None` where it is greater.
#[verifier::external_body]
fn i32_from_u64(n: u64) -> (value: Option<i32>)
    ensures
        value == (if n <= i32::MAX {
            Some(n as i32)
        } else {
            None
        }),
{
    num_traits::FromPrimitive::from_u64(n)
}

impl FromU64 for i32 {
    open spec fn from_u64_spec(n: u64) -> Option<i32> {
        if n <= i32::MAX {
            Some(n as i32)
        } else {
            None
        }
    }

    fn from_u64(n: u64) -> (value: Option<i32>) {
        i32_from_u64(n)
    }
}

/// `<i64 as num_traits::FromPrimitive>::from_u64`: the same number as an `i64` where it
/// is at most `i64::MAX`, and `None` where it is greater.
#[verifier::external_body]
fn i64_from_u64(n: u64) -> (value: Option<i64>)
    ensures
        value == (if n <= i64::MAX {
            Some(n as i64)
        } else {
            None
        }),
{
    num_traits::FromPrimitive::from_u64(n)
}

impl FromU64 for i64 {
    open spec fn from_u64_spec(n: u64) -> Option<i64> {
        if n <= i64::MAX {
            Some(n as i64)
        } else {
            None
        }
    }

    fn from_u64(n: u64) -> (value: Option<i64>) {
        i64_from_u64(n)
    }
}

/// `<i128 as num_traits::FromPrimitive>::from_u64`: every `u64` is an `i128`, so the
/// answer is always `Some`, with the same number.
#[verifier::external_body]
fn i128_from_u64(n: u64) -> (value: Option<i128>)
    ensures
        value == Some(n as i128),
{
    num_traits::FromPrimitive::from_u64(n)
}

impl FromU64 for i128 {
    open spec fn from_u64_spec(n: u64) -> Option<i128> {
        Some(n as i128)
    }

    fn from_u64(n: u64) -> (value: Option<i128>) {
        i128_from_u64(n)
    }
}

/// `<isize as num_traits::FromPrimitive>::from_u64`: the same number as an `isize` where it
/// is at most `isize::MAX`, and `None` where it is greater.
#[verifier::external_body]
fn isize_from_u64(n: u64) -> (value: Option<isize>)
    ensures
        value == (if n <= isize::MAX {
            Some(n as isize)
        } else {
            None
        }),
{
    num_traits::FromPrimitive::from_u64(n)
}

impl FromU64 for isize {
    open spec fn from_u64_spec(n: u64) -> Option<isize> {
        if n <= isize::MAX {
            Some(n as isize)
        } else {
            None
        }
    }

    fn from_u64(n: u64) -> (value: Option<isize>) {
        isize_from_u64(n)
    }
}

/// `<u8 as num_traits::FromPrimitive>::from_u64`: the same number as an `u8` where it
/// is at most `u8::MAX`, and `None` where it is greater.
#[verifier::external_body]
fn u8_from_u64(n: u64) -> (value: Option<u8>)
    ensures
        value == (if n <= u8::MAX {
            Some(n as u8)
        } else {
            None
        }),
{
    num_traits::FromPrimitive::from_u64(n)
}

impl FromU64 for u8 {
    open spec fn from_u64_spec(n: u64) -> Option<u8> {
        if n <= u8::MAX {
            Some(n as u8)
        } else {
            None
        }
    }

    fn from_u64(n: u64) -> (value: Option<u8>) {
        u8_from_u64(n)
    }
}

/// `<u16 as num_traits::FromPrimitive>::from_u64`: the same number as an `u16` where it
/// is at most `u16::MAX`, and `None` where it is greater.
#[verifier::external_body]
fn u16_from_u64(n: u64) -> (value: Option<u16>)
    ensures
        value == (if n <= u16::MAX {
            Some(n as u16)
        } else {
            None
        }),
{
    num_traits::FromPrimitive::from_u64(n)
}

impl FromU64 for u16 {
    open spec fn from_u64_spec(n: u64) -> Option<u16> {
        if n <= u16::MAX {
            Some(n as u16)
        } else {
            None
        }
    }

    fn from_u64(n: u64) -> (value: Option<u16>) {
        u16_from_u64(n)
    }
}

/// `<u32 as num_traits::FromPrimitive>::from_u64`: the same number as an `u32` where it
/// is at most `u32::MAX`, and `None` where it is greater.
#[verifier::external_body]
fn u32_from_u64(n: u64) -> (value: Option<u32>)
    ensures
        value == (if n <= u32::MAX {
            Some(n as u32)
        } else {
            None
        }),
{
    num_traits::FromPrimitive::from_u64(n)
}

impl FromU64 for u32 {
    open spec fn from_u64_spec(n: u64) -> Option<u32> {
        if n <= u32::MAX {
            Some(n as u32)
        } else {
            None
        }
    }

    fn from_u64(n: u64) -> (value: Option<u32>) {
        u32_from_u64(n)
    }
}

/// `<u64 as num_traits::FromPrimitive>::from_u64`: every `u64` is an `u64`, so the
/// answer is always `Some`, with the same number.
#[verifier::external_body]
fn u64_from_u64(n: u64) -> (value: Option<u64>)
    ensures
        value == Some(n),
{
    num_traits::FromPrimitive::from_u64(n)
}

impl FromU64 for u64 {
    open spec fn from_u64_spec(n: u64) -> Option<u64> {
        Some(n)
    }

    fn from_u64(n: u64) -> (value: Option<u64>) {
        u64_from_u64(n)
    }
}

/// `<u128 as num_traits::FromPrimitive>::from_u64`: every `u64` is an `u128`, so the
/// answer is always `Some`, with the same number.
#[verifier::external_body]
fn u128_from_u64(n: u64) -> (value: Option<u128>)
    ensures
        value == Some(n as u128),
{
    num_traits::FromPrimitive::from_u64(n)
}

impl FromU64 for u128 {
    open spec fn from_u64_spec(n: u64) -> Option<u128> {
        Some(n as u128)
    }

    fn from_u64(n: u64) -> (value: Option<u128>) {
        u128_from_u64(n)
    }
}

/// `<usize as num_traits::FromPrimitive>::from_u64`: the same number as an `usize` where it
/// is at most `usize::MAX`, and `None` where it is greater.
#[verifier::external_body]
fn usize_from_u64(n: u64) -> (value: Option<usize>)
    ensures
        value == (if n <= usize::MAX {
            Some(n as usize)
        } else {
            None
        }),
{
    num_traits::FromPrimitive::from_u64(n)
}

impl FromU64 for usize {
    open spec fn from_u64_spec(n: u64) -> Option<usize> {
        if n <= usize::MAX {
            Some(n as usize)
        } else {
            None
        }
    }

    fn from_u64(n: u64) -> (value: Option<usize>) {
        usize_from_u64(n)
    }
}

} // verus!
