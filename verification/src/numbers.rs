use crate::convert::FromU64;
use crate::predicate::{decided, IsThirteen};
use core::cmp::Ordering;
use core::ops::Rem;
use vstd::prelude::*;
use vstd::std_specs::cmp::{PartialEqSpec, PartialOrdSpec};
use vstd::std_specs::ops::RemSpec;

verus! {

/// `DivisibleBy` is thirteen if thirteen divides it.
#[derive(Debug, Copy, Clone)]
pub struct DivisibleBy<T>(pub T);

/// `GreaterThan` is thirteen if it is greater than 13.
#[derive(Debug, Copy, Clone)]
pub struct GreaterThan<T>(pub T);

/// `LessThan` is thirteen if it is less than 13.
#[derive(Debug, Copy, Clone)]
pub struct LessThan<T>(pub T);

impl<T, RemOutput> IsThirteen for DivisibleBy<T> where
    T: Rem<Output = RemOutput> + FromU64 + Copy,
    RemOutput: PartialEq + FromU64,
 {
    /// The type of the value has a thirteen and the type of its remainders a zero, and the
    /// remainder of the value by thirteen can be taken.
    open spec fn thirteen_requires(&self) -> bool {
        &&& T::from_u64_spec(13) is Some
        &&& RemOutput::from_u64_spec(0) is Some
        &&& self.0.rem_req(T::from_u64_spec(13)->0)
    }

    /// The answer is whether the remainder of the value by thirteen equals zero, as far
    /// as `%` and `==` of the types keep to their specifications.
    open spec fn thirteen_ensures(&self, res: bool) -> bool {
        T::obeys_rem_spec() && RemOutput::obeys_eq_spec() ==> res == self.0.rem_spec(
            T::from_u64_spec(13)->0,
        ).eq_spec(&RemOutput::from_u64_spec(0)->0)
    }

    fn thirteen(&self) -> (res: bool) {
        self.0 % T::from_u64(13).unwrap() == RemOutput::from_u64(0).unwrap()
    }
}

impl<T> IsThirteen for GreaterThan<T> where T: PartialOrd + FromU64 {
    /// The type of the value has a thirteen.
    open spec fn thirteen_requires(&self) -> bool {
        T::from_u64_spec(13) is Some
    }

    /// The answer is whether the value comes out greater than thirteen, as far as the
    /// comparisons of the type keep to their specification.
    open spec fn thirteen_ensures(&self, res: bool) -> bool {
        T::obeys_partial_cmp_spec() ==> (res <==> self.0.partial_cmp_spec(&T::from_u64_spec(13)->0)
            == Some(Ordering::Greater))
    }

    fn thirteen(&self) -> (res: bool) {
        self.0 > T::from_u64(13).unwrap()
    }
}

impl<T> IsThirteen for LessThan<T> where T: PartialOrd + FromU64 {
    /// The type of the value has a thirteen.
    open spec fn thirteen_requires(&self) -> bool {
        T::from_u64_spec(13) is Some
    }

    /// The answer is whether the value comes out less than thirteen, as far as the
    /// comparisons of the type keep to their specification.
    open spec fn thirteen_ensures(&self, res: bool) -> bool {
        T::obeys_partial_cmp_spec() ==> (res <==> self.0.partial_cmp_spec(&T::from_u64_spec(13)->0)
            == Some(Ordering::Less))
    }

    fn thirteen(&self) -> (res: bool) {
        self.0 < T::from_u64(13).unwrap()
    }
}

/// Where `%` and `==` keep to their specifications, asking a `DivisibleBy` again gives
/// the same answer.
pub proof fn lemma_divisible_by_is_decided<T, RemOutput>(value: DivisibleBy<T>) where
    T: Rem<Output = RemOutput> + FromU64 + Copy,
    RemOutput: PartialEq + FromU64,

    requires
        T::obeys_rem_spec(),
        RemOutput::obeys_eq_spec(),
    ensures
        decided(value),
{
}

/// Where the comparisons of the type keep to their specification, asking a `GreaterThan`
/// or a `LessThan` again gives the same answer.
pub proof fn lemma_comparisons_are_decided<T>(greater: GreaterThan<T>, less: LessThan<T>) where
    T: PartialOrd + FromU64,

    requires
        T::obeys_partial_cmp_spec(),
    ensures
        decided(greater),
        decided(less),
{
}

/// On an `i8` the three can always be asked: `DivisibleBy` is thirteen exactly when 13
/// divides the number, `GreaterThan` when it is greater than 13, `LessThan` when it is
/// less than 13.
pub proof fn lemma_wrapped_i8(n: i8, res: bool)
    ensures
        DivisibleBy(n).thirteen_requires(),
        DivisibleBy(n).thirteen_ensures(res) <==> res == (n % 13 == 0),
        GreaterThan(n).thirteen_requires(),
        GreaterThan(n).thirteen_ensures(res) <==> res == (n > 13),
        LessThan(n).thirteen_requires(),
        LessThan(n).thirteen_ensures(res) <==> res == (n < 13),
{
}

/// On an `i16` the three can always be asked: `DivisibleBy` is thirteen exactly when 13
/// divides the number, `GreaterThan` when it is greater than 13, `LessThan` when it is
/// less than 13.
pub proof fn lemma_wrapped_i16(n: i16, res: bool)
    ensures
        DivisibleBy(n).thirteen_requires(),
        DivisibleBy(n).thirteen_ensures(res) <==> res == (n % 13 == 0),
        GreaterThan(n).thirteen_requires(),
        GreaterThan(n).thirteen_ensures(res) <==> res == (n > 13),
        LessThan(n).thirteen_requires(),
        LessThan(n).thirteen_ensures(res) <==> res == (n < 13),
{
}

/// On an `i32` the three can always be asked: `DivisibleBy` is thirteen exactly when 13
/// divides the number, `GreaterThan` when it is greater than 13, `LessThan` when it is
/// less than 13.
pub proof fn lemma_wrapped_i32(n: i32, res: bool)
    ensures
        DivisibleBy(n).thirteen_requires(),
        DivisibleBy(n).thirteen_ensures(res) <==> res == (n % 13 == 0),
        GreaterThan(n).thirteen_requires(),
        GreaterThan(n).thirteen_ensures(res) <==> res == (n > 13),
        LessThan(n).thirteen_requires(),
        LessThan(n).thirteen_ensures(res) <==> res == (n < 13),
{
}

/// On an `i64` the three can always be asked: `DivisibleBy` is thirteen exactly when 13
/// divides the number, `GreaterThan` when it is greater than 13, `LessThan` when it is
/// less than 13.
pub proof fn lemma_wrapped_i64(n: i64, res: bool)
    ensures
        DivisibleBy(n).thirteen_requires(),
        DivisibleBy(n).thirteen_ensures(res) <==> res == (n % 13 == 0),
        GreaterThan(n).thirteen_requires(),
        GreaterThan(n).thirteen_ensures(res) <==> res == (n > 13),
        LessThan(n).thirteen_requires(),
        LessThan(n).thirteen_ensures(res) <==> res == (n < 13),
{
}

/// On an `i128` the three can always be asked: `DivisibleBy` is thirteen exactly when 13
/// divides the number, `GreaterThan` when it is greater than 13, `LessThan` when it is
/// less than 13.
pub proof fn lemma_wrapped_i128(n: i128, res: bool)
    ensures
        DivisibleBy(n).thirteen_requires(),
        DivisibleBy(n).thirteen_ensures(res) <==> res == (n % 13 == 0),
        GreaterThan(n).thirteen_requires(),
        GreaterThan(n).thirteen_ensures(res) <==> res == (n > 13),
        LessThan(n).thirteen_requires(),
        LessThan(n).thirteen_ensures(res) <==> res == (n < 13),
{
}

/// On an `isize` the three can always be asked: `DivisibleBy` is thirteen exactly when 13
/// divides the number, `GreaterThan` when it is greater than 13, `LessThan` when it is
/// less than 13.
pub proof fn lemma_wrapped_isize(n: isize, res: bool)
    ensures
        DivisibleBy(n).thirteen_requires(),
        DivisibleBy(n).thirteen_ensures(res) <==> res == (n % 13 == 0),
        GreaterThan(n).thirteen_requires(),
        GreaterThan(n).thirteen_ensures(res) <==> res == (n > 13),
        LessThan(n).thirteen_requires(),
        LessThan(n).thirteen_ensures(res) <==> res == (n < 13),
{
}

/// On an `u8` the three can always be asked: `DivisibleBy` is thirteen exactly when 13
/// divides the number, `GreaterThan` when it is greater than 13, `LessThan` when it is
/// less than 13.
pub proof fn lemma_wrapped_u8(n: u8, res: bool)
    ensures
        DivisibleBy(n).thirteen_requires(),
        DivisibleBy(n).thirteen_ensures(res) <==> res == (n % 13 == 0),
        GreaterThan(n).thirteen_requires(),
        GreaterThan(n).thirteen_ensures(res) <==> res == (n > 13),
        LessThan(n).thirteen_requires(),
        LessThan(n).thirteen_ensures(res) <==> res == (n < 13),
{
}

/// On an `u16` the three can always be asked: `DivisibleBy` is thirteen exactly when 13
/// divides the number, `GreaterThan` when it is greater than 13, `LessThan` when it is
/// less than 13.
pub proof fn lemma_wrapped_u16(n: u16, res: bool)
    ensures
        DivisibleBy(n).thirteen_requires(),
        DivisibleBy(n).thirteen_ensures(res) <==> res == (n % 13 == 0),
        GreaterThan(n).thirteen_requires(),
        GreaterThan(n).thirteen_ensures(res) <==> res == (n > 13),
        LessThan(n).thirteen_requires(),
        LessThan(n).thirteen_ensures(res) <==> res == (n < 13),
{
}

/// On an `u32` the three can always be asked: `DivisibleBy` is thirteen exactly when 13
/// divides the number, `GreaterThan` when it is greater than 13, `LessThan` when it is
/// less than 13.
pub proof fn lemma_wrapped_u32(n: u32, res: bool)
    ensures
        DivisibleBy(n).thirteen_requires(),
        DivisibleBy(n).thirteen_ensures(res) <==> res == (n % 13 == 0),
        GreaterThan(n).thirteen_requires(),
        GreaterThan(n).thirteen_ensures(res) <==> res == (n > 13),
        LessThan(n).thirteen_requires(),
        LessThan(n).thirteen_ensures(res) <==> res == (n < 13),
{
}

/// On an `u64` the three can always be asked: `DivisibleBy` is thirteen exactly when 13
/// divides the number, `GreaterThan` when it is greater than 13, `LessThan` when it is
/// less than 13.
pub proof fn lemma_wrapped_u64(n: u64, res: bool)
    ensures
        DivisibleBy(n).thirteen_requires(),
        DivisibleBy(n).thirteen_ensures(res) <==> res == (n % 13 == 0),
        GreaterThan(n).thirteen_requires(),
        GreaterThan(n).thirteen_ensures(res) <==> res == (n > 13),
        LessThan(n).thirteen_requires(),
        LessThan(n).thirteen_ensures(res) <==> res == (n < 13),
{
}

/// On an `u128` the three can always be asked: `DivisibleBy` is thirteen exactly when 13
/// divides the number, `GreaterThan` when it is greater than 13, `LessThan` when it is
/// less than 13.
pub proof fn lemma_wrapped_u128(n: u128, res: bool)
    ensures
        DivisibleBy(n).thirteen_requires(),
        DivisibleBy(n).thirteen_ensures(res) <==> res == (n % 13 == 0),
        GreaterThan(n).thirteen_requires(),
        GreaterThan(n).thirteen_ensures(res) <==> res == (n > 13),
        LessThan(n).thirteen_requires(),
        LessThan(n).thirteen_ensures(res) <==> res == (n < 13),
{
}

/// On an `usize` the three can always be asked: `DivisibleBy` is thirteen exactly when 13
/// divides the number, `GreaterThan` when it is greater than 13, `LessThan` when it is
/// less than 13.
pub proof fn lemma_wrapped_usize(n: usize, res: bool)
    ensures
        DivisibleBy(n).thirteen_requires(),
        DivisibleBy(n).thirteen_ensures(res) <==> res == (n % 13 == 0),
        GreaterThan(n).thirteen_requires(),
        GreaterThan(n).thirteen_ensures(res) <==> res == (n > 13),
        LessThan(n).thirteen_requires(),
        LessThan(n).thirteen_ensures(res) <==> res == (n < 13),
{
}

} // verus!
