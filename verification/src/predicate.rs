use vstd::prelude::*;

verus! {

/// A value that can be asked whether it is thirteen.
///
/// What a call of `thirteen` needs and what it answers is given per type by the two
/// specification functions, in the way `requires` and `ensures` give it for a closure.
/// For every type of this crate but [`Returns`](crate::lazy::Returns) the first is
/// `true` and the second fixes the answer.
pub trait IsThirteen {
    /// What must hold of `self` before `thirteen` is called.
    spec fn thirteen_requires(&self) -> bool;

    /// Whether `res` is an answer that `thirteen` may give for `self`.
    spec fn thirteen_ensures(&self, res: bool) -> bool;

    /// Returns `true` if `self` is thirteen.
    fn thirteen(&self) -> (res: bool)
        requires
            self.thirteen_requires(),
        ensures
            self.thirteen_ensures(res),
    ;
}

/// The contract of `thirteen` leaves one answer only for `value`: whenever it is asked
/// again, the answer is the same.
pub open spec fn decided<T: IsThirteen>(value: T) -> bool {
    forall|first: bool, second: bool|
        value.thirteen_ensures(first) && value.thirteen_ensures(second) ==> first == second
}

impl IsThirteen for i8 {
    open spec fn thirteen_requires(&self) -> bool {
        true
    }

    open spec fn thirteen_ensures(&self, res: bool) -> bool {
        res == (*self == 13)
    }

    /// Returns `true` if `self == 13`.
    fn thirteen(&self) -> (res: bool)
        ensures
            res == (*self == 13),
    {
        *self == 13
    }
}

impl IsThirteen for i16 {
    open spec fn thirteen_requires(&self) -> bool {
        true
    }

    open spec fn thirteen_ensures(&self, res: bool) -> bool {
        res == (*self == 13)
    }

    /// Returns `true` if `self == 13`.
    fn thirteen(&self) -> (res: bool)
        ensures
            res == (*self == 13),
    {
        *self == 13
    }
}

impl IsThirteen for i32 {
    open spec fn thirteen_requires(&self) -> bool {
        true
    }

    open spec fn thirteen_ensures(&self, res: bool) -> bool {
        res == (*self == 13)
    }

    /// Returns `true` if `self == 13`.
    fn thirteen(&self) -> (res: bool)
        ensures
            res == (*self == 13),
    {
        *self == 13
    }
}

impl IsThirteen for i64 {
    open spec fn thirteen_requires(&self) -> bool {
        true
    }

    open spec fn thirteen_ensures(&self, res: bool) -> bool {
        res == (*self == 13)
    }

    /// Returns `true` if `self == 13`.
    fn thirteen(&self) -> (res: bool)
        ensures
            res == (*self == 13),
    {
        *self == 13
    }
}

impl IsThirteen for i128 {
    open spec fn thirteen_requires(&self) -> bool {
        true
    }

    open spec fn thirteen_ensures(&self, res: bool) -> bool {
        res == (*self == 13)
    }

    /// Returns `true` if `self == 13`.
    fn thirteen(&self) -> (res: bool)
        ensures
            res == (*self == 13),
    {
        *self == 13
    }
}

impl IsThirteen for isize {
    open spec fn thirteen_requires(&self) -> bool {
        true
    }

    open spec fn thirteen_ensures(&self, res: bool) -> bool {
        res == (*self == 13)
    }

    /// Returns `true` if `self == 13`.
    fn thirteen(&self) -> (res: bool)
        ensures
            res == (*self == 13),
    {
        *self == 13
    }
}

impl IsThirteen for u8 {
    open spec fn thirteen_requires(&self) -> bool {
        true
    }

    open spec fn thirteen_ensures(&self, res: bool) -> bool {
        res == (*self == 13)
    }

    /// Returns `true` if `self == 13`.
    fn thirteen(&self) -> (res: bool)
        ensures
            res == (*self == 13),
    {
        *self == 13
    }
}

impl IsThirteen for u16 {
    open spec fn thirteen_requires(&self) -> bool {
        true
    }

    open spec fn thirteen_ensures(&self, res: bool) -> bool {
        res == (*self == 13)
    }

    /// Returns `true` if `self == 13`.
    fn thirteen(&self) -> (res: bool)
        ensures
            res == (*self == 13),
    {
        *self == 13
    }
}

impl IsThirteen for u32 {
    open spec fn thirteen_requires(&self) -> bool {
        true
    }

    open spec fn thirteen_ensures(&self, res: bool) -> bool {
        res == (*self == 13)
    }

    /// Returns `true` if `self == 13`.
    fn thirteen(&self) -> (res: bool)
        ensures
            res == (*self == 13),
    {
        *self == 13
    }
}

impl IsThirteen for u64 {
    open spec fn thirteen_requires(&self) -> bool {
        true
    }

    open spec fn thirteen_ensures(&self, res: bool) -> bool {
        res == (*self == 13)
    }

    /// Returns `true` if `self == 13`.
    fn thirteen(&self) -> (res: bool)
        ensures
            res == (*self == 13),
    {
        *self == 13
    }
}

impl IsThirteen for u128 {
    open spec fn thirteen_requires(&self) -> bool {
        true
    }

    open spec fn thirteen_ensures(&self, res: bool) -> bool {
        res == (*self == 13)
    }

    /// Returns `true` if `self == 13`.
    fn thirteen(&self) -> (res: bool)
        ensures
            res == (*self == 13),
    {
        *self == 13
    }
}

impl IsThirteen for usize {
    open spec fn thirteen_requires(&self) -> bool {
        true
    }

    open spec fn thirteen_ensures(&self, res: bool) -> bool {
        res == (*self == 13)
    }

    /// Returns `true` if `self == 13`.
    fn thirteen(&self) -> (res: bool)
        ensures
            res == (*self == 13),
    {
        *self == 13
    }
}

/// The glyphs that read as a "B", and so as a 1 and a 3 set close together: the Latin
/// capital B, the sharp s (U+00DF), the Greek beta, capital (U+0392) and small (U+03B2),
/// and the radical U+961D.
pub open spec fn is_thirteen_char(c: char) -> bool {
    c == 'B' || c == '\u{df}' || c == '\u{392}' || c == '\u{3b2}' || c == '\u{961d}'
}

impl IsThirteen for char {
    open spec fn thirteen_requires(&self) -> bool {
        true
    }

    open spec fn thirteen_ensures(&self, res: bool) -> bool {
        res == is_thirteen_char(*self)
    }

    /// Returns `true` if `self` is one of the glyphs of [`is_thirteen_char`].
    fn thirteen(&self) -> (res: bool)
        ensures
            res == is_thirteen_char(*self),
    {
        matches!(*self, 'B' | '\u{df}' | '\u{392}' | '\u{3b2}' | '\u{961d}')
    }
}

impl IsThirteen for bool {
    open spec fn thirteen_requires(&self) -> bool {
        true
    }

    open spec fn thirteen_ensures(&self, res: bool) -> bool {
        !res
    }

    /// Returns `false`.
    fn thirteen(&self) -> (res: bool)
        ensures
            !res,
    {
        false
    }
}

impl IsThirteen for () {
    open spec fn thirteen_requires(&self) -> bool {
        true
    }

    open spec fn thirteen_ensures(&self, res: bool) -> bool {
        !res
    }

    /// Returns `false`.
    fn thirteen(&self) -> (res: bool)
        ensures
            !res,
    {
        false
    }
}

/// An integer of any width is thirteen exactly when it is the number 13, and the
/// question may always be asked.
pub proof fn lemma_integer_is_thirteen_iff_13(n: int, res: bool)
    ensures
        i8::MIN <= n <= i8::MAX ==> (n as i8).thirteen_requires() && ((n as i8).thirteen_ensures(res)
            <==> res == (n == 13)),
        i16::MIN <= n <= i16::MAX ==> (n as i16).thirteen_requires() && ((n as i16).thirteen_ensures(res)
            <==> res == (n == 13)),
        i32::MIN <= n <= i32::MAX ==> (n as i32).thirteen_requires() && ((n as i32).thirteen_ensures(res)
            <==> res == (n == 13)),
        i64::MIN <= n <= i64::MAX ==> (n as i64).thirteen_requires() && ((n as i64).thirteen_ensures(res)
            <==> res == (n == 13)),
        i128::MIN <= n <= i128::MAX ==> (n as i128).thirteen_requires() && ((n as i128).thirteen_ensures(res)
            <==> res == (n == 13)),
        isize::MIN <= n <= isize::MAX ==> (n as isize).thirteen_requires() && ((n as isize).thirteen_ensures(res)
            <==> res == (n == 13)),
        u8::MIN <= n <= u8::MAX ==> (n as u8).thirteen_requires() && ((n as u8).thirteen_ensures(res)
            <==> res == (n == 13)),
        u16::MIN <= n <= u16::MAX ==> (n as u16).thirteen_requires() && ((n as u16).thirteen_ensures(res)
            <==> res == (n == 13)),
        u32::MIN <= n <= u32::MAX ==> (n as u32).thirteen_requires() && ((n as u32).thirteen_ensures(res)
            <==> res == (n == 13)),
        u64::MIN <= n <= u64::MAX ==> (n as u64).thirteen_requires() && ((n as u64).thirteen_ensures(res)
            <==> res == (n == 13)),
        u128::MIN <= n <= u128::MAX ==> (n as u128).thirteen_requires() && ((n as u128).thirteen_ensures(res)
            <==> res == (n == 13)),
        usize::MIN <= n <= usize::MAX ==> (n as usize).thirteen_requires() && ((n as usize).thirteen_ensures(res)
            <==> res == (n == 13)),
{
}

/// No truth value and no unit value is thirteen.
pub proof fn lemma_bool_and_unit_are_never_thirteen(b: bool, res: bool)
    ensures
        b.thirteen_requires() && (b.thirteen_ensures(res) <==> !res),
        ().thirteen_requires() && (().thirteen_ensures(res) <==> !res),
{
}

/// Asking an integer, a character, a truth value or the unit value again gives the same
/// answer.
pub proof fn lemma_primitives_are_decided(n: int, c: char, b: bool)
    ensures
        i8::MIN <= n <= i8::MAX ==> decided(n as i8),
        i16::MIN <= n <= i16::MAX ==> decided(n as i16),
        i32::MIN <= n <= i32::MAX ==> decided(n as i32),
        i64::MIN <= n <= i64::MAX ==> decided(n as i64),
        i128::MIN <= n <= i128::MAX ==> decided(n as i128),
        isize::MIN <= n <= isize::MAX ==> decided(n as isize),
        u8::MIN <= n <= u8::MAX ==> decided(n as u8),
        u16::MIN <= n <= u16::MAX ==> decided(n as u16),
        u32::MIN <= n <= u32::MAX ==> decided(n as u32),
        u64::MIN <= n <= u64::MAX ==> decided(n as u64),
        u128::MIN <= n <= u128::MAX ==> decided(n as u128),
        usize::MIN <= n <= usize::MAX ==> decided(n as usize),
        decided(c),
        decided(b),
        decided(()),
{
}

} // verus!
