use crate::predicate::{decided, IsThirteen};
use vstd::prelude::*;

verus! {

/// `Returns` calls its closure and compares the returned value to thirteen.
#[derive(Debug, Clone)]
pub struct Returns<T>(pub T);

impl<F> Returns<F> {
    /// Calls the closure and asks the value that it returns.
    ///
    /// This is what [`IsThirteen::thirteen`] does for a `Returns`, with the contract
    /// written out over the closure, so that a caller who holds a closure of its own
    /// can meet it where it stands.
    pub fn thirteen<R>(&self) -> (res: bool) where F: Fn() -> R, R: IsThirteen
        requires
            self.0.requires(()),
            forall|value: R| #[trigger] self.0.ensures((), value) ==> value.thirteen_requires(),
        ensures
            exists|value: R| #[trigger] self.0.ensures((), value) && value.thirteen_ensures(res),
    {
        let value = (self.0)();
        value.thirteen()
    }
}

impl<F, R> IsThirteen for Returns<F> where F: Fn() -> R, R: IsThirteen {
    /// The closure can be called, and whatever it returns can be asked.
    open spec fn thirteen_requires(&self) -> bool {
        &&& self.0.requires(())
        &&& forall|value: R| #[trigger] self.0.ensures((), value) ==> value.thirteen_requires()
    }

    /// The answer is one that some value gives which the closure may return.
    open spec fn thirteen_ensures(&self, res: bool) -> bool {
        exists|value: R| #[trigger] self.0.ensures((), value) && value.thirteen_ensures(res)
    }

    fn thirteen(&self) -> (res: bool) {
        Returns::thirteen(self)
    }
}

/// A `Returns` whose closure may return one value only is thirteen exactly when that
/// value is.
pub proof fn lemma_returns_asks_the_returned_value<F, R>(wrapper: Returns<F>, value: R, res: bool) where
    F: Fn() -> R,
    R: IsThirteen,

    requires
        wrapper.0.ensures((), value),
        forall|other: R| #[trigger] wrapper.0.ensures((), other) ==> other == value,
    ensures
        wrapper.thirteen_ensures(res) <==> value.thirteen_ensures(res),
{
}

/// Asking a `Returns` again gives the same answer, where all the values that its closure
/// may return agree and each of them gives one answer only. A closure is free to return
/// another value at each call, so no more than this holds.
pub proof fn lemma_returns_is_decided<F, R>(wrapper: Returns<F>) where
    F: Fn() -> R,
    R: IsThirteen,

    requires
        forall|first: R, second: R|
            #[trigger] wrapper.0.ensures((), first) && #[trigger] wrapper.0.ensures((), second)
                ==> first == second,
        forall|value: R| #[trigger] wrapper.0.ensures((), value) ==> decided(value),
    ensures
        decided(wrapper),
{
}

} // verus!
