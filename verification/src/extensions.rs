//! Small helpers for building a value step by step.
use vstd::prelude::*;

verus! {

/// Applies a step to a value only under a condition, without breaking a
/// chain of calls.
pub trait TapIf: Sized {
    /// `action` applied to the value if `cond` holds, else the value.
    fn tap_if<F>(self, cond: bool, action: F) -> (out: Self) where F: FnOnce(Self) -> Self
        requires
            cond ==> action.requires((self,)),
        ensures
            cond ==> action.ensures((self,), out),
            !cond ==> out == self,
    {
        if cond {
            action(self)
        } else {
            self
        }
    }

    /// `action` applied to the value if `cond` holds, else `default`
    /// applied to it.
    fn tap_if_else<T, F, G>(self, cond: bool, action: F, default: G) -> (out: T) where
        F: FnOnce(Self) -> T,
        G: FnOnce(Self) -> T,

        requires
            cond ==> action.requires((self,)),
            !cond ==> default.requires((self,)),
        ensures
            cond ==> action.ensures((self,), out),
            !cond ==> default.ensures((self,), out),
    {
        if cond {
            action(self)
        } else {
            default(self)
        }
    }
}

impl<T> TapIf for T {

}

} // verus!
