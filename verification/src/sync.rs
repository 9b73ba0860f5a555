use vstd::prelude::*;

verus! {

/// A wrapper type which only allows `&mut` access to the inner value.
///
/// Because every access goes through `&mut`, sharing a `&NoSharedAccess<T>`
/// between threads could never expose the value, which would make the
/// wrapper sound to be `Sync` for every `T`. This crate holds no `unsafe`
/// code, so that impl is not written here: the wrapper is `Send` and `Sync`
/// exactly when `T` is.
pub struct NoSharedAccess<T>(T);

impl<T> NoSharedAccess<T> {
    /// The wrapped value.
    pub closed spec fn value(self) -> T {
        self.0
    }

    /// Wraps `value`.
    pub fn new(value: T) -> (s: Self)
        ensures
            s.value() == value,
    {
        Self(value)
    }

    /// Reads the wrapped value; the wrapper itself is left as it was.
    pub fn get(&mut self) -> (r: &T)
        ensures
            *r == old(self).value(),
            final(self).value() == old(self).value(),
    {
        &self.0
    }

    /// Hands out the wrapped value for writing: what is written through the
    /// returned reference is what the wrapper holds afterwards.
    pub fn get_mut(&mut self) -> (r: &mut T)
        ensures
            *r == old(self).value(),
            final(self).value() == *final(r),
    {
        &mut self.0
    }

    /// A wrapper is nothing but its value: two wrappers holding the same
    /// value are the same.
    pub proof fn determined_by_value(a: Self, b: Self)
        requires
            a.value() == b.value(),
        ensures
            a == b,
    {
    }

    /// Unwraps the value.
    pub fn into_inner(self) -> (r: T)
        ensures
            r == self.value(),
    {
        self.0
    }
}

} // verus!
