//! A container for safe in-place replacement.

use vstd::prelude::*;

verus! {

/// Struct for safe in-place replacement.
///
/// This struct allows easily replacing struct fields that provide
/// `self -> Self` methods in-place, without having to deal with constantly
/// unwrapping the underlying [`Option`].
pub struct Replaceable<T>(Option<T>);

impl<T> Replaceable<T> {
    /// Well-formed: the container holds a value.  Every constructor
    /// establishes this and every method preserves it; it only breaks inside
    /// a replacement, never observably.
    pub closed spec fn wf(self) -> bool {
        self.0 is Some
    }

    /// The wrapped value.
    pub closed spec fn value(self) -> T {
        self.0->0
    }

    /// Wrap a value.
    pub fn new(inner: T) -> (r: Self)
        ensures
            r.wf(),
            r.value() == inner,
    {
        Replaceable(Some(inner))
    }

    /// Replace the contents of the container.
    pub fn replace_with<F: FnMut(T) -> T>(&mut self, f: F)
        requires
            old(self).wf(),
            call_requires(f, (old(self).value(),)),
        ensures
            final(self).wf(),
            call_ensures(f, (old(self).value(),), final(self).value()),
    {
        let mut taken: Option<T> = None;
        core::mem::swap(&mut taken, &mut self.0);
        self.0 = taken.map(f);
    }

    /// Get immutable access to the wrapped value.
    pub fn get(&self) -> (r: &T)
        requires
            self.wf(),
        ensures
            *r == self.value(),
    {
        if let Some(v) = &self.0 {
            v
        } else {
            vstd::pervasive::unreached()
        }
    }

    /// Get mutable access to the wrapped value.
    pub fn get_mut(&mut self) -> (r: &mut T)
        requires
            old(self).wf(),
        ensures
            final(self).wf(),
            *r == old(self).value(),
            final(self).value() == *final(r),
    {
        if let Some(v) = &mut self.0 {
            v
        } else {
            vstd::pervasive::unreached()
        }
    }
}

} // verus!
