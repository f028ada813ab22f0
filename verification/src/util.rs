//! What is left of an object when everything the kernel gave it is taken off.

use vstd::prelude::*;

verus! {

/// An object that can be reduced to what its author wrote: to compare an
/// object that was built here with one that the kernel sent back, reduce the
/// kernel's copy and compare then.
pub trait Essence: View + Sized {
    /// The object without what the kernel gave it.
    spec fn essence(m: Self::V) -> Self::V;

    /// Takes off this object everything that the kernel gave it. What its
    /// author wrote stays as it is.
    fn essentialize(&mut self)
        ensures
            final(self)@ == Self::essence(old(self)@),
    ;
}

} // verus!
