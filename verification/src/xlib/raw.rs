use vstd::prelude::*;

verus! {

/// A resource that stands for one native value: an id, an index or an
/// address.
pub trait AsRaw<T> {
    /// The native value, in contracts.
    spec fn raw(&self) -> T;

    /// The native value that this resource stands for.
    fn as_raw(&self) -> (r: T)
        ensures
            r == self.raw(),
    ;
}

} // verus!
