use vstd::prelude::*;

verus! {

/// A value that can give up its underlying buffer as a raw address, and be rebuilt from it.
///
/// `PTR` is the type of the element the address points at; the address itself is carried as
/// a pointer-sized integer.
///
/// Implementations must not free the buffer in `pass`: ownership of it moves to whoever holds
/// the address until `reconstitute` takes it back. `reconstitute` is sound only for an address
/// that a matching `pass` produced and that the far side neither freed nor reshaped; it should
/// reject what it can detect (a missing terminator, say) with its own error.
pub trait Passable<PTR>: Sized {
    /// What `reconstitute` reports when it cannot rebuild the value.
    type ReconstituteError;

    /// Holds when `addr` is the address under which this value surrendered its data.
    spec fn passed_as(self, addr: usize) -> bool;

    /// Holds when `r` is an outcome of rebuilding a value from the address `ptr`.
    spec fn rebuilt_from(ptr: usize, r: Result<Self, Self::ReconstituteError>) -> bool;

    /// Converts the value into the raw address of its underlying data, keeping that data alive.
    fn pass(self) -> (r: usize)
        ensures
            self.passed_as(r),
    ;

    /// Rebuilds the value from an address that `pass` produced.
    fn reconstitute(ptr: usize) -> (r: Result<Self, Self::ReconstituteError>)
        ensures
            Self::rebuilt_from(ptr, r),
    ;
}

} // verus!
