use vstd::prelude::*;

verus! {

/// Why a guard could not be exchanged for a container.
///
/// `E` is the error that the value type's own reconstitution reports.
#[derive(Debug, Clone, PartialEq, Eq)]
pub enum ReconstituteError<E> {
    /// The address presented is not the one the guard was stamped with.
    PointerMismatch { passed: usize, reconstituted: usize },
    /// The value type refused to rebuild itself from the address.
    ReconstituteError { error: E },
}

} // verus!
