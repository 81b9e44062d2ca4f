use std::marker::PhantomData;
use vstd::prelude::*;

use crate::error::ReconstituteError;
use crate::passable::Passable;

verus! {

/// Owns one value that can be handed across a raw-address boundary under a guard.
#[derive(Debug)]
pub struct PassableContainer<PTR, PAS: Passable<PTR>> {
    value: PAS,
    _phantom: PhantomData<PTR>,
}

impl<PTR, PAS: Passable<PTR> + Clone> Clone for PassableContainer<PTR, PAS> {
    /// A container owning a clone of this container's value.
    fn clone(&self) -> Self {
        PassableContainer { value: self.value.clone(), _phantom: PhantomData }
    }
}

impl<PTR, PAS: Passable<PTR>> View for PassableContainer<PTR, PAS> {
    type V = PAS;

    /// The value the container owns.
    closed spec fn view(&self) -> PAS {
        self.value
    }
}

impl<PTR, PAS: Passable<PTR>> PassableContainer<PTR, PAS> {
    /// The container that owns `passable`.
    pub closed spec fn holding(passable: PAS) -> Self {
        PassableContainer { value: passable, _phantom: PhantomData }
    }

    /// Creates a container that owns `passable`.
    pub fn new(passable: PAS) -> (r: Self)
        ensures
            r == Self::holding(passable),
            r@ == passable,
    {
        PassableContainer { value: passable, _phantom: PhantomData }
    }

    /// Gives back the value this container owns.
    pub fn into_inner(self) -> (r: PAS)
        ensures
            r == self@,
    {
        self.value
    }

    /// Converts the container into the raw address of its value, together with the guard that
    /// must later take that address back.
    pub fn pass(self) -> (r: (PassableGuard<PTR, PAS>, usize))
        ensures
            self@.passed_as(r.1),
            r.0.address() == r.1,
            r.0.outstanding() == self@,
    {
        let ghost value = self.value;
        let ptr = self.value.pass();
        let guard = PassableGuard { ptr, value: Ghost(value), _phantom: PhantomData };
        (guard, ptr)
    }

    /// Converts the container into the raw address of its value without a guard.
    ///
    /// Nothing then tracks the address: the caller alone answers for bringing it back.
    pub fn pass_unguarded(self) -> (r: usize)
        ensures
            self@.passed_as(r),
    {
        self.value.pass()
    }

    /// Wraps what the value type's own reconstitution gave back: its value in a new container,
    /// or its error as a `ReconstituteError::ReconstituteError`.
    pub fn from_reconstituted(res: Result<PAS, PAS::ReconstituteError>) -> (r: Result<
        Self,
        ReconstituteError<PAS::ReconstituteError>,
    >)
        ensures
            res is Ok <==> r is Ok,
            res is Ok ==> r->Ok_0 == Self::holding(res->Ok_0) && r->Ok_0@ == res->Ok_0,
            res is Err ==> r == Err::<Self, _>(
                ReconstituteError::ReconstituteError { error: res->Err_0 },
            ),
    {
        match res {
            Ok(passable) => Ok(PassableContainer::new(passable)),
            Err(error) => Err(ReconstituteError::ReconstituteError { error }),
        }
    }
}

/// The receipt for a value that has been passed as a raw address.
///
/// It remembers the address it was stamped with, and is exchanged for a container only by
/// presenting that address to `reconstitute`. It cannot be cloned: one guard per outstanding
/// address.
///
/// Dropping a guard unexchanged is not caught here: the type has no destructor. A caller that
/// wants such a drop to end the process wraps the guard in a type of its own whose destructor
/// aborts while the guard is still held.
pub struct PassableGuard<PTR, PAS: Passable<PTR>> {
    ptr: usize,
    value: Ghost<PAS>,
    _phantom: PhantomData<PTR>,
}

impl<PTR, PAS: Passable<PTR>> PassableGuard<PTR, PAS> {
    /// The address this guard was stamped with.
    pub closed spec fn address(&self) -> usize {
        self.ptr
    }

    /// The value that left through the stamped address and has not come back yet.
    pub closed spec fn outstanding(&self) -> PAS {
        self.value@
    }

    /// The error that presenting `ptr` to this guard gives before the value type is asked to
    /// rebuild anything: a mismatch for any address but the stamped one.
    pub open spec fn address_check(&self, ptr: usize) -> Option<
        ReconstituteError<PAS::ReconstituteError>,
    > {
        if ptr == self.address() {
            None
        } else {
            Some(ReconstituteError::PointerMismatch { passed: self.address(), reconstituted: ptr })
        }
    }

    /// Holds when `r` is what the guard returns once the value type's own reconstitution gave
    /// `res`: the rebuilt value in a container, or its error carried unchanged.
    pub open spec fn wraps(
        res: Result<PAS, PAS::ReconstituteError>,
        r: Result<PassableContainer<PTR, PAS>, ReconstituteError<PAS::ReconstituteError>>,
    ) -> bool {
        &&& (res is Ok <==> r is Ok)
        &&& (res is Ok ==> r->Ok_0 == PassableContainer::<PTR, PAS>::holding(res->Ok_0)
            && r->Ok_0@ == res->Ok_0)
        &&& (res is Err ==> r == Err::<PassableContainer<PTR, PAS>, _>(
            ReconstituteError::ReconstituteError { error: res->Err_0 },
        ))
    }

    /// Exchanges this guard and the address it was stamped with for a container holding the
    /// rebuilt value.
    ///
    /// Any other address gives `PointerMismatch` naming both addresses. For the stamped one the
    /// value type rebuilds the value, and its failure comes back as `ReconstituteError`. The
    /// far side must not have freed or reshaped the memory behind the address.
    pub fn reconstitute(self, ptr: usize) -> (r: Result<
        PassableContainer<PTR, PAS>,
        ReconstituteError<PAS::ReconstituteError>,
    >)
        ensures
            self.address_check(ptr) matches Some(e) ==> r == Err::<PassableContainer<PTR, PAS>, _>(e),
            self.address_check(ptr) is None ==> exists|res: Result<PAS, PAS::ReconstituteError>|
                #[trigger] PAS::rebuilt_from(ptr, res) && Self::wraps(res, r),
    {
        if self.ptr != ptr {
            return Err(ReconstituteError::PointerMismatch { passed: self.ptr, reconstituted: ptr });
        }
        let res = PAS::reconstitute(ptr);
        let ghost rebuilt = res;
        let r = PassableContainer::from_reconstituted(res);
        assert(PAS::rebuilt_from(ptr, rebuilt) && Self::wraps(rebuilt, r));
        r
    }
}

/// Wrapping a value in a container and taking it out again gives back that same value.
pub proof fn lemma_into_inner_of_new<PTR, PAS: Passable<PTR>>(v: PAS)
    ensures
        PassableContainer::<PTR, PAS>::holding(v)@ == v,
{
}

/// When the value type rebuilds from an address exactly the value that surrendered its data
/// there, a value passed and then reconstituted with the address `pass` returned comes back
/// unchanged, in a container.
pub proof fn lemma_round_trip<PTR, PAS: Passable<PTR>>(
    v: PAS,
    guard: PassableGuard<PTR, PAS>,
    addr: usize,
    r: Result<PassableContainer<PTR, PAS>, ReconstituteError<PAS::ReconstituteError>>,
)
    requires
        forall|w: PAS, a: usize, res: Result<PAS, PAS::ReconstituteError>|
            #[trigger] w.passed_as(a) && #[trigger] PAS::rebuilt_from(a, res) ==> res == Ok::<
                PAS,
                PAS::ReconstituteError,
            >(w),
        v.passed_as(addr),
        guard.address() == addr,
        guard.outstanding() == v,
        exists|res: Result<PAS, PAS::ReconstituteError>|
            #[trigger] PAS::rebuilt_from(addr, res) && PassableGuard::wraps(res, r),
    ensures
        r is Ok,
        r->Ok_0@ == v,
        r->Ok_0 == PassableContainer::<PTR, PAS>::holding(v),
{
    let res = choose|res: Result<PAS, PAS::ReconstituteError>|
        #[trigger] PAS::rebuilt_from(addr, res) && PassableGuard::wraps(res, r);
    assert(res == Ok::<PAS, PAS::ReconstituteError>(v));
}

/// A guard stamped with `addr` lets `addr` through its address check, so reconstituting with
/// the address that `pass` returned never reports a mismatch.
pub proof fn lemma_stamped_address_accepted<PTR, PAS: Passable<PTR>>(
    guard: PassableGuard<PTR, PAS>,
    addr: usize,
)
    requires
        guard.address() == addr,
    ensures
        guard.address_check(addr) is None,
{
}

/// A guard stamped with `addr` refuses every other address `addr2` with a mismatch that names
/// `addr` as passed and `addr2` as presented.
pub proof fn lemma_other_address_mismatch<PTR, PAS: Passable<PTR>>(
    guard: PassableGuard<PTR, PAS>,
    addr: usize,
    addr2: usize,
)
    requires
        guard.address() == addr,
        addr != addr2,
    ensures
        guard.address_check(addr2) == Some(
            ReconstituteError::<PAS::ReconstituteError>::PointerMismatch {
                passed: addr,
                reconstituted: addr2,
            },
        ),
{
}

} // verus!
