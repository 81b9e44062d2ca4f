use passable_guard::{Passable, PassableContainer, ReconstituteError};

/// A value that is already an address-sized handle: it passes as its own number, and the
/// handle 0 cannot be rebuilt.
#[derive(Debug, PartialEq, Eq)]
struct Handle(usize);

impl Passable<u8> for Handle {
    type ReconstituteError = &'static str;

    fn passed_as(self, addr: usize) -> bool {
        self.0 == addr
    }

    fn rebuilt_from(ptr: usize, r: Result<Self, Self::ReconstituteError>) -> bool {
        match r {
            Ok(h) => ptr != 0 && h.0 == ptr,
            Err(_) => ptr == 0,
        }
    }

    fn pass(self) -> usize {
        self.0
    }

    fn reconstitute(ptr: usize) -> Result<Self, Self::ReconstituteError> {
        if ptr == 0 {
            Err("null handle")
        } else {
            Ok(Handle(ptr))
        }
    }
}

#[test]
fn into_inner_returns_the_wrapped_value() {
    let container = PassableContainer::<u8, Handle>::new(Handle(42));
    assert_eq!(container.into_inner(), Handle(42));
}

#[test]
fn pass_then_reconstitute_with_same_address_round_trips() {
    let container = PassableContainer::<u8, Handle>::new(Handle(0x1000));
    let (guard, addr) = container.pass();
    assert_eq!(addr, 0x1000);
    match guard.reconstitute(addr) {
        Ok(back) => assert_eq!(back.into_inner(), Handle(0x1000)),
        Err(e) => panic!("round trip failed: {:?}", e),
    }
}

#[test]
fn reconstitute_with_other_address_is_mismatch() {
    let container = PassableContainer::<u8, Handle>::new(Handle(0x2000));
    let (guard, addr) = container.pass();
    let other = addr + 8;
    match guard.reconstitute(other) {
        Ok(_) => panic!("a foreign address was accepted"),
        Err(e) => assert_eq!(
            e,
            ReconstituteError::PointerMismatch { passed: 0x2000, reconstituted: 0x2008 }
        ),
    }
}

#[test]
fn mismatch_is_reported_even_when_the_type_would_fail() {
    let container = PassableContainer::<u8, Handle>::new(Handle(7));
    let (guard, _addr) = container.pass();
    match guard.reconstitute(0) {
        Ok(_) => panic!("a foreign address was accepted"),
        Err(e) => {
            assert_eq!(e, ReconstituteError::PointerMismatch { passed: 7, reconstituted: 0 })
        }
    }
}

#[test]
fn type_level_failure_is_wrapped() {
    let container = PassableContainer::<u8, Handle>::new(Handle(0));
    let (guard, addr) = container.pass();
    assert_eq!(addr, 0);
    match guard.reconstitute(addr) {
        Ok(_) => panic!("the null handle was rebuilt"),
        Err(e) => assert_eq!(e, ReconstituteError::ReconstituteError { error: "null handle" }),
    }
}

#[test]
fn from_reconstituted_wraps_value() {
    match PassableContainer::<u8, Handle>::from_reconstituted(Ok(Handle(5))) {
        Ok(c) => assert_eq!(c.into_inner(), Handle(5)),
        Err(e) => panic!("value was not wrapped: {:?}", e),
    }
}

#[test]
fn from_reconstituted_wraps_error() {
    match PassableContainer::<u8, Handle>::from_reconstituted(Err("bad shape")) {
        Ok(_) => panic!("an error became a value"),
        Err(e) => assert_eq!(e, ReconstituteError::ReconstituteError { error: "bad shape" }),
    }
}

#[test]
fn pass_unguarded_yields_only_the_address() {
    let container = PassableContainer::<u8, Handle>::new(Handle(0x3000));
    let addr: usize = container.pass_unguarded();
    assert_eq!(addr, 0x3000);
    let back = Handle::reconstitute(addr).expect("handle rebuilds");
    assert_eq!(back, Handle(0x3000));
}
