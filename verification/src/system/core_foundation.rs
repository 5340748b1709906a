//! Stand-ins for the references that the system frameworks hand out.
//!
//! A reference to an opaque system object is held as its address, and a
//! reference to an object that is read (a string, a URL, an array) as an
//! `Option` of its contents, `None` standing for the null reference. The two
//! wrappers of this module are the only way from such a raw value to one that
//! the rest of the library accepts, and both refuse null.

use vstd::prelude::*;
use vstd::std_specs::convert::FromSpecImpl;

verus! {

/// Why a raw reference was refused.
#[derive(Debug, Clone, Copy, PartialEq, Eq, Structural)]
pub enum Error {
    /// The reference was null where an object was expected.
    NullPointer,
}

impl Error {
    /// The message of the error.
    pub fn to_string(&self) -> (message: String)
        ensures
            message@ == "null pointer encountered"@,
    {
        "null pointer encountered".to_owned()
    }
}

/// What this module's operations return.
pub type Result<T> = std::result::Result<T, Error>;

/// The address of an opaque system object, known not to be null.
#[derive(Clone, Copy)]
pub struct RawRef {
    address: usize,
}

impl RawRef {
    #[verifier::type_invariant]
    spec fn non_null(self) -> bool {
        self.address != 0
    }

    /// The address held.
    pub closed spec fn view(&self) -> usize {
        self.address
    }

    /// The value that holds `address`.
    pub closed spec fn at(address: usize) -> Self {
        RawRef { address }
    }

    /// Wraps an address that is known not to be null.
    pub fn new(address: usize) -> (raw: Self)
        requires
            address != 0,
        ensures
            raw == Self::at(address),
            raw@ == address,
    {
        RawRef { address }
    }

    /// Wraps `address`, unless it is null.
    pub fn try_from(address: usize) -> (wrapped: Result<Self>)
        ensures
            address != 0 ==> wrapped == Ok::<Self, Error>(Self::at(address)),
            address != 0 ==> (wrapped matches Ok(raw) && raw@ == address),
            address == 0 ==> wrapped == Err::<Self, Error>(Error::NullPointer),
    {
        if address == 0 {
            Err(Error::NullPointer)
        } else {
            Ok(RawRef::new(address))
        }
    }

}

impl From<RawRef> for usize {
    /// The address again, which is never null.
    fn from(raw: RawRef) -> (address: usize)
        ensures
            address == raw@,
            address != 0,
    {
        proof {
            use_type_invariant(raw);
        }
        raw.address
    }
}

impl FromSpecImpl<RawRef> for usize {
    open spec fn obeys_from_spec() -> bool {
        true
    }

    open spec fn from_spec(raw: RawRef) -> usize {
        raw@
    }
}

/// An object of the system that this value owns, reached through a reference
/// that was checked against null.
#[derive(Debug, Clone)]
pub struct CFRef<T> {
    object: T,
}

impl<T> CFRef<T> {
    /// The object owned.
    pub closed spec fn object(&self) -> T {
        self.object
    }

    /// The value that owns `object`.
    pub closed spec fn owning(object: T) -> Self {
        CFRef { object }
    }

    /// Takes over the object behind `raw`, unless `raw` is null.
    pub fn try_from_ref(raw: Option<T>) -> (wrapped: Result<Self>)
        ensures
            raw matches Some(object) ==> wrapped == Ok::<Self, Error>(Self::owning(object)),
            raw matches Some(object) ==> (wrapped matches Ok(owned) && owned.object() == object),
            raw is None ==> wrapped == Err::<Self, Error>(Error::NullPointer),
    {
        match raw {
            Some(object) => Ok(CFRef { object }),
            None => Err(Error::NullPointer),
        }
    }
}

impl<T> std::ops::Deref for CFRef<T> {
    type Target = T;

    fn deref(&self) -> (object: &T)
        ensures
            *object == self.object(),
    {
        &self.object
    }
}

} // verus!
