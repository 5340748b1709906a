use vstd::prelude::*;
use vstd::std_specs::convert::TryFromSpecImpl;

use crate::system::core_foundation::RawRef;
use crate::system::favorites::errors::{FavoritesError, Result};

verus! {

/// The favorites list of the sidebar, as the system handed it out.
pub struct FavoritesHandle(RawRef);

impl View for FavoritesHandle {
    type V = usize;

    /// The address of the list.
    closed spec fn view(&self) -> usize {
        self.0@
    }
}

impl TryFrom<usize> for FavoritesHandle {
    type Error = FavoritesError;

    /// Accepts the address of a list, and refuses null with `NullListHandle`.
    fn try_from(ptr: usize) -> (handle: Result<Self>)
        ensures
            ptr != 0 ==> (handle matches Ok(list) && list@ == ptr),
            ptr == 0 ==> handle == Err::<Self, FavoritesError>(FavoritesError::NullListHandle),
    {
        match RawRef::try_from(ptr) {
            Ok(raw) => Ok(FavoritesHandle(raw)),
            Err(_) => Err(FavoritesError::NullListHandle),
        }
    }
}

impl TryFromSpecImpl<usize> for FavoritesHandle {
    open spec fn obeys_try_from_spec() -> bool {
        true
    }

    closed spec fn try_from_spec(ptr: usize) -> Result<Self> {
        if ptr == 0 {
            Err(FavoritesError::NullListHandle)
        } else {
            Ok(FavoritesHandle(RawRef::at(ptr)))
        }
    }
}

impl From<FavoritesHandle> for usize {
    /// The address of the list, which is never null.
    fn from(handle: FavoritesHandle) -> (ptr: usize)
        ensures
            ptr == handle@,
            ptr != 0,
    {
        usize::from(handle.0)
    }
}

impl vstd::std_specs::convert::FromSpecImpl<FavoritesHandle> for usize {
    open spec fn obeys_from_spec() -> bool {
        true
    }

    open spec fn from_spec(handle: FavoritesHandle) -> usize {
        handle@
    }
}

} // verus!
