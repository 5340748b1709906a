use vstd::prelude::*;
use vstd::std_specs::convert::{FromSpecImpl, TryFromSpecImpl};

use crate::system::core_foundation::RawRef;
use crate::system::favorites::errors::{FavoritesError, Result};

verus! {

/// One entry of a snapshot: a favorite, as the system handed it out.
#[derive(Clone)]
pub struct SnapshotItem(RawRef);

impl View for SnapshotItem {
    type V = usize;

    /// The address of the entry.
    closed spec fn view(&self) -> usize {
        self.0@
    }
}

impl From<RawRef> for SnapshotItem {
    /// The entry at an address that is known not to be null.
    fn from(ptr: RawRef) -> (item: Self)
        ensures
            item@ == ptr@,
    {
        SnapshotItem(ptr)
    }
}

impl FromSpecImpl<RawRef> for SnapshotItem {
    open spec fn obeys_from_spec() -> bool {
        true
    }

    closed spec fn from_spec(ptr: RawRef) -> Self {
        SnapshotItem(ptr)
    }
}

impl TryFrom<usize> for SnapshotItem {
    type Error = FavoritesError;

    /// Accepts the address of an entry, and refuses null with `NullListHandle`.
    fn try_from(ptr: usize) -> (item: Result<Self>)
        ensures
            ptr != 0 ==> (item matches Ok(entry) && entry@ == ptr),
            ptr == 0 ==> item == Err::<Self, FavoritesError>(FavoritesError::NullListHandle),
    {
        match RawRef::try_from(ptr) {
            Ok(raw) => Ok(SnapshotItem(raw)),
            Err(_) => Err(FavoritesError::NullListHandle),
        }
    }
}

impl TryFromSpecImpl<usize> for SnapshotItem {
    open spec fn obeys_try_from_spec() -> bool {
        true
    }

    closed spec fn try_from_spec(ptr: usize) -> Result<Self> {
        if ptr == 0 {
            Err(FavoritesError::NullListHandle)
        } else {
            Ok(SnapshotItem(RawRef::at(ptr)))
        }
    }
}

impl From<&SnapshotItem> for usize {
    /// The address of the entry, which is never null.
    fn from(item: &SnapshotItem) -> (ptr: usize)
        ensures
            ptr == item@,
            ptr != 0,
    {
        usize::from(item.0)
    }
}

impl FromSpecImpl<&SnapshotItem> for usize {
    open spec fn obeys_from_spec() -> bool {
        true
    }

    open spec fn from_spec(item: &SnapshotItem) -> usize {
        item@
    }
}

} // verus!
