use vstd::prelude::*;
use vstd::std_specs::convert::{FromSpecImpl, TryFromSpecImpl};

use super::snapshot_item::SnapshotItem;
use crate::system::core_foundation::{CFRef, RawRef};
use crate::system::favorites::errors::{FavoritesError, Result};

verus! {

/// The favorites at one moment: the addresses of the entries, in the order in
/// which the sidebar shows them.
#[derive(Debug)]
pub struct Snapshot(CFRef<Vec<usize>>);

impl View for Snapshot {
    type V = Seq<usize>;

    /// The addresses of the entries, first entry first.
    closed spec fn view(&self) -> Seq<usize> {
        self.0.object()@
    }
}

impl TryFrom<Option<Vec<usize>>> for Snapshot {
    type Error = FavoritesError;

    /// Takes over the array behind `array_ref`, and refuses the null reference
    /// with `NullSnapshotHandle`.
    fn try_from(array_ref: Option<Vec<usize>>) -> (snapshot: Result<Self>)
        ensures
            array_ref matches Some(entries) ==> (snapshot matches Ok(wrapped) && wrapped@
                == entries@),
            array_ref is None ==> snapshot == Err::<Self, FavoritesError>(
                FavoritesError::NullSnapshotHandle,
            ),
    {
        match CFRef::try_from_ref(array_ref) {
            Ok(owned) => Ok(Snapshot(owned)),
            Err(_) => Err(FavoritesError::NullSnapshotHandle),
        }
    }
}

impl TryFromSpecImpl<Option<Vec<usize>>> for Snapshot {
    open spec fn obeys_try_from_spec() -> bool {
        true
    }

    closed spec fn try_from_spec(array_ref: Option<Vec<usize>>) -> Result<Self> {
        match array_ref {
            Some(entries) => Ok(Snapshot(CFRef::owning(entries))),
            None => Err(FavoritesError::NullSnapshotHandle),
        }
    }
}

impl From<&Snapshot> for Option<Vec<usize>> {
    /// A reference to the array of the snapshot, which is never null.
    fn from(snapshot: &Snapshot) -> (array_ref: Option<Vec<usize>>)
        ensures
            array_ref matches Some(entries) && entries@ == snapshot@,
    {
        let entries: &Vec<usize> = &snapshot.0;
        Some(entries.clone())
    }
}

impl FromSpecImpl<&Snapshot> for Option<Vec<usize>> {
    /// The array handed out is a copy, equal to the snapshot's by its view
    /// only: `from` states that itself.
    open spec fn obeys_from_spec() -> bool {
        false
    }

    open spec fn from_spec(snapshot: &Snapshot) -> Option<Vec<usize>> {
        arbitrary()
    }
}

impl std::ops::Deref for Snapshot {
    type Target = Vec<usize>;

    fn deref(&self) -> (entries: &Vec<usize>)
        ensures
            entries@ == self@,
    {
        &self.0
    }
}

impl Snapshot {
    /// Hands the entries out one by one, first entry first.
    pub fn into_iter(self) -> (iter: SnapshotIterator)
        ensures
            iter@ == self@,
    {
        SnapshotIterator::new(self)
    }
}

/// The entries of a snapshot that are still to come.
pub struct SnapshotIterator {
    values: Vec<usize>,
}

impl View for SnapshotIterator {
    type V = Seq<usize>;

    /// The addresses that are still to come, next one first.
    closed spec fn view(&self) -> Seq<usize> {
        self.values@.reverse()
    }
}

impl SnapshotIterator {
    fn new(snapshot: Snapshot) -> (iter: Self)
        ensures
            iter@ == snapshot@,
    {
        let entries: &Vec<usize> = &snapshot;
        let mut values: Vec<usize> = Vec::new();
        let mut left: usize = entries.len();
        while left > 0
            invariant
                left <= entries.len(),
                values@ == entries@.subrange(left as int, entries.len() as int).reverse(),
            decreases left,
        {
            left = left - 1;
            values.push(entries[left]);
        }
        assert(entries@.subrange(0, entries.len() as int) == entries@);
        assert(values@.reverse() == entries@);
        SnapshotIterator { values }
    }

    /// The next entry, if there is one and its address is not null. The
    /// address is used up either way.
    pub fn next(&mut self) -> (item: Option<SnapshotItem>)
        ensures
            old(self)@.len() == 0 ==> item is None && final(self)@ == old(self)@,
            old(self)@.len() > 0 ==> final(self)@ == old(self)@.drop_first(),
            old(self)@.len() > 0 && old(self)@[0] != 0 ==> (item matches Some(entry) && entry@
                == old(self)@[0]),
            old(self)@.len() > 0 && old(self)@[0] == 0 ==> item is None,
    {
        match self.values.pop() {
            Some(ptr) => {
                assert(final(self)@ == old(self)@.drop_first());
                if ptr == 0 {
                    None
                } else {
                    Some(SnapshotItem::from(RawRef::new(ptr)))
                }
            },
            None => None,
        }
    }

    /// How many addresses are still to come, as the least and the most.
    pub fn size_hint(&self) -> (bounds: (usize, Option<usize>))
        ensures
            bounds.0 == self@.len(),
            bounds.1 == Some(bounds.0),
    {
        let len = self.values.len();
        (len, Some(len))
    }
}

} // verus!
