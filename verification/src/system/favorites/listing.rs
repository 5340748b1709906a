//! What a listing of the favorites returns, told from the answers of the
//! system.

use vstd::prelude::*;

use crate::finder::{FinderError, TargetView};
use crate::system::api::MacOsApi;
use crate::system::favorites::errors::FavoritesError;
use crate::system::favorites::item::target_of;

verus! {

/// The answers of the system in the course of one listing.
pub struct Answers {
    /// The address of the favorites list; 0 where the system gave none.
    pub list: usize,
    /// The addresses of the entries of the snapshot, where the system gave
    /// one.
    pub snapshot: Option<Seq<usize>>,
    /// For each entry that is read, in order, its display name, where the
    /// system gave one.
    pub names: Seq<Option<Seq<char>>>,
    /// For each entry that is read, in order, its URL, where the system gave
    /// one.
    pub urls: Seq<Option<Seq<char>>>,
}

/// How many entries of a snapshot are read: those before the first null
/// address.
pub open spec fn entries_read(entries: Seq<usize>) -> nat
    decreases entries.len(),
{
    if entries.len() == 0 || entries[0] == 0 {
        0
    } else {
        1 + entries_read(entries.drop_first())
    }
}

/// The label that a display name gives: none where the name is missing or
/// empty.
pub open spec fn label_of(name: Option<Seq<char>>) -> Option<Seq<char>> {
    match name {
        Some(text) => if text.len() > 0 {
            Some(text)
        } else {
            None
        },
        None => None,
    }
}

/// The favorite that one entry gives: a missing URL is an error, a missing
/// name is not.
pub open spec fn favorite_of(name: Option<Seq<char>>, url: Option<Seq<char>>) -> Result<
    TargetView,
    FinderError,
> {
    match url {
        Some(address) => Ok(target_of(address, label_of(name))),
        None => Err(FinderError::AccessError(FavoritesError::NullUrlHandle)),
    }
}

impl Answers {
    /// How many entries are read.
    pub open spec fn count(self) -> nat {
        match self.snapshot {
            Some(entries) => entries_read(entries),
            None => 0,
        }
    }

    /// There is one name and one URL for each entry that is read.
    pub open spec fn well_formed(self) -> bool {
        self.names.len() == self.count() && self.urls.len() == self.count()
    }

    /// Whether the system is asked about the entry at `place`: it is, unless
    /// the URL of an entry before it is missing.
    pub open spec fn asked(self, place: int) -> bool {
        forall|before: int| 0 <= before < place ==> (#[trigger] self.urls[before]) is Some
    }

    /// Whether these are answers that `api` may give: the list, for a list
    /// the snapshot, and for each entry that it is asked about the display
    /// name and the URL.
    pub open spec fn given_by<A: MacOsApi>(self, api: A) -> bool {
        &&& self.well_formed()
        &&& api.may_give_list(self.list)
        &&& self.list != 0 ==> api.may_give_snapshot(self.list, self.snapshot)
        &&& self.list != 0 ==> forall|place: int|
            0 <= place < self.count() && self.asked(place) ==> {
                &&& #[trigger] api.may_give_display_name(
                    self.snapshot.unwrap()[place],
                    self.names[place],
                )
                &&& api.may_give_resolved_url(self.snapshot.unwrap()[place], self.urls[place])
            }
    }

    /// What the listing returns: the first of a missing list, a missing
    /// snapshot and a missing URL is the error; without any of them there is
    /// one favorite for each entry that is read, in the order of the snapshot.
    pub open spec fn favorites(self) -> Result<Seq<TargetView>, FinderError> {
        if self.list == 0 {
            Err(FinderError::AccessError(FavoritesError::NullListHandle))
        } else if self.snapshot is None {
            Err(FinderError::AccessError(FavoritesError::NullSnapshotHandle))
        } else if exists|i: int| 0 <= i < self.count() && self.urls[i] is None {
            Err(FinderError::AccessError(FavoritesError::NullUrlHandle))
        } else {
            Ok(
                Seq::new(
                    self.count(),
                    |i: int| target_of(self.urls[i].unwrap(), label_of(self.names[i])),
                ),
            )
        }
    }
}

/// As long as no address is null, every entry counts as read.
pub proof fn entries_read_at_least(entries: Seq<usize>, upto: int)
    requires
        0 <= upto <= entries.len(),
        forall|i: int| 0 <= i < upto ==> entries[i] != 0,
    ensures
        entries_read(entries) >= upto,
    decreases upto,
{
    if upto > 0 {
        let rest = entries.drop_first();
        assert forall|i: int| 0 <= i < upto - 1 implies rest[i] != 0 by {
            assert(rest[i] == entries[i + 1]);
        }
        entries_read_at_least(rest, upto - 1);
    }
}

/// Reading stops at the first null address, or at the end of the snapshot.
pub proof fn entries_read_stops(entries: Seq<usize>, at: int)
    requires
        0 <= at <= entries.len(),
        forall|i: int| 0 <= i < at ==> entries[i] != 0,
        at == entries.len() || entries[at] == 0,
    ensures
        entries_read(entries) == at,
    decreases at,
{
    if at > 0 {
        let rest = entries.drop_first();
        assert forall|i: int| 0 <= i < at - 1 implies rest[i] != 0 by {
            assert(rest[i] == entries[i + 1]);
        }
        assert(at - 1 == rest.len() || rest[at - 1] == 0);
        entries_read_stops(rest, at - 1);
    }
}

/// A listing that succeeds on a snapshot without null addresses returns as
/// many favorites as the snapshot has entries.
pub proof fn one_favorite_for_each_entry(answers: Answers)
    requires
        answers.well_formed(),
        answers.snapshot matches Some(entries) && !entries.contains(0),
        answers.favorites() is Ok,
    ensures
        answers.favorites().unwrap().len() == answers.snapshot.unwrap().len(),
{
    let entries = answers.snapshot.unwrap();
    assert forall|i: int| 0 <= i < entries.len() implies entries[i] != 0 by {
        if entries[i] == 0 {
            assert(entries.contains(0));
        }
    }
    entries_read_stops(entries, entries.len() as int);
}

/// An empty snapshot is no error: the listing succeeds with no favorite.
pub proof fn empty_snapshot_lists_nothing(answers: Answers)
    requires
        answers.list != 0,
        answers.snapshot == Some(Seq::<usize>::empty()),
    ensures
        answers.favorites() == Ok::<Seq<TargetView>, FinderError>(Seq::empty()),
{
    assert(answers.count() == 0);
    assert(answers.favorites().unwrap() =~= Seq::empty());
}

/// A missing URL fails the whole listing with `NullUrlHandle`: no favorite is
/// left out in silence.
pub proof fn null_url_fails(answers: Answers, place: int)
    requires
        answers.list != 0,
        answers.snapshot is Some,
        0 <= place < answers.count(),
        answers.urls[place] is None,
    ensures
        answers.favorites() == Err::<Seq<TargetView>, FinderError>(
            FinderError::AccessError(FavoritesError::NullUrlHandle),
        ),
{
}

} // verus!
