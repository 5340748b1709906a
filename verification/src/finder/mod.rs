mod display_name;
mod errors;
mod sidebar;

pub use display_name::DisplayName;
pub use errors::{FinderError, Result};
pub use sidebar::{SidebarItem, Target, TargetView};

use vstd::prelude::*;

use crate::favorites::FavoritesApi;
use crate::system::api::MacOsApi;
use crate::system::favorites::{
    empty_snapshot_lists_nothing, entries_read_stops, label_of, listed, null_url_fails,
    one_favorite_for_each_entry, target_of, Answers, FavoritesError, Favorites,
};

verus! {

/// Finder, as far as its sidebar goes.
pub struct Finder<A: MacOsApi> {
    favorites: Favorites<A>,
}

impl<A: MacOsApi> Finder<A> {
    /// Through whom Finder is reached.
    pub closed spec fn api(&self) -> A {
        self.favorites.api()
    }

    /// The Finder that is reached through `api`.
    pub fn new(api: A) -> (finder: Self)
        ensures
            finder.api() == api,
    {
        Finder { favorites: Favorites::new(api) }
    }

    /// The favorites of the sidebar, in the order in which it shows them.
    ///
    /// The outcome is what `Answers::favorites` gives for answers that the
    /// system may give: an error where the list, the snapshot or a URL is
    /// missing, and else one favorite for each entry of the snapshot.
    pub fn get_favorites_list(&self) -> (outcome: Result<Vec<SidebarItem>>)
        ensures
            exists|answers: Answers|
                answers.given_by(self.api()) && answers.favorites() == listed(outcome),
    {
        self.favorites.list_items()
    }
}

/// Where the system gives no favorites list, listing fails with
/// `NullListHandle`, and so returns no favorite.
pub proof fn listing_fails_without_a_list<A: MacOsApi>(
    finder: Finder<A>,
    outcome: Result<Vec<SidebarItem>>,
)
    requires
        call_ensures(Finder::<A>::get_favorites_list, (&finder,), outcome),
        forall|list: usize| finder.api().may_give_list(list) ==> list == 0,
    ensures
        outcome == Err::<Vec<SidebarItem>, FinderError>(
            FinderError::AccessError(FavoritesError::NullListHandle),
        ),
{
}

/// Where the system gives a list and no snapshot of it, listing fails with
/// `NullSnapshotHandle`.
pub proof fn listing_fails_without_a_snapshot<A: MacOsApi>(
    finder: Finder<A>,
    outcome: Result<Vec<SidebarItem>>,
)
    requires
        call_ensures(Finder::<A>::get_favorites_list, (&finder,), outcome),
        forall|list: usize| finder.api().may_give_list(list) ==> list != 0,
        forall|list: usize, snapshot: Option<Seq<usize>>|
            finder.api().may_give_snapshot(list, snapshot) ==> snapshot is None,
    ensures
        outcome == Err::<Vec<SidebarItem>, FinderError>(
            FinderError::AccessError(FavoritesError::NullSnapshotHandle),
        ),
{
}

/// Where the system gives a list and an empty snapshot of it, listing
/// succeeds with no favorite: an empty sidebar is no error.
pub proof fn listing_of_an_empty_snapshot<A: MacOsApi>(
    finder: Finder<A>,
    outcome: Result<Vec<SidebarItem>>,
)
    requires
        call_ensures(Finder::<A>::get_favorites_list, (&finder,), outcome),
        forall|list: usize| finder.api().may_give_list(list) ==> list != 0,
        forall|list: usize, snapshot: Option<Seq<usize>>|
            finder.api().may_give_snapshot(list, snapshot) ==> snapshot == Some(
                Seq::<usize>::empty(),
            ),
    ensures
        outcome matches Ok(items) && items@.len() == 0,
{
    let answers = choose|answers: Answers|
        answers.given_by(finder.api()) && answers.favorites() == listed(outcome);
    assert(finder.api().may_give_list(answers.list));
    assert(finder.api().may_give_snapshot(answers.list, answers.snapshot));
    empty_snapshot_lists_nothing(answers);
    assert(listed(outcome).unwrap().len() == outcome.unwrap()@.len());
}

/// Where listing succeeds on a snapshot without null entries, it returns as
/// many favorites as the snapshot has entries.
pub proof fn listing_has_one_favorite_for_each_entry<A: MacOsApi>(
    finder: Finder<A>,
    outcome: Result<Vec<SidebarItem>>,
    entries: Seq<usize>,
)
    requires
        call_ensures(Finder::<A>::get_favorites_list, (&finder,), outcome),
        forall|list: usize, snapshot: Option<Seq<usize>>|
            finder.api().may_give_snapshot(list, snapshot) ==> snapshot == Some(entries),
        !entries.contains(0),
        outcome is Ok,
    ensures
        outcome.unwrap()@.len() == entries.len(),
{
    let answers = choose|answers: Answers|
        answers.given_by(finder.api()) && answers.favorites() == listed(outcome);
    one_favorite_for_each_entry(answers);
}

/// A missing display name never fails a listing: the error is never
/// `NullDisplayNameHandle`.
pub proof fn listing_never_fails_for_a_name<A: MacOsApi>(
    finder: Finder<A>,
    outcome: Result<Vec<SidebarItem>>,
)
    requires
        call_ensures(Finder::<A>::get_favorites_list, (&finder,), outcome),
    ensures
        outcome != Err::<Vec<SidebarItem>, FinderError>(
            FinderError::AccessError(FavoritesError::NullDisplayNameHandle),
        ),
{
}

/// Where an entry of a snapshot without null entries has no URL, listing
/// fails with `NullUrlHandle`: no favorite is left out in silence.
pub proof fn listing_fails_without_a_url<A: MacOsApi>(
    finder: Finder<A>,
    outcome: Result<Vec<SidebarItem>>,
    entries: Seq<usize>,
    place: int,
)
    requires
        call_ensures(Finder::<A>::get_favorites_list, (&finder,), outcome),
        forall|list: usize| finder.api().may_give_list(list) ==> list != 0,
        forall|list: usize, snapshot: Option<Seq<usize>>|
            finder.api().may_give_snapshot(list, snapshot) ==> snapshot == Some(entries),
        !entries.contains(0),
        0 <= place < entries.len(),
        forall|url: Option<Seq<char>>|
            finder.api().may_give_resolved_url(entries[place], url) ==> url is None,
    ensures
        outcome == Err::<Vec<SidebarItem>, FinderError>(
            FinderError::AccessError(FavoritesError::NullUrlHandle),
        ),
{
    let answers = choose|answers: Answers|
        answers.given_by(finder.api()) && answers.favorites() == listed(outcome);
    assert forall|i: int| 0 <= i < entries.len() implies entries[i] != 0 by {
        if entries[i] == 0 {
            assert(entries.contains(0));
        }
    }
    entries_read_stops(entries, entries.len() as int);
    if answers.asked(place) {
        assert(finder.api().may_give_display_name(entries[place], answers.names[place]));
        null_url_fails(answers, place);
    } else {
        let before = choose|before: int| 0 <= before < place && !(answers.urls[before] is Some);
        null_url_fails(answers, before);
    }
}

/// Where the system gives a list, a snapshot without null entries, and for
/// each entry one display name and one URL, listing succeeds with the
/// favorite of each entry, in the order of the snapshot.
pub proof fn listing_of_a_known_system<A: MacOsApi>(
    finder: Finder<A>,
    outcome: Result<Vec<SidebarItem>>,
    entries: Seq<usize>,
    names: Seq<Option<Seq<char>>>,
    urls: Seq<Seq<char>>,
)
    requires
        call_ensures(Finder::<A>::get_favorites_list, (&finder,), outcome),
        forall|list: usize| finder.api().may_give_list(list) ==> list != 0,
        forall|list: usize, snapshot: Option<Seq<usize>>|
            finder.api().may_give_snapshot(list, snapshot) ==> snapshot == Some(entries),
        !entries.contains(0),
        names.len() == entries.len(),
        urls.len() == entries.len(),
        forall|place: int, name: Option<Seq<char>>|
            0 <= place < entries.len() && finder.api().may_give_display_name(
                entries[place],
                name,
            ) ==> name == names[place],
        forall|place: int, url: Option<Seq<char>>|
            0 <= place < entries.len() && finder.api().may_give_resolved_url(
                entries[place],
                url,
            ) ==> url == Some(urls[place]),
    ensures
        listed(outcome) == Ok::<Seq<TargetView>, FinderError>(
            Seq::new(entries.len(), |place: int| target_of(urls[place], label_of(names[place]))),
        ),
{
    let answers = choose|answers: Answers|
        answers.given_by(finder.api()) && answers.favorites() == listed(outcome);
    assert forall|i: int| 0 <= i < entries.len() implies entries[i] != 0 by {
        if entries[i] == 0 {
            assert(entries.contains(0));
        }
    }
    entries_read_stops(entries, entries.len() as int);
    assert(finder.api().may_give_list(answers.list));
    assert(finder.api().may_give_snapshot(answers.list, answers.snapshot));
    assert forall|place: int| 0 <= place < entries.len() implies (#[trigger] answers.urls[place])
        == Some(urls[place]) && answers.names[place] == names[place] by {
        known_answers(finder, answers, entries, names, urls, place);
    }
    assert(answers.count() == entries.len());
    assert(answers.favorites() is Ok);
    assert(answers.favorites().unwrap() =~= Seq::new(
        entries.len(),
        |place: int| target_of(urls[place], label_of(names[place])),
    ));
}

/// Of a system that is known as in `listing_of_a_known_system`, every entry
/// up to `place` is asked about, and the answers are the known ones.
proof fn known_answers<A: MacOsApi>(
    finder: Finder<A>,
    answers: Answers,
    entries: Seq<usize>,
    names: Seq<Option<Seq<char>>>,
    urls: Seq<Seq<char>>,
    place: int,
)
    requires
        answers.given_by(finder.api()),
        answers.list != 0,
        answers.snapshot == Some(entries),
        answers.count() == entries.len(),
        names.len() == entries.len(),
        urls.len() == entries.len(),
        0 <= place < entries.len(),
        forall|place: int, name: Option<Seq<char>>|
            0 <= place < entries.len() && finder.api().may_give_display_name(
                entries[place],
                name,
            ) ==> name == names[place],
        forall|place: int, url: Option<Seq<char>>|
            0 <= place < entries.len() && finder.api().may_give_resolved_url(
                entries[place],
                url,
            ) ==> url == Some(urls[place]),
    ensures
        answers.asked(place),
        answers.urls[place] == Some(urls[place]),
        answers.names[place] == names[place],
    decreases place,
{
    assert forall|before: int| 0 <= before < place implies (#[trigger] answers.urls[before])
        is Some by {
        known_answers(finder, answers, entries, names, urls, before);
    }
    assert(finder.api().may_give_display_name(entries[place], answers.names[place]));
}

} // verus!
