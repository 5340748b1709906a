mod display_name;
mod errors;
mod handle;
mod item;
mod listing;
mod snapshot;
mod snapshot_item;
mod url;
mod url_mapper;

use vstd::prelude::*;

pub use display_name::DisplayName;
pub use errors::FavoritesError;
pub use handle::FavoritesHandle;
pub use item::{
    airdrop_url, airdrop_whatever_the_label, applications_url, classify,
    classify_is_deterministic, cleaned_path, is_user_folder_url, recents_url, target_of,
    url_kind, user_folder_url_shape, without_file_scheme, without_trailing_slash, FavoriteItem,
    MacOsUrl, UrlKind,
};
pub use listing::{
    empty_snapshot_lists_nothing, entries_read, entries_read_at_least, entries_read_stops,
    favorite_of, label_of, null_url_fails, one_favorite_for_each_entry, Answers,
};
pub use snapshot::{Snapshot, SnapshotIterator};
pub use snapshot_item::SnapshotItem;
pub use url::Url;
pub use url_mapper::TargetUrl;

use crate::favorites::FavoritesApi;
use crate::finder::{FinderError, Result, SidebarItem, TargetView};
use crate::system::api::MacOsApi;

verus! {

/// The text of a display name that was read, where there is one.
pub open spec fn name_read(name: errors::Result<DisplayName>) -> Option<Seq<char>> {
    match name {
        Ok(text) => Some(text@),
        Err(_) => None,
    }
}

/// The text of a URL that was read, where there is one.
pub open spec fn url_read(url: errors::Result<Url>) -> Option<Seq<char>> {
    match url {
        Ok(address) => Some(address@),
        Err(_) => None,
    }
}

/// What a listing returned, with each favorite as a mathematical value.
pub open spec fn listed(outcome: Result<Vec<SidebarItem>>) -> std::result::Result<
    Seq<TargetView>,
    FinderError,
> {
    match outcome {
        Ok(items) => Ok(items@.map_values(|item: SidebarItem| item@)),
        Err(error) => Err(error),
    }
}

/// The favorite that one entry gives, from what was read of it. An error of
/// the URL is the outcome. The display name is the label of a custom target,
/// unless reading it failed or it is empty.
pub fn favorite_from(name: errors::Result<DisplayName>, url: errors::Result<Url>) -> (favorite:
    Result<SidebarItem>)
    ensures
        url matches Err(cause) ==> favorite == Err::<SidebarItem, FinderError>(
            FinderError::AccessError(cause),
        ),
        url matches Ok(address) ==> (favorite matches Ok(item) && item@ == target_of(
            address@,
            label_of(name_read(name)),
        )),
{
    let label: Option<String> = match name {
        Ok(text) => {
            let text = text.to_string();
            if text.as_str().is_empty() {
                None
            } else {
                Some(text)
            }
        },
        Err(_) => None,
    };
    let address = match url {
        Ok(address) => address.to_string(),
        Err(cause) => {
            return Err(FinderError::from(cause));
        },
    };
    let target = match &label {
        Some(text) => classify(address.as_str(), Some(text.as_str())),
        None => classify(address.as_str(), None),
    };
    Ok(SidebarItem::new(target))
}

/// The favorites of the sidebar, read through the questions of a `MacOsApi`.
pub struct Favorites<A: MacOsApi> {
    api: A,
}

impl<A: MacOsApi> Favorites<A> {
    /// Whom the reader asks.
    pub closed spec fn api(&self) -> A {
        self.api
    }

    /// The reader that asks `api`.
    pub fn new(api: A) -> (favorites: Self)
        ensures
            favorites.api() == api,
    {
        Favorites { api }
    }

    /// Asks for the favorites list, and refuses a null answer with
    /// `NullListHandle`.
    fn list_create(&self) -> (list: errors::Result<FavoritesHandle>)
        ensures
            list matches Ok(handle) ==> handle@ != 0 && self.api().may_give_list(handle@),
            list matches Err(cause) ==> cause == FavoritesError::NullListHandle
                && self.api().may_give_list(0),
    {
        let ptr = self.api.ls_shared_file_list_create();
        FavoritesHandle::try_from(ptr)
    }

    /// Asks for a snapshot of `list`, drops the seed that comes with it, and
    /// refuses a null answer with `NullSnapshotHandle`.
    fn copy_snapshot(&self, list: FavoritesHandle) -> (snapshot: errors::Result<Snapshot>)
        ensures
            snapshot matches Ok(entries) ==> self.api().may_give_snapshot(list@, Some(entries@)),
            snapshot matches Err(cause) ==> cause == FavoritesError::NullSnapshotHandle
                && self.api().may_give_snapshot(list@, None),
    {
        let mut seed: u32 = 0;
        let array_ref = self.api.ls_shared_file_list_copy_snapshot(list.into(), &mut seed);
        Snapshot::try_from(array_ref)
    }

    /// Asks for the display name of `item`, and refuses a null answer with
    /// `NullDisplayNameHandle`.
    fn copy_display_name(&self, item: &SnapshotItem) -> (name: errors::Result<DisplayName>)
        ensures
            name matches Err(cause) ==> cause == FavoritesError::NullDisplayNameHandle,
            self.api().may_give_display_name(item@, name_read(name)),
    {
        let name_ref = self.api.ls_shared_file_list_item_copy_display_name(item.into());
        DisplayName::try_from(name_ref)
    }

    /// Asks for the URL of `item`, resolved with no flag set, and refuses a
    /// null answer with `NullUrlHandle`.
    fn copy_resolved_url(&self, item: &SnapshotItem) -> (url: errors::Result<Url>)
        ensures
            url matches Err(cause) ==> cause == FavoritesError::NullUrlHandle,
            self.api().may_give_resolved_url(item@, url_read(url)),
    {
        let url_ref = self.api.ls_shared_file_list_item_copy_resolved_url(item.into(), 0);
        Url::try_from(url_ref)
    }

    /// Whether `favorite` is what the entry at `item` gives, for a display
    /// name and a URL that the system may give for it.
    pub open spec fn converts(&self, item: usize, favorite: Result<SidebarItem>) -> bool {
        exists|name: Option<Seq<char>>, url: Option<Seq<char>>|
            self.answered(item, name, url, favorite)
    }

    /// Whether `name` and `url` are answers that the system may give for the
    /// entry at `item`, and `favorite` is what they give.
    pub open spec fn answered(
        &self,
        item: usize,
        name: Option<Seq<char>>,
        url: Option<Seq<char>>,
        favorite: Result<SidebarItem>,
    ) -> bool {
        &&& self.api().may_give_display_name(item, name)
        &&& self.api().may_give_resolved_url(item, url)
        &&& favorite_of(name, url) == match favorite {
            Ok(item) => Ok::<TargetView, FinderError>(item@),
            Err(error) => Err(error),
        }
    }

    /// Asks for the display name of `item`, then for its URL, and makes the
    /// favorite of the two answers.
    fn convert_item(&self, item: SnapshotItem) -> (favorite: Result<SidebarItem>)
        ensures
            self.converts(item@, favorite),
    {
        let name = self.copy_display_name(&item);
        let url = self.copy_resolved_url(&item);
        let ghost name_seen = name_read(name);
        let ghost url_seen = url_read(url);
        let favorite = favorite_from(name, url);
        assert(self.answered(item@, name_seen, url_seen, favorite));
        favorite
    }
}

impl<A: MacOsApi> FavoritesApi for Favorites<A> {
    /// Asks for the list, then for its snapshot, then for the display name
    /// and the URL of each entry in turn, up to the first null entry. The
    /// first answer that makes an error ends the listing, and no question is
    /// asked after it.
    ///
    /// The outcome is what `Answers::favorites` gives for answers that the
    /// system may give. So the only errors are `NullListHandle`,
    /// `NullSnapshotHandle` and `NullUrlHandle`.
    fn list_items(&self) -> (outcome: Result<Vec<SidebarItem>>)
        ensures
            exists|answers: Answers|
                answers.given_by(self.api()) && answers.favorites() == listed(outcome),
    {
        let list = match self.list_create() {
            Ok(list) => list,
            Err(cause) => {
                let outcome = Err(FinderError::from(cause));
                proof {
                    let answers = Answers {
                        list: 0,
                        snapshot: None,
                        names: Seq::empty(),
                        urls: Seq::empty(),
                    };
                    assert(answers.given_by(self.api()) && answers.favorites() == listed(outcome));
                }
                return outcome;
            },
        };
        let ghost address = list@;
        let snapshot = match self.copy_snapshot(list) {
            Ok(snapshot) => snapshot,
            Err(cause) => {
                let outcome = Err(FinderError::from(cause));
                proof {
                    let answers = Answers {
                        list: address,
                        snapshot: None,
                        names: Seq::empty(),
                        urls: Seq::empty(),
                    };
                    assert(answers.given_by(self.api()) && answers.favorites() == listed(outcome));
                }
                return outcome;
            },
        };
        let ghost entries = snapshot@;
        let ghost mut names: Seq<Option<Seq<char>>> = Seq::empty();
        let ghost mut urls: Seq<Option<Seq<char>>> = Seq::empty();
        let mut iter = snapshot.into_iter();
        let mut items: Vec<SidebarItem> = Vec::new();
        loop
            invariant_except_break
                iter@ == entries.skip(items.len() as int),
            invariant
                address != 0,
                self.api().may_give_list(address),
                self.api().may_give_snapshot(address, Some(entries)),
                items.len() <= entries.len(),
                names.len() == items.len(),
                urls.len() == items.len(),
                forall|i: int| 0 <= i < items.len() ==> entries[i] != 0,
                forall|i: int|
                    0 <= i < items.len() ==> {
                        &&& (#[trigger] urls[i]) is Some
                        &&& items[i]@ == target_of(urls[i].unwrap(), label_of(names[i]))
                        &&& self.api().may_give_display_name(entries[i], names[i])
                        &&& self.api().may_give_resolved_url(entries[i], urls[i])
                    },
            ensures
                items.len() == entries.len() || entries[items.len() as int] == 0,
            decreases iter@.len(),
        {
            let item = match iter.next() {
                Some(item) => item,
                None => {
                    break ;
                },
            };
            let ghost place = items.len() as int;
            assert(item@ == entries[place]);
            match self.convert_item(item) {
                Ok(favorite) => {
                    proof {
                        let (name, url) = choose|name: Option<Seq<char>>, url: Option<Seq<char>>|
                            self.answered(entries[place], name, url, Ok(favorite));
                        names = names.push(name);
                        urls = urls.push(url);
                    }
                    items.push(favorite);
                },
                Err(error) => {
                    let outcome = Err(error);
                    proof {
                        let (name, url) = choose|name: Option<Seq<char>>, url: Option<Seq<char>>|
                            self.answered(entries[place], name, url, Err(error));
                        entries_read_at_least(entries, place + 1);
                        let missing = (entries_read(entries) - place - 1) as nat;
                        let answers = Answers {
                            list: address,
                            snapshot: Some(entries),
                            names: names.push(name) + Seq::new(missing, |i: int| None),
                            urls: urls.push(url) + Seq::new(missing, |i: int| None),
                        };
                        assert(answers.well_formed());
                        assert(answers.urls[place] is None);
                        assert forall|at: int|
                            0 <= at < answers.count() && answers.asked(at) implies {
                            &&& #[trigger] self.api().may_give_display_name(
                                entries[at],
                                answers.names[at],
                            )
                            &&& self.api().may_give_resolved_url(entries[at], answers.urls[at])
                        } by {
                            if at > place {
                                assert(answers.urls[place] is Some);
                            } else if at < place {
                                assert(answers.names[at] == names[at]);
                                assert(answers.urls[at] == urls[at]);
                            }
                        }
                        null_url_fails(answers, place);
                        assert(answers.given_by(self.api()));
                        assert(answers.favorites() == listed(outcome));
                    }
                    return outcome;
                },
            }
        }
        let outcome = Ok(items);
        proof {
            let shown = outcome.unwrap()@.map_values(|item: SidebarItem| item@);
            entries_read_stops(entries, shown.len() as int);
            let answers = Answers { list: address, snapshot: Some(entries), names, urls };
            assert(answers.well_formed());
            assert(answers.favorites().unwrap() =~= shown);
            assert forall|at: int| 0 <= at < answers.count() implies {
                &&& #[trigger] self.api().may_give_display_name(entries[at], answers.names[at])
                &&& self.api().may_give_resolved_url(entries[at], answers.urls[at])
            } by {
                assert(urls[at] is Some);
            }
            assert(answers.given_by(self.api()));
            assert(answers.favorites() == listed(outcome));
        }
        outcome
    }
}

} // verus!
