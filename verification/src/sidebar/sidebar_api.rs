use vstd::prelude::*;

use super::macos_api::MacOsApi;
use super::path::{path_of_url, CFURLWrapper, MacOsPath, MacOsPathView};
use super::{SidebarItem, SidebarItemView};
use crate::error::{Error, ErrorView, Result};
use crate::text::text_of;

verus! {

/// The item that an entry with the given display name and URL gives, for a
/// user with the given home directory.
pub open spec fn entry_item(name: Seq<char>, url: Seq<char>, home: Option<Seq<char>>)
    -> SidebarItemView {
    SidebarItemView { name, path: MacOsPathView::of(path_of_url(url), home) }
}

/// The error of a listing without a list.
pub open spec fn no_list() -> ErrorView {
    ErrorView::GetFavoritesList { reason: "system returned null favorites list"@ }
}

/// The error of an entry without a display name.
pub open spec fn no_display_name() -> ErrorView {
    ErrorView::GetDisplayName { reason: "system returned null display name"@ }
}

/// The error of an entry without a URL.
pub open spec fn no_url() -> ErrorView {
    ErrorView::GetItemUrl { reason: "system returned null URL"@ }
}

/// What an entry gives, from the answers to the questions for its display
/// name and its URL and from what the environment tells of the home
/// directory: a missing name is an error, and then a missing URL.
pub open spec fn entry_of(
    name: Option<Seq<char>>,
    url: Option<Seq<char>>,
    home: Option<Seq<char>>,
) -> std::result::Result<SidebarItemView, ErrorView> {
    match name {
        None => Err(no_display_name()),
        Some(name) => match url {
            None => Err(no_url()),
            Some(url) => Ok(entry_item(name, url, home)),
        },
    }
}

/// An outcome with its item or its error as a mathematical value.
pub open spec fn entry_shown(item: Result<SidebarItem>) -> std::result::Result<
    SidebarItemView,
    ErrorView,
> {
    match item {
        Ok(built) => Ok(built@),
        Err(error) => Err(error@),
    }
}

/// An outcome with its items or its error as mathematical values.
pub open spec fn entries_shown(outcome: Result<Vec<SidebarItem>>) -> std::result::Result<
    Seq<SidebarItemView>,
    ErrorView,
> {
    match outcome {
        Ok(items) => Ok(items@.map_values(|item: SidebarItem| item@)),
        Err(error) => Err(error@),
    }
}

/// The answers of the system, and of the environment, in the course of one
/// listing.
pub struct SidebarAnswers {
    /// The address of the favorites list; 0 where the system gave none.
    pub list: usize,
    /// The addresses of the items of the snapshot.
    pub items: Seq<usize>,
    /// For each item, its display name, where the system gave one.
    pub names: Seq<Option<Seq<char>>>,
    /// For each item, its URL, where the system gave one.
    pub urls: Seq<Option<Seq<char>>>,
    /// For each item, the home directory of the user, where the environment
    /// told one.
    pub homes: Seq<Option<Seq<char>>>,
}

impl SidebarAnswers {
    /// There is one name, one URL and one home directory for each item.
    pub open spec fn well_formed(self) -> bool {
        &&& self.names.len() == self.items.len()
        &&& self.urls.len() == self.items.len()
        &&& self.homes.len() == self.items.len()
    }

    /// Whether these are answers that `api` may give: the list, for a list
    /// the snapshot, for each item but a null one the display name, and for
    /// each item with a display name the URL.
    pub open spec fn given_by<T: MacOsApi>(self, api: T) -> bool {
        &&& self.well_formed()
        &&& api.may_give_list(self.list)
        &&& self.list != 0 ==> api.may_give_snapshot(self.list, self.items)
        &&& self.list != 0 ==> forall|place: int|
            0 <= place < self.items.len() ==> #[trigger] self.given_at(api, place)
    }

    /// Whether the answers for the item at `place` are answers that `api` may
    /// give: for an item but a null one the display name, and for an item
    /// with a display name the URL.
    pub open spec fn given_at<T: MacOsApi>(self, api: T, place: int) -> bool {
        self.items[place] != 0 ==> {
            &&& api.may_give_display_name(self.items[place], self.names[place])
            &&& self.names[place] is Some ==> api.may_give_url(
                self.items[place],
                self.urls[place],
            )
        }
    }

    /// Whether the item at `place` is listed: it is, unless its address, its
    /// display name or its URL is null.
    pub open spec fn kept(self, place: int) -> bool {
        self.items[place] != 0 && self.names[place] is Some && self.urls[place] is Some
    }

    /// What is listed of the first `upto` items, in their order.
    pub open spec fn listed_upto(self, upto: nat) -> Seq<SidebarItemView>
        decreases upto,
    {
        if upto == 0 {
            Seq::empty()
        } else {
            let place = upto - 1;
            let before = self.listed_upto(place as nat);
            if self.kept(place) {
                before.push(
                    entry_item(
                        self.names[place].unwrap(),
                        self.urls[place].unwrap(),
                        self.homes[place],
                    ),
                )
            } else {
                before
            }
        }
    }

    /// What the listing returns: an error without a list, and else what is
    /// listed of all the items.
    pub open spec fn listing(self) -> std::result::Result<Seq<SidebarItemView>, ErrorView> {
        if self.list == 0 {
            Err(no_list())
        } else {
            Ok(self.listed_upto(self.items.len()))
        }
    }

    /// The same answers, with those for one more item.
    pub open spec fn with(
        self,
        item: usize,
        name: Option<Seq<char>>,
        url: Option<Seq<char>>,
        home: Option<Seq<char>>,
    ) -> SidebarAnswers {
        SidebarAnswers {
            list: self.list,
            items: self.items.push(item),
            names: self.names.push(name),
            urls: self.urls.push(url),
            homes: self.homes.push(home),
        }
    }
}

/// What is listed of some items does not depend on the items after them.
pub proof fn listed_upto_of_more(
    answers: SidebarAnswers,
    item: usize,
    name: Option<Seq<char>>,
    url: Option<Seq<char>>,
    home: Option<Seq<char>>,
    upto: nat,
)
    requires
        answers.well_formed(),
        upto <= answers.items.len(),
    ensures
        answers.with(item, name, url, home).listed_upto(upto) == answers.listed_upto(upto),
    decreases upto,
{
    if upto > 0 {
        listed_upto_of_more(answers, item, name, url, home, (upto - 1) as nat);
    }
}

/// The item that an entry gives, from the answers to the questions for its
/// display name and its URL. A missing name is an error, and then a missing
/// URL. With both there is an item, which leads where the URL leads for the
/// user of this environment.
pub fn entry_from(name_ref: Option<String>, url_ref: Option<String>) -> (item: Result<
    SidebarItem,
>)
    ensures
        exists|home: Option<Seq<char>>|
            entry_shown(item) == entry_of(text_of(name_ref), text_of(url_ref), home),
{
    let name = match name_ref {
        Some(name) => name,
        None => {
            let item = Err(Error::GetDisplayName { reason: "system returned null display name" });
            assert(entry_shown(item) == entry_of(text_of(name_ref), text_of(url_ref), None));
            return item;
        },
    };
    let url = match url_ref {
        Some(url) => url,
        None => {
            let item = Err(Error::GetItemUrl { reason: "system returned null URL" });
            assert(entry_shown(item) == entry_of(text_of(name_ref), text_of(url_ref), None));
            return item;
        },
    };
    let path = match MacOsPath::try_from(CFURLWrapper::from(url.as_str())) {
        Ok(path) => path,
        Err(error) => {
            return Err(error);
        },
    };
    let ghost place = path@;
    let item = SidebarItem::builder().path(path).name(name.as_str()).build();
    proof {
        let home = choose|home: Option<Seq<char>>|
            place == MacOsPathView::of(path_of_url(url@), home);
        assert(entry_shown(item) == entry_of(text_of(name_ref), text_of(url_ref), home));
    }
    item
}

/// The favorites of the sidebar, read through the questions of a `MacOsApi`.
pub struct SidebarApi<T: MacOsApi> {
    api: T,
}

impl<T: MacOsApi> SidebarApi<T> {
    /// Whom the reader asks.
    pub closed spec fn api(&self) -> T {
        self.api
    }

    /// The reader that asks `api`.
    pub fn new(api: T) -> (reader: Self)
        ensures
            reader.api() == api,
    {
        SidebarApi { api }
    }

    /// Whether `outcome` is what a listing may return: what
    /// `SidebarAnswers::listing` gives for answers that the system may give.
    pub open spec fn lists(&self, outcome: Result<Vec<SidebarItem>>) -> bool {
        exists|answers: SidebarAnswers|
            answers.given_by(self.api()) && answers.listing() == entries_shown(outcome)
    }

    /// The favorites of the sidebar, in the order in which it shows them.
    ///
    /// Asks for the list, then for its snapshot, then for the display name
    /// and the URL of each item in turn. Without a list there is an error. An
    /// item whose address, name or URL is null is left out, and the listing
    /// goes on.
    pub fn list_favorite_items(&self) -> (outcome: Result<Vec<SidebarItem>>)
        ensures
            self.lists(outcome),
    {
        let entries = match self.get_favorites_array() {
            Ok(entries) => entries,
            Err(error) => {
                let outcome = Err(error);
                proof {
                    let answers = SidebarAnswers {
                        list: 0,
                        items: Seq::empty(),
                        names: Seq::empty(),
                        urls: Seq::empty(),
                        homes: Seq::empty(),
                    };
                    assert(answers.given_by(self.api()) && answers.listing() == entries_shown(
                        outcome,
                    ));
                }
                return outcome;
            },
        };
        let ghost list = choose|list: usize|
            list != 0 && self.api().may_give_list(list) && self.api().may_give_snapshot(
                list,
                entries@,
            );
        let ghost mut answers = SidebarAnswers {
            list,
            items: Seq::empty(),
            names: Seq::empty(),
            urls: Seq::empty(),
            homes: Seq::empty(),
        };
        let mut items: Vec<SidebarItem> = Vec::new();
        let mut at: usize = 0;
        while at < entries.len()
            invariant
                at <= entries.len(),
                answers.list == list,
                answers.well_formed(),
                answers.items == entries@.take(at as int),
                answers.listed_upto(at as nat) == items@.map_values(|item: SidebarItem| item@),
                forall|place: int|
                    0 <= place < at ==> #[trigger] answers.given_at(self.api(), place),
            decreases entries.len() - at,
        {
            let item_ref = entries[at];
            let ghost before = answers;
            let ghost shown = items@.map_values(|item: SidebarItem| item@);
            if item_ref != 0 {
                let converted = self.convert_item_ref(item_ref);
                proof {
                    let (name, url, home) = choose|
                        name: Option<Seq<char>>,
                        url: Option<Seq<char>>,
                        home: Option<Seq<char>>,
                    | self.answered(item_ref, name, url, home, converted);
                    answers = before.with(item_ref, name, url, home);
                }
                match converted {
                    Ok(item) => {
                        items.push(item);
                    },
                    Err(_) => {},
                }
            } else {
                proof {
                    answers = before.with(item_ref, None, None, None);
                }
            }
            proof {
                listed_upto_of_more(
                    before,
                    item_ref,
                    answers.names[at as int],
                    answers.urls[at as int],
                    answers.homes[at as int],
                    at as nat,
                );
                assert(answers.items =~= entries@.take(at + 1));
                assert(answers.listed_upto((at + 1) as nat) =~= items@.map_values(
                    |item: SidebarItem| item@,
                ));
                assert forall|place: int| 0 <= place < at + 1 implies #[trigger] answers.given_at(
                    self.api(),
                    place,
                ) by {
                    if place < at {
                        assert(before.given_at(self.api(), place));
                    }
                }
            }
            at = at + 1;
        }
        let outcome = Ok(items);
        proof {
            assert(entries@.take(entries.len() as int) =~= entries@);
            assert(answers.given_by(self.api()));
            assert(answers.listing() == entries_shown(outcome));
        }
        outcome
    }

    /// Asks for the list and for its snapshot, and drops the seed that comes
    /// with it. The only error is that of a missing list.
    fn get_favorites_array(&self) -> (entries: Result<Vec<usize>>)
        ensures
            entries matches Err(error) ==> error@ == no_list() && self.api().may_give_list(0),
            entries matches Ok(items) ==> exists|list: usize|
                list != 0 && self.api().may_give_list(list) && self.api().may_give_snapshot(
                    list,
                    items@,
                ),
    {
        let favorites_list = self.api.get_favorites_list();
        if favorites_list == 0 {
            return Err(Error::GetFavoritesList { reason: "system returned null favorites list" });
        }
        let mut seed: u32 = 0;
        let array = self.api.get_favorites_snapshot(favorites_list, &mut seed);
        assert(favorites_list != 0 && self.api().may_give_list(favorites_list)
            && self.api().may_give_snapshot(favorites_list, array@));
        Ok(array)
    }

    /// Whether `name` and `url` are answers that the system may give for the
    /// item at `item`, the URL being asked for where there is a name, and
    /// `converted` is what they give for a user with the home directory
    /// `home`.
    pub open spec fn answered(
        &self,
        item: usize,
        name: Option<Seq<char>>,
        url: Option<Seq<char>>,
        home: Option<Seq<char>>,
        converted: Result<SidebarItem>,
    ) -> bool {
        &&& self.api().may_give_display_name(item, name)
        &&& name is Some ==> self.api().may_give_url(item, url)
        &&& entry_shown(converted) == entry_of(name, url, home)
    }

    /// Asks for the display name of the item and, unless that is missing, for
    /// its URL, and makes the item of the answers.
    fn convert_item_ref(&self, item_ref: usize) -> (item: Result<SidebarItem>)
        requires
            item_ref != 0,
        ensures
            exists|name: Option<Seq<char>>, url: Option<Seq<char>>, home: Option<Seq<char>>|
                self.answered(item_ref, name, url, home, item),
    {
        let name_ref = self.api.get_item_display_name(item_ref);
        let url_ref = match name_ref {
            Some(_) => self.api.get_item_url(item_ref),
            None => None,
        };
        let item = entry_from(name_ref, url_ref);
        proof {
            let home = choose|home: Option<Seq<char>>|
                entry_shown(item) == entry_of(text_of(name_ref), text_of(url_ref), home);
            assert(self.answered(item_ref, text_of(name_ref), text_of(url_ref), home, item));
        }
        item
    }
}

} // verus!
