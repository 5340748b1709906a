pub mod environment;
mod macos_api;
mod path;
mod sidebar_api;

use vstd::prelude::*;
use vstd::std_specs::convert::TryFromSpecImpl;
use vstd::string::StringExecFns;

pub use self::macos_api::MacOsApi;
pub use self::path::{path_of_url, CFURLWrapper, MacOsLocation, MacOsPath, MacOsPathView, Matches};
pub use self::sidebar_api::{
    entries_shown, entry_from, entry_item, entry_of, entry_shown, listed_upto_of_more,
    no_display_name, no_list, no_url, SidebarAnswers, SidebarApi,
};

use crate::error::{Error, ErrorView, Result};
use crate::text::text_of;

verus! {

/// The sidebar of Finder, read through the questions of a `MacOsApi`.
pub struct Sidebar<T: MacOsApi> {
    api: SidebarApi<T>,
}

impl<T: MacOsApi> Sidebar<T> {
    /// Through whom the sidebar is reached.
    pub closed spec fn api(&self) -> T {
        self.api.api()
    }

    /// The sidebar that is reached through `api`.
    pub fn with_api(api: T) -> (sidebar: Self)
        ensures
            sidebar.api() == api,
    {
        Sidebar { api: SidebarApi::new(api) }
    }

    /// The section of the favorites, which is reached as the sidebar is.
    pub fn favorites(&self) -> (section: FavoritesSection<'_, T>)
        ensures
            section.api() == self.api(),
    {
        FavoritesSection { api: &self.api }
    }

    /// The favorites of the sidebar: what `SidebarApi::list_favorite_items`
    /// returns.
    pub fn list_items(&self) -> (outcome: Result<Vec<SidebarItem>>)
        ensures
            exists|answers: SidebarAnswers|
                answers.given_by(self.api()) && answers.listing() == entries_shown(outcome),
    {
        self.favorites().list_items()
    }
}

/// The favorites among the sections of the sidebar.
pub struct FavoritesSection<'a, T: MacOsApi> {
    api: &'a SidebarApi<T>,
}

impl<T: MacOsApi> FavoritesSection<'_, T> {
    /// Through whom the section is reached.
    pub closed spec fn api(&self) -> T {
        self.api.api()
    }

    /// The favorites of the sidebar: what `SidebarApi::list_favorite_items`
    /// returns.
    pub fn list_items(&self) -> (outcome: Result<Vec<SidebarItem>>)
        ensures
            exists|answers: SidebarAnswers|
                answers.given_by(self.api()) && answers.listing() == entries_shown(outcome),
    {
        self.api.list_favorite_items()
    }

    /// The favorites of the sidebar to walk through: what `list_items`
    /// returns, and none where that is an error.
    pub fn iter(&self) -> (items: Vec<SidebarItem>)
        ensures
            exists|answers: SidebarAnswers|
                answers.given_by(self.api()) && match answers.listing() {
                    Ok(listed) => listed == items@.map_values(|item: SidebarItem| item@),
                    Err(_) => items@.len() == 0,
                },
    {
        let outcome = self.list_items();
        let ghost answers = choose|answers: SidebarAnswers|
            answers.given_by(self.api()) && answers.listing() == entries_shown(outcome);
        let items = match outcome {
            Ok(items) => items,
            Err(_) => Vec::new(),
        };
        assert(answers.given_by(self.api()) && match answers.listing() {
            Ok(listed) => listed == items@.map_values(|item: SidebarItem| item@),
            Err(_) => items@.len() == 0,
        });
        items
    }
}

/// One item of the sidebar: a name and where it leads.
#[derive(Debug, PartialEq, Clone)]
pub struct SidebarItem {
    name: String,
    path: MacOsPath,
}

/// A `SidebarItem` as a mathematical value.
pub struct SidebarItemView {
    pub name: Seq<char>,
    pub path: MacOsPathView,
}

impl View for SidebarItem {
    type V = SidebarItemView;

    closed spec fn view(&self) -> SidebarItemView {
        SidebarItemView { name: self.name@, path: self.path@ }
    }
}

impl SidebarItemView {
    /// The item for a URL and, where there is one, a name, for a user with
    /// the given home directory: it leads where the URL leads, and without a
    /// name it goes by the name of its path.
    pub open spec fn of_url(url: Seq<char>, name: Option<Seq<char>>, home: Option<Seq<char>>)
        -> SidebarItemView {
        let path = MacOsPathView::of(path_of_url(url), home);
        SidebarItemView {
            name: match name {
                Some(name) => name,
                None => path.name(),
            },
            path,
        }
    }

    /// The item that leads to a place known by name, under the title of that
    /// place.
    pub open spec fn location(location: MacOsLocation) -> SidebarItemView {
        SidebarItemView { name: location.title(), path: MacOsPathView::Location(location) }
    }
}

impl SidebarItem {
    /// A builder that holds neither a name nor a path yet.
    pub fn builder() -> (builder: SidebarItemBuilder)
        ensures
            builder.name_set() is None,
            builder.path_set() is None,
    {
        SidebarItemBuilder::new()
    }

    /// The item with the given name and path.
    pub fn new(name: &str, path: MacOsPath) -> (item: Self)
        ensures
            item@ == (SidebarItemView { name: name@, path: path@ }),
    {
        SidebarItem { name: name.to_owned(), path }
    }

    /// The name of the item.
    pub fn name(&self) -> (name: &str)
        ensures
            name@ == self@.name,
    {
        self.name.as_str()
    }

    /// Where the item leads.
    pub fn path(&self) -> (path: &MacOsPath)
        ensures
            path@ == self@.path,
    {
        &self.path
    }

    /// The item of the applications of the machine.
    pub fn applications() -> (item: Self)
        ensures
            item@ == SidebarItemView::location(MacOsLocation::Applications),
    {
        Self::location(MacOsLocation::Applications)
    }

    /// The item of the downloads of the user.
    pub fn downloads() -> (item: Self)
        ensures
            item@ == SidebarItemView::location(MacOsLocation::Downloads),
    {
        Self::location(MacOsLocation::Downloads)
    }

    /// The item of the desktop of the user.
    pub fn desktop() -> (item: Self)
        ensures
            item@ == SidebarItemView::location(MacOsLocation::Desktop),
    {
        Self::location(MacOsLocation::Desktop)
    }

    /// The item of the documents of the user.
    pub fn documents() -> (item: Self)
        ensures
            item@ == SidebarItemView::location(MacOsLocation::Documents),
    {
        Self::location(MacOsLocation::Documents)
    }

    /// The item of the home directory of the user.
    pub fn home() -> (item: Self)
        ensures
            item@ == SidebarItemView::location(MacOsLocation::Home),
    {
        Self::location(MacOsLocation::Home)
    }

    /// The item of AirDrop.
    pub fn airdrop() -> (item: Self)
        ensures
            item@ == SidebarItemView::location(MacOsLocation::AirDrop),
    {
        Self::location(MacOsLocation::AirDrop)
    }

    /// The item of Recents.
    pub fn recents() -> (item: Self)
        ensures
            item@ == SidebarItemView::location(MacOsLocation::Recents),
    {
        Self::location(MacOsLocation::Recents)
    }

    /// The item that leads to `location`, under its title.
    fn location(location: MacOsLocation) -> (item: Self)
        ensures
            item@ == SidebarItemView::location(location),
    {
        Self::new(location.name(), MacOsPath::Location(location))
    }

    /// The name of the item, and in brackets its path in this environment.
    pub fn to_string(&self) -> (text: String)
        ensures
            exists|path: Seq<char>|
                self@.path.leads_to(path) && text@ == self@.name + " ("@ + path + ")"@,
    {
        let path = self.path.path();
        let text = self.name.clone().concat(" (").concat(path.as_str()).concat(")");
        assert(self@.path.leads_to(path@) && text@ == self@.name + " ("@ + path@ + ")"@);
        text
    }
}

/// Puts an item of the sidebar together, part by part.
#[derive(Debug, Default)]
pub struct SidebarItemBuilder {
    name: Option<String>,
    path: Option<MacOsPath>,
}

impl SidebarItemBuilder {
    /// The name that was set, if any.
    pub closed spec fn name_set(&self) -> Option<Seq<char>> {
        match self.name {
            Some(name) => Some(name@),
            None => None,
        }
    }

    /// The path that was set, if any.
    pub closed spec fn path_set(&self) -> Option<MacOsPathView> {
        match self.path {
            Some(path) => Some(path@),
            None => None,
        }
    }

    /// A builder that holds neither a name nor a path yet.
    pub fn new() -> (builder: Self)
        ensures
            builder.name_set() is None,
            builder.path_set() is None,
    {
        SidebarItemBuilder { name: None, path: None }
    }

    /// Sets the name, and keeps the path.
    pub fn name(self, name: &str) -> (builder: Self)
        ensures
            builder.name_set() == Some(name@),
            builder.path_set() == self.path_set(),
    {
        SidebarItemBuilder { name: Some(name.to_owned()), path: self.path }
    }

    /// Sets the path, and keeps the name.
    pub fn path(self, path: MacOsPath) -> (builder: Self)
        ensures
            builder.name_set() == self.name_set(),
            builder.path_set() == Some(path@),
    {
        SidebarItemBuilder { name: self.name, path: Some(path) }
    }

    /// Sets the path to a place known by name, and the name to its title.
    pub fn location(self, location: MacOsLocation) -> (builder: Self)
        ensures
            builder.name_set() == Some(location.title()),
            builder.path_set() == Some(MacOsPathView::Location(location)),
    {
        SidebarItemBuilder {
            name: Some(location.name().to_owned()),
            path: Some(MacOsPath::Location(location)),
        }
    }

    /// The item, if a path was set: without one there is none. An item whose
    /// name was not set goes by the name of its path.
    pub fn build(self) -> (item: Result<SidebarItem>)
        ensures
            self.path_set() is None ==> (item matches Err(error) && error@
                == ErrorView::InvalidPath { path: "<no path>"@ }),
            self.path_set() matches Some(path) ==> (item matches Ok(built) && built@
                == SidebarItemView {
                name: match self.name_set() {
                    Some(name) => name,
                    None => path.name(),
                },
                path,
            }),
    {
        let path = match self.path {
            Some(path) => path,
            None => {
                return Err(Error::InvalidPath { path: "<no path>".to_owned() });
            },
        };
        let name = match self.name {
            Some(name) => name,
            None => path.name(),
        };
        Ok(SidebarItem { name, path })
    }
}

impl TryFrom<(CFURLWrapper<'_>, Option<String>)> for SidebarItem {
    type Error = Error;

    /// The item for a URL and, where there is one, a name. There always is an
    /// item: it leads where the URL leads for the user of this environment,
    /// and without a name it goes by the name of its path.
    fn try_from(parts: (CFURLWrapper<'_>, Option<String>)) -> (item: Result<Self>)
        ensures
            item matches Ok(built) && exists|home: Option<Seq<char>>|
                built@ == SidebarItemView::of_url(parts.0@, text_of(parts.1), home),
    {
        let (url_wrapper, name) = parts;
        let path = match MacOsPath::try_from(url_wrapper) {
            Ok(path) => path,
            Err(error) => {
                return Err(error);
            },
        };
        let ghost place = path@;
        let builder = SidebarItem::builder().path(path);
        let builder = match name {
            Some(name) => builder.name(name.as_str()),
            None => builder,
        };
        let item = builder.build();
        proof {
            let home = choose|home: Option<Seq<char>>|
                place == MacOsPathView::of(path_of_url(parts.0@), home);
            assert(item.unwrap()@ == SidebarItemView::of_url(
                parts.0@,
                text_of(parts.1),
                home,
            ));
        }
        item
    }
}

impl TryFromSpecImpl<(CFURLWrapper<'_>, Option<String>)> for SidebarItem {
    /// The outcome depends on the environment: `try_from` states what holds
    /// of it.
    open spec fn obeys_try_from_spec() -> bool {
        false
    }

    closed spec fn try_from_spec(parts: (CFURLWrapper<'_>, Option<String>)) -> Result<Self> {
        arbitrary()
    }
}

} // verus!
