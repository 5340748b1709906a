use vstd::prelude::*;
use vstd::std_specs::cmp::PartialEqSpecImpl;
use vstd::std_specs::convert::{FromSpecImpl, TryFromSpecImpl};
use vstd::string::StringExecFns;

use super::environment::{
    desktop_dir, document_dir, download_dir, equal_paths, file_name, home_dir, join,
    joined_path, last_component, same_path,
};
use crate::error::{Error, Result};
use crate::text::{chars_of, contains, occurs_in, same_text, strip_prefix, text_of};

verus! {

/// A URL of the system that is lent for reading: held as its text.
pub struct CFURLWrapper<'a>(&'a str);

impl View for CFURLWrapper<'_> {
    type V = Seq<char>;

    /// The text of the URL.
    closed spec fn view(&self) -> Seq<char> {
        self.0@
    }
}

impl CFURLWrapper<'_> {
    /// A copy of the text of the URL, which there always is.
    pub fn get_url_string(&self) -> (text: Option<String>)
        ensures
            text matches Some(url) && url@ == self@,
    {
        Some(self.0.to_owned())
    }
}

impl<'a> From<&'a str> for CFURLWrapper<'a> {
    fn from(url: &'a str) -> (wrapper: Self)
        ensures
            wrapper@ == url@,
    {
        CFURLWrapper(url)
    }
}

impl<'a> FromSpecImpl<&'a str> for CFURLWrapper<'a> {
    open spec fn obeys_from_spec() -> bool {
        true
    }

    closed spec fn from_spec(url: &'a str) -> Self {
        CFURLWrapper(url)
    }
}

/// The places that the sidebar knows by name.
#[derive(Debug, Clone, Copy, PartialEq, Eq, Structural)]
pub enum MacOsLocation {
    Applications,
    UserApplications,
    Desktop,
    Documents,
    Downloads,
    Home,
    AirDrop,
    Recents,
}

impl MacOsLocation {
    /// The name under which the sidebar shows the place.
    pub open spec fn title(self) -> Seq<char> {
        match self {
            MacOsLocation::Applications => "Applications"@,
            MacOsLocation::UserApplications => "Applications"@,
            MacOsLocation::Desktop => "Desktop"@,
            MacOsLocation::Documents => "Documents"@,
            MacOsLocation::Downloads => "Downloads"@,
            MacOsLocation::Home => "Home"@,
            MacOsLocation::AirDrop => "AirDrop"@,
            MacOsLocation::Recents => "Recents"@,
        }
    }

    /// Where the place lies, given what the environment tells of the
    /// directory that the place depends on: its home directory for the home
    /// and the applications of the user, and for the desktop, the documents
    /// and the downloads the directory of that kind. A directory that the
    /// environment does not tell reads as the empty path. The other three
    /// places lie where they always do.
    pub open spec fn path_given(self, dir: Option<Seq<char>>) -> Seq<char> {
        let dir = match dir {
            Some(path) => path,
            None => Seq::empty(),
        };
        match self {
            MacOsLocation::Applications => "/Applications"@,
            MacOsLocation::UserApplications => joined_path(dir, "Applications"@),
            MacOsLocation::Desktop => dir,
            MacOsLocation::Documents => dir,
            MacOsLocation::Downloads => dir,
            MacOsLocation::Home => dir,
            MacOsLocation::AirDrop => "nwnode://domain-AirDrop"@,
            MacOsLocation::Recents => "/System/Library/CoreServices/Finder.app/Contents/Resources/MyLibraries/myDocuments.cannedSearch"@,
        }
    }

    /// The URL of the place, given the same: that of AirDrop is fixed, and
    /// any other is the file URL of the path.
    pub open spec fn url_given(self, dir: Option<Seq<char>>) -> Seq<char> {
        match self {
            MacOsLocation::AirDrop => "nwnode://domain-AirDrop"@,
            _ => "file://"@ + self.path_given(dir),
        }
    }

    /// Whether where the place lies depends on a directory of the user: it
    /// does for the home, the applications, the desktop, the documents and
    /// the downloads of the user, and for no other place.
    pub open spec fn depends_on_dir(self) -> bool {
        match self {
            MacOsLocation::UserApplications => true,
            MacOsLocation::Desktop => true,
            MacOsLocation::Documents => true,
            MacOsLocation::Downloads => true,
            MacOsLocation::Home => true,
            MacOsLocation::Applications => false,
            MacOsLocation::AirDrop => false,
            MacOsLocation::Recents => false,
        }
    }

    /// Asks the environment for the directory that the place depends on: the
    /// home directory for the home and the applications of the user, and for
    /// the desktop, the documents and the downloads the directory of that
    /// kind. Nothing is known of what the environment answers. For a place
    /// that depends on no directory nothing is asked, and there is none.
    fn ask_dir(&self) -> (dir: Option<String>)
        ensures
            !self.depends_on_dir() ==> dir is None,
    {
        match self {
            MacOsLocation::UserApplications => home_dir(),
            MacOsLocation::Desktop => desktop_dir(),
            MacOsLocation::Documents => document_dir(),
            MacOsLocation::Downloads => download_dir(),
            MacOsLocation::Home => home_dir(),
            _ => None,
        }
    }

    /// Where the place lies, given what the environment tells of the
    /// directory that the place depends on.
    pub fn path_in(&self, dir: Option<String>) -> (path: String)
        ensures
            path@ == self.path_given(text_of(dir)),
    {
        let dir = match dir {
            Some(path) => path,
            None => String::new(),
        };
        match self {
            MacOsLocation::Applications => "/Applications".to_owned(),
            MacOsLocation::UserApplications => join(dir.as_str(), "Applications"),
            MacOsLocation::Desktop => dir,
            MacOsLocation::Documents => dir,
            MacOsLocation::Downloads => dir,
            MacOsLocation::Home => dir,
            MacOsLocation::AirDrop => "nwnode://domain-AirDrop".to_owned(),
            MacOsLocation::Recents => "/System/Library/CoreServices/Finder.app/Contents/Resources/MyLibraries/myDocuments.cannedSearch".to_owned(),
        }
    }

    /// Where the place lies in this environment. Whatever the environment
    /// tells, the path is what `path_given` makes of it.
    pub fn path(&self) -> (path: String)
        ensures
            exists|dir: Option<Seq<char>>| path@ == self.path_given(dir),
    {
        let dir = self.ask_dir();
        let path = self.path_in(dir);
        assert(path@ == self.path_given(text_of(dir)));
        path
    }

    /// The name under which the sidebar shows the place.
    pub fn name(&self) -> (name: &'static str)
        ensures
            name@ == self.title(),
    {
        match self {
            MacOsLocation::Applications => "Applications",
            MacOsLocation::UserApplications => "Applications",
            MacOsLocation::Desktop => "Desktop",
            MacOsLocation::Documents => "Documents",
            MacOsLocation::Downloads => "Downloads",
            MacOsLocation::Home => "Home",
            MacOsLocation::AirDrop => "AirDrop",
            MacOsLocation::Recents => "Recents",
        }
    }

    /// The URL of the place, given what the environment tells of the
    /// directory that the place depends on.
    pub fn url_in(&self, dir: Option<String>) -> (url: String)
        ensures
            url@ == self.url_given(text_of(dir)),
    {
        match self {
            MacOsLocation::AirDrop => "nwnode://domain-AirDrop".to_owned(),
            _ => {
                let path = self.path_in(dir);
                "file://".to_owned().concat(path.as_str())
            },
        }
    }

    /// The URL of the place in this environment. Whatever the environment
    /// tells, the URL is what `url_given` makes of it.
    pub fn url(&self) -> (url: String)
        ensures
            exists|dir: Option<Seq<char>>| url@ == self.url_given(dir),
    {
        let dir = self.ask_dir();
        let url = self.url_in(dir);
        assert(url@ == self.url_given(text_of(dir)));
        url
    }
}

/// Where an item of the sidebar leads: to a place known by name, or to any
/// other path.
#[derive(Debug, Clone)]
pub enum MacOsPath {
    Location(MacOsLocation),
    Custom(String),
}

impl PartialEq for MacOsPath {
    /// Two places are equal if they are the same place, and two custom paths
    /// if `std::path` holds them equal.
    fn eq(&self, other: &Self) -> (equal: bool) {
        match (self, other) {
            (MacOsPath::Location(first), MacOsPath::Location(second)) => *first == *second,
            (MacOsPath::Custom(first), MacOsPath::Custom(second)) => equal_paths(
                first.as_str(),
                second.as_str(),
            ),
            _ => false,
        }
    }
}

impl PartialEqSpecImpl for MacOsPath {
    open spec fn obeys_eq_spec() -> bool {
        true
    }

    open spec fn eq_spec(&self, other: &Self) -> bool {
        match (*self, *other) {
            (MacOsPath::Location(first), MacOsPath::Location(second)) => first == second,
            (MacOsPath::Custom(first), MacOsPath::Custom(second)) => same_path(first@, second@),
            _ => false,
        }
    }
}

/// A `MacOsPath` as a mathematical value.
pub enum MacOsPathView {
    Location(MacOsLocation),
    Custom(Seq<char>),
}

impl View for MacOsPath {
    type V = MacOsPathView;

    open spec fn view(&self) -> MacOsPathView {
        match *self {
            MacOsPath::Location(location) => MacOsPathView::Location(location),
            MacOsPath::Custom(path) => MacOsPathView::Custom(path@),
        }
    }
}

/// Which of the folders known by name a path was found to be.
#[derive(Debug, Clone, Copy, PartialEq, Eq, Structural)]
pub struct Matches {
    pub applications: bool,
    pub downloads: bool,
    pub desktop: bool,
    pub documents: bool,
    pub user_applications: bool,
    pub home: bool,
}

impl Matches {
    /// Which folders `path` is, for a user whose home directory is `home`:
    /// the applications of the machine, or one of four folders directly in
    /// the home directory, or the home directory itself. Paths are compared
    /// as `std::path` compares them.
    pub open spec fn of(path: Seq<char>, home: Seq<char>) -> Matches {
        Matches {
            applications: same_path(path, "/Applications"@),
            downloads: same_path(path, joined_path(home, "Downloads"@)),
            desktop: same_path(path, joined_path(home, "Desktop"@)),
            documents: same_path(path, joined_path(home, "Documents"@)),
            user_applications: same_path(path, joined_path(home, "Applications"@)),
            home: same_path(path, home),
        }
    }

    /// Finds which folders `path` is, for a user whose home directory is
    /// `home`.
    pub fn find(path: &str, home: &str) -> (found: Matches)
        ensures
            found == Matches::of(path@, home@),
    {
        let downloads = join(home, "Downloads");
        let desktop = join(home, "Desktop");
        let documents = join(home, "Documents");
        let user_applications = join(home, "Applications");
        Matches {
            applications: equal_paths(path, "/Applications"),
            downloads: equal_paths(path, downloads.as_str()),
            desktop: equal_paths(path, desktop.as_str()),
            documents: equal_paths(path, documents.as_str()),
            user_applications: equal_paths(path, user_applications.as_str()),
            home: equal_paths(path, home),
        }
    }
}

impl MacOsPathView {
    /// Where `path` leads, given which folders it was found to be. The first
    /// rule that applies decides: the applications of the machine, then the
    /// downloads, the desktop, the documents and the applications of the
    /// user, then the home directory, then the text that stands for AirDrop,
    /// then a path that holds the name of the saved search behind Recents.
    /// Any other path stands for itself.
    pub open spec fn resolved(path: Seq<char>, found: Matches) -> MacOsPathView {
        if found.applications {
            MacOsPathView::Location(MacOsLocation::Applications)
        } else if found.downloads {
            MacOsPathView::Location(MacOsLocation::Downloads)
        } else if found.desktop {
            MacOsPathView::Location(MacOsLocation::Desktop)
        } else if found.documents {
            MacOsPathView::Location(MacOsLocation::Documents)
        } else if found.user_applications {
            MacOsPathView::Location(MacOsLocation::UserApplications)
        } else if found.home {
            MacOsPathView::Location(MacOsLocation::Home)
        } else if path == "nwnode://domain-AirDrop"@ {
            MacOsPathView::Location(MacOsLocation::AirDrop)
        } else if occurs_in(path, "myDocuments.cannedSearch"@) {
            MacOsPathView::Location(MacOsLocation::Recents)
        } else {
            MacOsPathView::Custom(path)
        }
    }

    /// Where `path` leads for a user with the given home directory; a home
    /// directory that the environment does not tell reads as the empty path.
    pub open spec fn of(path: Seq<char>, home: Option<Seq<char>>) -> MacOsPathView {
        let home = match home {
            Some(dir) => dir,
            None => Seq::empty(),
        };
        MacOsPathView::resolved(path, Matches::of(path, home))
    }

    /// Whether `path` is where this leads in some environment.
    pub open spec fn leads_to(self, path: Seq<char>) -> bool {
        match self {
            MacOsPathView::Location(location) => exists|dir: Option<Seq<char>>|
                path == location.path_given(dir),
            MacOsPathView::Custom(custom) => path == custom,
        }
    }

    /// Whether `url` is the URL of this in some environment.
    pub open spec fn has_url(self, url: Seq<char>) -> bool {
        match self {
            MacOsPathView::Location(location) => exists|dir: Option<Seq<char>>|
                url == location.url_given(dir),
            MacOsPathView::Custom(custom) => url == "file://"@ + custom,
        }
    }

    /// The name of this, given the last component of a custom path: a place
    /// has its title, and a custom path without a last component is unknown.
    pub open spec fn name_given(self, last: Option<Seq<char>>) -> Seq<char> {
        match self {
            MacOsPathView::Location(location) => location.title(),
            MacOsPathView::Custom(_) => match last {
                Some(name) => name,
                None => "Unknown"@,
            },
        }
    }

    /// The name of this: the title of a place, and of a custom path its last
    /// component as `std::path` tells it.
    pub open spec fn name(self) -> Seq<char> {
        match self {
            MacOsPathView::Location(location) => location.title(),
            MacOsPathView::Custom(custom) => self.name_given(last_component(custom)),
        }
    }
}

impl MacOsPath {
    /// Where `path_str` leads, given which folders it was found to be.
    pub fn resolve(path_str: &str, found: Matches) -> (path: Self)
        ensures
            path@ == MacOsPathView::resolved(path_str@, found),
    {
        if found.applications {
            MacOsPath::Location(MacOsLocation::Applications)
        } else if found.downloads {
            MacOsPath::Location(MacOsLocation::Downloads)
        } else if found.desktop {
            MacOsPath::Location(MacOsLocation::Desktop)
        } else if found.documents {
            MacOsPath::Location(MacOsLocation::Documents)
        } else if found.user_applications {
            MacOsPath::Location(MacOsLocation::UserApplications)
        } else if found.home {
            MacOsPath::Location(MacOsLocation::Home)
        } else if same_text(path_str, "nwnode://domain-AirDrop") {
            MacOsPath::Location(MacOsLocation::AirDrop)
        } else if contains(&chars_of(path_str), &chars_of("myDocuments.cannedSearch")) {
            MacOsPath::Location(MacOsLocation::Recents)
        } else {
            MacOsPath::Custom(path_str.to_owned())
        }
    }

    /// Where `path_str` leads for a user with the given home directory.
    pub fn from_path_in(path_str: &str, home: Option<String>) -> (path: Self)
        ensures
            path@ == MacOsPathView::of(path_str@, text_of(home)),
    {
        let home = match home {
            Some(dir) => dir,
            None => String::new(),
        };
        let found = Matches::find(path_str, home.as_str());
        Self::resolve(path_str, found)
    }

    /// Where `path_str` leads for the user of this environment. Whatever the
    /// environment tells of the home directory, the outcome is what
    /// `MacOsPathView::of` gives for it.
    pub fn from_path_str(path_str: &str) -> (path: Self)
        ensures
            exists|home: Option<Seq<char>>| path@ == MacOsPathView::of(path_str@, home),
    {
        let home = home_dir();
        let path = Self::from_path_in(path_str, home);
        assert(path@ == MacOsPathView::of(path_str@, text_of(home)));
        path
    }

    /// Where this leads in this environment.
    pub fn path(&self) -> (path: String)
        ensures
            self@.leads_to(path@),
    {
        match self {
            MacOsPath::Location(location) => location.path(),
            MacOsPath::Custom(path) => path.clone(),
        }
    }

    /// The name of this, given the last component of a custom path.
    pub fn name_with(&self, last: Option<String>) -> (name: String)
        ensures
            name@ == self@.name_given(text_of(last)),
    {
        match self {
            MacOsPath::Location(location) => location.name().to_owned(),
            MacOsPath::Custom(_) => match last {
                Some(name) => name,
                None => "Unknown".to_owned(),
            },
        }
    }

    /// The name of this: the title of a place, and of a custom path its last
    /// component.
    pub fn name(&self) -> (name: String)
        ensures
            name@ == self@.name(),
    {
        match self {
            MacOsPath::Location(location) => location.name().to_owned(),
            MacOsPath::Custom(path) => {
                let last = file_name(path.as_str());
                self.name_with(last)
            },
        }
    }

    /// The URL of this in this environment.
    pub fn url(&self) -> (url: String)
        ensures
            self@.has_url(url@),
    {
        match self {
            MacOsPath::Location(location) => location.url(),
            MacOsPath::Custom(path) => "file://".to_owned().concat(path.as_str()),
        }
    }

    /// The path of this as a text: what `path` returns.
    pub fn to_string(&self) -> (text: String)
        ensures
            self@.leads_to(text@),
    {
        self.path()
    }
}

impl From<&str> for MacOsPath {
    /// Where `path` leads for the user of this environment.
    fn from(path: &str) -> (place: Self)
        ensures
            exists|home: Option<Seq<char>>| place@ == MacOsPathView::of(path@, home),
    {
        MacOsPath::from_path_str(path)
    }
}

impl FromSpecImpl<&str> for MacOsPath {
    /// The outcome depends on the environment: `from` states what holds of it.
    open spec fn obeys_from_spec() -> bool {
        false
    }

    open spec fn from_spec(path: &str) -> Self {
        arbitrary()
    }
}

impl From<MacOsLocation> for MacOsPath {
    fn from(location: MacOsLocation) -> (place: Self)
        ensures
            place == MacOsPath::Location(location),
    {
        MacOsPath::Location(location)
    }
}

impl FromSpecImpl<MacOsLocation> for MacOsPath {
    open spec fn obeys_from_spec() -> bool {
        true
    }

    open spec fn from_spec(location: MacOsLocation) -> Self {
        MacOsPath::Location(location)
    }
}

/// The path that the text of a URL holds: the text without the scheme of a
/// file URL, where it begins with one.
pub open spec fn path_of_url(url: Seq<char>) -> Seq<char> {
    if "file://"@.is_prefix_of(url) {
        url.skip("file://"@.len() as int)
    } else {
        url
    }
}

impl TryFrom<CFURLWrapper<'_>> for MacOsPath {
    type Error = Error;

    /// Where the URL leads for the user of this environment: always
    /// somewhere, and whatever the environment tells of the home directory,
    /// it is what `MacOsPathView::of` gives for the path of the URL.
    fn try_from(wrapper: CFURLWrapper<'_>) -> (place: Result<Self>)
        ensures
            place matches Ok(path) && exists|home: Option<Seq<char>>|
                path@ == MacOsPathView::of(path_of_url(wrapper@), home),
    {
        let url_str = match wrapper.get_url_string() {
            Some(text) => text,
            None => {
                return Err(Error::UrlConversion { url: "<unknown>".to_owned() });
            },
        };
        let path_str = match strip_prefix(url_str.as_str(), "file://") {
            Some(rest) => rest,
            None => url_str.as_str(),
        };
        let path = MacOsPath::from_path_str(path_str);
        proof {
            let home = choose|home: Option<Seq<char>>| path@ == MacOsPathView::of(path_str@, home);
            assert(path@ == MacOsPathView::of(path_of_url(wrapper@), home));
        }
        Ok(path)
    }
}

impl TryFromSpecImpl<CFURLWrapper<'_>> for MacOsPath {
    /// The outcome depends on the environment: `try_from` states what holds
    /// of it.
    open spec fn obeys_try_from_spec() -> bool {
        false
    }

    open spec fn try_from_spec(wrapper: CFURLWrapper<'_>) -> Result<Self> {
        arbitrary()
    }
}

} // verus!
