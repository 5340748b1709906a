use vstd::prelude::*;
use vstd::std_specs::convert::FromSpecImpl;
use vstd::string::{StrSliceExecFns, StringExecFns};

use crate::finder::{Target, TargetView};
use crate::system::favorites::{DisplayName, Url};
use crate::text::{chars_of, ends_with, has_char_between, same_text, starts_with};

verus! {

/// What the URL of a favorite says of its target, before any label is given.
#[derive(Debug, Clone, PartialEq, Eq)]
pub enum MacOsUrl {
    AirDrop,
    Recents,
    Applications,
    Downloads,
    Desktop,
    Custom(String),
}

/// A `MacOsUrl` as a mathematical value.
pub enum UrlKind {
    AirDrop,
    Recents,
    Applications,
    Downloads,
    Desktop,
    Custom(Seq<char>),
}

impl View for MacOsUrl {
    type V = UrlKind;

    open spec fn view(&self) -> UrlKind {
        match *self {
            MacOsUrl::AirDrop => UrlKind::AirDrop,
            MacOsUrl::Recents => UrlKind::Recents,
            MacOsUrl::Applications => UrlKind::Applications,
            MacOsUrl::Downloads => UrlKind::Downloads,
            MacOsUrl::Desktop => UrlKind::Desktop,
            MacOsUrl::Custom(path) => UrlKind::Custom(path@),
        }
    }
}

/// The URL that stands for AirDrop.
pub open spec fn airdrop_url() -> Seq<char> {
    "nwnode://domain-AirDrop"@
}

/// The URL of the saved search behind Recents.
pub open spec fn recents_url() -> Seq<char> {
    "file:///System/Library/CoreServices/Finder.app/Contents/Resources/MyLibraries/myDocuments.cannedSearch/"@
}

/// The URL of the Applications folder of the machine.
pub open spec fn applications_url() -> Seq<char> {
    "file:///Applications/"@
}

/// `url` without the scheme of a file URL, where it begins with one.
pub open spec fn without_file_scheme(url: Seq<char>) -> Seq<char> {
    if "file://"@.is_prefix_of(url) {
        url.skip("file://"@.len() as int)
    } else {
        url
    }
}

/// `path` without the slash at its end, where it ends in one.
pub open spec fn without_trailing_slash(path: Seq<char>) -> Seq<char> {
    if path.len() > 0 && path.last() == '/' {
        path.drop_last()
    } else {
        path
    }
}

/// The path that a custom target shows for `url`: the URL without the scheme
/// of a file URL and without a slash at its end.
pub open spec fn cleaned_path(url: Seq<char>) -> Seq<char> {
    without_trailing_slash(without_file_scheme(url))
}

/// Whether `url` is the file URL of the folder `folder` of some user: the
/// directory of users, one name that is not empty and holds no slash, the
/// folder, and a slash at the end; nothing above, between or below.
pub open spec fn is_user_folder_url(url: Seq<char>, folder: Seq<char>) -> bool {
    let head = "file:///Users/"@;
    let tail = seq!['/'] + folder + seq!['/'];
    &&& head.len() + tail.len() < url.len()
    &&& head.is_prefix_of(url)
    &&& tail.is_suffix_of(url)
    &&& !url.subrange(head.len() as int, url.len() - tail.len()).contains('/')
}

/// What `url` says of its target. The first rule that applies decides: the
/// three fixed URLs, then the Desktop and the Downloads folder of a user, and
/// for every other URL its cleaned path.
pub open spec fn url_kind(url: Seq<char>) -> UrlKind {
    if url == airdrop_url() {
        UrlKind::AirDrop
    } else if url == recents_url() {
        UrlKind::Recents
    } else if url == applications_url() {
        UrlKind::Applications
    } else if is_user_folder_url(url, "Desktop"@) {
        UrlKind::Desktop
    } else if is_user_folder_url(url, "Downloads"@) {
        UrlKind::Downloads
    } else {
        UrlKind::Custom(cleaned_path(url))
    }
}

/// The target of a favorite with the given URL and label. The label counts
/// for a custom target only, and a missing one reads as the empty text.
pub open spec fn target_of(url: Seq<char>, label: Option<Seq<char>>) -> TargetView {
    match url_kind(url) {
        UrlKind::AirDrop => TargetView::AirDrop,
        UrlKind::Recents => TargetView::Recents,
        UrlKind::Applications => TargetView::Applications,
        UrlKind::Downloads => TargetView::Downloads,
        UrlKind::Desktop => TargetView::Desktop,
        UrlKind::Custom(path) => TargetView::Custom {
            label: match label {
                Some(text) => text,
                None => Seq::empty(),
            },
            path,
        },
    }
}

impl MacOsUrl {
    /// The path that a custom target shows for `url`.
    pub fn clean_path(url: &str) -> (path: String)
        ensures
            path@ == cleaned_path(url@),
    {
        let text = chars_of(url);
        let scheme = chars_of("file://");
        let from: usize = if starts_with(&text, &scheme) {
            scheme.len()
        } else {
            0
        };
        let to: usize = if text.len() > from && text[text.len() - 1] == '/' {
            text.len() - 1
        } else {
            text.len()
        };
        proof {
            let rest = without_file_scheme(url@);
            assert(rest == url@.subrange(from as int, url@.len() as int));
            assert(cleaned_path(url@) =~= url@.subrange(from as int, to as int));
        }
        url.substring_char(from, to).to_owned()
    }

    /// Whether `url` is the file URL of the folder `folder` of some user.
    pub fn is_user_folder(url: &str, folder: &str) -> (found: bool)
        ensures
            found == is_user_folder_url(url@, folder@),
    {
        let text = chars_of(url);
        let head = chars_of("file:///Users/");
        let mut name = chars_of(folder);
        let mut tail: Vec<char> = Vec::new();
        tail.push('/');
        tail.append(&mut name);
        tail.push('/');
        assert(tail@ =~= seq!['/'] + folder@ + seq!['/']);
        if text.len() <= head.len() || text.len() - head.len() <= tail.len() {
            return false;
        }
        starts_with(&text, &head) && ends_with(&text, &tail) && !has_char_between(
            &text,
            head.len(),
            text.len() - tail.len(),
            '/',
        )
    }

    /// What `url` says of its target.
    pub fn of(url: &str) -> (kind: Self)
        ensures
            kind@ == url_kind(url@),
    {
        if same_text(url, "nwnode://domain-AirDrop") {
            MacOsUrl::AirDrop
        } else if same_text(
            url,
            "file:///System/Library/CoreServices/Finder.app/Contents/Resources/MyLibraries/myDocuments.cannedSearch/",
        ) {
            MacOsUrl::Recents
        } else if same_text(url, "file:///Applications/") {
            MacOsUrl::Applications
        } else if Self::is_user_folder(url, "Desktop") {
            MacOsUrl::Desktop
        } else if Self::is_user_folder(url, "Downloads") {
            MacOsUrl::Downloads
        } else {
            MacOsUrl::Custom(Self::clean_path(url))
        }
    }
}

impl From<Url> for MacOsUrl {
    /// What the URL says of its target.
    fn from(url: Url) -> (kind: Self)
        ensures
            kind@ == url_kind(url@),
    {
        let text = url.to_string();
        MacOsUrl::of(text.as_str())
    }
}

impl FromSpecImpl<Url> for MacOsUrl {
    /// The path of a custom target is a text made anew, equal to the cleaned
    /// path by its view only: `from` states that itself.
    open spec fn obeys_from_spec() -> bool {
        false
    }

    open spec fn from_spec(url: Url) -> Self {
        arbitrary()
    }
}

/// A favorite as the system describes it: its URL and its display name.
#[derive(Debug, Clone)]
pub struct FavoriteItem {
    url: Url,
    name: DisplayName,
}

impl FavoriteItem {
    /// The text of the URL.
    pub closed spec fn url(&self) -> Seq<char> {
        self.url@
    }

    /// The text of the display name.
    pub closed spec fn name(&self) -> Seq<char> {
        self.name@
    }

    /// The favorite with the given URL and display name.
    pub fn new(url: Url, name: DisplayName) -> (item: Self)
        ensures
            item.url() == url@,
            item.name() == name@,
    {
        FavoriteItem { url, name }
    }

    /// The display name, an arrow and the URL as the system gave it.
    pub fn to_string(&self) -> (text: String)
        ensures
            text@ == self.name() + " -> "@ + self.url(),
    {
        let url = self.url.to_string();
        self.name.to_string().concat(" -> ").concat(url.as_str())
    }
}

impl From<FavoriteItem> for Target {
    /// The target of the favorite, with its display name for a label.
    fn from(item: FavoriteItem) -> (target: Self)
        ensures
            target@ == target_of(item.url(), Some(item.name())),
    {
        let url = item.url.to_string();
        let name = item.name.to_string();
        classify(url.as_str(), Some(name.as_str()))
    }
}

impl FromSpecImpl<FavoriteItem> for Target {
    /// The texts of a custom target are made anew, equal to the label and the
    /// cleaned path by their views only: `from` states that itself.
    open spec fn obeys_from_spec() -> bool {
        false
    }

    open spec fn from_spec(item: FavoriteItem) -> Self {
        arbitrary()
    }
}

/// Sorts a favorite by its URL, and gives a custom target its label.
pub fn classify(url: &str, label: Option<&str>) -> (target: Target)
    ensures
        target@ == target_of(
            url@,
            match label {
                Some(text) => Some(text@),
                None => None,
            },
        ),
{
    match MacOsUrl::of(url) {
        MacOsUrl::AirDrop => Target::AirDrop,
        MacOsUrl::Recents => Target::Recents,
        MacOsUrl::Applications => Target::Applications,
        MacOsUrl::Downloads => Target::Downloads,
        MacOsUrl::Desktop => Target::Desktop,
        MacOsUrl::Custom(path) => {
            let label = match label {
                Some(text) => text.to_owned(),
                None => String::new(),
            };
            Target::Custom { label, path }
        },
    }
}

/// Classification depends on the URL and the label alone: whatever two calls
/// of `classify` with the same URL and the same label return is the same
/// target.
pub proof fn classify_is_deterministic(
    url: &str,
    label: Option<&str>,
    first: Target,
    second: Target,
)
    requires
        call_ensures(classify, (url, label), first),
        call_ensures(classify, (url, label), second),
    ensures
        first@ == second@,
{
}

/// The URL of AirDrop is AirDrop, whatever the label.
pub proof fn airdrop_whatever_the_label(label: Option<Seq<char>>)
    ensures
        target_of(airdrop_url(), label) == TargetView::AirDrop,
{
}

/// A URL is the folder of a user exactly if it is made of the directory of
/// users, a name that is not empty and holds no slash, the folder and a final
/// slash.
pub proof fn user_folder_url_shape(url: Seq<char>, folder: Seq<char>)
    ensures
        is_user_folder_url(url, folder) <==> exists|user: Seq<char>|
            user.len() > 0 && !user.contains('/') && url == "file:///Users/"@ + user + seq!['/']
                + folder + seq!['/'],
{
    let head = "file:///Users/"@;
    let tail = seq!['/'] + folder + seq!['/'];
    if is_user_folder_url(url, folder) {
        let user = url.subrange(head.len() as int, url.len() - tail.len());
        let whole = head + user + seq!['/'] + folder + seq!['/'];
        assert(head == url.subrange(0, head.len() as int));
        assert(tail == url.subrange(url.len() - tail.len(), url.len() as int));
        assert(whole.len() == url.len());
        assert forall|i: int| 0 <= i < url.len() implies url[i] == whole[i] by {
            if i < head.len() {
                assert(url[i] == url.subrange(0, head.len() as int)[i]);
            } else if i < url.len() - tail.len() {
                assert(url[i] == user[i - head.len()]);
            } else {
                let k = i - (url.len() - tail.len());
                assert(url[i] == url.subrange(url.len() - tail.len(), url.len() as int)[k]);
                assert(tail[k] == whole[i]);
            }
        }
        assert(url =~= whole);
    }
    if exists|user: Seq<char>|
        user.len() > 0 && !user.contains('/') && url == head + user + seq!['/'] + folder
            + seq!['/'] {
        let user = choose|user: Seq<char>|
            user.len() > 0 && !user.contains('/') && url == head + user + seq!['/'] + folder
                + seq!['/'];
        assert(url.subrange(head.len() as int, url.len() - tail.len()) =~= user);
        assert(url.subrange(0, head.len() as int) =~= head);
        assert(url.subrange(url.len() - tail.len(), url.len() as int) =~= tail);
    }
}

} // verus!
