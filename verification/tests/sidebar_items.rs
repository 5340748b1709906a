use std::cell::RefCell;

use favkit::sidebar::{
    entry_from, CFURLWrapper, MacOsApi, MacOsLocation, MacOsPath, Sidebar, SidebarApi,
    SidebarItem, SidebarItemBuilder,
};
use favkit::{CoreFoundationErrorKind, Error};

#[derive(Debug, Clone, PartialEq)]
enum ApiCall {
    CreateFavoritesList,
    GetFavoritesSnapshot(usize),
    GetItemDisplayName(usize),
    GetItemUrl(usize),
}

/// A system that answers from a table: item `n` has the address `n`, counted
/// from 1, unless another snapshot is given.
struct ApiCallRecorder {
    list: usize,
    snapshot: Vec<usize>,
    names: Vec<Option<String>>,
    urls: Vec<Option<String>>,
    calls: RefCell<Vec<ApiCall>>,
}

impl ApiCallRecorder {
    fn with_entries(entries: &[(&str, &str)]) -> Self {
        ApiCallRecorder {
            list: 1,
            snapshot: (1..=entries.len()).collect(),
            names: entries.iter().map(|(name, _)| Some(name.to_string())).collect(),
            urls: entries.iter().map(|(_, url)| Some(url.to_string())).collect(),
            calls: RefCell::new(vec![]),
        }
    }

    fn calls(&self) -> Vec<ApiCall> {
        self.calls.borrow().clone()
    }
}

impl MacOsApi for &ApiCallRecorder {
    fn get_favorites_list(&self) -> usize {
        self.calls.borrow_mut().push(ApiCall::CreateFavoritesList);
        self.list
    }

    fn get_favorites_snapshot(&self, list: usize, seed: &mut u32) -> Vec<usize> {
        self.calls.borrow_mut().push(ApiCall::GetFavoritesSnapshot(list));
        *seed = 3;
        self.snapshot.clone()
    }

    fn get_item_display_name(&self, item: usize) -> Option<String> {
        self.calls.borrow_mut().push(ApiCall::GetItemDisplayName(item));
        self.names[item - 1].clone()
    }

    fn get_item_url(&self, item: usize) -> Option<String> {
        self.calls.borrow_mut().push(ApiCall::GetItemUrl(item));
        self.urls[item - 1].clone()
    }
}

#[test]
fn the_sidebar_lists_what_the_system_holds() {
    let expected = vec![SidebarItem::applications(), SidebarItem::airdrop()];
    let recorder = ApiCallRecorder::with_entries(&[
        ("Applications", "file:///Applications"),
        ("AirDrop", "nwnode://domain-AirDrop"),
    ]);
    let sidebar = Sidebar::with_api(&recorder);

    let items = sidebar.list_items().expect("Failed to list items");

    assert_eq!(expected, items);
    assert_eq!(
        recorder.calls(),
        vec![
            ApiCall::CreateFavoritesList,
            ApiCall::GetFavoritesSnapshot(1),
            ApiCall::GetItemDisplayName(1),
            ApiCall::GetItemUrl(1),
            ApiCall::GetItemDisplayName(2),
            ApiCall::GetItemUrl(2),
        ]
    );
}

#[test]
fn the_section_of_favorites_lists_the_same() {
    let recorder = ApiCallRecorder::with_entries(&[("Tools", "file:///opt/tools")]);
    let sidebar = Sidebar::with_api(&recorder);
    let expected = vec![SidebarItem::new("Tools", MacOsPath::Custom("/opt/tools".to_string()))];

    assert_eq!(sidebar.favorites().list_items().unwrap(), expected);
    assert_eq!(sidebar.favorites().iter(), expected);
    assert_eq!(SidebarApi::new(&recorder).list_favorite_items().unwrap(), expected);
}

#[test]
fn without_a_list_the_sidebar_fails_and_the_section_is_empty() {
    let mut recorder = ApiCallRecorder::with_entries(&[("Tools", "file:///opt/tools")]);
    recorder.list = 0;
    let sidebar = Sidebar::with_api(&recorder);

    let error = sidebar.list_items().unwrap_err();

    assert!(matches!(
        error,
        Error::GetFavoritesList { reason: "system returned null favorites list" }
    ));
    assert_eq!(
        error.to_string(),
        "Failed to get favorites list: system returned null favorites list"
    );
    assert_eq!(recorder.calls(), vec![ApiCall::CreateFavoritesList]);
    assert_eq!(sidebar.favorites().iter(), vec![]);
}

#[test]
fn an_item_that_cannot_be_read_is_left_out() {
    let mut recorder = ApiCallRecorder::with_entries(&[
        ("No name", "file:///opt/a"),
        ("No URL", "file:///opt/b"),
        ("Tools", "file:///opt/tools"),
        ("Last", "file:///opt/last"),
    ]);
    recorder.names[0] = None;
    recorder.urls[1] = None;
    recorder.snapshot = vec![1, 2, 0, 3, 4];
    let sidebar = Sidebar::with_api(&recorder);

    let items = sidebar.list_items().unwrap();

    assert_eq!(
        items,
        vec![
            SidebarItem::new("Tools", MacOsPath::Custom("/opt/tools".to_string())),
            SidebarItem::new("Last", MacOsPath::Custom("/opt/last".to_string())),
        ]
    );
    assert_eq!(
        recorder.calls(),
        vec![
            ApiCall::CreateFavoritesList,
            ApiCall::GetFavoritesSnapshot(1),
            ApiCall::GetItemDisplayName(1),
            ApiCall::GetItemDisplayName(2),
            ApiCall::GetItemUrl(2),
            ApiCall::GetItemDisplayName(3),
            ApiCall::GetItemUrl(3),
            ApiCall::GetItemDisplayName(4),
            ApiCall::GetItemUrl(4),
        ]
    );
}

#[test]
fn an_entry_needs_a_name_and_a_url() {
    let name = || Some("Tools".to_string());
    let url = || Some("file:///opt/tools".to_string());

    assert_eq!(
        entry_from(name(), url()).unwrap(),
        SidebarItem::new("Tools", MacOsPath::Custom("/opt/tools".to_string()))
    );
    assert_eq!(
        entry_from(Some(String::new()), Some("file:///Applications".to_string())).unwrap(),
        SidebarItem::new("", MacOsPath::Location(MacOsLocation::Applications))
    );
    assert!(matches!(
        entry_from(None, url()),
        Err(Error::GetDisplayName { reason: "system returned null display name" })
    ));
    assert!(matches!(
        entry_from(None, None),
        Err(Error::GetDisplayName { reason: "system returned null display name" })
    ));
    assert!(matches!(
        entry_from(name(), None),
        Err(Error::GetItemUrl { reason: "system returned null URL" })
    ));
}

#[test]
fn the_items_of_the_known_places_go_by_their_titles() {
    let cases = [
        (SidebarItem::applications(), "Applications", MacOsLocation::Applications),
        (SidebarItem::downloads(), "Downloads", MacOsLocation::Downloads),
        (SidebarItem::desktop(), "Desktop", MacOsLocation::Desktop),
        (SidebarItem::documents(), "Documents", MacOsLocation::Documents),
        (SidebarItem::home(), "Home", MacOsLocation::Home),
        (SidebarItem::airdrop(), "AirDrop", MacOsLocation::AirDrop),
        (SidebarItem::recents(), "Recents", MacOsLocation::Recents),
    ];
    for (item, name, location) in cases {
        assert_eq!(item.name(), name);
        assert_eq!(item.path(), &MacOsPath::Location(location));
    }
}

#[test]
fn an_item_reads_as_its_name_and_its_path() {
    assert_eq!(SidebarItem::applications().to_string(), "Applications (/Applications)");
    assert_eq!(SidebarItem::airdrop().to_string(), "AirDrop (nwnode://domain-AirDrop)");
    let item = SidebarItem::new("Tools", MacOsPath::Custom("/opt/tools".to_string()));
    assert_eq!(item.to_string(), "Tools (/opt/tools)");
    assert_eq!(item.name(), "Tools");
    assert_eq!(item.path(), &MacOsPath::Custom("/opt/tools".to_string()));
}

#[test]
fn a_builder_needs_a_path() {
    let error = SidebarItem::builder().name("Tools").build().unwrap_err();
    assert!(matches!(&error, Error::InvalidPath { path } if path == "<no path>"));
    assert_eq!(
        error.to_string(),
        "Invalid path '<no path>': must be an absolute path that exists"
    );
    assert!(SidebarItemBuilder::new().build().is_err());
}

#[test]
fn a_builder_names_the_item_after_its_path_unless_told() {
    let path = || MacOsPath::Custom("/opt/tools".to_string());
    assert_eq!(
        SidebarItem::builder().path(path()).build().unwrap(),
        SidebarItem::new("tools", path())
    );
    assert_eq!(
        SidebarItem::builder().path(path()).name("Tools").build().unwrap(),
        SidebarItem::new("Tools", path())
    );
    assert_eq!(
        SidebarItem::builder().name("Tools").path(path()).build().unwrap(),
        SidebarItem::new("Tools", path())
    );
    assert_eq!(
        SidebarItem::builder().path(MacOsPath::Custom("/".to_string())).build().unwrap(),
        SidebarItem::new("Unknown", MacOsPath::Custom("/".to_string()))
    );
    assert_eq!(
        SidebarItem::builder().name("Mine").location(MacOsLocation::Documents).build().unwrap(),
        SidebarItem::documents()
    );
    assert_eq!(
        SidebarItem::builder().location(MacOsLocation::Home).name("Mine").build().unwrap(),
        SidebarItem::new("Mine", MacOsPath::Location(MacOsLocation::Home))
    );
}

#[test]
fn an_item_is_made_of_a_url_and_maybe_a_name() {
    let item = SidebarItem::try_from((
        CFURLWrapper::from("file:///opt/tools"),
        Some("Tools".to_string()),
    ))
    .unwrap();
    assert_eq!(item, SidebarItem::new("Tools", MacOsPath::Custom("/opt/tools".to_string())));

    let item = SidebarItem::try_from((CFURLWrapper::from("file:///opt/tools"), None)).unwrap();
    assert_eq!(item, SidebarItem::new("tools", MacOsPath::Custom("/opt/tools".to_string())));

    let item = SidebarItem::try_from((CFURLWrapper::from("file:///Applications"), None)).unwrap();
    assert_eq!(item, SidebarItem::applications());
}

#[test]
fn each_error_has_its_message() {
    assert_eq!(
        Error::UrlConversion { url: "x y".to_string() }.to_string(),
        "Failed to convert URL 'x y' to a valid path"
    );
    assert_eq!(
        Error::InvalidPath { path: "relative".to_string() }.to_string(),
        "Invalid path 'relative': must be an absolute path that exists"
    );
    assert_eq!(
        Error::CoreFoundation { kind: CoreFoundationErrorKind::NullPointer }.to_string(),
        "Core Foundation operation failed: unexpected null pointer"
    );
    assert_eq!(
        Error::CoreFoundation { kind: CoreFoundationErrorKind::InvalidReference }.to_string(),
        "Core Foundation operation failed: invalid Core Foundation reference"
    );
    assert_eq!(
        Error::CoreFoundation { kind: CoreFoundationErrorKind::ConversionFailed }.to_string(),
        "Core Foundation operation failed: type conversion failed"
    );
    assert_eq!(
        Error::GetFavoritesList { reason: "none" }.to_string(),
        "Failed to get favorites list: none"
    );
    assert_eq!(
        Error::GetDisplayName { reason: "none" }.to_string(),
        "Failed to get display name for item: none"
    );
    assert_eq!(Error::GetItemUrl { reason: "none" }.to_string(), "Failed to get URL for item: none");
    assert_eq!(CoreFoundationErrorKind::NullPointer.to_string(), "unexpected null pointer");
}
