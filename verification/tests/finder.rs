use std::cell::RefCell;

use favkit::finder::{Finder, FinderError, Result, SidebarItem, Target};
use favkit::system::favorites::{favorite_from, DisplayName, FavoritesError, Url};
use favkit::system::MacOsApi;

const AIRDROP_URL: &str = "nwnode://domain-AirDrop";
const RECENTS_LABEL: &str = "Recents";
const RECENTS_URL: &str = "file:///System/Library/CoreServices/Finder.app/Contents/Resources/MyLibraries/myDocuments.cannedSearch/";
const APPLICATIONS_LABEL: &str = "Applications";
const APPLICATIONS_URL: &str = "file:///Applications/";
const PROJECTS_LABEL: &str = "Projects";
const PROJECTS_PATH: &str = "/Users/user/Projects";
const PROJECTS_URL: &str = "file:///Users/user/Projects/";

#[derive(Debug, Clone, PartialEq)]
enum Call {
    Create,
    CopySnapshot(usize),
    CopyDisplayName(usize),
    CopyResolvedUrl(usize, u32),
}

/// A system that answers from a table: entry `n` of the snapshot has the
/// address `n`, counted from 1, unless another snapshot is given.
struct MockApi {
    list: usize,
    snapshot: Option<Vec<usize>>,
    names: Vec<Option<String>>,
    urls: Vec<Option<String>>,
    calls: RefCell<Vec<Call>>,
}

impl MockApi {
    fn with_null_favorites() -> Self {
        MockApi { list: 0, snapshot: None, names: vec![], urls: vec![], calls: RefCell::new(vec![]) }
    }

    fn with_null_snapshot() -> Self {
        MockApi { list: 1, snapshot: None, names: vec![], urls: vec![], calls: RefCell::new(vec![]) }
    }

    fn with_items(items: &[(Option<&str>, &str)]) -> Self {
        MockApi {
            list: 1,
            snapshot: Some((1..=items.len()).collect()),
            names: items
                .iter()
                .map(|(name, _)| Some(name.unwrap_or_default().to_string()))
                .collect(),
            urls: items.iter().map(|(_, url)| Some(url.to_string())).collect(),
            calls: RefCell::new(vec![]),
        }
    }

    fn calls(&self) -> Vec<Call> {
        self.calls.borrow().clone()
    }
}

impl MacOsApi for &MockApi {
    fn ls_shared_file_list_create(&self) -> usize {
        self.calls.borrow_mut().push(Call::Create);
        self.list
    }

    fn ls_shared_file_list_copy_snapshot(&self, list: usize, seed: &mut u32) -> Option<Vec<usize>> {
        self.calls.borrow_mut().push(Call::CopySnapshot(list));
        *seed = 17;
        self.snapshot.clone()
    }

    fn ls_shared_file_list_item_copy_display_name(&self, item: usize) -> Option<String> {
        self.calls.borrow_mut().push(Call::CopyDisplayName(item));
        self.names[item - 1].clone()
    }

    fn ls_shared_file_list_item_copy_resolved_url(&self, item: usize, flags: u32) -> Option<String> {
        self.calls.borrow_mut().push(Call::CopyResolvedUrl(item, flags));
        self.urls[item - 1].clone()
    }
}

fn items(targets: Vec<Target>) -> Vec<SidebarItem> {
    targets.into_iter().map(SidebarItem::new).collect()
}

#[test]
fn should_fail_when_list_handle_is_null() -> Result<()> {
    let expected_error = Err(FinderError::AccessError(FavoritesError::NullListHandle));
    let mock = MockApi::with_null_favorites();
    let finder = Finder::new(&mock);

    let result = finder.get_favorites_list();

    assert_eq!(result, expected_error);
    assert_eq!(mock.calls(), vec![Call::Create]);
    Ok(())
}

#[test]
fn should_fail_when_snapshot_handle_is_null() -> Result<()> {
    let expected_error = Err(FinderError::AccessError(FavoritesError::NullSnapshotHandle));
    let mock = MockApi::with_null_snapshot();
    let finder = Finder::new(&mock);

    let result = finder.get_favorites_list();

    assert_eq!(result, expected_error);
    assert_eq!(mock.calls(), vec![Call::Create, Call::CopySnapshot(1)]);
    Ok(())
}

#[test]
fn should_return_empty_list_when_no_favorites() -> Result<()> {
    let expected_result = items(vec![]);
    let mock = MockApi::with_items(&[]);
    let finder = Finder::new(&mock);

    let result = finder.get_favorites_list();

    assert_eq!(result, Ok(expected_result));
    Ok(())
}

#[test]
fn should_handle_airdrop_item() -> Result<()> {
    let expected_result = items(vec![Target::AirDrop]);
    let mock = MockApi::with_items(&[(None, AIRDROP_URL)]);
    let finder = Finder::new(&mock);

    let result = finder.get_favorites_list();

    assert_eq!(result, Ok(expected_result));
    Ok(())
}

#[test]
fn should_handle_recents_item() -> Result<()> {
    let expected_result = items(vec![Target::Recents]);
    let mock = MockApi::with_items(&[(Some(RECENTS_LABEL), RECENTS_URL)]);
    let finder = Finder::new(&mock);

    let result = finder.get_favorites_list();

    assert_eq!(result, Ok(expected_result));
    Ok(())
}

#[test]
fn should_handle_applications_item() -> Result<()> {
    let expected_result = items(vec![Target::Applications]);
    let mock = MockApi::with_items(&[(Some(APPLICATIONS_LABEL), APPLICATIONS_URL)]);
    let finder = Finder::new(&mock);

    let result = finder.get_favorites_list();

    assert_eq!(result, Ok(expected_result));
    Ok(())
}

#[test]
fn should_handle_custom_location() -> Result<()> {
    let expected_result = items(vec![Target::custom(PROJECTS_LABEL, PROJECTS_PATH)]);
    let mock = MockApi::with_items(&[(Some(PROJECTS_LABEL), PROJECTS_URL)]);
    let finder = Finder::new(&mock);

    let result = finder.get_favorites_list();

    assert_eq!(result, Ok(expected_result));
    Ok(())
}

#[test]
fn should_handle_multiple_favorites() -> Result<()> {
    let expected_result = items(vec![
        Target::AirDrop,
        Target::Recents,
        Target::Applications,
        Target::custom(PROJECTS_LABEL, PROJECTS_PATH),
    ]);
    let mock = MockApi::with_items(&[
        (None, AIRDROP_URL),
        (Some(RECENTS_LABEL), RECENTS_URL),
        (Some(APPLICATIONS_LABEL), APPLICATIONS_URL),
        (Some(PROJECTS_LABEL), PROJECTS_URL),
    ]);
    let finder = Finder::new(&mock);

    let result = finder.get_favorites_list();

    assert_eq!(result, Ok(expected_result));
    Ok(())
}

#[test]
fn three_favorites_come_out_in_the_order_of_the_snapshot() {
    let mock = MockApi::with_items(&[
        (None, "nwnode://domain-AirDrop"),
        (Some("Applications"), "file:///Applications/"),
        (Some("Projects"), "file:///Users/bob/Projects/"),
    ]);
    let finder = Finder::new(&mock);

    let result = finder.get_favorites_list();

    assert_eq!(
        result,
        Ok(items(vec![
            Target::AirDrop,
            Target::Applications,
            Target::Custom {
                label: "Projects".to_string(),
                path: "/Users/bob/Projects".to_string(),
            },
        ]))
    );
}

#[test]
fn each_entry_is_asked_for_its_name_and_then_for_its_url_without_flags() {
    let mock = MockApi::with_items(&[
        (Some("Applications"), "file:///Applications/"),
        (Some("Downloads"), "file:///Users/user/Downloads/"),
    ]);
    let finder = Finder::new(&mock);

    let result = finder.get_favorites_list();

    assert_eq!(result, Ok(items(vec![Target::Applications, Target::Downloads])));
    assert_eq!(
        mock.calls(),
        vec![
            Call::Create,
            Call::CopySnapshot(1),
            Call::CopyDisplayName(1),
            Call::CopyResolvedUrl(1, 0),
            Call::CopyDisplayName(2),
            Call::CopyResolvedUrl(2, 0),
        ]
    );
}

#[test]
fn there_is_one_favorite_for_each_entry() {
    for count in [0usize, 1, 2, 5, 40] {
        let entries: Vec<(Option<&str>, &str)> =
            (0..count).map(|_| (Some("Music"), "file:///Users/user/Music/")).collect();
        let mock = MockApi::with_items(&entries);
        let finder = Finder::new(&mock);
        assert_eq!(finder.get_favorites_list().unwrap().len(), count);
    }
}

#[test]
fn a_missing_url_fails_the_whole_listing_and_ends_the_questions() {
    let mut mock = MockApi::with_items(&[
        (Some("Applications"), APPLICATIONS_URL),
        (Some("Gone"), "file:///Users/user/Gone/"),
        (Some("Projects"), PROJECTS_URL),
    ]);
    mock.urls[1] = None;
    let finder = Finder::new(&mock);

    let result = finder.get_favorites_list();

    assert_eq!(result, Err(FinderError::AccessError(FavoritesError::NullUrlHandle)));
    assert_eq!(
        mock.calls(),
        vec![
            Call::Create,
            Call::CopySnapshot(1),
            Call::CopyDisplayName(1),
            Call::CopyResolvedUrl(1, 0),
            Call::CopyDisplayName(2),
            Call::CopyResolvedUrl(2, 0),
        ]
    );
}

#[test]
fn a_missing_or_empty_name_is_no_error() {
    let mut mock = MockApi::with_items(&[
        (Some("Projects"), PROJECTS_URL),
        (Some(""), PROJECTS_URL),
        (Some("Applications"), APPLICATIONS_URL),
    ]);
    mock.names[0] = None;
    mock.names[2] = None;
    let finder = Finder::new(&mock);

    let result = finder.get_favorites_list();

    assert_eq!(
        result,
        Ok(items(vec![
            Target::custom("", PROJECTS_PATH),
            Target::custom("", PROJECTS_PATH),
            Target::Applications,
        ]))
    );
}

#[test]
fn the_listing_reads_up_to_the_first_null_entry() {
    let mut mock = MockApi::with_items(&[
        (Some("Applications"), APPLICATIONS_URL),
        (Some("Projects"), PROJECTS_URL),
        (Some("Music"), "file:///Users/user/Music/"),
    ]);
    mock.snapshot = Some(vec![2, 0, 1]);
    let finder = Finder::new(&mock);

    let result = finder.get_favorites_list();

    assert_eq!(result, Ok(items(vec![Target::custom(PROJECTS_LABEL, PROJECTS_PATH)])));
    assert_eq!(
        mock.calls(),
        vec![
            Call::Create,
            Call::CopySnapshot(1),
            Call::CopyDisplayName(2),
            Call::CopyResolvedUrl(2, 0),
        ]
    );
}

#[test]
fn the_list_that_was_created_is_the_one_that_is_copied() {
    let mut mock = MockApi::with_items(&[]);
    mock.list = 4711;
    let finder = Finder::new(&mock);

    assert_eq!(finder.get_favorites_list(), Ok(vec![]));
    assert_eq!(mock.calls(), vec![Call::Create, Call::CopySnapshot(4711)]);
}

#[test]
fn a_favorite_is_made_of_what_was_read_of_its_entry() {
    let name = |text: &str| DisplayName::try_from(Some(text.to_string()));
    let url = |text: &str| Url::try_from(Some(text.to_string()));

    assert_eq!(
        favorite_from(name("Projects"), url(PROJECTS_URL)),
        Ok(SidebarItem::new(Target::custom("Projects", PROJECTS_PATH)))
    );
    assert_eq!(
        favorite_from(name(""), url(PROJECTS_URL)),
        Ok(SidebarItem::new(Target::custom("", PROJECTS_PATH)))
    );
    assert_eq!(
        favorite_from(DisplayName::try_from(None), url(PROJECTS_URL)),
        Ok(SidebarItem::new(Target::custom("", PROJECTS_PATH)))
    );
    assert_eq!(
        favorite_from(name("Downloads"), url("file:///Users/user/Downloads/")),
        Ok(SidebarItem::new(Target::Downloads))
    );
    assert_eq!(
        favorite_from(name("Projects"), Url::try_from(None)),
        Err(FinderError::AccessError(FavoritesError::NullUrlHandle))
    );
    assert_eq!(
        favorite_from(DisplayName::try_from(None), Url::try_from(None)),
        Err(FinderError::AccessError(FavoritesError::NullUrlHandle))
    );
}
