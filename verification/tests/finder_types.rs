use favkit::finder::{DisplayName, FinderError, SidebarItem, Target};
use favkit::system::favorites::FavoritesError;

#[test]
fn should_convert_none_to_airdrop() {
    let name: Option<String> = None;
    assert_eq!(DisplayName::from(name), DisplayName::AirDrop);
}

#[test]
fn should_convert_some_to_custom() {
    let name = Some("Documents".to_string());
    assert_eq!(
        DisplayName::from(name),
        DisplayName::Custom("Documents".to_string())
    );
}

#[test]
fn should_create_sidebar_item_with_custom_target() {
    let item = SidebarItem::new(Target::custom("Projects", "/Users/user/Projects"));
    assert_eq!(format!("{}", item.to_string()), "Projects -> /Users/user/Projects");
}

#[test]
fn should_create_sidebar_item_with_airdrop() {
    let item = SidebarItem::new(Target::AirDrop);
    assert_eq!(format!("{}", item.to_string()), "AirDrop");
}

#[test]
fn should_create_sidebar_item_with_recents() {
    let item = SidebarItem::new(Target::Recents);
    assert_eq!(format!("{}", item.to_string()), "Recents");
}

#[test]
fn should_create_sidebar_item_with_applications() {
    let item = SidebarItem::new(Target::Applications);
    assert_eq!(format!("{}", item.to_string()), "Applications");
}

#[test]
fn should_create_sidebar_item_with_downloads() {
    let item = SidebarItem::new(Target::Downloads);
    assert_eq!(format!("{}", item.to_string()), "~/Downloads");
}

#[test]
fn should_create_sidebar_item_with_desktop() {
    let item = SidebarItem::new(Target::Desktop);
    assert_eq!(format!("{}", item.to_string()), "~/Desktop");
}

#[test]
fn a_custom_target_with_empty_texts_renders_as_the_arrow_alone() {
    let item = SidebarItem::new(Target::custom("", ""));
    assert_eq!(item.to_string(), " -> ");
}

#[test]
fn custom_keeps_label_and_path() {
    assert_eq!(
        Target::custom("Projects", "/Users/user/Projects"),
        Target::Custom {
            label: "Projects".to_string(),
            path: "/Users/user/Projects".to_string(),
        }
    );
}

#[test]
fn a_finder_error_wraps_its_cause() {
    assert_eq!(
        FinderError::from(FavoritesError::NullUrlHandle),
        FinderError::AccessError(FavoritesError::NullUrlHandle)
    );
    assert_eq!(
        FinderError::AccessError(FavoritesError::NullListHandle).to_string(),
        "failed to access Finder favorites: failed to create favorites list: null handle"
    );
}

#[test]
fn each_favorites_error_has_its_message() {
    assert_eq!(
        FavoritesError::NullListHandle.to_string(),
        "failed to create favorites list: null handle"
    );
    assert_eq!(
        FavoritesError::NullSnapshotHandle.to_string(),
        "failed to create snapshot: null handle"
    );
    assert_eq!(FavoritesError::NullUrlHandle.to_string(), "failed to resolve URL: null handle");
    assert_eq!(
        FavoritesError::NullDisplayNameHandle.to_string(),
        "failed to get display name: null handle"
    );
}
