use favkit::finder::Target;
use favkit::system::favorites::{DisplayName, FavoriteItem, MacOsUrl, TargetUrl, Url};

const AIRDROP: &str = "nwnode://domain-AirDrop";
const RECENTS: &str = "file:///System/Library/CoreServices/Finder.app/Contents/Resources/MyLibraries/myDocuments.cannedSearch/";
const APPLICATIONS: &str = "file:///Applications/";

fn create_url(path: &str) -> Url {
    Url::try_from(Some(path.to_string())).unwrap()
}

fn create_display_name(name: &str) -> DisplayName {
    DisplayName::try_from(Some(name.to_string())).unwrap()
}

#[test]
fn item_should_convert_airdrop_url() {
    let target = Target::from(FavoriteItem::new(
        create_url(AIRDROP),
        create_display_name("AirDrop"),
    ));
    assert_eq!(target, Target::AirDrop);
}

#[test]
fn item_should_convert_recents_url() {
    let target = Target::from(FavoriteItem::new(
        create_url(RECENTS),
        create_display_name("Recents"),
    ));
    assert_eq!(target, Target::Recents);
}

#[test]
fn item_should_convert_applications_url() {
    let target = Target::from(FavoriteItem::new(
        create_url(APPLICATIONS),
        create_display_name("Applications"),
    ));
    assert_eq!(target, Target::Applications);
}

#[test]
fn item_should_convert_downloads_url() {
    let target = Target::from(FavoriteItem::new(
        create_url("file:///Users/user/Downloads/"),
        create_display_name("Downloads"),
    ));
    assert_eq!(target, Target::Downloads);
}

#[test]
fn item_should_convert_desktop_url() {
    let target = Target::from(FavoriteItem::new(
        create_url("file:///Users/user/Desktop/"),
        create_display_name("Desktop"),
    ));
    assert_eq!(target, Target::Desktop);
}

#[test]
fn item_should_convert_custom_url() {
    let target = Target::from(FavoriteItem::new(
        create_url("file:///Users/user/Documents/"),
        create_display_name("Documents"),
    ));
    assert_eq!(
        target,
        Target::Custom {
            label: "Documents".to_string(),
            path: "/Users/user/Documents".to_string(),
        }
    );
}

#[test]
fn should_not_recognize_deep_downloads_path_as_downloads() {
    let target = Target::from(FavoriteItem::new(
        create_url("file:///Users/user/Projects/Downloads/"),
        create_display_name("Downloads"),
    ));
    assert!(matches!(target, Target::Custom { .. }));
}

#[test]
fn should_format_favorite_item() {
    let item = FavoriteItem::new(
        create_url("file:///Users/user/Documents/"),
        create_display_name("Documents"),
    );
    assert_eq!(
        format!("{}", item.to_string()),
        "Documents -> file:///Users/user/Documents/"
    );
}

#[test]
fn url_mapper_should_convert_airdrop_url() {
    let target = Target::from(TargetUrl(
        create_url(AIRDROP),
        create_display_name("AirDrop"),
    ));
    assert_eq!(target, Target::AirDrop);
}

#[test]
fn url_mapper_should_convert_recents_url() {
    let target = Target::from(TargetUrl(
        create_url(RECENTS),
        create_display_name("Recents"),
    ));
    assert_eq!(target, Target::Recents);
}

#[test]
fn url_mapper_should_convert_applications_url() {
    let target = Target::from(TargetUrl(
        create_url(APPLICATIONS),
        create_display_name("Applications"),
    ));
    assert_eq!(target, Target::Applications);
}

#[test]
fn url_mapper_should_convert_downloads_url() {
    let target = Target::from(TargetUrl(
        create_url("file:///Users/user/Downloads/"),
        create_display_name("Downloads"),
    ));
    assert_eq!(target, Target::Downloads);
}

#[test]
fn url_mapper_should_convert_desktop_url() {
    let target = Target::from(TargetUrl(
        create_url("file:///Users/user/Desktop/"),
        create_display_name("Desktop"),
    ));
    assert_eq!(target, Target::Desktop);
}

#[test]
fn a_url_with_its_name_gives_the_target_of_the_favorite() {
    let target = Target::from(TargetUrl(
        create_url("file:///Users/user/Documents/"),
        create_display_name("Documents"),
    ));
    assert_eq!(target, Target::custom("Documents", "/Users/user/Documents"));
}

#[test]
fn the_kind_of_a_url_comes_from_its_text() {
    assert_eq!(MacOsUrl::from(create_url(AIRDROP)), MacOsUrl::AirDrop);
    assert_eq!(
        MacOsUrl::from(create_url("file:///Users/user/Documents/")),
        MacOsUrl::Custom("/Users/user/Documents".to_string())
    );
}
