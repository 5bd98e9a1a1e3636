use db_store::platform::{data_root, get_platform, Platform};

#[test]
fn windows_is_recognised() {
    assert_eq!(get_platform("windows"), Platform::Windows);
}

#[test]
fn linux_is_recognised() {
    assert_eq!(get_platform("linux"), Platform::Linux);
}

#[test]
fn every_other_name_is_unknown() {
    assert_eq!(get_platform("macos"), Platform::Unknown);
    assert_eq!(get_platform("freebsd"), Platform::Unknown);
    assert_eq!(get_platform("unknown"), Platform::Unknown);
    assert_eq!(get_platform(""), Platform::Unknown);
}

#[test]
fn names_are_matched_exactly() {
    assert_eq!(get_platform("Windows"), Platform::Unknown);
    assert_eq!(get_platform("linux "), Platform::Unknown);
    assert_eq!(get_platform("linu"), Platform::Unknown);
    assert_eq!(get_platform("windows10"), Platform::Unknown);
}

#[test]
fn data_root_is_what_the_system_offers() {
    assert_eq!(data_root(Platform::Linux), dirs::data_dir());
    assert_eq!(data_root(Platform::Windows), dirs::data_dir());
}

#[test]
fn data_root_is_not_looked_up_on_other_platforms() {
    assert_eq!(data_root(Platform::Unknown), None);
}
