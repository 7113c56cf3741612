use cloudpilot_shim::platform::Platform;

#[test]
fn known_platforms() {
    assert_eq!(Platform::from_os_name("macos"), Platform::MacOS);
    assert_eq!(Platform::from_os_name("windows"), Platform::Windows);
    assert_eq!(Platform::from_os_name("linux"), Platform::Linux);
    assert_eq!(Platform::from_os_name("android"), Platform::Android);
}

#[test]
fn unknown_platforms() {
    assert_eq!(Platform::from_os_name("ios"), Platform::Unknown);
    assert_eq!(Platform::from_os_name("freebsd"), Platform::Unknown);
    assert_eq!(Platform::from_os_name(""), Platform::Unknown);
    assert_eq!(Platform::from_os_name("Linux"), Platform::Unknown);
    assert_eq!(Platform::from_os_name("linux "), Platform::Unknown);
}
