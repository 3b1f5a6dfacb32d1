use gnirehtet::client::must_install_client;

#[test]
fn required_version_installed() {
    let dumpsys = "Packages:\n  Package [com.genymobile.gnirehtet] (1234):\n    userId=10085\n    versionCode=6 minSdk=21 targetSdk=28\n    versionName=2.5\n";
    assert!(!must_install_client(dumpsys));
}

#[test]
fn older_version_installed() {
    let dumpsys = "  Package [com.genymobile.gnirehtet]:\n    versionCode=5 minSdk=21 targetSdk=28\n";
    assert!(must_install_client(dumpsys));
}

#[test]
fn version_with_more_digits() {
    assert!(must_install_client("    versionCode=66 minSdk=21\n"));
    assert!(must_install_client("    versionCode=16 minSdk=21\n"));
}

#[test]
fn client_not_installed() {
    assert!(must_install_client(""));
    assert!(must_install_client("Unable to find package: com.genymobile.gnirehtet\n"));
}

#[test]
fn version_code_without_following_space() {
    assert!(must_install_client("    versionCode=6"));
    assert!(must_install_client("    versionCode=6\n"));
}

#[test]
fn only_the_first_version_code_counts() {
    assert!(!must_install_client("    versionCode=6 a\n    versionCode=5 b\n"));
    assert!(must_install_client("    versionCode=5 a\n    versionCode=6 b\n"));
}

#[test]
fn marker_needs_four_spaces() {
    assert!(must_install_client("   versionCode=6 minSdk=21\n"));
    assert!(!must_install_client("     versionCode=6 minSdk=21\n"));
}
