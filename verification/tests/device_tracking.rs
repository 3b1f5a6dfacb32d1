use gnirehtet::devices::DeviceTracker;

#[test]
fn reports_each_ready_device_once() {
    let mut tracker = DeviceTracker::new();
    let listing = b"List of devices attached\nemulator-5554\tdevice\n0123ABC\toffline\n\n".to_vec();
    assert_eq!(tracker.update(&listing), vec!["emulator-5554".to_string()]);
    assert_eq!(tracker.update(&listing), Vec::<String>::new());
    let listing = b"List of devices attached\nemulator-5554\tdevice\n0123ABC\tdevice\n\n".to_vec();
    assert_eq!(tracker.update(&listing), vec!["0123ABC".to_string()]);
}

#[test]
fn device_that_comes_back_is_reported_again() {
    let mut tracker = DeviceTracker::new();
    assert_eq!(tracker.update(&b"abc\tdevice\n".to_vec()), vec!["abc".to_string()]);
    assert_eq!(tracker.update(&b"".to_vec()), Vec::<String>::new());
    assert_eq!(tracker.update(&b"abc\tdevice".to_vec()), vec!["abc".to_string()]);
}

#[test]
fn unauthorized_and_malformed_lines_are_ignored() {
    let mut tracker = DeviceTracker::new();
    let listing = b"abc\tunauthorized\nno tab here device\nxyz\tdevice extra\n".to_vec();
    assert_eq!(tracker.update(&listing), Vec::<String>::new());
}
