use risc0_zkvm::{
    affirmative, align_up, checked_dev_mode, get_version, is_dev_mode, requests_dev_mode,
    InconsistentDevMode, Version, GUEST_MAX_MEM, PAGE_SIZE, VERSION,
};

#[test]
fn version_is_the_one_of_the_crate() {
    assert_eq!(VERSION, "0.20.1");
    let version = get_version().unwrap();
    assert_eq!(
        version,
        Version { major: 0, minor: 20, patch: 1, pre: String::new(), build: String::new() }
    );
}

#[test]
fn platform_constants() {
    assert_eq!(PAGE_SIZE, 1024);
    assert_eq!(GUEST_MAX_MEM, 0x0C00_0000);
    assert_eq!(align_up(GUEST_MAX_MEM - 1, PAGE_SIZE), GUEST_MAX_MEM);
    assert_eq!(align_up(GUEST_MAX_MEM + 1, PAGE_SIZE), GUEST_MAX_MEM + PAGE_SIZE);
}

#[test]
fn dev_mode_is_requested_by_one_true_or_yes() {
    for value in ["1", "true", "yes", "TRUE", "True", "YES", "yEs"] {
        assert!(requests_dev_mode(Some(value)), "{}", value);
        assert!(is_dev_mode(Some(value), false), "{}", value);
        assert_eq!(checked_dev_mode(Some(value), false), Ok(true));
    }
}

#[test]
fn dev_mode_is_not_requested_otherwise() {
    for value in ["", "0", "false", "no", "on", "2", " true", "true ", "yes!", "11"] {
        assert!(!requests_dev_mode(Some(value)), "{}", value);
        assert!(!is_dev_mode(Some(value), false), "{}", value);
        assert!(!is_dev_mode(Some(value), true), "{}", value);
        assert_eq!(checked_dev_mode(Some(value), true), Ok(false));
    }
    assert!(!requests_dev_mode(None));
    assert!(!is_dev_mode(None, false));
    assert_eq!(checked_dev_mode(None, true), Ok(false));
    assert_eq!(checked_dev_mode(None, false), Ok(false));
}

#[test]
fn dev_mode_requested_where_disabled_is_inconsistent() {
    assert_eq!(checked_dev_mode(Some("1"), true), Err(InconsistentDevMode {}));
    assert_eq!(checked_dev_mode(Some("Yes"), true), Err(InconsistentDevMode {}));
}

#[test]
fn affirmative_words_are_compared_as_they_are() {
    assert!(affirmative(&"1".to_string()));
    assert!(affirmative(&"true".to_string()));
    assert!(affirmative(&"yes".to_string()));
    assert!(!affirmative(&"TRUE".to_string()));
    assert!(!affirmative(&"".to_string()));
}
