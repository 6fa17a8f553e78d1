use pinple_pc_agent::sync::update_check::{check_interval, forced_update_blocks_tracking, is_well_formed_version, update_os_name, version_lt};

#[test]
fn lt_basic() {
    assert!(version_lt("0.1.0", "0.2.0"));
    assert!(version_lt("0.1.0", "1.0.0"));
    assert!(!version_lt("1.0.0", "0.9.9"));
    assert!(!version_lt("1.0.0", "1.0.0"));
}

#[test]
fn lt_pads_shorter_versions() {
    assert!(!version_lt("1.0", "1.0.0"));
    assert!(version_lt("1.0", "1.0.1"));
    assert!(version_lt("1.9", "1.10"));
}

#[test]
fn lt_malformed_versions_are_never_older() {
    assert!(!version_lt("abc", "1.0.0"));
    assert!(!version_lt("1.0.0", "abc"));
    assert!(!version_lt("1.x.2", "1.3"));
    assert!(!version_lt("", ""));
    assert!(!version_lt("", "0.0.1"));
    assert!(!version_lt("+1.2", "1.10"));
    assert!(!version_lt("1..2", "1.3"));
    assert!(!version_lt("1.2.", "1.3"));
    assert!(!version_lt("4294967296", "5000000000"));
    assert!(is_well_formed_version("0.1.0"));
    assert!(!is_well_formed_version("1.x"));
    assert!(!forced_update_blocks_tracking(true, "dev", "0.2.0"));
}

#[test]
fn lt_is_irreflexive_and_asymmetric_on_samples() {
    let vs = ["0.1.0", "0.2", "1.0.0", "1.0.1", "10.0", "2.9.9"];
    for a in vs.iter() {
        assert!(!version_lt(a, a));
        for b in vs.iter() {
            assert!(!(version_lt(a, b) && version_lt(b, a)));
        }
    }
}

#[test]
fn forced_update_gate() {
    assert!(forced_update_blocks_tracking(true, "0.1.0", "0.2.0"));
    assert!(!forced_update_blocks_tracking(false, "0.1.0", "0.2.0"));
    assert!(!forced_update_blocks_tracking(true, "0.2.0", "0.2.0"));
    assert_eq!(check_interval(10), 3600);
    assert_eq!(check_interval(43200), 43200);
}

#[test]
fn update_request_os() {
    assert_eq!(update_os_name(true), "windows");
    assert_eq!(update_os_name(false), "macos");
}
