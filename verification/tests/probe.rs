use evectl::probe::{
    parse_version_triple, podman_version_ok, probe_docker, probe_podman, ProbeError,
};

#[test]
fn semver_components_are_read() {
    assert_eq!(parse_version_triple("4.5.9"), Some((4, 5, 9)));
    assert_eq!(parse_version_triple("5.0.0"), Some((5, 0, 0)));
    assert_eq!(parse_version_triple("not-a-version"), None);
}

#[test]
fn podman_below_minimum_is_refused() {
    let r = probe_podman(true, &Some("4.5.9".to_string()));
    assert_eq!(r.unwrap_err(), ProbeError::VersionTooOld);
}

#[test]
fn podman_at_minimum_is_accepted() {
    let r = probe_podman(true, &Some("4.6.0".to_string()));
    assert!(r.unwrap().is_podman());
}

#[test]
fn podman_newer_major_is_accepted() {
    let r = probe_podman(true, &Some("5.2.1".to_string()));
    assert!(r.unwrap().is_podman());
}

#[test]
fn podman_unparseable_version_is_refused() {
    let r = probe_podman(true, &Some("whatever".to_string()));
    assert_eq!(r.unwrap_err(), ProbeError::UnparseableVersion);
}

#[test]
fn podman_missing_binary_is_refused() {
    let r = probe_podman(false, &Some("5.0.0".to_string()));
    assert_eq!(r.unwrap_err(), ProbeError::NotFound);
}

#[test]
fn podman_version_query_failure_is_refused() {
    let r = probe_podman(true, &None);
    assert_eq!(r.unwrap_err(), ProbeError::NoVersion);
}

#[test]
fn version_gate_boundaries() {
    assert!(!podman_version_ok(4, 5));
    assert!(podman_version_ok(4, 6));
    assert!(podman_version_ok(5, 0));
    assert!(!podman_version_ok(3, 9));
}

#[test]
fn docker_accepts_any_parseable_version() {
    assert!(probe_docker(true, &Some("24.0.7".to_string())));
    assert!(!probe_docker(true, &None));
    assert!(!probe_docker(false, &Some("24.0.7".to_string())));
}
