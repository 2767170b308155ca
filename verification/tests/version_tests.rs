use skyline_update::version::{decode_version, newer_version};

#[test]
fn decode_accepts_plain_versions() {
    assert_eq!(decode_version("1.0.0"), Some("1.0.0".to_string()));
    assert_eq!(decode_version("0.9.0"), Some("0.9.0".to_string()));
}

#[test]
fn decode_round_trips_prerelease_and_build() {
    let decoded = decode_version("1.2.3-alpha.1+build.5").expect("valid version");
    assert_eq!(decoded, "1.2.3-alpha.1+build.5");
    // Writing the decoded version out and reading it back reproduces it.
    assert_eq!(decode_version(&decoded), Some(decoded.clone()));
}

#[test]
fn decode_rejects_invalid_versions() {
    assert_eq!(decode_version(""), None);
    assert_eq!(decode_version("not a version"), None);
    assert_eq!(decode_version("1.0"), None);
    assert_eq!(decode_version("1.01.0"), None);
}

#[test]
fn newer_version_orders_by_precedence() {
    assert!(newer_version("0.9.0", "1.0.0"));
    assert!(!newer_version("1.0.0", "0.9.0"));
    assert!(!newer_version("1.0.0", "1.0.0"));
    assert!(newer_version("1.5.0", "1.19.0"));
    // A pre-release precedes its release.
    assert!(newer_version("1.0.0-alpha.1", "1.0.0"));
    assert!(!newer_version("1.0.0", "1.0.0-alpha.1"));
    // Numeric pre-release identifiers compare numerically.
    assert!(newer_version("1.0.0-pre.8", "1.0.0-pre.12"));
}

#[test]
fn newer_version_is_false_on_invalid_input() {
    assert!(!newer_version("bogus", "1.0.0"));
    assert!(!newer_version("1.0.0", "bogus"));
}
