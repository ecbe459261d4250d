use scriba::update::{
    check_release, offer_release, tries_homebrew, update_url, version_newer, Platform,
};

#[test]
fn versions_are_ordered() {
    assert!(version_newer("0.26.0", "0.25.9"));
    assert!(version_newer("0.100.0", "0.99.0"));
    assert!(version_newer("1.0.1", "1.0"));
    assert!(!version_newer("1.0", "1.0"));
    assert!(!version_newer("1.0", "1.0.1"));
    assert!(!version_newer("0.9", "0.10"));
    // A part that is no number is left out.
    assert!(!version_newer("1.x.2", "1.2"));
    assert!(version_newer("1.2.beta.3", "1.2.1"));
}

#[test]
fn a_release_is_newer_than_its_prereleases() {
    assert!(!version_newer("1.2.0-rc.1", "1.2.0"));
    assert!(version_newer("1.2.0", "1.2.0-rc.1"));
    assert!(version_newer("1.2.0", "1.2.0-rc1"));
    assert!(!version_newer("1.2.0-rc1", "1.2.0"));
    assert!(version_newer("1.2.1-rc.1", "1.2.0"));
    assert!(version_newer("1.2.0-rc.1", "1.1.9"));
    assert!(!version_newer("1.2.0-rc.1", "1.2.0-rc.1"));
}

#[test]
fn prereleases_are_ordered_by_their_identifiers() {
    let order = [
        "1.0.0-alpha", "1.0.0-alpha.1", "1.0.0-alpha.beta", "1.0.0-beta", "1.0.0-beta.2",
        "1.0.0-beta.11", "1.0.0-rc.1", "1.0.0",
    ];
    for i in 0..order.len() {
        for j in 0..order.len() {
            assert_eq!(version_newer(order[i], order[j]), i > j);
        }
    }
}

#[test]
fn build_metadata_makes_no_difference() {
    assert!(!version_newer("1.2.0+build.5", "1.2.0"));
    assert!(!version_newer("1.2.0", "1.2.0+build.5"));
    assert!(version_newer("1.2.0+a-b", "1.2.0-rc.1"));
}

#[test]
fn a_release_is_offered_if_it_is_newer() {
    assert_eq!(offer_release(&Some("v1.2.0".into()), "1.1.9"), Some("1.2.0".to_string()));
    assert_eq!(offer_release(&Some("1.2.0".into()), "1.2.0"), None);
    assert_eq!(offer_release(&None, "1.2.0"), None);
    assert_eq!(offer_release(&Some("v1.2.0-rc.1".into()), "1.2.0"), None);
    assert_eq!(offer_release(&Some("v1.2.0".into()), "1.2.0-rc1"), Some("1.2.0".to_string()));
}

#[test]
fn a_release_is_read_from_json() {
    let body = br#"{"name": "x", "tag_name": "v2.0.0"}"#.to_vec();
    assert_eq!(check_release(&body, "1.9.9"), Some("2.0.0".to_string()));
    assert_eq!(check_release(&body, "2.0.0"), None);
    assert_eq!(check_release(&b"{\"tag_name\": 7}".to_vec(), "1.0"), None);
    assert_eq!(check_release(&b"not json".to_vec(), "1.0"), None);
}

#[test]
fn the_binary_has_an_address() {
    assert_eq!(
        update_url("1.2.3", Platform::Linux),
        Some(
            "https://github.com/giovannialberto/scriba/releases/download/v1.2.3/scriba-x86_64-unknown-linux-gnu"
                .to_string()
        )
    );
    assert_eq!(
        update_url("v1.2.3", Platform::MacArm),
        Some(
            "https://github.com/giovannialberto/scriba/releases/download/v1.2.3/scriba-aarch64-apple-darwin"
                .to_string()
        )
    );
    assert_eq!(update_url("1.2.3", Platform::Windows), None);
    assert!(tries_homebrew(Platform::MacIntel) && !tries_homebrew(Platform::Linux));
}
