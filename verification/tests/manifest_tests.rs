use mcserverd::fetch::{Fetch, ResolveError};
use mcserverd::manifest::{
    Download, Downloads, Latest, Timestamp, Type, Version, VersionManifest, VersionMetadata,
    VERSION_MANIFEST_URL,
};

fn entry(id: &str, kind: Type) -> Version {
    Version {
        id: id.to_string(),
        kind,
        url: format!("https://example.invalid/{}.json", id),
        time: Timestamp { second: 1_700_000_000, nanosecond: 0 },
        release_time: Timestamp { second: 1_600_000_000, nanosecond: 5 },
        sha1: "da39a3ee5e6b4b0d3255bfef95601890afd80709".to_string(),
        compliance_level: 1,
    }
}

fn index() -> VersionManifest {
    VersionManifest {
        latest: Latest { release: "1.21.4".to_string(), snapshot: "25w03a".to_string() },
        versions: vec![
            entry("25w03a", Type::Snapshot),
            entry("1.21.4", Type::Release),
            entry("1.21.3", Type::Release),
            entry("b1.7.3", Type::OldBeta),
            entry("a1.0.4", Type::OldAlpha),
        ],
    }
}

#[test]
fn version_finds_an_entry_by_id() {
    let m = index();
    assert_eq!(m.version("1.21.3"), Some(entry("1.21.3", Type::Release)));
    assert_eq!(m.version("b1.7.3"), Some(entry("b1.7.3", Type::OldBeta)));
}

#[test]
fn version_is_none_for_an_unknown_id() {
    let m = index();
    assert_eq!(m.version("nonexistent-id-123"), None);
    assert_eq!(m.version(""), None);
    assert_eq!(m.version("1.21"), None);
}

#[test]
fn version_takes_the_first_of_two_entries_with_one_id() {
    let mut m = index();
    let mut second = entry("1.21.4", Type::Snapshot);
    second.compliance_level = 9;
    m.versions.push(second);
    assert_eq!(m.version("1.21.4"), Some(entry("1.21.4", Type::Release)));
    assert!(!m.has_unique_ids());
}

#[test]
fn unique_ids_are_recognised() {
    assert!(index().has_unique_ids());
    let empty = VersionManifest {
        latest: Latest { release: String::new(), snapshot: String::new() },
        versions: vec![],
    };
    assert!(empty.has_unique_ids());
}

#[test]
fn resolve_an_explicit_id() {
    let m = index();
    let found = Fetch::Version("1.21.3".to_string()).resolve(&m);
    assert_eq!(found, Ok(entry("1.21.3", Type::Release)));
}

#[test]
fn resolve_the_latest_release() {
    let m = index();
    let found = Fetch::Latest(Type::Release).resolve(&m);
    assert_eq!(found, Ok(entry("1.21.4", Type::Release)));
}

#[test]
fn resolve_twice_gives_the_same_entry() {
    let m = index();
    let selector = Fetch::Latest(Type::Release);
    let first = selector.resolve(&m);
    let second = selector.resolve(&m);
    assert_eq!(first, second);
    assert_eq!(first.unwrap().id, "1.21.4");
}

#[test]
fn resolve_an_unknown_id_is_not_found() {
    let m = index();
    let found = Fetch::Version("nonexistent-id-123".to_string()).resolve(&m);
    assert_eq!(found, Err(ResolveError::NotFound { id: "nonexistent-id-123".to_string() }));
}

#[test]
fn resolve_a_dangling_latest_pointer_is_an_invariant_violation() {
    let mut m = index();
    m.latest.release = "9.9.9".to_string();
    let found = Fetch::Latest(Type::Release).resolve(&m);
    assert_eq!(found, Err(ResolveError::InvariantViolation { id: "9.9.9".to_string() }));
}

#[test]
fn resolve_the_latest_of_other_channels_is_not_implemented() {
    let m = index();
    for kind in [Type::Snapshot, Type::OldBeta, Type::OldAlpha] {
        assert_eq!(Fetch::Latest(kind).resolve(&m), Err(ResolveError::NotImplemented { kind }));
    }
}

#[test]
fn resolve_on_an_empty_index() {
    let m = VersionManifest {
        latest: Latest { release: "1.0".to_string(), snapshot: "1.0".to_string() },
        versions: vec![],
    };
    assert_eq!(
        Fetch::Version("1.0".to_string()).resolve(&m),
        Err(ResolveError::NotFound { id: "1.0".to_string() })
    );
    assert_eq!(
        Fetch::Latest(Type::Release).resolve(&m),
        Err(ResolveError::InvariantViolation { id: "1.0".to_string() })
    );
}

#[test]
fn clones_are_equal() {
    let m = index();
    assert_eq!(m.latest.clone(), m.latest);
    assert_eq!(m.versions[2].clone(), m.versions[2]);
    let metadata = VersionMetadata {
        downloads: Downloads {
            server: Download {
                sha1: "a9993e364706816aba3e25717850c26c9cd0d89d".to_string(),
                size: 3,
                url: "https://example.invalid/server.jar".to_string(),
            },
        },
    };
    assert_eq!(metadata.clone(), metadata);
    assert_eq!(metadata.downloads.clone().server.size, 3);
}

#[test]
fn manifest_url() {
    assert_eq!(
        VERSION_MANIFEST_URL,
        "https://piston-meta.mojang.com/mc/game/version_manifest_v2.json"
    );
}

#[test]
fn download_digest_must_be_forty_lowercase_hex_digits() {
    let mut d = Download {
        sha1: "a9993e364706816aba3e25717850c26c9cd0d89d".to_string(),
        size: 3,
        url: String::new(),
    };
    assert!(d.has_valid_digest());
    d.sha1 = "A9993E364706816ABA3E25717850C26C9CD0D89D".to_string();
    assert!(!d.has_valid_digest());
    d.sha1 = "a9993e364706816aba3e25717850c26c9cd0d89".to_string();
    assert!(!d.has_valid_digest());
    d.sha1 = "a9993e364706816aba3e25717850c26c9cd0d89d0".to_string();
    assert!(!d.has_valid_digest());
    d.sha1 = "g9993e364706816aba3e25717850c26c9cd0d89d".to_string();
    assert!(!d.has_valid_digest());
    d.sha1 = String::new();
    assert!(!d.has_valid_digest());
}
