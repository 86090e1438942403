use installinator_artifactd::numeral::parse_usize;
use installinator_artifactd::{ArtifactId, ArtifactStore, INSTALLINATOR_TEST_ARTIFACT_NAME};

fn id(name: &str, version: &str) -> ArtifactId {
    ArtifactId { name: name.to_string(), version: version.to_string() }
}

#[test]
fn test_artifact_has_version_many_zero_bytes() {
    let store = ArtifactStore::new();
    let bytes = store.get_artifact(&id("__installinator-test", "16")).unwrap();
    assert_eq!(bytes.len(), 16);
    assert_eq!(&bytes[..], &[0u8; 16][..]);
}

#[test]
fn test_artifact_of_size_zero_is_empty() {
    let store = ArtifactStore::new();
    let bytes = store.get_artifact(&id("__installinator-test", "0")).unwrap();
    assert!(bytes.is_empty());
}

#[test]
fn test_artifact_large_size() {
    let store = ArtifactStore::new();
    let bytes = store.get_artifact(&id("__installinator-test", "1048576")).unwrap();
    assert_eq!(bytes.len(), 1048576);
    assert!(bytes.iter().all(|b| *b == 0));
}

#[test]
fn test_artifact_version_with_plus_sign_and_leading_zeros() {
    let store = ArtifactStore::new();
    assert_eq!(store.get_artifact(&id("__installinator-test", "+7")).unwrap().len(), 7);
    assert_eq!(store.get_artifact(&id("__installinator-test", "0007")).unwrap().len(), 7);
}

#[test]
fn test_artifact_unparsable_version_gives_none() {
    let store = ArtifactStore::new();
    for version in ["", "abc", "1.0.0", "-1", "+", "++1", " 5", "5 ", "1_000", "0x10", "１"] {
        assert!(store.get_artifact(&id("__installinator-test", version)).is_none(), "{version:?}");
    }
}

#[test]
fn test_artifact_version_overflowing_usize_gives_none() {
    let store = ArtifactStore::new();
    let too_big = format!("{}0", usize::MAX);
    assert!(store.get_artifact(&id("__installinator-test", &too_big)).is_none());
}

#[test]
fn other_names_give_none() {
    let store = ArtifactStore::new();
    assert!(store.get_artifact(&id("host-os", "1.0.0")).is_none());
    assert!(store.get_artifact(&id("host-os", "16")).is_none());
    assert!(store.get_artifact(&id("__installinator-test ", "16")).is_none());
    assert!(store.get_artifact(&id("__Installinator-test", "16")).is_none());
    assert!(store.get_artifact(&id("", "")).is_none());
}

#[test]
fn test_artifact_name_constant() {
    assert_eq!(INSTALLINATOR_TEST_ARTIFACT_NAME, "__installinator-test");
}

#[test]
fn parse_usize_accepts_decimal_numerals() {
    assert_eq!(parse_usize("0"), Some(0));
    assert_eq!(parse_usize("42"), Some(42));
    assert_eq!(parse_usize("+42"), Some(42));
    assert_eq!(parse_usize("00042"), Some(42));
    assert_eq!(parse_usize("1234567890"), Some(1234567890));
}

#[test]
fn parse_usize_accepts_usize_max() {
    assert_eq!(parse_usize(&usize::MAX.to_string()), Some(usize::MAX));
}

#[test]
fn parse_usize_rejects_what_str_parse_rejects() {
    for s in ["", "+", "-", "-0", "+-1", "1+", "12a", "a12", " 1", "1 ", "1e3", "٣", "9\u{0}"] {
        assert_eq!(parse_usize(s), None, "{s:?}");
        assert!(s.parse::<usize>().is_err(), "{s:?}");
    }
}

#[test]
fn parse_usize_agrees_with_str_parse() {
    let too_big = format!("{}1", usize::MAX);
    for s in ["7", "+7", "007", "18446744073709551615", "4294967295", "4294967296", too_big.as_str()] {
        assert_eq!(parse_usize(s), s.parse::<usize>().ok(), "{s:?}");
    }
}

#[test]
fn plus_sign_is_optional_example() {
    assert_eq!(parse_usize("+123"), parse_usize("123"));
    assert_eq!(parse_usize("+x"), parse_usize("x"));
}

#[test]
fn artifact_found_only_for_sized_test_ids_example() {
    let store = ArtifactStore::new();
    assert!(store.get_artifact(&id("__installinator-test", "3")).is_some());
    assert!(store.get_artifact(&id("__installinator-test", "three")).is_none());
    assert!(store.get_artifact(&id("other", "3")).is_none());
}

#[test]
fn store_answer_depends_only_on_id() {
    let a = ArtifactStore::new();
    let b = ArtifactStore::new();
    let i = id("__installinator-test", "5");
    assert_eq!(a.get_artifact(&i), b.get_artifact(&i));
    assert_eq!(a.get_artifact(&i), a.get_artifact(&i));
}
