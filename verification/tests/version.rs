use arranger::general::version::{ParseVersionError, PreRelease, SemanticVersion};

#[test]
fn from_string_reads_plain_version() {
    let v = SemanticVersion::from_string("3.12.1").unwrap();
    assert_eq!(v.get_3p_version(), (3, 12, 1));
    assert_eq!(v.get_string(), "3.12.1");
    assert!(v.get_pre_release().is_none());
}

#[test]
fn from_string_reads_two_part_version_with_zero_patch() {
    let v = SemanticVersion::from_string("3.12").unwrap();
    assert_eq!(v.get_3p_version(), (3, 12, 0));
    assert_eq!(v.get_2p_string(), "3.12");
    assert_eq!(v.get_3p_string(), "3.12.0");
}

#[test]
fn from_string_reads_beta_tag() {
    let v = SemanticVersion::from_string("3.12.0b4").unwrap();
    assert_eq!(v.get_3p_version(), (3, 12, 0));
    let pre = v.get_pre_release().unwrap();
    assert_eq!(pre.release_type, b'b');
    assert_eq!(pre.version, 4);
    assert_eq!(v.get_string(), "3.12.0b4");
}

#[test]
fn from_string_reads_release_candidate_by_first_letter() {
    let v = SemanticVersion::from_string("3.12.0rc1").unwrap();
    let pre = v.get_pre_release().unwrap();
    assert_eq!(pre.release_type, b'r');
    assert_eq!(pre.version, 1);
    assert_eq!(v.get_string(), "3.12.0r1");
}

#[test]
fn from_string_reads_plus_qualifier() {
    let v = SemanticVersion::from_string("2.7.18+local").unwrap();
    assert_eq!(v.get_3p_version(), (2, 7, 18));
    assert_eq!(v.qualifier, "+local");
    assert_eq!(v.get_string(), "2.7.18+local");
}

#[test]
fn from_string_reads_fourth_part_as_qualifier() {
    let v = SemanticVersion::from_string("3.9.1.dev").unwrap();
    assert_eq!(v.qualifier, "dev");
    assert_eq!(v.get_4p_version(), (3, 9, 1, "dev"));
    assert_eq!(v.get_string(), "3.9.1.dev");
}

#[test]
fn from_string_rejects_missing_minor() {
    assert!(SemanticVersion::from_string("3").is_none());
    assert!(SemanticVersion::from_string("a.b.c").is_none());
    assert!(SemanticVersion::from_string("").is_none());
}

#[test]
fn from_str_reads_and_trims() {
    let v = SemanticVersion::from_str(" 3.12 ").unwrap();
    assert_eq!(v.get_3p_version(), (3, 12, 0));
    let w = SemanticVersion::from_str("3..12.5").unwrap();
    assert_eq!(w.get_3p_version(), (3, 12, 5));
}

#[test]
fn from_str_wrong_format() {
    let e = SemanticVersion::from_str("3").unwrap_err();
    assert!(matches!(e, ParseVersionError::WrongFormat));
    assert_eq!(e.describe(), "expected a version in this format => x.y");
}

#[test]
fn from_str_parse_error() {
    let e = SemanticVersion::from_str("3.x").unwrap_err();
    assert!(matches!(e, ParseVersionError::ParseError(_)));
    assert_eq!(e.describe(), "invalid digit found in string");
}

#[test]
fn from_str_through_trait() {
    let v: SemanticVersion = "1.2.3".parse().unwrap();
    assert_eq!(v.get_3p_version(), (1, 2, 3));
}

#[test]
fn setters_and_getters() {
    let mut v = SemanticVersion::new_3p(1, 2, 3);
    v.set_major(4);
    v.set_minor(5);
    v.set_patch(6);
    assert_eq!((v.get_major(), v.get_minor(), v.get_patch()), (4, 5, 6));
    assert_eq!(v.get_2p_version(), (4, 5));
    let d = v.duplicate();
    assert_eq!(d.get_string(), "4.5.6");
}

#[test]
fn new_with_qualifier_and_tag() {
    let pre = PreRelease::from_string("a2");
    let v = SemanticVersion::new(1, 0, 0, Some(String::from("post1")), pre);
    assert_eq!(v.get_string(), "1.0.0a2.post1");
}

#[test]
fn pre_release_parsing_and_text() {
    let p = PreRelease::from_string("rc12").unwrap();
    assert_eq!(p.release_type, b'r');
    assert_eq!(p.version, 12);
    assert_eq!(p.get_string(), "r12");
    assert!(PreRelease::from_string("").is_none());
    assert!(PreRelease::from_string("beta").is_none());
}

#[test]
fn pre_release_order_by_tag_then_number() {
    let a1 = PreRelease { release_type: b'a', version: 1 };
    let a2 = PreRelease { release_type: b'a', version: 2 };
    let b1 = PreRelease { release_type: b'b', version: 1 };
    assert!(a1 < a2);
    assert!(a2 < b1);
    assert!(b1 > a1);
    assert_eq!(a1.partial_cmp(&a1), Some(std::cmp::Ordering::Equal));
}

#[test]
fn pre_release_tags_read_back() {
    assert_eq!(PreRelease::from_string("b4").unwrap().get_string(), "b4");
    assert_eq!(PreRelease::from_string("a10").unwrap().get_string(), "a10");
    assert_eq!(PreRelease::from_string("rc2").unwrap().get_string(), "r2");
}

#[test]
fn tagged_version_reads_back() {
    assert_eq!(SemanticVersion::from_string("3.12.0b4").unwrap().get_string(), "3.12.0b4");
    assert_eq!(SemanticVersion::from_string("1.2.3a10").unwrap().get_string(), "1.2.3a10");
    assert_eq!(SemanticVersion::from_string("1.2.3rc2").unwrap().get_string(), "1.2.3r2");
}
