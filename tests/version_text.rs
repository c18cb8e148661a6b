use openstack::error::ErrorKind;
use openstack::version::ApiVersion;
use openstack::version_text::parse_optional_version;

#[test]
fn parses_major_and_minor() {
    assert_eq!(ApiVersion::parse("2.24"), Some(ApiVersion(2, 24)));
    assert_eq!(ApiVersion::parse("10.0"), Some(ApiVersion(10, 0)));
    assert_eq!(ApiVersion::parse("65535.65535"), Some(ApiVersion(65535, 65535)));
}

#[test]
fn rejects_malformed_versions() {
    assert_eq!(ApiVersion::parse(""), None);
    assert_eq!(ApiVersion::parse("2"), None);
    assert_eq!(ApiVersion::parse("2."), None);
    assert_eq!(ApiVersion::parse(".4"), None);
    assert_eq!(ApiVersion::parse("2.4.1"), None);
    assert_eq!(ApiVersion::parse("v2.4"), None);
    assert_eq!(ApiVersion::parse("65536.1"), None);
    assert_eq!(ApiVersion::parse("1.70000"), None);
}

#[test]
fn empty_version_text_is_absent() {
    assert_eq!(parse_optional_version("").unwrap(), None);
    assert_eq!(parse_optional_version("2.1").unwrap(), Some(ApiVersion(2, 1)));
    let err = parse_optional_version("latest").unwrap_err();
    assert_eq!(err.kind(), ErrorKind::InvalidResponse);
}
