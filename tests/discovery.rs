use openstack::discovery::{Discovery, DiscoveryStep};
use openstack::endpoint::Endpoint;
use openstack::error::{Error, ErrorKind};
use openstack::protocol::{Link, Root, Version};
use openstack::version::{ApiVersion, ServiceInfo};

fn url(scheme: &str, segments: &[&str]) -> Endpoint {
    let mut e = Endpoint::new(scheme.to_string(), "cloud.example.com:8774".to_string());
    for s in segments {
        e = e.with_segment(s.to_string());
    }
    e
}

fn not_found() -> Error {
    Error::new(ErrorKind::ResourceNotFound, "404".to_string())
}

fn version_doc(id: &str, links: Vec<Link>) -> Version {
    Version {
        id: id.to_string(),
        links,
        status: "CURRENT".to_string(),
        version: Some(ApiVersion(2, 60)),
        min_version: Some(ApiVersion(2, 1)),
    }
}

fn self_link(scheme: &str, segments: &[&str]) -> Link {
    Link { href: url(scheme, segments), rel: "self".to_string() }
}

/// Drive the walk with canned responses, returning the GETs made and the outcome.
fn run(start: Endpoint, mut responses: Vec<Result<Root, Error>>) -> (Vec<Vec<String>>, Result<ServiceInfo, Error>) {
    let mut d = Discovery::new(start, "compute".to_string(), "v2.1".to_string());
    let mut calls = Vec::new();
    loop {
        calls.push(d.endpoint().segments.clone());
        let resp = responses.remove(0);
        match d.on_response(resp) {
            DiscoveryStep::Retry(next) => d = next,
            DiscoveryStep::Finished(r) => return (calls, r),
        }
    }
}

#[test]
fn discovery_walks_up_to_a_version_document() {
    let doc = version_doc("v2.1", vec![self_link("http", &["v2"])]);
    let (calls, result) = run(
        url("http", &["v2", "x", "y"]),
        vec![Err(not_found()), Err(not_found()), Ok(Root::Version { version: doc })],
    );
    assert_eq!(calls.len(), 3);
    assert_eq!(calls[1], vec!["v2".to_string(), "x".to_string()]);
    assert_eq!(calls[2], vec!["v2".to_string()]);
    let info = result.unwrap();
    assert_eq!(info.root_url.segments, vec!["v2".to_string()]);
    assert_eq!(info.current_version, Some(ApiVersion(2, 60)));
    assert_eq!(info.minimum_version, Some(ApiVersion(2, 1)));
}

#[test]
fn discovery_fails_at_the_root() {
    let (calls, result) = run(
        url("http", &["v2", "x"]),
        vec![Err(not_found()), Err(not_found()), Err(not_found())],
    );
    assert_eq!(calls.len(), 3);
    assert!(calls[2].is_empty());
    let err = result.unwrap_err();
    assert_eq!(err.kind(), ErrorKind::EndpointNotFound);
    assert_eq!(err.detail, "compute");
}

#[test]
fn discovery_surfaces_other_errors() {
    let (calls, result) = run(
        url("http", &["v2", "x"]),
        vec![Err(Error::new(ErrorKind::TransportError, "boom".to_string()))],
    );
    assert_eq!(calls.len(), 1);
    let err = result.unwrap_err();
    assert_eq!(err.kind(), ErrorKind::TransportError);
    assert_eq!(err.detail, "boom");
}

#[test]
fn discovery_picks_major_version_from_collection() {
    let docs = vec![
        version_doc("v2.0", vec![self_link("http", &["v2"])]),
        version_doc("v2.1", vec![
            Link { href: url("http", &["bookmark"]), rel: "bookmark".to_string() },
            self_link("http", &["v2.1"]),
            self_link("http", &["other"]),
        ]),
    ];
    let (_, result) = run(url("http", &[]), vec![Ok(Root::Versions { versions: docs })]);
    assert_eq!(result.unwrap().root_url.segments, vec!["v2.1".to_string()]);
}

#[test]
fn discovery_without_matching_major_version() {
    let docs = vec![version_doc("v3", vec![self_link("http", &["v3"])])];
    let (_, result) = run(url("http", &["v3"]), vec![Ok(Root::Versions { versions: docs })]);
    assert_eq!(result.unwrap_err().kind(), ErrorKind::EndpointNotFound);
}

#[test]
fn discovery_without_self_link_is_invalid() {
    let doc = version_doc("v2.1", vec![Link { href: url("http", &["v2"]), rel: "bookmark".to_string() }]);
    let (calls, result) = run(url("http", &["v2", "x"]), vec![Ok(Root::Version { version: doc })]);
    assert_eq!(calls.len(), 1);
    assert_eq!(result.unwrap_err().kind(), ErrorKind::InvalidResponse);
}

#[test]
fn discovery_forces_secure_scheme() {
    let doc = version_doc("v2.1", vec![self_link("http", &["v2"])]);
    let (_, result) = run(url("https", &["v2"]), vec![Ok(Root::Version { version: doc })]);
    let info = result.unwrap();
    assert_eq!(info.root_url.scheme, "https");
    assert_eq!(info.root_url.authority, "cloud.example.com:8774");

    let doc = version_doc("v2.1", vec![self_link("http", &["v2"])]);
    let (_, result) = run(url("http", &["v2"]), vec![Ok(Root::Version { version: doc })]);
    assert_eq!(result.unwrap().root_url.scheme, "http");
}

#[test]
fn into_service_info_uses_first_self_link() {
    let doc = version_doc("v2.1", vec![self_link("http", &["a"]), self_link("http", &["b"])]);
    let info = doc.into_service_info().unwrap();
    assert_eq!(info.root_url.segments, vec!["a".to_string()]);
}

#[test]
fn endpoint_pop_and_root() {
    let e = url("http", &["v2", "x"]);
    assert!(!e.is_root());
    assert!(!e.is_secure());
    let p = e.pop();
    assert_eq!(p.segments, vec!["v2".to_string()]);
    let p = p.pop();
    assert!(p.is_root());
    let mut s = url("http", &[]);
    s.set_secure();
    assert!(s.is_secure());
}

#[test]
fn endpoint_join_appends_path() {
    let root = url("https", &["v2.0"]);
    let e = root.join(&vec!["ports".to_string(), "abc".to_string()]);
    assert_eq!(e.scheme, "https");
    assert_eq!(e.authority, "cloud.example.com:8774");
    assert_eq!(e.segments, vec!["v2.0".to_string(), "ports".to_string(), "abc".to_string()]);
    assert_eq!(root.segments, vec!["v2.0".to_string()]);
}
