//! Version discovery documents and their reading.

use vstd::prelude::*;

use crate::endpoint::Endpoint;
use crate::error::{Error, ErrorKind, endpoint_not_found};
use crate::text::text_equals;
use crate::version::{ApiVersion, ServiceInfo};

verus! {

/// A link of a version document.
#[derive(Clone, Debug)]
pub struct Link {
    pub href: Endpoint,
    pub rel: String,
}

/// A reference to another resource, with its links.
#[derive(Clone, Debug)]
pub struct Ref {
    pub id: String,
    pub links: Vec<Link>,
}

/// An ID together with a name.
#[derive(Clone, Debug)]
pub struct IdAndName {
    pub id: String,
    pub name: String,
}

/// A key and its value.
#[derive(Clone, Debug)]
pub struct KeyValue {
    pub key: String,
    pub value: String,
}

/// A version document of a service.
#[derive(Clone, Debug)]
pub struct Version {
    pub id: String,
    pub links: Vec<Link>,
    pub status: String,
    pub version: Option<ApiVersion>,
    pub min_version: Option<ApiVersion>,
}

/// The body of a version discovery response: one document or several.
#[derive(Clone, Debug)]
pub enum Root {
    Versions { versions: Vec<Version> },
    Version { version: Version },
}

pub open spec fn is_self_link(l: Link) -> bool {
    l.rel@ == "self"@
}

pub open spec fn has_self_link(links: Seq<Link>) -> bool {
    exists|j: int| 0 <= j < links.len() && is_self_link(#[trigger] links[j])
}

/// `j` is the index of the first `self` link.
pub open spec fn first_self_link(links: Seq<Link>, j: int) -> bool {
    &&& 0 <= j < links.len()
    &&& is_self_link(links[j])
    &&& forall|k: int| 0 <= k < j ==> !is_self_link(#[trigger] links[k])
}

/// `info` describes the service of version document `v`, its root being the
/// first `self` link, with the secure scheme forced when `secure` holds.
pub open spec fn info_of(v: Version, secure: bool, info: ServiceInfo) -> bool {
    exists|j: int|
        #![trigger v.links@[j]]
        first_self_link(v.links@, j) && {
            let href = v.links@[j].href;
            &&& info.root_url.authority == href.authority
            &&& info.root_url.segments == href.segments
            &&& info.root_url.scheme@ == (if secure {
                "https"@
            } else {
                href.scheme@
            })
        } && info.current_version == v.version && info.minimum_version == v.min_version
}

/// What converting version document `v` yields: its service information, or
/// an invalid-response error when it has no `self` link.
pub open spec fn version_result(v: Version, secure: bool, r: Result<ServiceInfo, Error>) -> bool {
    if has_self_link(v.links@) {
        r matches Ok(info) && info_of(v, secure, info)
    } else {
        r matches Err(e) && e.kind == ErrorKind::InvalidResponse
    }
}

/// `j` is the index of the first document whose ID is `major`.
pub open spec fn first_with_id(versions: Seq<Version>, major: Seq<char>, j: int) -> bool {
    &&& 0 <= j < versions.len()
    &&& versions[j].id@ == major
    &&& forall|k: int| 0 <= k < j ==> (#[trigger] versions[k]).id@ != major
}

pub open spec fn has_id(versions: Seq<Version>, major: Seq<char>) -> bool {
    exists|j: int| 0 <= j < versions.len() && (#[trigger] versions[j]).id@ == major
}

/// What a discovery response body yields for a service type and major version.
pub open spec fn root_result(
    root: Root,
    major: Seq<char>,
    service_type: String,
    secure: bool,
    r: Result<ServiceInfo, Error>,
) -> bool {
    match root {
        Root::Version { version } => version_result(version, secure, r),
        Root::Versions { versions } => if has_id(versions@, major) {
            exists|j: int|
                #![trigger versions@[j]]
                first_with_id(versions@, major, j) && version_result(versions@[j], secure, r)
        } else {
            r == Err::<ServiceInfo, Error>(endpoint_not_found(service_type))
        },
    }
}

/// The index of the first `self` link, if any.
fn find_self_link(links: &Vec<Link>) -> (r: Option<usize>)
    ensures
        r matches Some(j) ==> first_self_link(links@, j as int),
        r is None ==> !has_self_link(links@),
{
    let mut i: usize = 0;
    while i < links.len()
        invariant
            i <= links@.len(),
            forall|k: int| 0 <= k < i ==> !is_self_link(#[trigger] links@[k]),
        decreases links@.len() - i,
    {
        if text_equals(&links[i].rel, "self") {
            return Some(i);
        }
        i = i + 1;
    }
    None
}

/// The index of the first document with the given ID, if any.
fn find_version(versions: &Vec<Version>, major: &str) -> (r: Option<usize>)
    ensures
        r matches Some(j) ==> first_with_id(versions@, major@, j as int),
        r is None ==> !has_id(versions@, major@),
{
    let mut i: usize = 0;
    while i < versions.len()
        invariant
            i <= versions@.len(),
            forall|k: int| 0 <= k < i ==> (#[trigger] versions@[k]).id@ != major@,
        decreases versions@.len() - i,
    {
        if text_equals(&versions[i].id, major) {
            return Some(i);
        }
        i = i + 1;
    }
    None
}

impl Version {
    /// Convert this document into service information, forcing the secure
    /// scheme on the root when `secure` holds.
    pub fn into_secure_service_info(self, secure: bool) -> (r: Result<ServiceInfo, Error>)
        ensures
            version_result(self, secure, r),
    {
        let ghost v = self;
        match find_self_link(&self.links) {
            Some(j) => {
                let mut links = self.links;
                let link = links.remove(j);
                let mut root_url = link.href;
                if secure {
                    root_url.set_secure();
                }
                let info = ServiceInfo {
                    root_url,
                    current_version: self.version,
                    minimum_version: self.min_version,
                };
                assert(first_self_link(v.links@, j as int) && v.links@[j as int] == link);
                Ok(info)
            },
            None => Err(
                Error::new(
                    ErrorKind::InvalidResponse,
                    String::from_str("Invalid version - missing self link"),
                ),
            ),
        }
    }

    /// Convert this document into service information.
    pub fn into_service_info(self) -> (r: Result<ServiceInfo, Error>)
        ensures
            version_result(self, false, r),
    {
        self.into_secure_service_info(false)
    }
}

impl Root {
    /// The service information in this response body for the given major
    /// version, with the secure scheme forced when `secure` holds.
    pub fn into_service_info(self, service_type: String, major_version: &str, secure: bool) -> (r:
        Result<ServiceInfo, Error>)
        ensures
            root_result(self, major_version@, service_type, secure, r),
    {
        match self {
            Root::Version { version } => version.into_secure_service_info(secure),
            Root::Versions { versions } => {
                let ghost vs = versions;
                match find_version(&versions, major_version) {
                    Some(j) => {
                        let mut versions = versions;
                        let ver = versions.remove(j);
                        assert(vs@[j as int] == ver);
                        ver.into_secure_service_info(secure)
                    },
                    None => Err(Error::new_endpoint_not_found(service_type)),
                }
            },
        }
    }
}

} // verus!
