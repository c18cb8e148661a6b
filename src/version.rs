//! API versions and version negotiation.

use vstd::prelude::*;

use crate::endpoint::Endpoint;

verus! {

/// An API micro-version: a (major, minor) pair ordered lexicographically.
#[derive(Clone, Copy, Debug, PartialEq, Eq, Structural)]
pub struct ApiVersion(pub u16, pub u16);

impl ApiVersion {
    /// `self <= other` in the (major, minor) order.
    pub open spec fn le(self, other: ApiVersion) -> bool {
        self.0 < other.0 || (self.0 == other.0 && self.1 <= other.1)
    }

    /// Whether `self <= other` in the (major, minor) order.
    pub fn is_at_most(&self, other: &ApiVersion) -> (r: bool)
        ensures
            r == self.le(*other),
    {
        self.0 < other.0 || (self.0 == other.0 && self.1 <= other.1)
    }
}

/// What a caller asks for when picking an API version.
#[derive(Clone, Debug)]
pub enum ApiVersionRequest {
    /// The minimum version the service supports.
    Minimum,
    /// The latest version the service supports.
    Latest,
    /// Exactly this version.
    Exact(ApiVersion),
    /// The highest supported version among these.
    Choice(Vec<ApiVersion>),
}

/// Information about an API endpoint.
#[derive(Clone, Debug)]
pub struct ServiceInfo {
    /// Root endpoint.
    pub root_url: Endpoint,
    /// Current API version (if supported).
    pub current_version: Option<ApiVersion>,
    /// Minimum API version (if supported).
    pub minimum_version: Option<ApiVersion>,
}

/// `v` lies between `min` and `max`, both included.
pub open spec fn in_range(v: ApiVersion, min: ApiVersion, max: ApiVersion) -> bool {
    min.le(v) && v.le(max)
}

/// Whether an exact request for `v` is granted by a service with the given
/// minimum and current versions.
pub open spec fn exact_accepted(
    v: ApiVersion,
    minimum: Option<ApiVersion>,
    current: Option<ApiVersion>,
) -> bool {
    match (current, minimum) {
        (Some(max), Some(min)) => in_range(v, min, max),
        (Some(max), None) => v == max,
        (None, _) => false,
    }
}

/// `x` is the largest element of `list` lying between `min` and `max`.
pub open spec fn is_max_in_range(
    list: Seq<ApiVersion>,
    min: ApiVersion,
    max: ApiVersion,
    x: ApiVersion,
) -> bool {
    &&& list.contains(x)
    &&& in_range(x, min, max)
    &&& forall|i: int| 0 <= i < list.len() && in_range(#[trigger] list[i], min, max) ==> list[i].le(x)
}

/// Some element of `list` lies between `min` and `max`.
pub open spec fn any_in_range(list: Seq<ApiVersion>, min: ApiVersion, max: ApiVersion) -> bool {
    exists|i: int| 0 <= i < list.len() && in_range(#[trigger] list[i], min, max)
}

/// What picking a version out of `list` yields: the largest element in range
/// when the minimum is known, the current version when it is not and `list`
/// holds it.
pub open spec fn choice_result(
    list: Seq<ApiVersion>,
    minimum: Option<ApiVersion>,
    current: Option<ApiVersion>,
    r: Option<ApiVersion>,
) -> bool {
    if list.len() == 0 {
        r is None
    } else {
        match (current, minimum) {
            (Some(max), Some(min)) => if any_in_range(list, min, max) {
                r matches Some(x) && is_max_in_range(list, min, max, x)
            } else {
                r is None
            },
            (Some(max), None) => r == if list.contains(max) {
                Some(max)
            } else {
                None::<ApiVersion>
            },
            (None, _) => r is None,
        }
    }
}

/// The outcome of a version request, given what `pick_api_version` returned.
pub open spec fn pick_result(info: ServiceInfo, request: ApiVersionRequest, r: Option<ApiVersion>) -> bool {
    match request {
        ApiVersionRequest::Minimum => r == info.minimum_version,
        ApiVersionRequest::Latest => r == info.current_version,
        ApiVersionRequest::Exact(v) => r == if exact_accepted(
            v,
            info.minimum_version,
            info.current_version,
        ) {
            Some(v)
        } else {
            None::<ApiVersion>
        },
        ApiVersionRequest::Choice(list) => choice_result(
            list@,
            info.minimum_version,
            info.current_version,
            r,
        ),
    }
}

/// The largest element of `list` between `min` and `max`, if any.
fn max_in_range(list: &Vec<ApiVersion>, min: ApiVersion, max: ApiVersion) -> (r: Option<ApiVersion>)
    ensures
        any_in_range(list@, min, max) ==> (r matches Some(x) && is_max_in_range(list@, min, max, x)),
        !any_in_range(list@, min, max) ==> r is None,
{
    let mut best: Option<ApiVersion> = None;
    let mut i: usize = 0;
    while i < list.len()
        invariant
            i <= list@.len(),
            best is None ==> forall|k: int| 0 <= k < i ==> !in_range(#[trigger] list@[k], min, max),
            best matches Some(b) ==> {
                &&& exists|k: int| 0 <= k < i && list@[k] == b
                &&& in_range(b, min, max)
                &&& forall|k: int| 0 <= k < i && in_range(#[trigger] list@[k], min, max) ==> list@[k].le(b)
            },
        decreases list@.len() - i,
    {
        let x = list[i];
        if min.is_at_most(&x) && x.is_at_most(&max) {
            match best {
                Some(b) => {
                    if b.is_at_most(&x) {
                        best = Some(x);
                    }
                },
                None => {
                    best = Some(x);
                },
            }
        }
        i = i + 1;
    }
    proof {
        if let Some(b) = best {
            let k = choose|k: int| 0 <= k < list@.len() && list@[k] == b;
            assert(list@.contains(b));
        }
    }
    best
}

/// Whether `list` holds `v`.
fn contains_version(list: &Vec<ApiVersion>, v: ApiVersion) -> (r: bool)
    ensures
        r == list@.contains(v),
{
    let mut i: usize = 0;
    while i < list.len()
        invariant
            i <= list@.len(),
            forall|k: int| 0 <= k < i ==> list@[k] != v,
        decreases list@.len() - i,
    {
        if list[i] == v {
            assert(list@[i as int] == v);
            return true;
        }
        i = i + 1;
    }
    false
}

impl ServiceInfo {
    /// Pick an API version according to `request`.
    pub fn pick_api_version(&self, request: ApiVersionRequest) -> (r: Option<ApiVersion>)
        ensures
            pick_result(*self, request, r),
    {
        match request {
            ApiVersionRequest::Minimum => self.minimum_version,
            ApiVersionRequest::Latest => self.current_version,
            ApiVersionRequest::Exact(req) => match self.current_version {
                Some(max) => match self.minimum_version {
                    Some(min) => if min.is_at_most(&req) && req.is_at_most(&max) {
                        Some(req)
                    } else {
                        None
                    },
                    None => if req == max {
                        Some(req)
                    } else {
                        None
                    },
                },
                None => None,
            },
            ApiVersionRequest::Choice(list) => {
                if list.len() == 0 {
                    return None;
                }
                match self.current_version {
                    Some(max) => match self.minimum_version {
                        Some(min) => max_in_range(&list, min, max),
                        None => if contains_version(&list, max) {
                            Some(max)
                        } else {
                            None
                        },
                    },
                    None => None,
                }
            },
        }
    }
}

/// An exact request that a service grants stays granted by a service whose
/// supported range is wider: a lower-or-equal minimum and a higher-or-equal
/// current version.
pub proof fn lemma_exact_monotonic(
    v: ApiVersion,
    narrow: ServiceInfo,
    wide: ServiceInfo,
    narrow_pick: Option<ApiVersion>,
    wide_pick: Option<ApiVersion>,
)
    requires
        narrow.minimum_version is Some,
        narrow.current_version is Some,
        wide.minimum_version is Some,
        wide.current_version is Some,
        wide.minimum_version.unwrap().le(narrow.minimum_version.unwrap()),
        narrow.current_version.unwrap().le(wide.current_version.unwrap()),
        pick_result(narrow, ApiVersionRequest::Exact(v), narrow_pick),
        pick_result(wide, ApiVersionRequest::Exact(v), wide_pick),
        narrow_pick == Some(v),
    ensures
        wide_pick == Some(v),
{
}

/// A choice among no versions picks nothing, whatever the service supports.
pub proof fn lemma_empty_choice_picks_nothing(
    info: ServiceInfo,
    list: Vec<ApiVersion>,
    r: Option<ApiVersion>,
)
    requires
        list@.len() == 0,
        pick_result(info, ApiVersionRequest::Choice(list), r),
    ensures
        r is None,
{
}

} // verus!
