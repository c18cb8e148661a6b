//! Locating a service's versioned endpoint by walking up its URL path.

use vstd::prelude::*;

use crate::endpoint::Endpoint;
use crate::error::{Error, ErrorKind, endpoint_not_found};
use crate::protocol::{Root, root_result};
use crate::version::ServiceInfo;

verus! {

/// An ongoing search for a service's versioned endpoint. The caller issues a
/// GET to `endpoint` and hands the outcome to `on_response`; on a not-found
/// answer the search moves one path segment up.
#[derive(Clone, Debug)]
pub struct Discovery {
    pub endpoint: Endpoint,
    pub service_type: String,
    pub major_version: String,
}

/// What to do after a discovery response.
#[derive(Debug)]
pub enum DiscoveryStep {
    /// Issue a GET to the new state's endpoint.
    Retry(Discovery),
    /// The search is over.
    Finished(Result<ServiceInfo, Error>),
}

/// The outcome of one discovery response, as `on_response` computes it.
pub open spec fn step_result(d: Discovery, response: Result<Root, Error>, step: DiscoveryStep) -> bool {
    match response {
        Ok(root) => step matches DiscoveryStep::Finished(r) && root_result(
            root,
            d.major_version@,
            d.service_type,
            d.endpoint.scheme@ == "https"@,
            r,
        ),
        Err(e) => if e.kind == ErrorKind::ResourceNotFound {
            if d.endpoint.segments@.len() == 0 {
                step == DiscoveryStep::Finished(Err(endpoint_not_found(d.service_type)))
            } else {
                step matches DiscoveryStep::Retry(next) && next.endpoint.scheme == d.endpoint.scheme
                    && next.endpoint.authority == d.endpoint.authority
                    && next.endpoint.segments@ == d.endpoint.segments@.drop_last()
                    && next.service_type == d.service_type && next.major_version == d.major_version
            }
        } else {
            step == DiscoveryStep::Finished(Err(e))
        },
    }
}

impl Discovery {
    /// Start discovering `service_type` at `endpoint`.
    pub fn new(endpoint: Endpoint, service_type: String, major_version: String) -> (r: Discovery)
        ensures
            r.endpoint == endpoint,
            r.service_type == service_type,
            r.major_version == major_version,
    {
        Discovery { endpoint, service_type, major_version }
    }

    /// The URL to query next.
    pub fn endpoint(&self) -> (r: &Endpoint)
        ensures
            r == &self.endpoint,
    {
        &self.endpoint
    }

    /// Decide what follows the response to a GET of `self.endpoint`.
    pub fn on_response(self, response: Result<Root, Error>) -> (r: DiscoveryStep)
        ensures
            step_result(self, response, r),
    {
        let secure = self.endpoint.is_secure();
        match response {
            Ok(root) => DiscoveryStep::Finished(
                root.into_service_info(self.service_type, self.major_version.as_str(), secure),
            ),
            Err(e) => {
                if e.kind == ErrorKind::ResourceNotFound {
                    if self.endpoint.is_root() {
                        DiscoveryStep::Finished(Err(Error::new_endpoint_not_found(self.service_type)))
                    } else {
                        DiscoveryStep::Retry(
                            Discovery {
                                endpoint: self.endpoint.pop(),
                                service_type: self.service_type,
                                major_version: self.major_version,
                            },
                        )
                    }
                } else {
                    DiscoveryStep::Finished(Err(e))
                }
            },
        }
    }
}

/// `states` is a walk in which every request was answered with a not-found
/// error: each state but the last was followed by a retry at the next one.
pub open spec fn not_found_walk(states: Seq<Discovery>, errors: Seq<Error>) -> bool {
    &&& states.len() >= 1
    &&& errors.len() == states.len()
    &&& forall|i: int| 0 <= i < errors.len() ==> (#[trigger] errors[i]).kind == ErrorKind::ResourceNotFound
    &&& forall|i: int|
        0 <= i < states.len() - 1 ==> step_result(
            #[trigger] states[i],
            Err(errors[i]),
            DiscoveryStep::Retry(states[i + 1]),
        )
}

proof fn lemma_walk_prefix(states: Seq<Discovery>, errors: Seq<Error>, i: int)
    requires
        not_found_walk(states, errors),
        0 <= i < states.len(),
    ensures
        i <= states[0].endpoint.segments@.len(),
        states[i].endpoint.segments@ == states[0].endpoint.segments@.subrange(
            0,
            states[0].endpoint.segments@.len() - i,
        ),
        states[i].service_type == states[0].service_type,
    decreases i,
{
    let first = states[0].endpoint.segments@;
    if i == 0 {
        assert(first.subrange(0, first.len() as int) =~= first);
    } else {
        lemma_walk_prefix(states, errors, i - 1);
        assert(step_result(states[i - 1], Err(errors[i - 1]), DiscoveryStep::Retry(states[i])));
        assert(states[i - 1].endpoint.segments@.len() > 0);
        assert(states[i].endpoint.segments@ =~= first.subrange(0, first.len() - i));
    }
}

/// When every request is answered "not found", the walk strips one path
/// segment per retry, and it ends, at the root path, with `EndpointNotFound`
/// for the service: a walk from a path of `k` segments makes `k + 1` requests.
pub proof fn lemma_not_found_to_root(states: Seq<Discovery>, errors: Seq<Error>, last: DiscoveryStep)
    requires
        not_found_walk(states, errors),
        step_result(states.last(), Err(errors.last()), last),
        last is Finished,
    ensures
        states.len() == states[0].endpoint.segments@.len() + 1,
        forall|i: int|
            0 <= i < states.len() ==> (#[trigger] states[i]).endpoint.segments@ == states[0].endpoint.segments@.subrange(
                0,
                states[0].endpoint.segments@.len() - i,
            ),
        last == DiscoveryStep::Finished(Err(endpoint_not_found(states[0].service_type))),
{
    let n = states.len() - 1;
    lemma_walk_prefix(states, errors, n);
    assert(errors[n].kind == ErrorKind::ResourceNotFound);
    assert(states[n].endpoint.segments@.len() == 0);
    assert forall|i: int| 0 <= i < states.len() implies (#[trigger] states[i]).endpoint.segments@
        == states[0].endpoint.segments@.subrange(0, states[0].endpoint.segments@.len() - i) by {
        lemma_walk_prefix(states, errors, i);
    }
}

} // verus!
