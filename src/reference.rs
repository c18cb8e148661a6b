//! References to resources by name or ID, resolved on first use.

use vstd::prelude::*;

use crate::error::Error;

verus! {

/// A reference to a resource by name or ID, resolved to a canonical ID on
/// first use and remembered from then on.
#[derive(Clone, Debug)]
pub enum ResourceRef {
    /// A name or an ID that has not been looked up yet.
    Unverified(String),
    /// A canonical ID.
    Verified(String),
}

/// A reference to a network.
pub type NetworkRef = ResourceRef;

/// A reference to a port.
pub type PortRef = ResourceRef;

/// A reference to a subnet.
pub type SubnetRef = ResourceRef;

/// The reference and the result after resolving `r`, where `looked_up` is
/// what the lookup returns if it is made.
pub open spec fn resolve_outcome(r: ResourceRef, looked_up: Result<String, Error>) -> (
    ResourceRef,
    Result<String, Error>,
) {
    match r {
        ResourceRef::Verified(id) => (r, Ok(id)),
        ResourceRef::Unverified(_) => match looked_up {
            Ok(id) => (ResourceRef::Verified(id), Ok(id)),
            Err(e) => (r, Err(e)),
        },
    }
}

impl ResourceRef {
    /// A reference by name or ID, to be looked up on first use.
    pub fn new(value: String) -> (r: ResourceRef)
        ensures
            r == ResourceRef::Unverified(value),
    {
        ResourceRef::Unverified(value)
    }

    /// A reference by a known canonical ID.
    pub fn new_verified(id: String) -> (r: ResourceRef)
        ensures
            r == ResourceRef::Verified(id),
    {
        ResourceRef::Verified(id)
    }

    /// Whether the reference holds a canonical ID.
    pub fn is_verified(&self) -> (r: bool)
        ensures
            r == self is Verified,
    {
        match self {
            ResourceRef::Verified(_) => true,
            ResourceRef::Unverified(_) => false,
        }
    }

    /// The name or ID held.
    pub fn value(&self) -> (r: &String)
        ensures
            *self matches ResourceRef::Unverified(v) ==> *r == v,
            *self matches ResourceRef::Verified(v) ==> *r == v,
    {
        match self {
            ResourceRef::Verified(v) => v,
            ResourceRef::Unverified(v) => v,
        }
    }

    /// Resolve the reference to a canonical ID. A verified reference answers
    /// at once; otherwise `lookup` is called once with the held value, and on
    /// success the reference becomes verified. On failure it stays as it was.
    pub fn resolve<F: Fn(&String) -> Result<String, Error>>(&mut self, lookup: &F) -> (r: Result<
        String,
        Error,
    >)
        requires
            forall|v: &String| #[trigger] lookup.requires((v,)),
        ensures
            *old(self) is Verified ==> (*final(self), r) == resolve_outcome(*old(self), r),
            *old(self) matches ResourceRef::Unverified(v) ==> exists|looked_up: Result<String, Error>|
                #[trigger] lookup.ensures((&v,), looked_up) && (*final(self), r) == resolve_outcome(
                    *old(self),
                    looked_up,
                ),
    {
        match self {
            ResourceRef::Verified(id) => Ok(id.clone()),
            ResourceRef::Unverified(v) => {
                let looked_up = lookup(v);
                match looked_up {
                    Ok(id) => {
                        *self = ResourceRef::Verified(id.clone());
                        Ok(id)
                    },
                    Err(e) => Err(e),
                }
            },
        }
    }

    /// The canonical ID, looked up through `lookup` unless the reference is
    /// verified; the reference itself is left as it is.
    pub fn verified_id<F: Fn(&String) -> Result<String, Error>>(&self, lookup: &F) -> (res: Result<String, Error>)
        requires
            forall|v: &String| #[trigger] lookup.requires((v,)),
        ensures
            res matches Ok(id) ==> resolves_to(*lookup, *self, id),
            res matches Err(e) ==> lookup_failed(*lookup, *self, e),
    {
        match self {
            ResourceRef::Verified(id) => Ok(id.clone()),
            ResourceRef::Unverified(v) => lookup(v),
        }
    }

    /// Consume the reference, resolving it to a canonical ID as `resolve` does.
    pub fn into_verified<F: Fn(&String) -> Result<String, Error>>(self, lookup: &F) -> (r: Result<
        String,
        Error,
    >)
        requires
            forall|v: &String| #[trigger] lookup.requires((v,)),
        ensures
            self is Verified ==> r == resolve_outcome(self, r).1,
            self matches ResourceRef::Unverified(v) ==> exists|looked_up: Result<String, Error>|
                #[trigger] lookup.ensures((&v,), looked_up) && r == resolve_outcome(self, looked_up).1,
    {
        let mut me = self;
        me.resolve(lookup)
    }
}

/// The name or ID that a reference holds.
pub open spec fn ref_text(r: ResourceRef) -> Seq<char> {
    match r {
        ResourceRef::Unverified(v) => v@,
        ResourceRef::Verified(v) => v@,
    }
}

/// `id` is what resolving `r` through `lookup` gives when it succeeds.
pub open spec fn resolves_to<F: Fn(&String) -> Result<String, Error>>(
    lookup: F,
    r: ResourceRef,
    id: String,
) -> bool {
    match r {
        ResourceRef::Verified(v) => id == v,
        ResourceRef::Unverified(v) => lookup.ensures((&v,), Ok::<String, Error>(id)),
    }
}

/// Resolving `r` through `lookup` may fail with `e`.
pub open spec fn lookup_failed<F: Fn(&String) -> Result<String, Error>>(
    lookup: F,
    r: ResourceRef,
    e: Error,
) -> bool {
    r matches ResourceRef::Unverified(v) && lookup.ensures((&v,), Err::<String, Error>(e))
}

/// Resolving is memoized: once a resolution succeeds, the reference is
/// verified, and resolving it again makes no lookup and returns the same ID,
/// whatever a lookup would have returned.
pub proof fn lemma_resolve_memoized(
    r: ResourceRef,
    first: Result<String, Error>,
    second: Result<String, Error>,
)
    requires
        resolve_outcome(r, first).1 is Ok,
    ensures
        resolve_outcome(r, first).0 is Verified,
        resolve_outcome(resolve_outcome(r, first).0, second) == resolve_outcome(r, first),
{
}

} // verus!
