//! Queries over ports.

use vstd::prelude::*;

use crate::error::{Error, ErrorKind};
use crate::pager::{PagerState, ResourceIterator, drains, fails, lemma_push_keeps_paging, next_step, overflows, no_manual_paging};
use crate::ports::{NetworkStatus, Port, status_text};
use crate::query::{Query, Sort, SortKey, bool_text, decimal, render_bool};
use crate::reference::{NetworkRef, ResourceRef, ref_text};

verus! {

/// The number of ports asked for per page when listing.
pub const PORT_PAGE_SIZE: usize = 50;

/// Fields that ports can be sorted by.
#[derive(Clone, Copy, Debug, PartialEq, Eq, Structural)]
pub enum PortSortKey {
    AdminStateUp,
    DeviceId,
    DeviceOwner,
    Id,
    MacAddress,
    Name,
    NetworkId,
    ProjectId,
    Status,
}

impl SortKey for PortSortKey {
    open spec fn key_name(&self) -> Seq<char> {
        match self {
            PortSortKey::AdminStateUp => "admin_state_up"@,
            PortSortKey::DeviceId => "device_id"@,
            PortSortKey::DeviceOwner => "device_owner"@,
            PortSortKey::Id => "id"@,
            PortSortKey::MacAddress => "mac_address"@,
            PortSortKey::Name => "name"@,
            PortSortKey::NetworkId => "network_id"@,
            PortSortKey::ProjectId => "project_id"@,
            PortSortKey::Status => "status"@,
        }
    }

    fn name(&self) -> (r: String) {
        match self {
            PortSortKey::AdminStateUp => String::from_str("admin_state_up"),
            PortSortKey::DeviceId => String::from_str("device_id"),
            PortSortKey::DeviceOwner => String::from_str("device_owner"),
            PortSortKey::Id => String::from_str("id"),
            PortSortKey::MacAddress => String::from_str("mac_address"),
            PortSortKey::Name => String::from_str("name"),
            PortSortKey::NetworkId => String::from_str("network_id"),
            PortSortKey::ProjectId => String::from_str("project_id"),
            PortSortKey::Status => String::from_str("status"),
        }
    }
}

/// The names of filters and sort parameters are neither `limit` nor `marker`.
proof fn lemma_filter_keys()
    ensures
        "admin_state_up"@ != "limit"@,
        "admin_state_up"@ != "marker"@,
        "description"@ != "limit"@,
        "description"@ != "marker"@,
        "device_id"@ != "limit"@,
        "device_id"@ != "marker"@,
        "device_owner"@ != "limit"@,
        "device_owner"@ != "marker"@,
        "mac_address"@ != "limit"@,
        "mac_address"@ != "marker"@,
        "name"@ != "limit"@,
        "name"@ != "marker"@,
        "status"@ != "limit"@,
        "status"@ != "marker"@,
        "network_id"@ != "limit"@,
        "network_id"@ != "marker"@,
        "sort_key"@ != "limit"@,
        "sort_key"@ != "marker"@,
        "sort_dir"@ != "limit"@,
        "sort_dir"@ != "marker"@,
{
    reveal_strlit("admin_state_up");
    reveal_strlit("description");
    reveal_strlit("device_id");
    reveal_strlit("device_owner");
    reveal_strlit("mac_address");
    reveal_strlit("name");
    reveal_strlit("status");
    reveal_strlit("network_id");
    reveal_strlit("sort_key");
    reveal_strlit("sort_dir");
    reveal_strlit("limit");
    reveal_strlit("marker");
    assert("admin_state_up"@[0] != "limit"@[0]);
    assert("description"@[0] != "limit"@[0]);
    assert("device_id"@[0] != "limit"@[0]);
    assert("device_owner"@[0] != "limit"@[0]);
    assert("mac_address"@[0] != "limit"@[0]);
    assert("name"@[0] != "limit"@[0]);
    assert("status"@[0] != "limit"@[0]);
    assert("network_id"@[0] != "limit"@[0]);
    assert("sort_key"@[0] != "limit"@[0]);
    assert("sort_dir"@[0] != "limit"@[0]);
    assert("admin_state_up"@[0] != "marker"@[0]);
    assert("description"@[0] != "marker"@[0]);
    assert("device_id"@[0] != "marker"@[0]);
    assert("device_owner"@[0] != "marker"@[0]);
    assert("mac_address"@[2] != "marker"@[2]);
    assert("name"@[0] != "marker"@[0]);
    assert("status"@[0] != "marker"@[0]);
    assert("network_id"@[0] != "marker"@[0]);
    assert("sort_key"@[0] != "marker"@[0]);
    assert("sort_dir"@[0] != "marker"@[0]);
}

/// A query to port list.
#[derive(Clone, Debug)]
pub struct PortQuery {
    query: Query,
}

impl PortQuery {
    /// The query parameters, in order.
    pub closed spec fn params(&self) -> Seq<(Seq<char>, Seq<char>)> {
        self.query.pairs()
    }

    /// Whether results will be paginated automatically: the caller has set
    /// neither a marker nor a limit.
    pub open spec fn paginates(&self) -> bool {
        no_manual_paging(self.params())
    }

    /// `self` is `before` with one more parameter.
    pub open spec fn adds(&self, before: PortQuery, key: Seq<char>, value: Seq<char>) -> bool {
        &&& self.params() == before.params().push((key, value))
        &&& self.paginates() == before.paginates()
    }

    /// An empty query.
    pub fn new() -> (r: PortQuery)
        ensures
            r.params() == Seq::<(Seq<char>, Seq<char>)>::empty(),
            r.paginates(),
    {
        PortQuery { query: Query::new() }
    }

    /// Add marker to the request. Using this disables automatic pagination.
    pub fn with_marker(self, marker: String) -> (r: PortQuery)
        ensures
            r.params() == self.params().push(("marker"@, marker@)),
            !r.paginates(),
    {
        let mut q = self;
        q.query.push_str("marker", marker);
        assert(q.params().last().0 == "marker"@);
        q
    }

    /// Add limit to the request. Using this disables automatic pagination.
    pub fn with_limit(self, limit: usize) -> (r: PortQuery)
        ensures
            r.params() == self.params().push(("limit"@, decimal(limit as nat))),
            !r.paginates(),
    {
        let mut q = self;
        q.query.push("limit", limit);
        assert(q.params().last().0 == "limit"@);
        q
    }

    /// Add sorting to the request.
    pub fn sort_by(self, sort: Sort<PortSortKey>) -> (r: PortQuery)
        ensures
            r.params() == self.params().push(("sort_key"@, sort.pair().0)).push(
                ("sort_dir"@, sort.pair().1),
            ),
            r.paginates() == self.paginates(),
    {
        let mut q = self;
        let (field, direction) = sort.into_pair();
        proof {
            lemma_filter_keys();
            lemma_push_keeps_paging(q.params(), "sort_key"@, field@);
            lemma_push_keeps_paging(q.params().push(("sort_key"@, field@)), "sort_dir"@, direction@);
        }
        q.query.push_str("sort_key", field);
        q.query.push_str("sort_dir", direction);
        q
    }

    fn filter(&mut self, key: &str, value: String)
        requires
            key@ != "limit"@,
            key@ != "marker"@,
        ensures
            final(self).adds(*old(self), key@, value@),
    {
        proof {
            lemma_push_keeps_paging(self.params(), key@, value@);
        }
        self.query.push_str(key, value);
    }

    /// Filter by administrative state.
    pub fn set_admin_state_up(&mut self, value: bool)
        ensures
            final(self).adds(*old(self), "admin_state_up"@, bool_text(value)),
    {
        proof {
            lemma_filter_keys();
        }
        self.filter("admin_state_up", render_bool(value));
    }

    /// Filter by administrative state.
    pub fn with_admin_state_up(self, value: bool) -> (r: PortQuery)
        ensures
            r.adds(self, "admin_state_up"@, bool_text(value)),
    {
        let mut q = self;
        q.set_admin_state_up(value);
        q
    }

    /// Filter by description.
    pub fn set_description(&mut self, value: String)
        ensures
            final(self).adds(*old(self), "description"@, value@),
    {
        proof {
            lemma_filter_keys();
        }
        self.filter("description", value);
    }

    /// Filter by description.
    pub fn with_description(self, value: String) -> (r: PortQuery)
        ensures
            r.adds(self, "description"@, value@),
    {
        let mut q = self;
        q.set_description(value);
        q
    }

    /// Filter by the ID of the object attached to the port.
    pub fn set_device_id(&mut self, value: String)
        ensures
            final(self).adds(*old(self), "device_id"@, value@),
    {
        proof {
            lemma_filter_keys();
        }
        self.filter("device_id", value);
    }

    /// Filter by the ID of the object attached to the port.
    pub fn with_device_id(self, value: String) -> (r: PortQuery)
        ensures
            r.adds(self, "device_id"@, value@),
    {
        let mut q = self;
        q.set_device_id(value);
        q
    }

    /// Filter by the type of the object attached to the port.
    pub fn set_device_owner(&mut self, value: String)
        ensures
            final(self).adds(*old(self), "device_owner"@, value@),
    {
        proof {
            lemma_filter_keys();
        }
        self.filter("device_owner", value);
    }

    /// Filter by the type of the object attached to the port.
    pub fn with_device_owner(self, value: String) -> (r: PortQuery)
        ensures
            r.adds(self, "device_owner"@, value@),
    {
        let mut q = self;
        q.set_device_owner(value);
        q
    }

    /// Filter by MAC address.
    pub fn set_mac_address(&mut self, value: String)
        ensures
            final(self).adds(*old(self), "mac_address"@, value@),
    {
        proof {
            lemma_filter_keys();
        }
        self.filter("mac_address", value);
    }

    /// Filter by MAC address.
    pub fn with_mac_address(self, value: String) -> (r: PortQuery)
        ensures
            r.adds(self, "mac_address"@, value@),
    {
        let mut q = self;
        q.set_mac_address(value);
        q
    }

    /// Filter by port name.
    pub fn set_name(&mut self, value: String)
        ensures
            final(self).adds(*old(self), "name"@, value@),
    {
        proof {
            lemma_filter_keys();
        }
        self.filter("name", value);
    }

    /// Filter by port name.
    pub fn with_name(self, value: String) -> (r: PortQuery)
        ensures
            r.adds(self, "name"@, value@),
    {
        let mut q = self;
        q.set_name(value);
        q
    }

    /// Filter by status.
    pub fn set_status(&mut self, value: NetworkStatus)
        ensures
            final(self).adds(*old(self), "status"@, status_text(value)),
    {
        proof {
            lemma_filter_keys();
        }
        self.filter("status", value.as_text());
    }

    /// Filter by status.
    pub fn with_status(self, value: NetworkStatus) -> (r: PortQuery)
        ensures
            r.adds(self, "status"@, status_text(value)),
    {
        let mut q = self;
        q.set_status(value);
        q
    }

    /// Filter by network. Names do not work here: the reference's text is
    /// sent as it is.
    pub fn set_network(&mut self, value: NetworkRef)
        ensures
            final(self).adds(*old(self), "network_id"@, ref_text(value)),
    {
        let text = match value {
            ResourceRef::Unverified(v) => v,
            ResourceRef::Verified(v) => v,
        };
        proof {
            lemma_filter_keys();
        }
        self.filter("network_id", text);
    }

    /// Filter by network. Names do not work here: the reference's text is
    /// sent as it is.
    pub fn with_network(self, value: NetworkRef) -> (r: PortQuery)
        ensures
            r.adds(self, "network_id"@, ref_text(value)),
    {
        let mut q = self;
        q.set_network(value);
        q
    }

    /// Convert this query into a lazy listing. No request is made until
    /// items are pulled.
    pub fn into_iter(self) -> (r: ResourceIterator<Port>)
        ensures
            r@ == self.into_iter_state(),
    {
        ResourceIterator::new(self.query, PORT_PAGE_SIZE)
    }

    /// Execute this request through `list` and return all results.
    pub fn all<F: Fn(&Query) -> Result<Vec<Port>, Error>>(self, list: &F) -> (r: Result<
        Vec<Port>,
        Error,
    >)
        requires
            forall|q: &Query| #[trigger] list.requires((q,)),
        ensures
            r matches Ok(items) ==> drains(*list, self.into_iter_state(), items@),
            r matches Err(e) ==> fails(*list, self.into_iter_state(), e) || (e.kind
                == ErrorKind::TooManyItems && overflows(*list, self.into_iter_state())),
    {
        self.into_iter().collect_all(list)
    }

    /// The listing state that `into_iter` starts from.
    pub open spec fn into_iter_state(&self) -> PagerState<Port> {
        PagerState::<Port> {
            query: self.params(),
            page_size: PORT_PAGE_SIZE as nat,
            can_paginate: no_manual_paging(self.params()),
            exhausted: false,
            marker: None,
            pending: Seq::empty(),
        }
    }

    /// The query that `one` sends: a limit of two is added when pagination
    /// is automatic, enough to tell one result from several.
    pub open spec fn one_params(&self) -> Seq<(Seq<char>, Seq<char>)> {
        if self.paginates() {
            self.params().push(("limit"@, decimal(2)))
        } else {
            self.params()
        }
    }

    /// The listing state that `one` starts from.
    pub open spec fn one_state(&self) -> PagerState<Port> {
        PagerState::<Port> {
            query: self.one_params(),
            page_size: PORT_PAGE_SIZE as nat,
            can_paginate: no_manual_paging(self.one_params()),
            exhausted: false,
            marker: None,
            pending: Seq::empty(),
        }
    }

    /// Return one and exactly one result: fails with `ResourceNotFound` if
    /// the query produces no results and with `TooManyItems` if it produces
    /// more than one.
    pub fn one<F: Fn(&Query) -> Result<Vec<Port>, Error>>(self, list: &F) -> (r: Result<
        Port,
        Error,
    >)
        requires
            forall|q: &Query| #[trigger] list.requires((q,)),
        ensures
            exists|t: PagerState<Port>, first: Result<Option<Port>, Error>|
                #[trigger] next_step(*list, self.one_state(), t, first) && match first {
                    Err(e) => r == Err::<Port, Error>(e),
                    Ok(None) => r matches Err(e) && e.kind == ErrorKind::ResourceNotFound,
                    Ok(Some(x)) => exists|u: PagerState<Port>, second: Result<Option<Port>, Error>|
                        #[trigger] next_step(*list, t, u, second) && match second {
                            Err(e) => r == Err::<Port, Error>(e),
                            Ok(Some(_)) => r matches Err(e) && e.kind
                                == ErrorKind::TooManyItems,
                            Ok(None) => r == Ok::<Port, Error>(x),
                        },
                },
    {
        let mut q = self;
        if !q.query.has_param("limit") && !q.query.has_param("marker") {
            q.query.push("limit", 2);
        }
        q.into_iter().one(list)
    }
}

/// With automatic pagination, `one` asks for two items and turns pagination
/// off, so its first pull makes the only list call: once it has succeeded the
/// listing is exhausted, and the second pull answers from what was fetched.
pub proof fn lemma_one_lists_once<F: Fn(&Query) -> Result<Vec<Port>, Error>>(
    q: PortQuery,
    list: F,
    t: PagerState<Port>,
    first: Result<Option<Port>, Error>,
)
    requires
        q.paginates(),
        next_step(list, q.one_state(), t, first),
        first is Ok,
    ensures
        t.exhausted,
{
    let params = q.one_params();
    assert(params[params.len() - 1].0 == "limit"@);
    assert(!no_manual_paging(params));
}

} // verus!
