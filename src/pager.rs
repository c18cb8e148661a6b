//! Lazy, paginated listing of resources.

use vstd::prelude::*;

use crate::error::{Error, ErrorKind};
use crate::query::{Query, decimal};

verus! {

/// A resource with a canonical ID, which serves as a continuation marker.
pub trait ResourceId {
    spec fn id_of(&self) -> Seq<char>;

    /// The resource's ID.
    fn resource_id(&self) -> (r: String)
        ensures
            r@ == self.id_of(),
    ;
}

/// The state of a paginated listing.
pub struct PagerState<T> {
    /// The caller's query parameters.
    pub query: Seq<(Seq<char>, Seq<char>)>,
    /// The page size asked for when paginating automatically.
    pub page_size: nat,
    /// Whether pages are followed automatically.
    pub can_paginate: bool,
    /// Whether no further page will be fetched.
    pub exhausted: bool,
    /// The ID of the last item of the last full page.
    pub marker: Option<Seq<char>>,
    /// Items fetched and not yet handed out, in server order.
    pub pending: Seq<T>,
}

/// The query carries no marker and no limit of the caller's.
pub open spec fn no_manual_paging(q: Seq<(Seq<char>, Seq<char>)>) -> bool {
    forall|k: int| 0 <= k < q.len() ==> (#[trigger] q[k]).0 != "limit"@ && q[k].0 != "marker"@
}

/// Adding a parameter other than a limit or a marker keeps automatic paging
/// as it was.
pub proof fn lemma_push_keeps_paging(q: Seq<(Seq<char>, Seq<char>)>, key: Seq<char>, value: Seq<char>)
    requires
        key != "limit"@,
        key != "marker"@,
    ensures
        no_manual_paging(q.push((key, value))) == no_manual_paging(q),
{
    let p = q.push((key, value));
    if no_manual_paging(q) {
        assert forall|k: int| 0 <= k < p.len() implies (#[trigger] p[k]).0 != "limit"@ && p[k].0
            != "marker"@ by {
            if k < q.len() {
                assert(p[k] == q[k]);
            }
        }
    }
    if no_manual_paging(p) {
        assert forall|k: int| 0 <= k < q.len() implies (#[trigger] q[k]).0 != "limit"@ && q[k].0
            != "marker"@ by {
            assert(p[k] == q[k]);
        }
    }
}

/// Some parameter of `q` is named `key`.
pub open spec fn has_key(q: Seq<(Seq<char>, Seq<char>)>, key: Seq<char>) -> bool {
    exists|k: int| 0 <= k < q.len() && (#[trigger] q[k]).0 == key
}

/// The parameters of the next list call: the caller's, then the page size
/// as the limit unless the caller set one, then, when paginating
/// automatically, the marker of the last full page.
pub open spec fn request_pairs<T>(s: PagerState<T>) -> Seq<(Seq<char>, Seq<char>)> {
    let with_limit = if has_key(s.query, "limit"@) {
        s.query
    } else {
        s.query.push(("limit"@, decimal(s.page_size)))
    };
    if s.can_paginate {
        match s.marker {
            Some(m) => with_limit.push(("marker"@, m)),
            None => with_limit,
        }
    } else {
        with_limit
    }
}

/// The state after a page arrives: its items queue up; a short page, or any
/// page when not paginating automatically, ends the listing, and a full one
/// moves the marker to its last item.
pub open spec fn absorb<T: ResourceId>(s: PagerState<T>, page: Seq<T>) -> PagerState<T> {
    if !s.can_paginate || page.len() < s.page_size {
        PagerState { exhausted: true, pending: s.pending + page, ..s }
    } else {
        PagerState { marker: Some(page.last().id_of()), pending: s.pending + page, ..s }
    }
}

/// The state after handing out the first pending item, and that item.
pub open spec fn pop<T>(s: PagerState<T>) -> (PagerState<T>, Option<T>) {
    if s.pending.len() == 0 {
        (s, None)
    } else {
        (PagerState { pending: s.pending.drop_first(), ..s }, Some(s.pending[0]))
    }
}

/// One pull from the listing in state `s` through `list` may end in state
/// `next` with result `r`: a pending item is handed out with no call; an
/// exhausted listing ends; otherwise one list call is made with the request
/// parameters, and its page is queued or its error returned.
pub open spec fn next_step<T: ResourceId, F: Fn(&Query) -> Result<Vec<T>, Error>>(
    list: F,
    s: PagerState<T>,
    next: PagerState<T>,
    r: Result<Option<T>, Error>,
) -> bool {
    if s.pending.len() > 0 || s.exhausted {
        next == pop(s).0 && r == Ok::<Option<T>, Error>(pop(s).1)
    } else {
        exists|q: &Query, res: Result<Vec<T>, Error>|
            #[trigger] list.ensures((q,), res) && q.pairs() == request_pairs(s) && match res {
                Err(e) => next == s && r == Err::<Option<T>, Error>(e),
                Ok(page) => next == pop(absorb(s, page@)).0 && r == Ok::<Option<T>, Error>(
                    pop(absorb(s, page@)).1,
                ),
            }
    }
}

/// Pulling from state `states[0]` yields `items` one by one, passing through
/// `states` in turn.
pub open spec fn chain<T: ResourceId, F: Fn(&Query) -> Result<Vec<T>, Error>>(
    list: F,
    states: Seq<PagerState<T>>,
    items: Seq<T>,
) -> bool {
    &&& states.len() == items.len() + 1
    &&& forall|i: int|
        0 <= i < items.len() ==> #[trigger] next_step(list, states[i], states[i + 1], Ok(Some(items[i])))
}

/// Pulling from state `s` yields `items` one by one and then nothing more.
pub open spec fn drains<T: ResourceId, F: Fn(&Query) -> Result<Vec<T>, Error>>(
    list: F,
    s: PagerState<T>,
    items: Seq<T>,
) -> bool {
    exists|states: Seq<PagerState<T>>, u: PagerState<T>|
        #[trigger] chain(list, states, items) && states[0] == s && #[trigger] next_step(
            list,
            states.last(),
            u,
            Ok(None),
        )
}

/// Pulling from state `s` yields some items and then fails with `e`.
pub open spec fn fails<T: ResourceId, F: Fn(&Query) -> Result<Vec<T>, Error>>(
    list: F,
    s: PagerState<T>,
    e: Error,
) -> bool {
    exists|states: Seq<PagerState<T>>, items: Seq<T>, u: PagerState<T>|
        #[trigger] chain(list, states, items) && states[0] == s && #[trigger] next_step(
            list,
            states.last(),
            u,
            Err(e),
        )
}

/// Pulling from state `s` may yield as many items as a `Vec` can hold.
pub open spec fn overflows<T: ResourceId, F: Fn(&Query) -> Result<Vec<T>, Error>>(
    list: F,
    s: PagerState<T>,
) -> bool {
    exists|states: Seq<PagerState<T>>, items: Seq<T>|
        #[trigger] chain(list, states, items) && states[0] == s && items.len() == usize::MAX
}

/// The list calls that a server holding `rest` answers, from state `s` on:
/// each call gets the next page of `rest`, as many items as the page size
/// or what is left. Gives the parameters of each call and the final state.
pub open spec fn serve_rest<T: ResourceId>(s: PagerState<T>, rest: Seq<T>) -> (
    Seq<Seq<(Seq<char>, Seq<char>)>>,
    PagerState<T>,
)
    decreases rest.len(),
{
    let n = if rest.len() < s.page_size {
        rest.len()
    } else {
        s.page_size
    };
    let next = absorb(s, rest.subrange(0, n as int));
    if next.exhausted || n == 0 {
        (seq![request_pairs(s)], next)
    } else {
        let (later, last) = serve_rest(next, rest.subrange(n as int, rest.len() as int));
        (seq![request_pairs(s)] + later, last)
    }
}

/// Paging through a collection held by a well-behaved server: from a state
/// that paginates automatically, with no limit of the caller's, a server
/// holding `rest` is asked `rest.len() / page_size + 1` times; every call
/// after the first carries the page size as limit and, as marker, the ID of
/// the last item of the page before; the listing ends exhausted with all of
/// `rest` queued after what was pending, in server order.
pub proof fn lemma_paging_through<T: ResourceId>(s: PagerState<T>, rest: Seq<T>)
    requires
        s.can_paginate,
        !s.exhausted,
        s.page_size > 0,
        !has_key(s.query, "limit"@),
    ensures
        serve_rest(s, rest).0.len() == rest.len() / s.page_size + 1,
        serve_rest(s, rest).0[0] == request_pairs(s),
        forall|k: int|
            1 <= k < serve_rest(s, rest).0.len() ==> #[trigger] (k * s.page_size) <= rest.len(),
        forall|k: int|
            1 <= k < serve_rest(s, rest).0.len() ==> #[trigger] serve_rest(s, rest).0[k]
                == s.query.push(("limit"@, decimal(s.page_size))).push(
                ("marker"@, rest[k * s.page_size - 1].id_of()),
            ),
        serve_rest(s, rest).1.exhausted,
        serve_rest(s, rest).1.pending == s.pending + rest,
    decreases rest.len(),
{
    let p = s.page_size as int;
    let len = rest.len() as int;
    if len < p {
        vstd::arithmetic::div_mod::lemma_basic_div(len, p);
        assert(s.pending + rest.subrange(0, len) =~= s.pending + rest);
        assert(serve_rest(s, rest).0.len() == 1);
    } else {
        let page = rest.subrange(0, p);
        let next = absorb(s, page);
        let tail = rest.subrange(p, len);
        assert(!next.exhausted);
        lemma_paging_through(next, tail);
        let (later, last) = serve_rest(next, tail);
        let reqs = serve_rest(s, rest).0;
        assert(reqs == seq![request_pairs(s)] + later);
        vstd::arithmetic::div_mod::lemma_div_plus_one(len - p, p);
        assert(p + (len - p) == len);
        assert(last.pending =~= s.pending + rest) by {
            assert(next.pending == s.pending + page);
            assert(s.pending + page + tail =~= s.pending + rest);
        }
        assert forall|k: int| 1 <= k < reqs.len() implies k * p <= len && #[trigger] reqs[k]
            == s.query.push(("limit"@, decimal(s.page_size))).push(
            ("marker"@, rest[k * p - 1].id_of()),
        ) by {
            if k == 1 {
                assert(reqs[1] == later[0]);
                assert(page.last() == rest[p - 1]);
            } else {
                let j = k - 1;
                assert(reqs[k] == later[j]);
                assert(j * p + p == k * p) by (nonlinear_arith)
                    requires
                        j == k - 1,
                ;
                assert(j * p >= 1) by (nonlinear_arith)
                    requires
                        j >= 1,
                        p >= 1,
                ;
                assert(j * p <= len - p);
                assert(tail[j * p - 1] == rest[k * p - 1]);
            }
        }
        assert forall|k: int| 1 <= k < serve_rest(s, rest).0.len() implies #[trigger] (k * s.page_size)
            <= rest.len() by {
            assert(reqs[k] == reqs[k]);
        }
        assert forall|k: int| 1 <= k < serve_rest(s, rest).0.len() implies #[trigger] serve_rest(s, rest).0[k] == s.query.push(("limit"@, decimal(s.page_size))).push(
            ("marker"@, rest[k * s.page_size - 1].id_of()),
        ) by {
            assert(reqs[k] == s.query.push(("limit"@, decimal(s.page_size))).push(
                ("marker"@, rest[k * p - 1].id_of()),
            ));
        }
    }
}

/// The listing that `ResourceIterator::new` starts, over a query with no
/// limit and no marker of the caller's, against a server holding `items`:
/// `items.len() / page_size + 1` list calls, the first with the page size as
/// limit and no marker, each later one with the ID of the last item of the
/// page before as marker; the items come out all, in server order.
pub proof fn lemma_paging_from_start<T: ResourceId>(
    query: Seq<(Seq<char>, Seq<char>)>,
    page_size: nat,
    items: Seq<T>,
)
    requires
        no_manual_paging(query),
        page_size > 0,
    ensures
        ({
            let start = PagerState::<T> {
                query,
                page_size,
                can_paginate: true,
                exhausted: false,
                marker: None,
                pending: Seq::empty(),
            };
            let (calls, last) = serve_rest(start, items);
            &&& calls.len() == items.len() / page_size + 1
            &&& calls[0] == query.push(("limit"@, decimal(page_size)))
            &&& forall|k: int|
                1 <= k < calls.len() ==> #[trigger] calls[k] == query.push(
                    ("limit"@, decimal(page_size)),
                ).push(("marker"@, items[k * page_size - 1].id_of()))
            &&& last.exhausted
            &&& last.pending == items
        }),
{
    let start = PagerState::<T> {
        query,
        page_size,
        can_paginate: true,
        exhausted: false,
        marker: None,
        pending: Seq::empty(),
    };
    assert(!has_key(query, "limit"@));
    lemma_paging_through(start, items);
    assert(Seq::<T>::empty() + items =~= items);
}

/// A lazy listing of resources, fetched page by page.
pub struct ResourceIterator<T> {
    query: Query,
    page_size: usize,
    can_paginate: bool,
    exhausted: bool,
    marker: Option<String>,
    pending: Vec<T>,
}

impl<T> View for ResourceIterator<T> {
    type V = PagerState<T>;

    closed spec fn view(&self) -> PagerState<T> {
        PagerState {
            query: self.query.pairs(),
            page_size: self.page_size as nat,
            can_paginate: self.can_paginate,
            exhausted: self.exhausted,
            marker: match self.marker {
                Some(m) => Some(m@),
                None => None,
            },
            pending: self.pending@,
        }
    }
}

impl<T: ResourceId> ResourceIterator<T> {
    /// A listing for `query`, paginated by `page_size` items unless the
    /// query holds a limit or a marker of its own.
    pub fn new(query: Query, page_size: usize) -> (r: ResourceIterator<T>)
        requires
            page_size > 0,
        ensures
            r@ == (PagerState::<T> {
                query: query.pairs(),
                page_size: page_size as nat,
                can_paginate: no_manual_paging(query.pairs()),
                exhausted: false,
                marker: None,
                pending: Seq::empty(),
            }),
    {
        let can_paginate = !query.has_param("limit") && !query.has_param("marker");
        let r = ResourceIterator {
            query,
            page_size,
            can_paginate,
            exhausted: false,
            marker: None,
            pending: Vec::new(),
        };
        r
    }

    /// The parameters of the next list call.
    pub fn request_query(&self) -> (r: Query)
        ensures
            r.pairs() == request_pairs(self@),
    {
        let mut q = self.query.duplicate();
        if !self.query.has_param("limit") {
            q.push("limit", self.page_size);
        }
        if self.can_paginate {
            match &self.marker {
                Some(m) => q.push_str("marker", m.clone()),
                None => {},
            }
        }
        q
    }

    /// Take in a page returned by the list call.
    pub fn absorb_page(&mut self, page: Vec<T>)
        requires
            old(self)@.page_size > 0,
        ensures
            final(self)@ == absorb(old(self)@, page@),
    {
        let short = page.len() < self.page_size;
        if !self.can_paginate || short {
            self.exhausted = true;
        } else {
            let last = page.len() - 1;
            self.marker = Some(page[last].resource_id());
        }
        let mut page = page;
        self.pending.append(&mut page);
    }

    /// Hand out the next item, fetching a page through `list` when none is
    /// pending and the listing is not exhausted.
    pub fn next<F: Fn(&Query) -> Result<Vec<T>, Error>>(&mut self, list: &F) -> (r: Result<
        Option<T>,
        Error,
    >)
        requires
            old(self)@.page_size > 0,
            forall|q: &Query| #[trigger] list.requires((q,)),
        ensures
            final(self)@.page_size == old(self)@.page_size,
            next_step(*list, old(self)@, final(self)@, r),
    {
        if self.pending.len() == 0 && !self.exhausted {
            let q = self.request_query();
            match list(&q) {
                Ok(page) => self.absorb_page(page),
                Err(e) => return Err(e),
            }
        }
        if self.pending.len() == 0 {
            Ok(None)
        } else {
            Ok(Some(self.pending.remove(0)))
        }
    }

    /// The first item, if any.
    pub fn first<F: Fn(&Query) -> Result<Vec<T>, Error>>(self, list: &F) -> (r: Result<
        Option<T>,
        Error,
    >)
        requires
            self@.page_size > 0,
            forall|q: &Query| #[trigger] list.requires((q,)),
        ensures
            exists|t: PagerState<T>| next_step(*list, self@, t, r),
    {
        let mut me = self;
        me.next(list)
    }

    /// The one and only item: fails with `ResourceNotFound` when there is
    /// none and with `TooManyItems` when a second one follows.
    pub fn one<F: Fn(&Query) -> Result<Vec<T>, Error>>(self, list: &F) -> (r: Result<T, Error>)
        requires
            self@.page_size > 0,
            forall|q: &Query| #[trigger] list.requires((q,)),
        ensures
            exists|t: PagerState<T>, first: Result<Option<T>, Error>|
                #[trigger] next_step(*list, self@, t, first) && match first {
                    Err(e) => r == Err::<T, Error>(e),
                    Ok(None) => r matches Err(e) && e.kind == ErrorKind::ResourceNotFound,
                    Ok(Some(x)) => exists|u: PagerState<T>, second: Result<Option<T>, Error>|
                        #[trigger] next_step(*list, t, u, second) && match second {
                            Err(e) => r == Err::<T, Error>(e),
                            Ok(Some(_)) => r matches Err(e) && e.kind == ErrorKind::TooManyItems,
                            Ok(None) => r == Ok::<T, Error>(x),
                        },
                },
    {
        let mut me = self;
        let ghost s0 = me@;
        match me.next(list) {
            Ok(Some(x)) => {
                let ghost s1 = me@;
                let second = me.next(list);
                assert(next_step(*list, s1, me@, second));
                match second {
                    Ok(Some(_)) => Err(
                        Error::new(ErrorKind::TooManyItems, String::from_str("Query returned more than one result")),
                    ),
                    Ok(None) => Ok(x),
                    Err(e) => Err(e),
                }
            },
            Ok(None) => Err(
                Error::new(ErrorKind::ResourceNotFound, String::from_str("Query returned no results")),
            ),
            Err(e) => Err(e),
        }
    }
    /// Every item, in server order, following pages as needed. Fails as a
    /// whole, with no partial result, when a list call fails; and with
    /// `TooManyItems` should the items outgrow the address space.
    pub fn collect_all<F: Fn(&Query) -> Result<Vec<T>, Error>>(self, list: &F) -> (r: Result<
        Vec<T>,
        Error,
    >)
        requires
            self@.page_size > 0,
            forall|q: &Query| #[trigger] list.requires((q,)),
        ensures
            r matches Ok(items) ==> drains(*list, self@, items@),
            r matches Err(e) ==> fails(*list, self@, e) || (e.kind == ErrorKind::TooManyItems && overflows(
                *list,
                self@,
            )),
    {
        let mut me = self;
        let mut items: Vec<T> = Vec::new();
        let ghost mut states: Seq<PagerState<T>> = seq![me@];
        loop
            invariant
                me@.page_size > 0,
                forall|q: &Query| #[trigger] list.requires((q,)),
                chain(*list, states, items@),
                states[0] == self@,
                states.last() == me@,
            decreases usize::MAX - items@.len(),
        {
            let ghost before = me@;
            let ghost seen = items@;
            let ghost old_states = states;
            let res = me.next(list);
            match res {
                Ok(Some(x)) => {
                    if items.len() == usize::MAX {
                        assert(chain(*list, states, items@) && states[0] == self@ && items@.len()
                            == usize::MAX);
                        assert(overflows(*list, self@));
                        return Err(
                            Error::new(ErrorKind::TooManyItems, String::from_str("Too many items to collect")),
                        );
                    }
                    items.push(x);
                    proof {
                        states = states.push(me@);
                        assert forall|i: int| 0 <= i < items@.len() implies #[trigger] next_step(
                            *list,
                            states[i],
                            states[i + 1],
                            Ok(Some(items@[i])),
                        ) by {
                            if i < seen.len() {
                                assert(states[i] == old_states[i]);
                                assert(states[i + 1] == old_states[i + 1]);
                                assert(items@[i] == seen[i]);
                                assert(next_step(*list, old_states[i], old_states[i + 1], Ok(Some(seen[i]))));
                            }
                        }
                    }
                },
                Ok(None) => {
                    assert(chain(*list, states, items@) && states[0] == self@ && next_step(*list, states.last(), me@, Ok(None)));
                    assert(drains(*list, self@, items@));
                    return Ok(items);
                },
                Err(e) => {
                    assert(chain(*list, states, items@) && states[0] == self@ && next_step(*list, states.last(), me@, Err(e)));
                    assert(fails(*list, self@, e));
                    return Err(e);
                },
            }
        }
    }
}

} // verus!
