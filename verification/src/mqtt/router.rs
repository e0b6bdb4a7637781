//! Routing of received MQTT messages to the subscriptions made on their topic.
//!
//! Every subscription is a handler registered under a route (an MQTT topic).
//! A route also carries the data that the broker returned when the route was
//! first subscribed to; it is handed back when the last handler of the route
//! goes away, so that the caller can unsubscribe.
//!
//! Handlers live in a `generational_arena::Arena`; the arena's index of a
//! handler, as its raw `(slot, generation)` parts, is its [`RouteId`]. Handler
//! values and route data are plain integers that stand for what the caller
//! keeps elsewhere (a channel, a broker subscription key).

use vstd::prelude::*;
use generational_arena::{Arena, Index};
use crate::discovery::strings::str_equal;

verus! {

/// `generational_arena::Arena`, opaque: what an arena of handlers holds is
/// given by [`arena_items`], of which the wrappers below state what they do.
#[verifier::external_type_specification]
#[verifier::external_body]
#[verifier::reject_recursive_types(T)]
pub struct ExArena<T>(Arena<T>);

/// The identity of a handler: the raw parts `(slot, generation)` of its arena index.
pub type RouteId = (usize, u64);

/// What an arena of handlers holds: for each index, as raw parts, the route and
/// the value of the handler stored there.
pub uninterp spec fn arena_items(arena: Arena<(String, u64)>) -> Map<(usize, u64), (Seq<char>, u64)>;

/// `Arena::new`: the new arena holds nothing.
#[verifier::external_body]
fn arena_new() -> (res: Arena<(String, u64)>)
    ensures
        arena_items(res).dom() == Set::<RouteId>::empty(),
{
    Arena::new()
}

/// `Arena::insert`: the item is stored under an index that held nothing before,
/// and nothing else changes. The index is returned as its raw parts.
#[verifier::external_body]
fn arena_insert(arena: &mut Arena<(String, u64)>, route: String, value: u64) -> (id: RouteId)
    ensures
        !arena_items(*old(arena)).dom().contains(id),
        arena_items(*final(arena)) == arena_items(*old(arena)).insert(id, (route@, value)),
{
    arena.insert((route, value)).into_raw_parts()
}

/// `Arena::remove`: when the index holds an item, that item is taken out and
/// returned; otherwise nothing changes and `None` is returned.
#[verifier::external_body]
fn arena_remove(arena: &mut Arena<(String, u64)>, id: RouteId) -> (res: Option<(String, u64)>)
    ensures
        arena_items(*old(arena)).dom().contains(id) ==> {
            &&& res matches Some(item) && (item.0@, item.1) == arena_items(*old(arena))[id]
            &&& arena_items(*final(arena)) == arena_items(*old(arena)).remove(id)
        },
        !arena_items(*old(arena)).dom().contains(id) ==> {
            &&& res is None
            &&& arena_items(*final(arena)) == arena_items(*old(arena))
        },
{
    arena.remove(Index::from_raw_parts(id.0, id.1))
}

/// `Arena::get`, keeping only the handler's value: `Some` of the value stored
/// under the index, or `None` when the index holds nothing.
#[verifier::external_body]
fn arena_value(arena: &Arena<(String, u64)>, id: RouteId) -> (res: Option<u64>)
    ensures
        arena_items(*arena).dom().contains(id) ==> res == Some(arena_items(*arena)[id].1),
        !arena_items(*arena).dom().contains(id) ==> res is None,
{
    arena.get(Index::from_raw_parts(id.0, id.1)).map(|item| item.1)
}

/// A route's data and its handlers, in the order in which they are matched.
pub struct RouteView {
    pub data: u64,
    pub ids: Seq<RouteId>,
}

/// The abstract state of a router: its routes, and for every handler the route
/// it is registered under and its value.
pub struct RouterView {
    pub routes: Map<Seq<char>, RouteView>,
    pub handlers: Map<RouteId, (Seq<char>, u64)>,
}

/// Removing the element at `p` by moving the last element into its place.
pub open spec fn swap_removed<A>(s: Seq<A>, p: int) -> Seq<A> {
    s.update(p, s.last()).drop_last()
}

impl RouterView {
    /// The router with no routes and no handlers.
    pub open spec fn empty() -> RouterView {
        RouterView { routes: Map::empty(), handlers: Map::empty() }
    }

    /// Every handler is registered under exactly one route, at most once, and
    /// no route is left without a handler.
    pub open spec fn consistent(self) -> bool {
        &&& forall|r: Seq<char>| #[trigger] self.routes.dom().contains(r) ==> self.routes[r].ids.len() > 0
        &&& forall|r: Seq<char>, k: int|
            self.routes.dom().contains(r) && 0 <= k < self.routes[r].ids.len() ==> {
                &&& self.handlers.dom().contains(#[trigger] self.routes[r].ids[k])
                &&& self.handlers[self.routes[r].ids[k]].0 == r
            }
        &&& forall|r: Seq<char>, k1: int, k2: int|
            self.routes.dom().contains(r) && 0 <= k1 < self.routes[r].ids.len() && 0 <= k2
                < self.routes[r].ids.len() && k1 != k2 ==> #[trigger] self.routes[r].ids[k1]
                != #[trigger] self.routes[r].ids[k2]
        &&& forall|id: RouteId| #[trigger] self.handlers.dom().contains(id) ==> {
                &&& self.routes.dom().contains(self.handlers[id].0)
                &&& self.routes[self.handlers[id].0].ids.contains(id)
            }
    }

    /// The handlers that a message published on `route` is delivered to, in order.
    pub open spec fn matching(self, route: Seq<char>) -> Seq<RouteId> {
        if self.routes.dom().contains(route) {
            self.routes[route].ids
        } else {
            Seq::empty()
        }
    }

    /// The router after handler `id` with `value` joins the existing `route`.
    pub open spec fn add_handler(self, route: Seq<char>, id: RouteId, value: u64) -> RouterView {
        RouterView {
            routes: self.routes.insert(
                route,
                RouteView { data: self.routes[route].data, ids: self.routes[route].ids.push(id) },
            ),
            handlers: self.handlers.insert(id, (route, value)),
        }
    }

    /// The router after the new `route`, with `data`, is created with the single
    /// handler `id` holding `value`.
    pub open spec fn add_route(self, route: Seq<char>, data: u64, id: RouteId, value: u64) -> RouterView {
        RouterView {
            routes: self.routes.insert(route, RouteView { data, ids: seq![id] }),
            handlers: self.handlers.insert(id, (route, value)),
        }
    }

    /// The handlers that remain on the route of handler `id` once it is removed.
    pub open spec fn remaining(self, id: RouteId) -> Seq<RouteId> {
        let ids = self.routes[self.handlers[id].0].ids;
        swap_removed(ids, ids.index_of(id))
    }

    /// The router after handler `id` is removed; a route left without handlers
    /// is removed with it.
    pub open spec fn remove_handler(self, id: RouteId) -> RouterView {
        if !self.handlers.dom().contains(id) {
            self
        } else {
            let route = self.handlers[id].0;
            let rest = self.remaining(id);
            RouterView {
                routes: if rest.len() == 0 {
                    self.routes.remove(route)
                } else {
                    self.routes.insert(route, RouteView { data: self.routes[route].data, ids: rest })
                },
                handlers: self.handlers.remove(id),
            }
        }
    }

    /// What removing handler `id` returns: nothing when there is no such
    /// handler; otherwise its value, and the data of its route when it was the
    /// route's last handler.
    pub open spec fn removal(self, id: RouteId) -> Option<(u64, Option<u64>)> {
        if !self.handlers.dom().contains(id) {
            None
        } else {
            let route = self.handlers[id].0;
            Some(
                (
                    self.handlers[id].1,
                    if self.remaining(id).len() == 0 {
                        Some(self.routes[route].data)
                    } else {
                        None
                    },
                ),
            )
        }
    }
}

/// The handlers of one route.
pub struct Nodes {
    route: String,
    nodes: Vec<RouteId>,
    data: u64,
}

/// Routes MQTT topics to the handlers subscribed to them.
pub struct Router {
    arena: Arena<(String, u64)>,
    routes: Vec<Nodes>,
    table: Ghost<Map<Seq<char>, RouteView>>,
}

/// A handler that a message is delivered to: its identity and its value.
#[derive(Clone, Copy, Debug, PartialEq, Eq)]
pub struct Match {
    pub id: RouteId,
    pub value: u64,
}

impl Match {
    pub fn id(&self) -> (res: RouteId)
        ensures
            res == self.id,
    {
        self.id
    }

    pub fn value(&self) -> (res: u64)
        ensures
            res == self.value,
    {
        self.value
    }
}

/// A route that already has handlers.
pub struct OccupiedRouterEntry<'a> {
    pub router: &'a mut Router,
    pub route: String,
    pub position: usize,
}

/// A route that has no handler yet.
pub struct VacantRouterEntry<'a> {
    pub router: &'a mut Router,
    pub route: String,
}

/// The place of a route in a router, whether or not it has handlers.
pub enum RouterEntry<'a> {
    Occupied(OccupiedRouterEntry<'a>),
    Vacant(VacantRouterEntry<'a>),
}

/// Where among `routes` the route `route` is kept, if it is.
fn position_of(routes: &Vec<Nodes>, route: &str) -> (res: Option<usize>)
    ensures
        match res {
            Some(p) => p < routes.len() && routes[p as int].route@ == route@,
            None => forall|j: int| 0 <= j < routes.len() ==> routes[j].route@ != route@,
        },
{
    let n = routes.len();
    let mut i: usize = 0;
    while i < n
        invariant
            n == routes.len(),
            i <= n,
            forall|j: int| 0 <= j < i ==> routes[j].route@ != route@,
        decreases n - i,
    {
        if str_equal(routes[i].route.as_str(), route) {
            return Some(i);
        }
        i = i + 1;
    }
    None
}

/// Where `id` is among `ids`, if it is.
fn position_of_id(ids: &Vec<RouteId>, id: RouteId) -> (res: Option<usize>)
    ensures
        match res {
            Some(k) => k < ids.len() && ids[k as int] == id,
            None => !ids@.contains(id),
        },
{
    let n = ids.len();
    let mut k: usize = 0;
    while k < n
        invariant
            n == ids.len(),
            k <= n,
            forall|j: int| 0 <= j < k ==> ids[j] != id,
        decreases n - k,
    {
        let candidate = ids[k];
        if candidate.0 == id.0 && candidate.1 == id.1 {
            return Some(k);
        }
        k = k + 1;
    }
    None
}

/// In a sequence without repeats, the index of an element is where it stands.
proof fn lemma_index_of_distinct(s: Seq<RouteId>, k: int)
    requires
        0 <= k < s.len(),
        forall|a: int, b: int| 0 <= a < s.len() && 0 <= b < s.len() && a != b ==> s[a] != s[b],
    ensures
        s.index_of(s[k]) == k,
{
    assert(s.contains(s[k]));
}

impl Router {
    /// The abstract state of the router.
    pub closed spec fn view(&self) -> RouterView {
        RouterView {
            routes: self.table@,
            handlers: arena_items(self.arena),
        }
    }

    /// The concrete router represents its abstract state.
    pub closed spec fn wf(&self) -> bool {
        let items = arena_items(self.arena);
        &&& forall|i: int, j: int|
            0 <= i < j < self.routes.len() ==> self.routes[i].route@ != self.routes[j].route@
        &&& forall|i: int|
            0 <= i < self.routes.len() ==> {
                &&& self.table@.dom().contains(#[trigger] self.routes[i].route@)
                &&& self.table@[self.routes[i].route@] == RouteView {
                    data: self.routes[i].data,
                    ids: self.routes[i].nodes@,
                }
            }
        &&& forall|r: Seq<char>|
            #[trigger] self.table@.dom().contains(r) ==> exists|i: int|
                0 <= i < self.routes.len() && self.routes[i].route@ == r
        &&& self.view().consistent()
    }

    /// A well-formed router's view is consistent, so the laws below apply to it.
    pub proof fn lemma_wf_consistent(&self)
        requires
            self.wf(),
        ensures
            self.view().consistent(),
    {
    }

    /// `position` is where `route` is kept in this router.
    pub closed spec fn locates(&self, position: usize, route: Seq<char>) -> bool {
        &&& position < self.routes.len()
        &&& self.routes[position as int].route@ == route
    }

    /// A router with no routes.
    pub fn new() -> (res: Router)
        ensures
            res.wf(),
            res.view() == RouterView::empty(),
    {
        let res = Router { arena: arena_new(), routes: Vec::new(), table: Ghost(Map::empty()) };
        assert(res.view().routes =~= RouterView::empty().routes);
        assert(res.view().handlers =~= RouterView::empty().handlers);
        res
    }

    /// Where `route` is kept, if it is.
    fn find(&self, route: &str) -> (res: Option<usize>)
        requires
            self.wf(),
        ensures
            match res {
                Some(p) => self.locates(p, route@),
                None => !self.view().routes.dom().contains(route@),
            },
    {
        let res = position_of(&self.routes, route);
        proof {
            if res is None && self.table@.dom().contains(route@) {
                let j = choose|j: int| 0 <= j < self.routes.len() && self.routes[j].route@ == route@;
                assert(self.routes[j].route@ == route@);
            }
        }
        res
    }

    /// The place of `route`: occupied when the route has handlers, vacant otherwise.
    pub fn entry(&mut self, route: String) -> (res: RouterEntry<'_>)
        requires
            old(self).wf(),
        ensures
            match res {
                RouterEntry::Occupied(e) => {
                    &&& old(self).view().routes.dom().contains(route@)
                    &&& *e.router == *old(self)
                    &&& e.route@ == route@
                    &&& old(self).locates(e.position, route@)
                    &&& *final(self) == *final(e.router)
                },
                RouterEntry::Vacant(e) => {
                    &&& !old(self).view().routes.dom().contains(route@)
                    &&& *e.router == *old(self)
                    &&& e.route@ == route@
                    &&& *final(self) == *final(e.router)
                },
            },
    {
        match self.find(route.as_str()) {
            Some(position) => RouterEntry::Occupied(OccupiedRouterEntry { router: self, route, position }),
            None => RouterEntry::Vacant(VacantRouterEntry { router: self, route }),
        }
    }

    /// The handlers of `key`, in order, with their values.
    pub fn matches(&self, key: &str) -> (res: Vec<Match>)
        requires
            self.wf(),
        ensures
            res@.len() == self.view().matching(key@).len(),
            forall|k: int|
                0 <= k < res@.len() ==> {
                    &&& (#[trigger] res@[k]).id == self.view().matching(key@)[k]
                    &&& res@[k].value == self.view().handlers[res@[k].id].1
                },
    {
        let mut res: Vec<Match> = Vec::new();
        match self.find(key) {
            None => {},
            Some(p) => {
                let ghost ids = self.routes[p as int].nodes@;
                assert(self.table@[key@].ids == ids);
                let n = self.routes[p].nodes.len();
                let mut k: usize = 0;
                while k < n
                    invariant
                        self.wf(),
                        p < self.routes.len(),
                        ids == self.routes[p as int].nodes@,
                        self.view().matching(key@) == ids,
                        n == ids.len(),
                        k <= n,
                        res@.len() == k,
                        forall|j: int|
                            0 <= j < k ==> {
                                &&& (#[trigger] res@[j]).id == ids[j]
                                &&& res@[j].value == self.view().handlers[res@[j].id].1
                            },
                    decreases n - k,
                {
                    let id = self.routes[p].nodes[k];
                    assert(self.view().handlers.dom().contains(ids[k as int])) by {
                        assert(self.table@.dom().contains(key@));
                    }
                    match arena_value(&self.arena, id) {
                        Some(value) => {
                            res.push(Match { id, value });
                        },
                        None => {
                            assert(false);
                        },
                    }
                    k = k + 1;
                }
            },
        }
        res
    }
}

impl<'a> OccupiedRouterEntry<'a> {
    /// Adds a handler holding `value` to this route; returns its identity.
    pub fn insert(self, value: u64) -> (id: RouteId)
        requires
            self.router.wf(),
            self.router.locates(self.position, self.route@),
        ensures
            final(self.router).wf(),
            !old(self.router).view().handlers.dom().contains(id),
            final(self.router).view() == old(self.router).view().add_handler(self.route@, id, value),
    {
        let ghost before = self.router.view();
        let ghost old_routes = self.router.routes@;
        let ghost route = self.route@;
        let p = self.position;
        let id = arena_insert(&mut self.router.arena, self.route.clone(), value);
        proof {
            assert(before.routes.dom().contains(route));
            assert forall|r: Seq<char>, k: int| before.routes.dom().contains(r) && 0 <= k < before.routes[r].ids.len()
                implies before.routes[r].ids[k] != id by {
                assert(before.handlers.dom().contains(before.routes[r].ids[k]));
            }
        }
        self.router.routes[p].nodes.push(id);
        let ghost new_view = RouteView { data: old_routes[p as int].data, ids: old_routes[p as int].nodes@.push(id) };
        self.router.table = Ghost(self.router.table@.insert(route, new_view));
        proof {
            let after = self.router.view();
            assert(after.routes =~= before.add_handler(route, id, value).routes);
            assert(after.handlers =~= before.add_handler(route, id, value).handlers);
            assert forall|r: Seq<char>| #[trigger] self.router.table@.dom().contains(r) implies exists|i: int|
                0 <= i < self.router.routes.len() && self.router.routes[i].route@ == r by {
                if r != route {
                    assert(before.routes.dom().contains(r));
                    let i = choose|i: int| 0 <= i < old_routes.len() && old_routes[i].route@ == r;
                    assert(self.router.routes[i].route@ == r);
                } else {
                    assert(self.router.routes[p as int].route@ == r);
                }
            }
            assert forall|i: int| 0 <= i < self.router.routes.len() implies {
                &&& self.router.table@.dom().contains(#[trigger] self.router.routes[i].route@)
                &&& self.router.table@[self.router.routes[i].route@] == RouteView {
                    data: self.router.routes[i].data,
                    ids: self.router.routes[i].nodes@,
                }
            } by {
                if i != p {
                    assert(old_routes[i].route@ != route);
                }
            }
            assert(after.consistent()) by {
                assert forall|id2: RouteId| #[trigger] after.handlers.dom().contains(id2) implies {
                    &&& after.routes.dom().contains(after.handlers[id2].0)
                    &&& after.routes[after.handlers[id2].0].ids.contains(id2)
                } by {
                    if id2 == id {
                        assert(after.routes[route].ids.last() == id);
                    } else {
                        let r2 = before.handlers[id2].0;
                        let k = choose|k: int| 0 <= k < before.routes[r2].ids.len() && before.routes[r2].ids[k] == id2;
                        assert(after.routes[r2].ids[k] == id2);
                    }
                }
            }
        }
        id
    }
}

impl<'a> VacantRouterEntry<'a> {
    /// Creates this route with `data` and a first handler holding `value`;
    /// returns the handler's identity.
    pub fn insert(self, data: u64, value: u64) -> (id: RouteId)
        requires
            self.router.wf(),
            !self.router.view().routes.dom().contains(self.route@),
        ensures
            final(self.router).wf(),
            !old(self.router).view().handlers.dom().contains(id),
            final(self.router).view() == old(self.router).view().add_route(self.route@, data, id, value),
    {
        let ghost before = self.router.view();
        let ghost old_routes = self.router.routes@;
        let ghost route = self.route@;
        let id = arena_insert(&mut self.router.arena, self.route.clone(), value);
        proof {
            assert forall|r: Seq<char>, k: int| before.routes.dom().contains(r) && 0 <= k < before.routes[r].ids.len()
                implies before.routes[r].ids[k] != id by {
                assert(before.handlers.dom().contains(before.routes[r].ids[k]));
            }
        }
        let mut nodes: Vec<RouteId> = Vec::new();
        nodes.push(id);
        self.router.routes.push(Nodes { route: self.route, nodes, data });
        self.router.table = Ghost(self.router.table@.insert(route, RouteView { data, ids: seq![id] }));
        proof {
            let after = self.router.view();
            let n = old_routes.len();
            assert(after.routes =~= before.add_route(route, data, id, value).routes);
            assert(after.handlers =~= before.add_route(route, data, id, value).handlers);
            assert(self.router.routes[n as int].nodes@ =~= seq![id]);
            assert forall|i: int, j: int| 0 <= i < j < self.router.routes.len() implies
                self.router.routes[i].route@ != self.router.routes[j].route@ by {
                if j == n {
                    if old_routes[i].route@ == route {
                        assert(before.routes.dom().contains(route));
                    }
                }
            }
            assert forall|r: Seq<char>| #[trigger] self.router.table@.dom().contains(r) implies exists|i: int|
                0 <= i < self.router.routes.len() && self.router.routes[i].route@ == r by {
                if r != route {
                    assert(before.routes.dom().contains(r));
                    let i = choose|i: int| 0 <= i < old_routes.len() && old_routes[i].route@ == r;
                    assert(self.router.routes[i].route@ == r);
                } else {
                    assert(self.router.routes[n as int].route@ == r);
                }
            }
            assert forall|i: int| 0 <= i < self.router.routes.len() implies {
                &&& self.router.table@.dom().contains(#[trigger] self.router.routes[i].route@)
                &&& self.router.table@[self.router.routes[i].route@] == RouteView {
                    data: self.router.routes[i].data,
                    ids: self.router.routes[i].nodes@,
                }
            } by {
                if i < n {
                    assert(before.routes.dom().contains(old_routes[i].route@));
                }
            }
            assert(after.consistent()) by {
                assert forall|id2: RouteId| #[trigger] after.handlers.dom().contains(id2) implies {
                    &&& after.routes.dom().contains(after.handlers[id2].0)
                    &&& after.routes[after.handlers[id2].0].ids.contains(id2)
                } by {
                    if id2 == id {
                        assert(after.routes[route].ids[0] == id);
                    } else {
                        let r2 = before.handlers[id2].0;
                        let k = choose|k: int| 0 <= k < before.routes[r2].ids.len() && before.routes[r2].ids[k] == id2;
                        assert(after.routes[r2].ids[k] == id2);
                    }
                }
            }
        }
        id
    }
}

impl Router {
    /// Removes handler `id`. Returns `None` when there is no such handler;
    /// otherwise its value, and the route's data when the handler was the last
    /// one of its route (the route is then removed too).
    pub fn remove(&mut self, id: RouteId) -> (res: Option<(u64, Option<u64>)>)
        requires
            old(self).wf(),
        ensures
            final(self).wf(),
            res == old(self).view().removal(id),
            final(self).view() == old(self).view().remove_handler(id),
    {
        let ghost before = self.view();
        let ghost old_routes = self.routes@;
        let removed = arena_remove(&mut self.arena, id);
        let (route, value) = match removed {
            None => {
                return None;
            },
            Some(item) => item,
        };
        let ghost r = route@;
        assert(before.handlers.dom().contains(id));
        assert(before.handlers[id] == (r, value));
        let p = match position_of(&self.routes, route.as_str()) {
            Some(p) => p,
            None => {
                proof {
                    let i = choose|i: int| 0 <= i < old_routes.len() && old_routes[i].route@ == r;
                    assert(old_routes[i].route@ == r);
                }
                return None;
            },
        };
        let ghost ids = old_routes[p as int].nodes@;
        assert(before.routes[r].ids == ids);
        let k = match position_of_id(&self.routes[p].nodes, id) {
            Some(k) => k,
            None => {
                return None;
            },
        };
        proof {
            lemma_index_of_distinct(ids, k as int);
        }
        assert(before.remaining(id) == swap_removed(ids, k as int));
        self.routes[p].nodes.swap_remove(k);
        let ghost rest = swap_removed(ids, k as int);
        let ghost mid = self.routes@;
        assert(self.routes[p as int].nodes@ == rest);
        assert(forall|i: int| 0 <= i < mid.len() && i != p ==> mid[i] == old_routes[i]);
        if self.routes[p].nodes.len() == 0 {
            let gone = self.routes.swap_remove(p);
            assert(forall|i: int| 0 <= i < self.routes.len() ==> #[trigger] self.routes[i] == (if i == p { old_routes[old_routes.len() - 1] } else { old_routes[i] }));
            self.table = Ghost(self.table@.remove(r));
            proof {
                let after = self.view();
                let target = before.remove_handler(id);
                assert(ids.len() == 1);
                assert(ids =~= seq![id]);
                assert(after.routes =~= target.routes);
                assert(after.handlers =~= target.handlers);
                self.lemma_removed_route(before, old_routes, id, r, p as int);
            }
            Some((value, Some(gone.data)))
        } else {
            self.table = Ghost(self.table@.insert(r, RouteView { data: old_routes[p as int].data, ids: rest }));
            proof {
                let after = self.view();
                let target = before.remove_handler(id);
                assert(after.routes =~= target.routes);
                assert(after.handlers =~= target.handlers);
                self.lemma_shrunk_route(before, old_routes, id, r, p as int, k as int);
            }
            Some((value, None))
        }
    }

    /// After the last handler of the route kept at `p` is removed together with
    /// the route, the router is well formed again.
    proof fn lemma_removed_route(&self, before: RouterView, old_routes: Seq<Nodes>, id: RouteId, r: Seq<char>, p: int)
        requires
            before.consistent(),
            0 <= p < old_routes.len(),
            old_routes[p].route@ == r,
            old_routes[p].nodes@ == seq![id],
            before.handlers.dom().contains(id),
            before.handlers[id].0 == r,
            before.routes.dom().contains(r),
            before.routes[r].ids == seq![id],
            forall|i: int, j: int| 0 <= i < j < old_routes.len() ==> old_routes[i].route@ != old_routes[j].route@,
            forall|i: int| 0 <= i < old_routes.len() ==> {
                &&& before.routes.dom().contains(#[trigger] old_routes[i].route@)
                &&& before.routes[old_routes[i].route@] == RouteView {
                    data: old_routes[i].data,
                    ids: old_routes[i].nodes@,
                }
            },
            forall|x: Seq<char>| #[trigger] before.routes.dom().contains(x) ==> exists|i: int|
                0 <= i < old_routes.len() && old_routes[i].route@ == x,
            self.routes.len() == old_routes.len() - 1,
            forall|i: int| 0 <= i < self.routes.len() ==> #[trigger] self.routes[i] == (if i == p { old_routes[old_routes.len() - 1] } else { old_routes[i] }),
            self.table@ == before.routes.remove(r),
            arena_items(self.arena) == before.handlers.remove(id),
        ensures
            self.wf(),
    {
        let after = self.view();
        let n = old_routes.len();
        assert forall|i: int, j: int| 0 <= i < j < self.routes.len() implies
            self.routes[i].route@ != self.routes[j].route@ by {
            let oi = if i == p { n - 1 } else { i };
            let oj = if j == p { n - 1 } else { j };
            assert(self.routes[i] == old_routes[oi]);
            assert(self.routes[j] == old_routes[oj]);
        }
        assert forall|i: int| 0 <= i < self.routes.len() implies {
            &&& self.table@.dom().contains(#[trigger] self.routes[i].route@)
            &&& self.table@[self.routes[i].route@] == RouteView {
                data: self.routes[i].data,
                ids: self.routes[i].nodes@,
            }
        } by {
            let oi = if i == p { n - 1 } else { i };
            assert(self.routes[i] == old_routes[oi]);
            assert(oi != p);
            assert(old_routes[oi].route@ != r);
        }
        assert forall|x: Seq<char>| #[trigger] self.table@.dom().contains(x) implies exists|i: int|
            0 <= i < self.routes.len() && self.routes[i].route@ == x by {
            let i = choose|i: int| 0 <= i < old_routes.len() && old_routes[i].route@ == x;
            assert(i != p);
            if i == n - 1 {
                assert(self.routes[p] == old_routes[i]);
            } else {
                assert(self.routes[i] == old_routes[i]);
            }
        }
        assert forall|x: Seq<char>, k: int|
            after.routes.dom().contains(x) && 0 <= k < after.routes[x].ids.len() implies {
                &&& after.handlers.dom().contains(#[trigger] after.routes[x].ids[k])
                &&& after.handlers[after.routes[x].ids[k]].0 == x
            } by {
            assert(before.routes[x].ids[k] != id);
        }
        assert forall|id2: RouteId| #[trigger] after.handlers.dom().contains(id2) implies {
            &&& after.routes.dom().contains(after.handlers[id2].0)
            &&& after.routes[after.handlers[id2].0].ids.contains(id2)
        } by {
            assert(before.routes[before.handlers[id2].0].ids.contains(id2));
            if before.handlers[id2].0 == r {
                let k = choose|k: int| 0 <= k < before.routes[r].ids.len() && before.routes[r].ids[k] == id2;
                assert(k == 0);
            }
        }
    }

    /// After a handler other than the last is removed from the route kept at
    /// `p`, the router is well formed again.
    proof fn lemma_shrunk_route(&self, before: RouterView, old_routes: Seq<Nodes>, id: RouteId, r: Seq<char>, p: int, k: int)
        requires
            before.consistent(),
            0 <= p < old_routes.len(),
            old_routes[p].route@ == r,
            0 <= k < old_routes[p].nodes@.len(),
            old_routes[p].nodes@[k] == id,
            old_routes[p].nodes@.len() > 1,
            before.handlers.dom().contains(id),
            before.handlers[id].0 == r,
            before.routes.dom().contains(r),
            before.routes[r].ids == old_routes[p].nodes@,
            forall|i: int, j: int| 0 <= i < j < old_routes.len() ==> old_routes[i].route@ != old_routes[j].route@,
            forall|i: int| 0 <= i < old_routes.len() ==> {
                &&& before.routes.dom().contains(#[trigger] old_routes[i].route@)
                &&& before.routes[old_routes[i].route@] == RouteView {
                    data: old_routes[i].data,
                    ids: old_routes[i].nodes@,
                }
            },
            forall|x: Seq<char>| #[trigger] before.routes.dom().contains(x) ==> exists|i: int|
                0 <= i < old_routes.len() && old_routes[i].route@ == x,
            self.routes.len() == old_routes.len(),
            forall|i: int| 0 <= i < old_routes.len() && i != p ==> self.routes[i] == old_routes[i],
            self.routes[p].route@ == r,
            self.routes[p].data == old_routes[p].data,
            self.routes[p].nodes@ == swap_removed(old_routes[p].nodes@, k),
            self.table@ == before.routes.insert(r, RouteView { data: old_routes[p].data, ids: swap_removed(old_routes[p].nodes@, k) }),
            arena_items(self.arena) == before.handlers.remove(id),
        ensures
            self.wf(),
    {
        let after = self.view();
        let ids = old_routes[p].nodes@;
        let rest = swap_removed(ids, k);
        assert forall|i: int, j: int| 0 <= i < j < self.routes.len() implies
            self.routes[i].route@ != self.routes[j].route@ by {
            assert(self.routes[i].route@ == old_routes[i].route@);
            assert(self.routes[j].route@ == old_routes[j].route@);
        }
        assert forall|i: int| 0 <= i < self.routes.len() implies {
            &&& self.table@.dom().contains(#[trigger] self.routes[i].route@)
            &&& self.table@[self.routes[i].route@] == RouteView {
                data: self.routes[i].data,
                ids: self.routes[i].nodes@,
            }
        } by {
            if i != p {
                assert(old_routes[i].route@ != r);
            }
        }
        assert forall|x: Seq<char>| #[trigger] self.table@.dom().contains(x) implies exists|i: int|
            0 <= i < self.routes.len() && self.routes[i].route@ == x by {
            if x == r {
                assert(self.routes[p].route@ == x);
            } else {
                let i = choose|i: int| 0 <= i < old_routes.len() && old_routes[i].route@ == x;
                assert(self.routes[i].route@ == x);
            }
        }
        // every element of `rest` comes from `ids` at an index other than `k`
        assert forall|m: int| 0 <= m < rest.len() implies exists|o: int| 0 <= o < ids.len() && o != k && #[trigger] rest[m] == ids[o] by {
            if m == k {
                assert(rest[m] == ids[ids.len() - 1]);
            } else {
                assert(rest[m] == ids[m]);
            }
        }
        assert forall|x: Seq<char>, m: int|
            after.routes.dom().contains(x) && 0 <= m < after.routes[x].ids.len() implies {
                &&& after.handlers.dom().contains(#[trigger] after.routes[x].ids[m])
                &&& after.handlers[after.routes[x].ids[m]].0 == x
            } by {
            if x == r {
                let o = choose|o: int| 0 <= o < ids.len() && o != k && rest[m] == ids[o];
                assert(ids[o] != id);
            } else {
                assert(before.routes[x].ids[m] != id);
            }
        }
        assert forall|x: Seq<char>, m1: int, m2: int|
            after.routes.dom().contains(x) && 0 <= m1 < after.routes[x].ids.len() && 0 <= m2
                < after.routes[x].ids.len() && m1 != m2 implies #[trigger] after.routes[x].ids[m1]
                != #[trigger] after.routes[x].ids[m2] by {
            if x == r {
                let o1 = if m1 == k { ids.len() - 1 } else { m1 };
                let o2 = if m2 == k { ids.len() - 1 } else { m2 };
                assert(rest[m1] == ids[o1]);
                assert(rest[m2] == ids[o2]);
            }
        }
        assert forall|id2: RouteId| #[trigger] after.handlers.dom().contains(id2) implies {
            &&& after.routes.dom().contains(after.handlers[id2].0)
            &&& after.routes[after.handlers[id2].0].ids.contains(id2)
        } by {
            assert(before.routes[before.handlers[id2].0].ids.contains(id2));
            if before.handlers[id2].0 == r {
                let o = choose|o: int| 0 <= o < ids.len() && ids[o] == id2;
                assert(o != k);
                if o == ids.len() - 1 {
                    assert(rest[k] == id2);
                } else {
                    assert(rest[o] == id2);
                }
            }
        }
    }
}

/// Creating a route with a first handler and then removing that handler gives
/// back the handler's value and the route's data, and leaves the router as it
/// was before.
pub proof fn law_new_route_round_trip(v: RouterView, route: Seq<char>, data: u64, id: RouteId, value: u64)
    requires
        v.consistent(),
        !v.routes.dom().contains(route),
        !v.handlers.dom().contains(id),
    ensures
        v.add_route(route, data, id, value).removal(id) == Some((value, Some(data))),
        v.add_route(route, data, id, value).remove_handler(id) == v,
{
    let w = v.add_route(route, data, id, value);
    assert(w.routes[route].ids == seq![id]);
    assert(seq![id].index_of(id) == 0) by {
        lemma_index_of_distinct(seq![id], 0);
    }
    assert(w.remaining(id) =~= Seq::<RouteId>::empty());
    assert(w.remove_handler(id).routes =~= v.routes);
    assert(w.remove_handler(id).handlers =~= v.handlers);
}

/// Adding a handler to a route that has handlers and then removing it gives
/// back its value, keeps the route, and leaves the router as it was before.
pub proof fn law_added_handler_round_trip(v: RouterView, route: Seq<char>, id: RouteId, value: u64)
    requires
        v.consistent(),
        v.routes.dom().contains(route),
        !v.handlers.dom().contains(id),
    ensures
        v.add_handler(route, id, value).removal(id) == Some((value, None::<u64>)),
        v.add_handler(route, id, value).remove_handler(id) == v,
{
    let w = v.add_handler(route, id, value);
    let ids = v.routes[route].ids;
    let n = ids.len();
    assert(!ids.contains(id)) by {
        if ids.contains(id) {
            let k = choose|k: int| 0 <= k < ids.len() && ids[k] == id;
            assert(v.handlers.dom().contains(v.routes[route].ids[k]));
        }
    }
    assert forall|a: int, b: int| 0 <= a < ids.push(id).len() && 0 <= b < ids.push(id).len() && a != b
        implies ids.push(id)[a] != ids.push(id)[b] by {
        if a == n {
            assert(ids.push(id)[b] == ids[b]);
        } else if b == n {
            assert(ids.push(id)[a] == ids[a]);
        } else {
            assert(v.routes[route].ids[a] != v.routes[route].ids[b]);
        }
    }
    lemma_index_of_distinct(ids.push(id), n as int);
    assert(w.remaining(id) =~= ids);
    assert(w.remove_handler(id).routes =~= v.routes);
    assert(w.remove_handler(id).handlers =~= v.handlers);
}

/// Removing a handler that the router does not hold returns nothing and
/// changes nothing.
pub proof fn law_remove_absent(v: RouterView, id: RouteId)
    requires
        !v.handlers.dom().contains(id),
    ensures
        v.removal(id) is None,
        v.remove_handler(id) == v,
{
}

/// A handler added to a route is delivered messages on that route after the
/// handlers it already had, and the handlers of every other route are unchanged.
pub proof fn law_added_handler_matches_last(v: RouterView, route: Seq<char>, id: RouteId, value: u64, other: Seq<char>)
    requires
        v.routes.dom().contains(route),
    ensures
        v.add_handler(route, id, value).matching(route) == v.matching(route).push(id),
        other != route ==> v.add_handler(route, id, value).matching(other) == v.matching(other),
{
}

/// A removed handler is no longer delivered any message.
pub proof fn law_removed_handler_never_matches(v: RouterView, id: RouteId, route: Seq<char>)
    requires
        v.consistent(),
    ensures
        !v.remove_handler(id).matching(route).contains(id),
{
    let w = v.remove_handler(id);
    if v.handlers.dom().contains(id) && w.matching(route).contains(id) {
        let k = choose|k: int| 0 <= k < w.matching(route).len() && w.matching(route)[k] == id;
        let r = v.handlers[id].0;
        if route == r {
            let ids = v.routes[r].ids;
            let p = ids.index_of(id);
            assert(ids.contains(id));
            let rest = v.remaining(id);
            let o = if k == p { ids.len() - 1 } else { k };
            assert(rest[k] == ids[o]);
            assert(o != p);
        } else {
            assert(v.routes[route].ids[k] == id);
        }
    }
}

} // verus!
