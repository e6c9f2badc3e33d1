//! Dynamic routing table for the gateway reverse proxy.
//!
//! Maps path prefixes to backend target URLs. A request path is routed to the
//! target of the longest registered prefix of that path.
use vstd::prelude::*;

use crate::models::Route;
use crate::text::{char_len, has_prefix};

verus! {

broadcast use vstd::seq_lib::group_seq_properties;

/// `k` is a registered prefix of `path` in the routing map `m`.
pub open spec fn is_match(m: Map<Seq<char>, Seq<char>>, path: Seq<char>, k: Seq<char>) -> bool {
    m.dom().contains(k) && k.is_prefix_of(path)
}

/// `k` is a registered prefix of `path` and no registered prefix of `path` is longer.
pub open spec fn is_longest_match(
    m: Map<Seq<char>, Seq<char>>,
    path: Seq<char>,
    k: Seq<char>,
) -> bool {
    &&& is_match(m, path, k)
    &&& forall|k2: Seq<char>| #[trigger] is_match(m, path, k2) ==> k2.len() <= k.len()
}

/// The target a request for `path` is forwarded to: the target of the longest
/// registered prefix of `path`, or none when no registered prefix matches.
pub open spec fn route_target(m: Map<Seq<char>, Seq<char>>, path: Seq<char>) -> Option<
    Seq<char>,
> {
    if exists|k: Seq<char>| is_longest_match(m, path, k) {
        Some(m[choose|k: Seq<char>| is_longest_match(m, path, k)])
    } else {
        None
    }
}

/// Two longest matches of the same path are the same prefix.
pub proof fn lemma_longest_match_unique(
    m: Map<Seq<char>, Seq<char>>,
    path: Seq<char>,
    k1: Seq<char>,
    k2: Seq<char>,
)
    requires
        is_longest_match(m, path, k1),
        is_longest_match(m, path, k2),
    ensures
        k1 == k2,
{
    assert(is_match(m, path, k2));
    assert(is_match(m, path, k1));
    assert(k1.len() == k2.len());
    assert(k1 =~= k2) by {
        assert(k1 =~= path.subrange(0, k1.len() as int));
        assert(k2 =~= path.subrange(0, k2.len() as int));
    }
}

/// When `k` is a longest match of `path`, the path is routed to `k`'s target.
pub proof fn lemma_route_target_of_longest(
    m: Map<Seq<char>, Seq<char>>,
    path: Seq<char>,
    k: Seq<char>,
)
    requires
        is_longest_match(m, path, k),
    ensures
        route_target(m, path) == Some(m[k]),
{
    let c = choose|k: Seq<char>| is_longest_match(m, path, k);
    lemma_longest_match_unique(m, path, k, c);
}

/// When some registered prefix of a finite map matches `path`, a longest one exists.
pub proof fn lemma_longest_match_exists(
    m: Map<Seq<char>, Seq<char>>,
    path: Seq<char>,
    k: Seq<char>,
)
    requires
        m.dom().finite(),
        is_match(m, path, k),
    ensures
        exists|l: Seq<char>| is_longest_match(m, path, l),
    decreases m.dom().len(),
{
    let rest = m.remove(k);
    if exists|k2: Seq<char>| is_match(rest, path, k2) {
        let k2 = choose|k2: Seq<char>| is_match(rest, path, k2);
        lemma_longest_match_exists(rest, path, k2);
        let l = choose|l: Seq<char>| is_longest_match(rest, path, l);
        if l.len() >= k.len() {
            assert forall|k3: Seq<char>| #[trigger] is_match(m, path, k3) implies k3.len()
                <= l.len() by {
                if k3 != k {
                    assert(is_match(rest, path, k3));
                }
            }
            assert(is_longest_match(m, path, l));
        } else {
            assert forall|k3: Seq<char>| #[trigger] is_match(m, path, k3) implies k3.len()
                <= k.len() by {
                if k3 != k {
                    assert(is_match(rest, path, k3));
                }
            }
            assert(is_longest_match(m, path, k));
        }
    } else {
        assert forall|k3: Seq<char>| #[trigger] is_match(m, path, k3) implies k3.len()
            <= k.len() by {
            if k3 != k {
                assert(is_match(rest, path, k3));
            }
        }
        assert(is_longest_match(m, path, k));
    }
}

/// Law: once a route is registered, a request for exactly its path is
/// forwarded to its target, whatever else is registered.
pub proof fn law_lookup_after_register(
    m: Map<Seq<char>, Seq<char>>,
    path: Seq<char>,
    target: Seq<char>,
)
    ensures
        route_target(m.insert(path, target), path) == Some(target),
{
    let m2 = m.insert(path, target);
    assert(path =~= path.subrange(0, path.len() as int));
    assert forall|k2: Seq<char>| #[trigger] is_match(m2, path, k2) implies k2.len()
        <= path.len() by {}
    lemma_route_target_of_longest(m2, path, path);
}

/// Law: registering a route whose path is not a prefix of `p` does not change
/// where a request for `p` is forwarded.
pub proof fn law_register_unrelated(
    m: Map<Seq<char>, Seq<char>>,
    k: Seq<char>,
    t: Seq<char>,
    p: Seq<char>,
)
    requires
        !k.is_prefix_of(p),
    ensures
        route_target(m.insert(k, t), p) == route_target(m, p),
{
    let m2 = m.insert(k, t);
    assert forall|k2: Seq<char>| is_match(m2, p, k2) <==> is_match(m, p, k2) by {}
    assert forall|k2: Seq<char>| is_longest_match(m2, p, k2) <==> is_longest_match(m, p, k2) by {
        if is_longest_match(m2, p, k2) {
            assert forall|k3: Seq<char>| #[trigger] is_match(m, p, k3) implies k3.len()
                <= k2.len() by {
                assert(is_match(m2, p, k3));
            }
        }
        if is_longest_match(m, p, k2) {
            assert forall|k3: Seq<char>| #[trigger] is_match(m2, p, k3) implies k3.len()
                <= k2.len() by {
                assert(is_match(m, p, k3));
            }
        }
    }
    if exists|l: Seq<char>| is_longest_match(m, p, l) {
        let l = choose|l: Seq<char>| is_longest_match(m, p, l);
        lemma_route_target_of_longest(m, p, l);
        lemma_route_target_of_longest(m2, p, l);
    }
}

/// Law: the longest registered prefix wins. When a longer registered prefix
/// of `path` exists, removing a shorter one changes nothing.
pub proof fn law_longest_prefix_wins(
    m: Map<Seq<char>, Seq<char>>,
    path: Seq<char>,
    short: Seq<char>,
    long: Seq<char>,
)
    requires
        is_match(m, path, long),
        short.len() < long.len(),
    ensures
        route_target(m, path) == route_target(m.remove(short), path),
{
    let m2 = m.remove(short);
    assert(is_match(m2, path, long));
    assert forall|l: Seq<char>| is_longest_match(m2, path, l) <==> is_longest_match(m, path, l) by {
        if is_longest_match(m2, path, l) {
            assert forall|k3: Seq<char>| #[trigger] is_match(m, path, k3) implies k3.len()
                <= l.len() by {
                if k3 != short {
                    assert(is_match(m2, path, k3));
                }
            }
        }
        if is_longest_match(m, path, l) {
            assert(l.len() >= long.len());
            assert forall|k3: Seq<char>| #[trigger] is_match(m2, path, k3) implies k3.len()
                <= l.len() by {
                assert(is_match(m, path, k3));
            }
        }
    }
    if exists|l: Seq<char>| is_longest_match(m, path, l) {
        let l = choose|l: Seq<char>| is_longest_match(m, path, l);
        lemma_route_target_of_longest(m, path, l);
        lemma_route_target_of_longest(m2, path, l);
    }
}

/// Law: in a table with finitely many routes, a request is forwarded somewhere
/// exactly when some registered path is a prefix of it, and then to the target
/// of a registered prefix.
pub proof fn law_found_iff_prefix_registered(m: Map<Seq<char>, Seq<char>>, path: Seq<char>)
    requires
        m.dom().finite(),
    ensures
        route_target(m, path) is Some <==> exists|k: Seq<char>| is_match(m, path, k),
        route_target(m, path) matches Some(t) ==> exists|k: Seq<char>|
            is_match(m, path, k) && m[k] == t,
{
    if exists|k: Seq<char>| is_match(m, path, k) {
        let k = choose|k: Seq<char>| is_match(m, path, k);
        lemma_longest_match_exists(m, path, k);
        let l = choose|l: Seq<char>| is_longest_match(m, path, l);
        lemma_route_target_of_longest(m, path, l);
    }
}

/// Law: registering a path again replaces its earlier target.
pub proof fn law_reregister_overwrites(
    m: Map<Seq<char>, Seq<char>>,
    k: Seq<char>,
    t1: Seq<char>,
    t2: Seq<char>,
)
    ensures
        m.insert(k, t1).insert(k, t2) == m.insert(k, t2),
{
    assert(m.insert(k, t1).insert(k, t2) =~= m.insert(k, t2));
}

/// Law: an empty table forwards no request.
pub proof fn law_empty_table_routes_nothing(path: Seq<char>)
    ensures
        route_target(Map::<Seq<char>, Seq<char>>::empty(), path) is None,
{
}

/// `routes` lists the routing map `m`: each registered path once, with its target.
pub open spec fn lists_routes(routes: Seq<Route>, m: Map<Seq<char>, Seq<char>>) -> bool {
    &&& forall|i: int|
        0 <= i < routes.len() ==> m.contains_key((#[trigger] routes[i]).path@) && m[routes[i].path@]
            == routes[i].target@
    &&& forall|k: Seq<char>| #[trigger]
        m.contains_key(k) ==> exists|i: int| 0 <= i < routes.len() && routes[i].path@ == k
    &&& distinct_paths(routes)
    &&& routes.len() == m.dom().len()
}

/// The paths of a list of routes, in order.
pub open spec fn route_paths(s: Seq<Route>) -> Seq<Seq<char>> {
    s.map_values(|r: Route| r.path@)
}

/// The routing map a list of routes with distinct paths stands for.
pub open spec fn routes_map(s: Seq<Route>) -> Map<Seq<char>, Seq<char>> {
    Map::new(
        |k: Seq<char>| route_paths(s).contains(k),
        |k: Seq<char>| s[choose|i: int| 0 <= i < s.len() && s[i].path@ == k].target@,
    )
}

/// No two routes of the list have the same path.
pub open spec fn distinct_paths(s: Seq<Route>) -> bool {
    forall|i: int, j: int|
        0 <= i < s.len() && 0 <= j < s.len() && i != j ==> s[i].path@ != s[j].path@
}

proof fn lemma_routes_map_at(s: Seq<Route>, i: int)
    requires
        distinct_paths(s),
        0 <= i < s.len(),
    ensures
        routes_map(s).dom().contains(s[i].path@),
        routes_map(s)[s[i].path@] == s[i].target@,
{
    assert(route_paths(s)[i] == s[i].path@);
    let k = s[i].path@;
    let j = choose|j: int| 0 <= j < s.len() && s[j].path@ == k;
    assert(j == i);
}

proof fn lemma_routes_map_contains(s: Seq<Route>, k: Seq<char>)
    requires
        routes_map(s).dom().contains(k),
    ensures
        exists|i: int| 0 <= i < s.len() && s[i].path@ == k,
{
    let i = choose|i: int| 0 <= i < route_paths(s).len() && route_paths(s)[i] == k;
    assert(s[i].path@ == k);
}

proof fn lemma_routes_map_finite(s: Seq<Route>)
    requires
        distinct_paths(s),
    ensures
        routes_map(s).dom().finite(),
        routes_map(s).dom().len() == s.len(),
{
    assert(routes_map(s).dom() =~= route_paths(s).to_set());
    assert(route_paths(s).no_duplicates());
    route_paths(s).unique_seq_to_set();
}

proof fn lemma_routes_map_push(s: Seq<Route>, r: Route)
    requires
        distinct_paths(s),
        !route_paths(s).contains(r.path@),
    ensures
        distinct_paths(s.push(r)),
        routes_map(s.push(r)) == routes_map(s).insert(r.path@, r.target@),
{
    let t = s.push(r);
    assert forall|i: int, j: int|
        0 <= i < t.len() && 0 <= j < t.len() && i != j implies t[i].path@ != t[j].path@ by {
        if i < s.len() && j < s.len() {
        } else if i < s.len() {
            assert(route_paths(s)[i] == s[i].path@);
        } else {
            assert(route_paths(s)[j] == s[j].path@);
        }
    }
    let m = routes_map(s).insert(r.path@, r.target@);
    assert forall|k: Seq<char>| #[trigger] routes_map(t).dom().contains(k) <==> m.dom().contains(
        k,
    ) by {
        if routes_map(t).dom().contains(k) {
            lemma_routes_map_contains(t, k);
            let i = choose|i: int| 0 <= i < t.len() && t[i].path@ == k;
            if i < s.len() {
                lemma_routes_map_at(s, i);
            }
        }
        if m.dom().contains(k) {
            if k == r.path@ {
                lemma_routes_map_at(t, s.len() as int);
            } else {
                lemma_routes_map_contains(s, k);
                let i = choose|i: int| 0 <= i < s.len() && s[i].path@ == k;
                lemma_routes_map_at(t, i);
            }
        }
    }
    assert forall|k: Seq<char>| #[trigger] routes_map(t).dom().contains(k) implies routes_map(
        t,
    )[k] == m[k] by {
        lemma_routes_map_contains(t, k);
        let i = choose|i: int| 0 <= i < t.len() && t[i].path@ == k;
        lemma_routes_map_at(t, i);
        if i < s.len() {
            lemma_routes_map_at(s, i);
        }
    }
    assert(routes_map(t) =~= m);
}

proof fn lemma_routes_map_update(s: Seq<Route>, i: int, r: Route)
    requires
        distinct_paths(s),
        0 <= i < s.len(),
        s[i].path@ == r.path@,
    ensures
        distinct_paths(s.update(i, r)),
        routes_map(s.update(i, r)) == routes_map(s).insert(r.path@, r.target@),
{
    let t = s.update(i, r);
    assert forall|a: int, b: int|
        0 <= a < t.len() && 0 <= b < t.len() && a != b implies t[a].path@ != t[b].path@ by {
        assert(t[a].path@ == s[a].path@);
        assert(t[b].path@ == s[b].path@);
    }
    let m = routes_map(s).insert(r.path@, r.target@);
    assert forall|k: Seq<char>| #[trigger] routes_map(t).dom().contains(k) <==> m.dom().contains(
        k,
    ) by {
        if routes_map(t).dom().contains(k) {
            lemma_routes_map_contains(t, k);
            let j = choose|j: int| 0 <= j < t.len() && t[j].path@ == k;
            lemma_routes_map_at(s, j);
        }
        if m.dom().contains(k) {
            if k == r.path@ {
                lemma_routes_map_at(t, i);
            } else {
                lemma_routes_map_contains(s, k);
                let j = choose|j: int| 0 <= j < s.len() && s[j].path@ == k;
                lemma_routes_map_at(t, j);
            }
        }
    }
    assert forall|k: Seq<char>| #[trigger] routes_map(t).dom().contains(k) implies routes_map(
        t,
    )[k] == m[k] by {
        lemma_routes_map_contains(t, k);
        let j = choose|j: int| 0 <= j < t.len() && t[j].path@ == k;
        lemma_routes_map_at(t, j);
        if j != i {
            lemma_routes_map_at(s, j);
        }
    }
    assert(routes_map(t) =~= m);
}

/// Routing table mapping path prefixes to backend target URLs.
///
/// Registering a route whose path is already present replaces its target.
pub struct RouteTable {
    routes: Vec<Route>,
}

impl View for RouteTable {
    type V = Map<Seq<char>, Seq<char>>;

    /// The map from registered path prefixes to their targets.
    closed spec fn view(&self) -> Map<Seq<char>, Seq<char>> {
        routes_map(self.routes@)
    }
}

impl RouteTable {
    #[verifier::type_invariant]
    spec fn paths_are_distinct(&self) -> bool {
        distinct_paths(self.routes@)
    }

    /// Creates a new empty route table.
    pub fn new() -> (r: Self)
        ensures
            r@ == Map::<Seq<char>, Seq<char>>::empty(),
    {
        let r = RouteTable { routes: Vec::new() };
        assert(r@ =~= Map::<Seq<char>, Seq<char>>::empty());
        r
    }

    /// The number of registered routes; the registered paths form a finite set.
    pub fn len(&self) -> (n: usize)
        ensures
            self@.dom().finite(),
            n == self@.dom().len(),
    {
        proof {
            use_type_invariant(self);
            lemma_routes_map_finite(self.routes@);
        }
        self.routes.len()
    }

    /// Registers a route mapping a path prefix to a target URL, replacing the
    /// target of a route with the same path.
    pub fn add_route(&mut self, route: Route)
        ensures
            final(self)@ == old(self)@.insert(route.path@, route.target@),
    {
        proof {
            use_type_invariant(&*self);
        }
        let n = self.routes.len();
        let mut i: usize = 0;
        let mut found: Option<usize> = None;
        while i < n
            invariant_except_break
                found is None,
            invariant
                n == self.routes@.len(),
                i <= n,
                forall|j: int| 0 <= j < i ==> self.routes@[j].path@ != route.path@,
            ensures
                found matches Some(idx) ==> idx < n && self.routes@[idx as int].path@
                    == route.path@,
                found is None ==> forall|j: int|
                    0 <= j < n ==> self.routes@[j].path@ != route.path@,
            decreases n - i,
        {
            if self.routes[i].path == route.path {
                found = Some(i);
                break;
            }
            i = i + 1;
        }
        match found {
            Some(idx) => {
                proof {
                    lemma_routes_map_update(self.routes@, idx as int, route);
                }
                let mut routes: Vec<Route> = Vec::new();
                std::mem::swap(&mut routes, &mut self.routes);
                routes.set(idx, route);
                self.routes = routes;
            },
            None => {
                proof {
                    if route_paths(self.routes@).contains(route.path@) {
                        let j = choose|j: int|
                            0 <= j < route_paths(self.routes@).len() && route_paths(
                                self.routes@,
                            )[j] == route.path@;
                        assert(self.routes@[j].path@ == route.path@);
                    }
                    lemma_routes_map_push(self.routes@, route);
                }
                let mut routes: Vec<Route> = Vec::new();
                std::mem::swap(&mut routes, &mut self.routes);
                routes.push(route);
                self.routes = routes;
            },
        }
    }

    /// Finds the backend target for a request path using longest-prefix matching.
    pub fn find_target(&self, path: &str) -> (r: Option<String>)
        ensures
            r matches Some(t) ==> route_target(self@, path@) == Some(t@),
            r is None ==> route_target(self@, path@) is None,
    {
        proof {
            use_type_invariant(self);
        }
        let n = self.routes.len();
        let mut best: Option<usize> = None;
        let mut best_len: usize = 0;
        let mut i: usize = 0;
        while i < n
            invariant
                n == self.routes@.len(),
                i <= n,
                distinct_paths(self.routes@),
                best matches Some(b) ==> {
                    &&& b < i
                    &&& self.routes@[b as int].path@.is_prefix_of(path@)
                    &&& best_len == self.routes@[b as int].path@.len()
                    &&& forall|j: int|
                        0 <= j < i && (#[trigger] self.routes@[j]).path@.is_prefix_of(path@)
                            ==> self.routes@[j].path@.len() <= best_len
                },
                best is None ==> forall|j: int|
                    0 <= j < i ==> !(#[trigger] self.routes@[j]).path@.is_prefix_of(path@),
            decreases n - i,
        {
            let p = self.routes[i].path.as_str();
            if has_prefix(path, p) {
                let l = char_len(p);
                match best {
                    None => {
                        best = Some(i);
                        best_len = l;
                    },
                    Some(_) => {
                        if l > best_len {
                            best = Some(i);
                            best_len = l;
                        }
                    },
                }
            }
            i = i + 1;
        }
        match best {
            None => {
                proof {
                    assert forall|k: Seq<char>| !is_longest_match(self@, path@, k) by {
                        if is_match(self@, path@, k) {
                            lemma_routes_map_contains(self.routes@, k);
                            let j = choose|j: int| 0 <= j < self.routes@.len() && self.routes@[j].path@ == k;
                            assert(!self.routes@[j].path@.is_prefix_of(path@));
                        }
                    }
                }
                None
            },
            Some(b) => {
                proof {
                    let k = self.routes@[b as int].path@;
                    lemma_routes_map_at(self.routes@, b as int);
                    assert forall|k2: Seq<char>| #[trigger] is_match(self@, path@, k2) implies k2.len()
                        <= k.len() by {
                        lemma_routes_map_contains(self.routes@, k2);
                        let j = choose|j: int| 0 <= j < self.routes@.len() && self.routes@[j].path@ == k2;
                        assert(self.routes@[j].path@.is_prefix_of(path@));
                    }
                    assert(is_longest_match(self@, path@, k));
                    lemma_route_target_of_longest(self@, path@, k);
                }
                Some(self.routes[b].target.clone())
            },
        }
    }

    /// Returns all registered routes, each path once, in no particular order.
    pub fn list_routes(&self) -> (r: Vec<Route>)
        ensures
            lists_routes(r@, self@),
    {
        proof {
            use_type_invariant(self);
            lemma_routes_map_finite(self.routes@);
        }
        let n = self.routes.len();
        let mut out: Vec<Route> = Vec::new();
        let mut i: usize = 0;
        while i < n
            invariant
                n == self.routes@.len(),
                i <= n,
                out@.len() == i,
                forall|j: int|
                    0 <= j < i ==> (#[trigger] out@[j]).path@ == self.routes@[j].path@
                        && out@[j].target@ == self.routes@[j].target@,
            decreases n - i,
        {
            out.push(self.routes[i].duplicate());
            i = i + 1;
        }
        proof {
            assert forall|j: int| 0 <= j < out@.len() implies self@.contains_key(
                (#[trigger] out@[j]).path@,
            ) && self@[out@[j].path@] == out@[j].target@ by {
                lemma_routes_map_at(self.routes@, j);
            }
            assert forall|k: Seq<char>| #[trigger] self@.contains_key(k) implies exists|j: int|
                0 <= j < out@.len() && out@[j].path@ == k by {
                lemma_routes_map_contains(self.routes@, k);
                let j = choose|j: int| 0 <= j < self.routes@.len() && self.routes@[j].path@ == k;
                assert(out@[j].path@ == k);
            }
            assert forall|a: int, b: int|
                0 <= a < out@.len() && 0 <= b < out@.len() && a != b implies out@[a].path@
                != out@[b].path@ by {
                assert(out@[a].path@ == self.routes@[a].path@);
                assert(out@[b].path@ == self.routes@[b].path@);
            }
        }
        assert(lists_routes(out@, self@));
        out
    }
}

} // verus!
