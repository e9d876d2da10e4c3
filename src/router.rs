//! The router: a table from wire path to handler, filled once by a builder
//! that refuses a path it already holds, then frozen and only read.
use vstd::prelude::*;
use crate::service::{ServiceDescriptor, path_of};

verus! {

/// One entry of the table.
#[derive(Debug)]
pub struct Route<H> {
    pub path: String,
    pub handler: H,
}

/// Why a route was not added.
#[derive(Debug, PartialEq, Eq, Structural, Clone, Copy)]
pub enum RouteError {
    /// A route at this path is already registered.
    DuplicatePath,
}

/// Why a request was not dispatched.
#[derive(Debug, PartialEq, Eq, Structural, Clone, Copy)]
pub enum DispatchError {
    /// No route is registered at the path.
    NotFound,
}

impl DispatchError {
    /// The transport status of the error.
    pub fn http_status(&self) -> (r: u16)
        ensures
            r == 404,
    {
        404
    }
}

/// No path occurs twice among the routes.
pub open spec fn paths_unique<H>(routes: Seq<Route<H>>) -> bool {
    forall|i: int, j: int|
        0 <= i < routes.len() && 0 <= j < routes.len() && i != j ==> routes[i].path@ != routes[j].path@
}

/// Whether some route is at `path`.
pub open spec fn has_path<H>(routes: Seq<Route<H>>, path: Seq<char>) -> bool {
    exists|i: int| 0 <= i < routes.len() && routes[i].path@ == path
}

/// The handler at `path`: the last route there, if any.
pub open spec fn lookup<H>(routes: Seq<Route<H>>, path: Seq<char>) -> Option<H>
    decreases routes.len(),
{
    if routes.len() == 0 {
        None
    } else if routes.last().path@ == path {
        Some(routes.last().handler)
    } else {
        lookup(routes.drop_last(), path)
    }
}

proof fn lemma_lookup_absent<H>(routes: Seq<Route<H>>, path: Seq<char>)
    requires
        !has_path(routes, path),
    ensures
        lookup(routes, path) is None,
    decreases routes.len(),
{
    if routes.len() > 0 {
        let d = routes.drop_last();
        assert(!has_path(d, path)) by {
            if has_path(d, path) {
                let i = choose|i: int| 0 <= i < d.len() && d[i].path@ == path;
                assert(routes[i] == d[i]);
            }
        }
        lemma_lookup_absent(d, path);
    }
}

/// The handler routed at a path that the table holds once is that route's
/// handler.
proof fn lemma_lookup_at<H>(routes: Seq<Route<H>>, i: int)
    requires
        paths_unique(routes),
        0 <= i < routes.len(),
    ensures
        lookup(routes, routes[i].path@) == Some(routes[i].handler),
    decreases routes.len(),
{
    if i < routes.len() - 1 {
        let d = routes.drop_last();
        assert(d[i] == routes[i]);
        assert(paths_unique(d)) by {
            assert forall|a: int, b: int| 0 <= a < d.len() && 0 <= b < d.len() && a != b implies d[a].path@ != d[b].path@ by {
                assert(d[a] == routes[a] && d[b] == routes[b]);
            }
        }
        lemma_lookup_at(d, i);
    }
}

/// A route at a path already taken is refused: after a route at `a`'s path is
/// added, the table holds that path, so registering `b` at the same path fails.
pub proof fn lemma_same_path_refused<H>(routes: Seq<Route<H>>, a: Route<H>, b: Route<H>)
    requires
        a.path@ == b.path@,
    ensures
        has_path(routes.push(a), b.path@),
{
    assert(routes.push(a)[routes.len() as int] == a);
}

/// Routes at two distinct paths, added to a table that holds neither, are
/// both accepted, and each path then leads to its own handler.
pub proof fn lemma_distinct_paths_dispatch<H>(routes: Seq<Route<H>>, a: Route<H>, b: Route<H>)
    requires
        paths_unique(routes),
        !has_path(routes, a.path@),
        !has_path(routes, b.path@),
        a.path@ != b.path@,
    ensures
        !has_path(routes.push(a), b.path@),
        paths_unique(routes.push(a).push(b)),
        lookup(routes.push(a).push(b), a.path@) == Some(a.handler),
        lookup(routes.push(a).push(b), b.path@) == Some(b.handler),
{
    let t1 = routes.push(a);
    let t = t1.push(b);
    assert(!has_path(t1, b.path@)) by {
        if has_path(t1, b.path@) {
            let i = choose|i: int| 0 <= i < t1.len() && t1[i].path@ == b.path@;
            if i < routes.len() {
                assert(t1[i] == routes[i]);
            }
        }
    }
    assert(paths_unique(t)) by {
        assert forall|i: int, j: int| 0 <= i < t.len() && 0 <= j < t.len() && i != j implies t[i].path@ != t[j].path@ by {
            if i < routes.len() {
                assert(t[i] == routes[i]);
            }
            if j < routes.len() {
                assert(t[j] == routes[j]);
            }
        }
    }
    assert(t[routes.len() as int] == a);
    lemma_lookup_at(t, routes.len() as int);
    assert(t.drop_last() =~= t1);
}

/// The table being filled.
pub struct RouterBuilder<H> {
    routes: Vec<Route<H>>,
}

/// The frozen table.
#[derive(Debug)]
pub struct Router<H> {
    routes: Vec<Route<H>>,
}

impl<H> RouterBuilder<H> {
    /// The routes registered so far, in order.
    pub closed spec fn spec_routes(&self) -> Seq<Route<H>> {
        self.routes@
    }

    pub open spec fn wf(&self) -> bool {
        paths_unique(self.spec_routes())
    }

    /// An empty table.
    pub fn new() -> (r: RouterBuilder<H>)
        ensures
            r.spec_routes().len() == 0,
            r.wf(),
    {
        RouterBuilder { routes: Vec::new() }
    }

    /// Adds `handler` at `path`, unless a route is already there: then the
    /// table is left as it was.
    pub fn register(&mut self, path: String, handler: H) -> (r: Result<(), RouteError>)
        requires
            old(self).wf(),
        ensures
            final(self).wf(),
            r is Err <==> has_path(old(self).spec_routes(), path@),
            r is Err ==> r == Err::<(), RouteError>(RouteError::DuplicatePath)
                && final(self).spec_routes() == old(self).spec_routes(),
            r is Ok ==> final(self).spec_routes() == old(self).spec_routes().push(Route { path, handler }),
    {
        let n = self.routes.len();
        let mut i: usize = 0;
        while i < n
            invariant
                n == self.routes@.len(),
                i <= n,
                self.wf(),
                forall|k: int| 0 <= k < i ==> self.routes@[k].path@ != path@,
            decreases n - i,
        {
            if self.routes[i].path == path {
                return Err(RouteError::DuplicatePath);
            }
            i += 1;
        }
        self.routes.push(Route { path, handler });
        Ok(())
    }

    /// Ends the building phase.
    pub fn freeze(self) -> (r: Router<H>)
        requires
            self.wf(),
        ensures
            r.spec_routes() == self.spec_routes(),
            r.wf(),
    {
        Router { routes: self.routes }
    }
}

impl<H> Router<H> {
    /// The routes of the table, in the order they were registered.
    pub closed spec fn spec_routes(&self) -> Seq<Route<H>> {
        self.routes@
    }

    pub open spec fn wf(&self) -> bool {
        paths_unique(self.spec_routes())
    }

    /// The handler at `path`, found by exact match.
    pub fn dispatch(&self, path: &String) -> (r: Result<&H, DispatchError>)
        requires
            self.wf(),
        ensures
            r is Err <==> !has_path(self.spec_routes(), path@),
            r is Err ==> r == Err::<&H, DispatchError>(DispatchError::NotFound),
            r is Ok ==> lookup(self.spec_routes(), path@) == Some(*r->Ok_0),
            r is Err ==> lookup(self.spec_routes(), path@) is None,
    {
        let n = self.routes.len();
        let mut i: usize = 0;
        while i < n
            invariant
                n == self.routes@.len(),
                i <= n,
                self.wf(),
                forall|k: int| 0 <= k < i ==> self.routes@[k].path@ != path@,
            decreases n - i,
        {
            if self.routes[i].path == *path {
                proof { lemma_lookup_at(self.routes@, i as int); }
                return Ok(&self.routes[i].handler);
            }
            i += 1;
        }
        proof { lemma_lookup_absent(self.routes@, path@); }
        Err(DispatchError::NotFound)
    }
}

/// Distinct wire names give distinct paths under one service name.
pub proof fn lemma_path_injective(fqn: Seq<char>, w1: Seq<char>, w2: Seq<char>)
    requires
        path_of(fqn, w1) == path_of(fqn, w2),
    ensures
        w1 == w2,
{
    reveal_strlit("/");
    let p = path_of(fqn, w1);
    let k = fqn.len() + 2;
    assert(p.len() == path_of(fqn, w2).len());
    assert(w1 =~= p.subrange(k as int, p.len() as int));
    assert(w2 =~= path_of(fqn, w2).subrange(k as int, p.len() as int));
}

/// Builds the router of a service: the handler at index `i` is routed at
/// the path of method `i`. Two methods with the same wire name would share a
/// path, so such a service is refused.
pub fn service_router<H>(s: &ServiceDescriptor, handlers: Vec<H>) -> (r: Result<Router<H>, RouteError>)
    requires
        handlers@.len() == s.methods@.len(),
    ensures
        r is Ok <==> s.wire_names_unique(),
        r is Err ==> r->Err_0 == RouteError::DuplicatePath,
        r matches Ok(router) ==> {
            &&& router.wf()
            &&& router.spec_routes().len() == s.methods@.len()
            &&& forall|i: int| 0 <= i < s.methods@.len()
                ==> lookup(router.spec_routes(), #[trigger] s.spec_method_path(i)) == Some(handlers@[i])
        },
{
    let n = s.methods.len();
    let mut hs = handlers;
    let mut builder: RouterBuilder<H> = RouterBuilder::new();
    let mut i: usize = n;
    while i > 0
        invariant
            n == s.methods@.len(),
            n == handlers@.len(),
            i <= n,
            hs@ == handlers@.take(i as int),
            builder.wf(),
            builder.spec_routes().len() == n - i,
            forall|k: int| 0 <= k < n - i ==> {
                &&& (#[trigger] builder.spec_routes()[k]).path@ == s.spec_method_path(n - 1 - k)
                &&& builder.spec_routes()[k].handler == handlers@[n - 1 - k]
            },
            forall|a: int, b: int|
                i <= a < n && i <= b < n && a != b
                    ==> s.methods@[a].proto_name@ != s.methods@[b].proto_name@,
        decreases i,
    {
        i -= 1;
        let h = hs.pop().unwrap();
        assert(h == handlers@[i as int]);
        assert(hs@ =~= handlers@.take(i as int));
        let path = s.method_path(i);
        let ghost before = builder.spec_routes();
        match builder.register(path, h) {
            Ok(()) => {
                proof {
                    assert forall|j: int| i < j < n implies s.methods@[i as int].proto_name@ != s.methods@[j].proto_name@ by {
                        let k = n - 1 - j;
                        assert(before[k].path@ == s.spec_method_path(j));
                        if s.methods@[i as int].proto_name@ == s.methods@[j].proto_name@ {
                            assert(has_path(before, s.spec_method_path(i as int)));
                        }
                    }
                }
            },
            Err(e) => {
                proof {
                    let k = choose|k: int| 0 <= k < before.len() && before[k].path@ == s.spec_method_path(i as int);
                    let j = n - 1 - k;
                    assert(before[k].path@ == s.spec_method_path(j));
                    lemma_path_injective(s.spec_fqn(), s.methods@[i as int].proto_name@, s.methods@[j].proto_name@);
                    assert(!s.wire_names_unique());
                }
                return Err(e);
            },
        }
    }
    let router = builder.freeze();
    proof {
        let t = router.spec_routes();
        assert forall|m: int| 0 <= m < n implies lookup(t, #[trigger] s.spec_method_path(m)) == Some(handlers@[m]) by {
            assert(t[n - 1 - m].path@ == s.spec_method_path(m));
            lemma_lookup_at(t, n - 1 - m);
        }
    }
    Ok(router)
}

} // verus!
