//! The router: an insertion-ordered list of routes with exact-match lookup
//! by (path, method). Lookup returns the first match in insertion order;
//! duplicate (path, method) pairs may coexist, and only the earliest one is
//! ever returned.

use vstd::prelude::*;
use crate::text::str_eq;

verus! {

/// A (path, method, handler) binding. Matching compares `path` and
/// `method` by exact string equality, case-sensitive, with no
/// normalization. The handler is any copyable value; lookups hand back a
/// copy of it.
#[derive(Clone, Copy, Debug)]
pub struct Route<H> {
    pub path: &'static str,
    pub method: &'static str,
    pub handler: H,
}

/// Whether `route` binds exactly this (path, method) pair.
pub open spec fn route_matches<H>(route: Route<H>, path: Seq<char>, method: Seq<char>) -> bool {
    route.path@ == path && route.method@ == method
}

/// The first route of `routes`, in order, that matches (path, method), or
/// `None` when none does.
pub open spec fn spec_find_route<H>(
    routes: Seq<Route<H>>,
    path: Seq<char>,
    method: Seq<char>,
) -> Option<Route<H>>
    decreases routes.len(),
{
    if routes.len() == 0 {
        None
    } else if route_matches(routes[0], path, method) {
        Some(routes[0])
    } else {
        spec_find_route(routes.drop_first(), path, method)
    }
}

/// First-match lookup is characterized by insertion order: the result is
/// `None` exactly when no route matches, and otherwise it is the route at
/// the earliest matching position, every position before which holds a
/// non-matching route.
pub proof fn lemma_find_route_first<H>(routes: Seq<Route<H>>, path: Seq<char>, method: Seq<char>)
    ensures
        (spec_find_route(routes, path, method) is None) <==> (forall|i: int|
            0 <= i < routes.len() ==> !route_matches(routes[i], path, method)),
        (spec_find_route(routes, path, method) is Some) ==> (exists|i: int|
            {
                &&& 0 <= i < routes.len()
                &&& spec_find_route(routes, path, method) == Some(routes[i])
                &&& route_matches(routes[i], path, method)
                &&& forall|j: int| 0 <= j < i ==> !route_matches(routes[j], path, method)
            }),
    decreases routes.len(),
{
    if routes.len() == 0 {
    } else if route_matches(routes[0], path, method) {
        assert({
            &&& 0 <= 0 < routes.len()
            &&& spec_find_route(routes, path, method) == Some(routes[0])
            &&& route_matches(routes[0], path, method)
            &&& forall|j: int| 0 <= j < 0 ==> !route_matches(routes[j], path, method)
        });
    } else {
        let rest = routes.drop_first();
        lemma_find_route_first(rest, path, method);
        assert(forall|i: int| 0 <= i < rest.len() ==> rest[i] == routes[i + 1]);
        if spec_find_route(routes, path, method) is None {
            assert forall|i: int| 0 <= i < routes.len() implies !route_matches(
                routes[i],
                path,
                method,
            ) by {
                if i > 0 {
                    assert(routes[i] == rest[i - 1]);
                }
            }
        } else {
            let k = choose|i: int|
                {
                    &&& 0 <= i < rest.len()
                    &&& spec_find_route(rest, path, method) == Some(rest[i])
                    &&& route_matches(rest[i], path, method)
                    &&& forall|j: int| 0 <= j < i ==> !route_matches(rest[j], path, method)
                };
            assert forall|j: int| 0 <= j < k + 1 implies !route_matches(
                routes[j],
                path,
                method,
            ) by {
                if j > 0 {
                    assert(routes[j] == rest[j - 1]);
                }
            }
            assert({
                &&& 0 <= k + 1 < routes.len()
                &&& spec_find_route(routes, path, method) == Some(routes[k + 1])
                &&& route_matches(routes[k + 1], path, method)
                &&& forall|j: int| 0 <= j < k + 1 ==> !route_matches(routes[j], path, method)
            });
        }
    }
}

/// Ordered collection of routes; insertion order is meaningful and is the
/// tie-break rule for duplicate (path, method) pairs.
pub struct Router<H> {
    pub route_stack: Vec<Route<H>>,
}

impl<H: Copy> Router<H> {
    /// Initializes the router with the given routes, or empty.
    pub fn new(initial_routes: Option<Vec<Route<H>>>) -> (r: Router<H>)
        ensures
            match initial_routes {
                Some(routes) => r.route_stack@ == routes@,
                None => r.route_stack@ =~= Seq::<Route<H>>::empty(),
            },
    {
        if let Some(routes) = initial_routes {
            Router { route_stack: routes }
        } else {
            Router { route_stack: Vec::new() }
        }
    }

    /// Scans the routes in insertion order and returns a copy of the first
    /// one whose (path, method) equals the arguments, or `None` when no
    /// route matches. Absence of a match is a normal outcome, never a
    /// failure.
    pub fn find_requested_route(&self, path: &str, method: &str) -> (r: Option<Route<H>>)
        ensures
            r == spec_find_route(self.route_stack@, path@, method@),
    {
        let n = self.route_stack.len();
        let mut i: usize = 0;
        proof {
            assert(self.route_stack@.skip(0) =~= self.route_stack@);
        }
        while i < n
            invariant
                i <= n,
                n == self.route_stack@.len(),
                spec_find_route(self.route_stack@, path@, method@) == spec_find_route(
                    self.route_stack@.skip(i as int),
                    path@,
                    method@,
                ),
            decreases n - i,
        {
            let route = self.route_stack[i];
            if str_eq(route.path, path) && str_eq(route.method, method) {
                proof {
                    assert(self.route_stack@.skip(i as int)[0] == self.route_stack@[i as int]);
                }
                return Some(route);
            }
            proof {
                assert(self.route_stack@.skip(i as int)[0] == self.route_stack@[i as int]);
                assert(self.route_stack@.skip(i as int).drop_first() =~= self.route_stack@.skip(
                    i as int + 1,
                ));
            }
            i = i + 1;
        }
        proof {
            assert(self.route_stack@.skip(n as int) =~= Seq::<Route<H>>::empty());
        }
        None
    }

    /// Appends one route at the end of the sequence. No validation of path
    /// or method well-formedness.
    pub fn add(&mut self, new_route: Route<H>)
        ensures
            final(self).route_stack@ == old(self).route_stack@.push(new_route),
    {
        self.route_stack.push(new_route);
    }

    /// Appends all the given routes, preserving their relative order, after
    /// any existing routes.
    pub fn multiple_add(&mut self, new_route: Vec<Route<H>>)
        ensures
            final(self).route_stack@ == old(self).route_stack@ + new_route@,
    {
        let mut incoming = new_route;
        self.route_stack.append(&mut incoming);
    }
}

} // verus!
