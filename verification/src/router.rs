//! An exact-match, method-sensitive router.
//!
//! Routes are registered once at startup, each binding a method and a path
//! to a handler. Dispatch walks the table in registration order and returns
//! the handler of the first route whose method and path both match the
//! request exactly; when none matches, the fallback handler answers.

use vstd::prelude::*;

use crate::http::Method;

verus! {

/// The handlers a route can name. The service has exactly two: the health
/// check, and the not-found fallback.
#[derive(Clone, Copy, PartialEq, Eq, Structural, Debug)]
pub enum HandlerKind {
    Health,
    NotFound,
}

/// One registered route: requests with exactly this method and path go to
/// this handler.
pub struct Route {
    pub method: Method,
    pub path: String,
    pub handler: HandlerKind,
}

impl View for Route {
    type V = (Method, Seq<char>, HandlerKind);

    open spec fn view(&self) -> (Method, Seq<char>, HandlerKind) {
        (self.method, self.path@, self.handler)
    }
}

/// The handler that a route table gives to a request: the handler of the
/// first route matching the method and path exactly, or the fallback when no
/// route matches.
pub open spec fn dispatch_view(
    routes: Seq<(Method, Seq<char>, HandlerKind)>,
    method: Method,
    path: Seq<char>,
    fallback: HandlerKind,
) -> HandlerKind
    decreases routes.len(),
{
    if routes.len() == 0 {
        fallback
    } else if routes[0].0 == method && routes[0].1 == path {
        routes[0].2
    } else {
        dispatch_view(routes.drop_first(), method, path, fallback)
    }
}

/// Stepping past a route that does not match a request leaves the dispatch
/// decision unchanged.
proof fn lemma_dispatch_skip_one(
    routes: Seq<(Method, Seq<char>, HandlerKind)>,
    method: Method,
    path: Seq<char>,
    fallback: HandlerKind,
    i: int,
)
    requires
        0 <= i < routes.len(),
        !(routes[i].0 == method && routes[i].1 == path),
    ensures
        dispatch_view(routes.skip(i), method, path, fallback) == dispatch_view(
            routes.skip(i + 1),
            method,
            path,
            fallback,
        ),
{
    assert(routes.skip(i)[0] == routes[i]);
    assert(routes.skip(i).drop_first() =~= routes.skip(i + 1));
}

/// The route table: the registered routes in registration order, and the
/// fallback handler for requests that no route matches.
pub struct Router {
    pub routes: Vec<Route>,
    pub fallback: HandlerKind,
}

impl Router {
    /// The routes as their mathematical views, in table order.
    pub open spec fn routes_view(self) -> Seq<(Method, Seq<char>, HandlerKind)> {
        self.routes@.map_values(|r: Route| r@)
    }

    /// An empty table: every request falls through to the fallback.
    pub fn new(fallback: HandlerKind) -> (r: Router)
        ensures
            r.routes_view() == Seq::<(Method, Seq<char>, HandlerKind)>::empty(),
            r.fallback == fallback,
    {
        let r = Router { routes: Vec::new(), fallback };
        proof {
            assert(r.routes_view() =~= Seq::<(Method, Seq<char>, HandlerKind)>::empty());
        }
        r
    }

    /// Register one route at the end of the table. Registration happens only
    /// at startup; nothing removes or reorders routes.
    pub fn route(&mut self, method: Method, path: String, handler: HandlerKind)
        ensures
            final(self).routes_view() == old(self).routes_view().push((method, path@, handler)),
            final(self).fallback == old(self).fallback,
    {
        let ghost before = self.routes_view();
        self.routes.push(Route { method, path, handler });
        proof {
            assert(self.routes_view() =~= before.push((method, path@, handler)));
        }
    }

    /// Find the handler for a request: the first route whose method and path
    /// both equal the request's, or the fallback when none does.
    pub fn dispatch(&self, method: Method, path: &String) -> (h: HandlerKind)
        ensures
            h == dispatch_view(self.routes_view(), method, path@, self.fallback),
    {
        let ghost all = self.routes_view();
        proof {
            assert(all.skip(0) =~= all);
        }
        let mut i: usize = 0;
        while i < self.routes.len()
            invariant
                0 <= i <= self.routes.len(),
                all == self.routes_view(),
                dispatch_view(all, method, path@, self.fallback) == dispatch_view(
                    all.skip(i as int),
                    method,
                    path@,
                    self.fallback,
                ),
            decreases self.routes.len() - i,
        {
            let r = &self.routes[i];
            proof {
                assert(all[i as int] == (r.method, r.path@, r.handler));
                assert(all.skip(i as int)[0] == all[i as int]);
            }
            if r.method == method && r.path == *path {
                return r.handler;
            }
            proof {
                lemma_dispatch_skip_one(all, method, path@, self.fallback, i as int);
            }
            i += 1;
        }
        proof {
            assert(all.skip(i as int) =~= Seq::<(Method, Seq<char>, HandlerKind)>::empty());
        }
        self.fallback
    }
}

} // verus!
