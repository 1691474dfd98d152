//! The service: the shared application state, the standard route table, and
//! the dispatch of one request to one response.
//!
//! The state is built once at startup and only read afterwards; every
//! request sees the same engine and the same routes. A request is answered
//! by exactly one handler: the health check for `GET /`, the not-found
//! fallback for everything else.

use vstd::prelude::*;

use crate::engine::{
    loader_dir_of, new_engine, no_templates, render_template, set_template_dir, store_template,
    templates_of,
};
use crate::handlers::{
    health_response, health_view, not_found_response, not_found_view, outcome_view, RenderFault,
};
use crate::http::{ContentType, Method, Response, STATUS_INTERNAL_ERROR, STATUS_OK};
use crate::router::{dispatch_view, HandlerKind, Router};

verus! {

/// The one route table the service ever serves: `GET /` to the health
/// check, the not-found handler as fallback for everything else.
pub open spec fn standard_routes() -> Seq<(Method, Seq<char>, HandlerKind)> {
    seq![(Method::Get, "/"@, HandlerKind::Health)]
}

/// The response a route table and a render outcome determine for a request:
/// the health page built from the outcome when dispatch picks the health
/// check, the fixed not-found response when it picks the fallback.
pub open spec fn respond_view(
    routes: Seq<(Method, Seq<char>, HandlerKind)>,
    fallback: HandlerKind,
    method: Method,
    path: Seq<char>,
    outcome: Result<Seq<char>, RenderFault>,
) -> (u16, ContentType, Seq<char>) {
    match dispatch_view(routes, method, path, fallback) {
        HandlerKind::Health => health_view(outcome),
        HandlerKind::NotFound => not_found_view(),
    }
}

/// The application state: the template engine, shared read-only by every
/// request for the process lifetime.
pub struct AppState {
    pub engine: minijinja::Environment<'static>,
}

/// The configured service: the shared state and the route table. Built once
/// at startup; nothing mutates it while requests are served.
pub struct App {
    pub state: AppState,
    pub router: Router,
}

impl App {
    /// A well-formed service serves exactly the standard route table.
    pub open spec fn wf(self) -> bool {
        &&& self.router.routes_view() == standard_routes()
        &&& self.router.fallback == HandlerKind::NotFound
    }

    /// Build the service: a fresh engine with an empty store, resolving
    /// template names under the template directory, and the standard route
    /// table.
    pub fn new() -> (a: App)
        ensures
            a.wf(),
            templates_of(a.state.engine) == no_templates(),
            loader_dir_of(a.state.engine) == "./templates"@,
    {
        let engine = set_template_dir(new_engine(), "./templates");
        let mut router = Router::new(HandlerKind::NotFound);
        router.route(Method::Get, "/".to_owned(), HandlerKind::Health);
        proof {
            assert(router.routes_view() =~= standard_routes());
        }
        App { state: AppState { engine }, router }
    }

    /// Store a template in the engine under a name, as startup
    /// configuration: the same store the path loader would fill from disk,
    /// filled directly from a source string. On success the store maps the
    /// name to the source from now on; a template syntax error is the one
    /// failure, and the routes and the loader directory are untouched
    /// either way.
    pub fn install_template(&mut self, name: &str, source: &str) -> (r: Result<(), RenderFault>)
        ensures
            final(self).router == old(self).router,
            r is Ok ==> templates_of(final(self).state.engine) == templates_of(
                old(self).state.engine,
            ).insert(name@, source@),
            r is Err ==> r->Err_0 == RenderFault::RenderFailed,
            loader_dir_of(final(self).state.engine) == loader_dir_of(old(self).state.engine),
    {
        store_template(&mut self.state.engine, name, source)
    }

    /// Answer one request: dispatch the method and path through the route
    /// table, render the health page if the health check is chosen, and
    /// build the response. Some render outcome accounts for the response;
    /// when dispatch picks the fallback, the response is exactly the
    /// not-found response, whatever the engine holds.
    pub fn respond(&self, method: Method, path: &String) -> (r: Response)
        ensures
            exists|outcome: Result<Seq<char>, RenderFault>|
                r@ == respond_view(
                    self.router.routes_view(),
                    self.router.fallback,
                    method,
                    path@,
                    outcome,
                ),
            dispatch_view(self.router.routes_view(), method, path@, self.router.fallback)
                == HandlerKind::NotFound ==> r@ == not_found_view(),
    {
        let handler = self.router.dispatch(method, path);
        match handler {
            HandlerKind::Health => {
                let outcome = render_template(&self.state.engine, "healthcheck.html", "name", "world");
                let ghost o = outcome_view(outcome);
                let r = health_response(outcome);
                proof {
                    assert(r@ == respond_view(
                        self.router.routes_view(),
                        self.router.fallback,
                        method,
                        path@,
                        o,
                    ));
                }
                r
            },
            HandlerKind::NotFound => {
                let r = not_found_response();
                proof {
                    let witness = Result::<Seq<char>, RenderFault>::Err(RenderFault::RenderFailed);
                    assert(r@ == respond_view(
                        self.router.routes_view(),
                        self.router.fallback,
                        method,
                        path@,
                        witness,
                    ));
                }
                r
            },
        }
    }
}

/// Law: a request that is exactly `GET /` is dispatched to the health
/// check by the standard route table.
pub proof fn lemma_root_get_goes_to_health()
    ensures
        dispatch_view(standard_routes(), Method::Get, "/"@, HandlerKind::NotFound)
            == HandlerKind::Health,
{
}

/// Law: under the standard route table, `GET /` with a successful render
/// is answered with status 200, an HTML content type, and the rendered
/// text as the body.
pub proof fn lemma_root_get_success(text: Seq<char>)
    ensures
        respond_view(standard_routes(), HandlerKind::NotFound, Method::Get, "/"@, Ok(text)) == (
            STATUS_OK,
            ContentType::Html,
            text,
        ),
{
}

/// Law: any request that is not exactly `GET /` — another path, another
/// method, or both — is answered with the fixed not-found response,
/// whatever the render outcome would have been.
pub proof fn lemma_unmatched_is_not_found(
    method: Method,
    path: Seq<char>,
    outcome: Result<Seq<char>, RenderFault>,
)
    requires
        !(method == Method::Get && path == "/"@),
    ensures
        dispatch_view(standard_routes(), method, path, HandlerKind::NotFound)
            == HandlerKind::NotFound,
        respond_view(standard_routes(), HandlerKind::NotFound, method, path, outcome)
            == not_found_view(),
{
    let rest = standard_routes().drop_first();
    assert(standard_routes()[0] == (Method::Get, "/"@, HandlerKind::Health));
    assert(!(standard_routes()[0].0 == method && standard_routes()[0].1 == path));
    assert(dispatch_view(standard_routes(), method, path, HandlerKind::NotFound) == dispatch_view(
        rest,
        method,
        path,
        HandlerKind::NotFound,
    ));
    assert(rest =~= Seq::<(Method, Seq<char>, HandlerKind)>::empty());
    assert(dispatch_view(rest, method, path, HandlerKind::NotFound) == HandlerKind::NotFound);
}

/// Law: a render fault never escapes as a crash or a hung request — the
/// health check answers it with a deliberate internal-error response,
/// determined by the fault alone.
pub proof fn lemma_render_fault_is_internal_error(fault: RenderFault)
    ensures
        health_view(Err(fault)).0 == STATUS_INTERNAL_ERROR,
        health_view(Err(fault)).1 == ContentType::PlainText,
{
}

/// Law: responding is deterministic. Two requests that agree on method,
/// path and render outcome get identical responses, under any route table —
/// so concurrent or repeated identical requests cannot observe hidden
/// state, and re-running a request sequence reproduces its responses.
pub proof fn lemma_respond_deterministic(
    routes: Seq<(Method, Seq<char>, HandlerKind)>,
    fallback: HandlerKind,
    m1: Method,
    p1: Seq<char>,
    o1: Result<Seq<char>, RenderFault>,
    m2: Method,
    p2: Seq<char>,
    o2: Result<Seq<char>, RenderFault>,
)
    requires
        m1 == m2,
        p1 == p2,
        o1 == o2,
    ensures
        respond_view(routes, fallback, m1, p1, o1) == respond_view(routes, fallback, m2, p2, o2),
{
}

} // verus!
