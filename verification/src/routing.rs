//! The router of the service: three routes behind two layers of middleware.
//!
//! The router is axum's. To the verifier it is a table from paths to what is
//! mounted there, which the functions of this module fill and wrap.

use vstd::prelude::*;
use axum::http::StatusCode;
use axum::routing::get;
use axum::Router;
use axum_prometheus::metrics_exporter_prometheus::PrometheusHandle;
use axum_prometheus::{GenericMetricLayer, Handle};
use tower_http::trace::TraceLayer;
use crate::endpoint::{paths_are_distinct, respond, Endpoint};
use crate::reply::{is_status_code, ReplyView};

verus! {

/// `axum::Router`: the routing table and the services behind it.
#[verifier::external_type_specification]
#[verifier::external_body]
#[verifier::reject_recursive_types(S)]
pub struct ExRouter<S>(Router<S>);

/// `axum_prometheus::Handle`: the marker by which a metrics layer names the
/// Prometheus exporter.
#[verifier::external_type_specification]
#[verifier::external_body]
pub struct ExHandle(Handle);

/// `axum_prometheus::GenericMetricLayer`: the middleware that records every
/// request it sees with the metrics recorder.
#[verifier::external_type_specification]
#[verifier::external_body]
#[verifier::reject_recursive_types(T)]
#[verifier::reject_recursive_types(M)]
pub struct ExGenericMetricLayer<'a, T, M>(GenericMetricLayer<'a, T, M>);

/// A layer of middleware that a request passes on its way to a handler.
#[derive(Clone, Copy, Debug, PartialEq, Eq, Structural)]
pub enum Middleware {
    /// Opens a span for the request and logs how it ended.
    Trace,
    /// Records the request's method, route, status and duration.
    Metrics,
}

/// What a router holds at one path: the endpoint whose handler answers a
/// `GET` request for exactly that path, and the middleware that such a
/// request passes, outermost first.
pub struct Mount {
    /// The endpoint that answers.
    pub endpoint: Endpoint,
    /// The layers around it, outermost first.
    pub middleware: Seq<Middleware>,
}

/// The routes that a router holds, by path. A path that is no key has no
/// route: a request for it gets the router's fallback answer, `404 Not Found`.
pub uninterp spec fn mounts(router: Router) -> Map<Seq<char>, Mount>;

/// The table of a router without routes.
pub open spec fn no_mounts() -> Map<Seq<char>, Mount> {
    Map::empty()
}

/// Whether `path` is a pattern that matches itself and nothing else: it
/// starts with a slash and holds none of the characters by which a route
/// pattern captures (`{`, `}`) or once captured (`:`, `*`).
pub open spec fn is_static_path(path: Seq<char>) -> bool {
    &&& path.len() > 0
    &&& path[0] == '/'
    &&& forall|i: int|
        0 <= i < path.len() ==> path[i] != '{' && path[i] != '}' && path[i] != ':' && path[i]
            != '*'
}

/// The table in which every route of `table` is wrapped in one more layer,
/// which becomes the outermost.
pub open spec fn wrapped(
    table: Map<Seq<char>, Mount>,
    layer: Middleware,
) -> Map<Seq<char>, Mount> {
    Map::new(
        |path: Seq<char>| table.dom().contains(path),
        |path: Seq<char>|
            Mount {
                endpoint: table[path].endpoint,
                middleware: seq![layer] + table[path].middleware,
            },
    )
}

/// The middleware of the finished service, outermost first: a request is
/// traced, recorded, and handled.
pub open spec fn pipeline() -> Seq<Middleware> {
    seq![Middleware::Trace, Middleware::Metrics]
}

/// The path of every endpoint is static.
pub proof fn paths_are_static(endpoint: Endpoint)
    ensures
        is_static_path(endpoint.path_spec()),
{
    reveal_strlit("/health");
    reveal_strlit("/home");
    reveal_strlit("/metrics");
}

/// Calls `axum::Router::new`, which makes a router that holds no route and
/// answers every request with `404 Not Found`.
#[verifier::external_body]
fn empty_router() -> (out: Router)
    ensures
        mounts(out) == no_mounts(),
{
    Router::new()
}

/// Calls `axum::Router::route` with `axum::routing::get`: adds a route that
/// answers a `GET` request for `path` with the status and body that
/// [`respond`] gives for `endpoint` (and a `HEAD` request with the same, less
/// the body). The other routes stay as they are, and the new one is behind no
/// middleware yet.
///
/// `Router::route` panics on a path that does not start with a slash, on a
/// malformed or conflicting pattern, on a path that already has a `GET`
/// handler, and when the router's 2^32 - 1 route ids are used up. A static
/// path conflicts with no other static path, so the first four clauses leave
/// those inputs out, and the fifth leaves room for the id. The last clause
/// keeps the status within what `StatusCode::from_u16` accepts.
#[verifier::external_body]
fn mount(
    router: Router,
    path: &str,
    endpoint: Endpoint,
    handle: &PrometheusHandle,
) -> (out: Router)
    requires
        is_static_path(path@),
        !mounts(router).dom().contains(path@),
        forall|other: Seq<char>| mounts(router).dom().contains(other) ==> is_static_path(other),
        mounts(router).dom().finite(),
        mounts(router).dom().len() < u32::MAX,
        forall|reply: ReplyView| endpoint.answers(reply) ==> is_status_code(reply.status),
    ensures
        mounts(out) == mounts(router).insert(
            path@,
            (Mount { endpoint, middleware: Seq::empty() }),
        ),
{
    let handle = handle.clone();
    router.route(path, get(move || {
        let reply = respond(endpoint, &handle);
        let status = StatusCode::from_u16(reply.status).expect("a valid status code");
        std::future::ready((status, reply.body))
    }))
}

/// Calls `axum::Router::layer` with the metrics layer: every route that the
/// router holds is wrapped in it, so the layer sees a request before the
/// layers that were there. No route is added or removed; the fallback is
/// wrapped as the routes are.
#[verifier::external_body]
fn metered(
    router: Router,
    layer: GenericMetricLayer<'static, PrometheusHandle, Handle>,
) -> (out: Router)
    ensures
        mounts(out) == wrapped(mounts(router), Middleware::Metrics),
{
    router.layer(layer)
}

/// Calls `axum::Router::layer` with `tower_http`'s
/// `TraceLayer::new_for_http()`: every route that the router holds is wrapped
/// in the trace layer, so the layer sees a request before the layers that
/// were there. No route is added or removed; the fallback is wrapped as the
/// routes are.
#[verifier::external_body]
fn traced(router: Router) -> (out: Router)
    ensures
        mounts(out) == wrapped(mounts(router), Middleware::Trace),
{
    router.layer(TraceLayer::new_for_http())
}

/// An endpoint as the finished service holds it: behind the whole pipeline.
pub open spec fn served(endpoint: Endpoint) -> Mount {
    Mount { endpoint, middleware: pipeline() }
}

/// The routes of the finished service: each endpoint at its own path.
pub open spec fn route_table() -> Map<Seq<char>, Mount> {
    no_mounts().insert(Endpoint::Health.path_spec(), served(Endpoint::Health)).insert(
        Endpoint::Home.path_spec(),
        served(Endpoint::Home),
    ).insert(Endpoint::Metrics.path_spec(), served(Endpoint::Metrics))
}

/// The finished service routes a path if and only if it is the path of an
/// endpoint, and routes it to that endpoint, behind the whole pipeline.
pub proof fn route_table_is_exact()
    ensures
        forall|path: Seq<char>| #[trigger]
            route_table().dom().contains(path) <==> exists|endpoint: Endpoint|
                path == endpoint.path_spec(),
        forall|endpoint: Endpoint| #[trigger]
            route_table()[endpoint.path_spec()] == served(endpoint),
{
    paths_are_distinct(Endpoint::Health, Endpoint::Home);
    paths_are_distinct(Endpoint::Health, Endpoint::Metrics);
    paths_are_distinct(Endpoint::Home, Endpoint::Metrics);
}

/// Builds the router of the service.
///
/// Its routes are the three endpoints, each at its own path and nowhere else,
/// and every route is behind the trace layer and, inside that, the metrics
/// layer `layer`. The scrape reads the recorder through `handle`.
pub fn router(
    layer: GenericMetricLayer<'static, PrometheusHandle, Handle>,
    handle: PrometheusHandle,
) -> (out: Router)
    ensures
        mounts(out) == route_table(),
{
    proof {
        paths_are_static(Endpoint::Health);
        paths_are_static(Endpoint::Home);
        paths_are_static(Endpoint::Metrics);
        paths_are_distinct(Endpoint::Health, Endpoint::Home);
        paths_are_distinct(Endpoint::Health, Endpoint::Metrics);
        paths_are_distinct(Endpoint::Home, Endpoint::Metrics);
    }
    let routes = empty_router();
    let routes = mount(routes, Endpoint::Health.path(), Endpoint::Health, &handle);
    let routes = mount(routes, Endpoint::Home.path(), Endpoint::Home, &handle);
    let routes = mount(routes, Endpoint::Metrics.path(), Endpoint::Metrics, &handle);
    let routes = metered(routes, layer);
    let routes = traced(routes);
    proof {
        assert(seq![Middleware::Trace] + (seq![Middleware::Metrics] + Seq::<Middleware>::empty())
            =~= pipeline());
    }
    routes
}

} // verus!
