//! The endpoints of the service: where each is mounted and what it answers.

use vstd::prelude::*;
use axum_prometheus::metrics_exporter_prometheus::PrometheusHandle;
use crate::handlers::{health, health_reply, home, home_reply, metrics};
use crate::reply::{is_status_code, Reply, ReplyView};

verus! {

/// One of the three things the service can be asked for.
#[derive(Clone, Copy, Debug, PartialEq, Eq, Structural)]
pub enum Endpoint {
    /// The liveness probe.
    Health,
    /// The home page.
    Home,
    /// The metrics scrape.
    Metrics,
}

impl Endpoint {
    /// The path at which the endpoint is mounted.
    pub open spec fn path_spec(self) -> Seq<char> {
        match self {
            Endpoint::Health => "/health"@,
            Endpoint::Home => "/home"@,
            Endpoint::Metrics => "/metrics"@,
        }
    }

    /// Whether `reply` is an answer that the endpoint may give: the fixed
    /// answer of the two static endpoints, and for the scrape any successful
    /// answer, whatever text the recorder rendered.
    pub open spec fn answers(self, reply: ReplyView) -> bool {
        match self {
            Endpoint::Health => reply == health_reply(),
            Endpoint::Home => reply == home_reply(),
            Endpoint::Metrics => reply.status == 200,
        }
    }

    /// The path at which the endpoint is mounted.
    pub fn path(self) -> (path: &'static str)
        ensures
            path@ == self.path_spec(),
    {
        match self {
            Endpoint::Health => "/health",
            Endpoint::Home => "/home",
            Endpoint::Metrics => "/metrics",
        }
    }
}

/// Answers a request for `endpoint` by calling its handler. The handle is
/// read for the scrape only.
pub fn respond(endpoint: Endpoint, handle: &PrometheusHandle) -> (reply: Reply)
    ensures
        endpoint.answers(reply@),
        reply.status == 200,
{
    match endpoint {
        Endpoint::Health => health(),
        Endpoint::Home => home(),
        Endpoint::Metrics => metrics(handle),
    }
}

/// Two endpoints are never mounted at one path.
pub proof fn paths_are_distinct(first: Endpoint, second: Endpoint)
    requires
        first != second,
    ensures
        first.path_spec() != second.path_spec(),
{
    reveal_strlit("/health");
    reveal_strlit("/home");
    reveal_strlit("/metrics");
    assert(first.path_spec().len() != second.path_spec().len());
}

/// Every answer that an endpoint may give reports success, with a status
/// code that HTTP admits.
pub proof fn answers_are_ok(endpoint: Endpoint, reply: ReplyView)
    requires
        endpoint.answers(reply),
    ensures
        reply.status == 200,
        is_status_code(reply.status),
{
}

} // verus!
