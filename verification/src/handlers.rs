//! The route handlers: what each endpoint answers.

use vstd::prelude::*;
use axum_prometheus::metrics_exporter_prometheus::PrometheusHandle;
use crate::exposition::render_exposition;
use crate::reply::{ok_reply, Reply, ReplyView};

verus! {

/// What the liveness endpoint answers, always.
pub open spec fn health_reply() -> ReplyView {
    ok_reply("Service is healthy and running :D"@)
}

/// What the home endpoint answers, always.
pub open spec fn home_reply() -> ReplyView {
    ok_reply("Home"@)
}

/// The liveness handler. It reads nothing of the request and answers every
/// call alike.
pub fn health() -> (reply: Reply)
    ensures
        reply@ == health_reply(),
{
    Reply::ok("Service is healthy and running :D".to_owned())
}

/// The home handler. It reads nothing of the request and answers every call
/// alike.
pub fn home() -> (reply: Reply)
    ensures
        reply@ == home_reply(),
{
    Reply::ok("Home".to_owned())
}

/// The answer to a scrape, given the snapshot that the recorder rendered:
/// success, with the snapshot as the body, unchanged.
pub fn metrics_reply(exposition: String) -> (reply: Reply)
    ensures
        reply@ == ok_reply(exposition@),
{
    Reply::ok(exposition)
}

/// The scrape handler: asks the recorder for its current snapshot and
/// answers with it.
///
/// The snapshot depends on every request that was recorded before the call,
/// so the body is whatever the recorder rendered; what is done with it is
/// stated by [`metrics_reply`]. Whatever was rendered, the answer reports
/// success.
pub fn metrics(handle: &PrometheusHandle) -> (reply: Reply)
    ensures
        reply.status == 200,
{
    let exposition = render_exposition(handle);
    metrics_reply(exposition)
}

/// Any two calls of the liveness handler give the same answer.
pub proof fn health_is_constant(first: Reply, second: Reply)
    requires
        call_ensures(health, (), first),
        call_ensures(health, (), second),
    ensures
        first@ == second@,
        first@ == health_reply(),
{
}

/// Any two calls of the home handler give the same answer.
pub proof fn home_is_constant(first: Reply, second: Reply)
    requires
        call_ensures(home, (), first),
        call_ensures(home, (), second),
    ensures
        first@ == second@,
        first@ == home_reply(),
{
}

} // verus!
