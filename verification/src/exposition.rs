//! The text snapshot of the recorded metrics.
//!
//! The recorder itself belongs to `metrics-exporter-prometheus`; the library
//! only asks it for the current snapshot.

use vstd::prelude::*;
use axum_prometheus::metrics_exporter_prometheus::PrometheusHandle;

verus! {

/// `metrics_exporter_prometheus::PrometheusHandle`: the handle through which
/// the installed recorder is read. Nothing of its state is visible to the
/// verifier.
#[verifier::external_type_specification]
#[verifier::external_body]
pub struct ExPrometheusHandle(PrometheusHandle);

/// Calls `PrometheusHandle::render`, which takes a snapshot of what the
/// recorder holds at that moment and writes it out in the Prometheus
/// exposition format.
///
/// The text depends on every request that was recorded before the call, so
/// nothing is claimed of it: two calls on one handle may differ.
#[verifier::external_body]
pub(crate) fn render_exposition(handle: &PrometheusHandle) -> (text: String) {
    handle.render()
}

} // verus!
