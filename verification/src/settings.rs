//! The fixed settings of the service.

use vstd::prelude::*;

verus! {

/// The name under which the service logs, and by which a log filter selects
/// its events.
pub const LOG_NAMESPACE: &'static str = "prometheus_metric_example";

/// The address that the listener binds: `0.0.0.0:3000`, which is every
/// interface of the host.
pub fn bind_address() -> (address: &'static str)
    ensures
        address@ == "0.0.0.0:3000"@,
{
    "0.0.0.0:3000"
}

/// The log filter that applies where none is configured: the events of the
/// service's own namespace, down to debug level.
pub fn default_log_filter() -> (directives: &'static str)
    ensures
        directives@ == "prometheus_metric_example=debug"@,
{
    "prometheus_metric_example=debug"
}

/// The default log filter is the service's namespace followed by `=debug`,
/// and names no other target.
pub proof fn default_log_filter_is_scoped()
    ensures
        "prometheus_metric_example=debug"@ == LOG_NAMESPACE@ + "=debug"@,
        !"prometheus_metric_example=debug"@.contains(','),
{
    reveal_strlit("prometheus_metric_example=debug");
    reveal_strlit("prometheus_metric_example");
    reveal_strlit("=debug");
    assert("prometheus_metric_example=debug"@ =~= "prometheus_metric_example"@ + "=debug"@);
}

} // verus!
