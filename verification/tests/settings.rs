use prometheus_metric_example::settings::{bind_address, default_log_filter, LOG_NAMESPACE};
use tracing_subscriber::EnvFilter;

#[test]
fn bind_address_is_fixed() {
    assert_eq!(bind_address(), "0.0.0.0:3000");
}

#[test]
fn default_log_filter_is_debug_for_the_service() {
    assert_eq!(default_log_filter(), "prometheus_metric_example=debug");
    assert_eq!(default_log_filter(), format!("{}=debug", LOG_NAMESPACE));
}

#[test]
fn default_log_filter_is_a_valid_filter() {
    let filter = EnvFilter::try_new(default_log_filter());
    assert!(filter.is_ok());
    assert_eq!(format!("{}", filter.unwrap()), "prometheus_metric_example=debug");
}
