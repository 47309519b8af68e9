use axum_prometheus::metrics::{Key, Level, Metadata, Recorder};
use axum_prometheus::metrics_exporter_prometheus::PrometheusBuilder;
use prometheus_metric_example::endpoint::{respond, Endpoint};
use prometheus_metric_example::reply::{Reply, STATUS_OK};
use prometheus_metric_example::{health, home, metrics, metrics_reply};

#[test]
fn health_answers_ok_with_its_text() {
    let reply = health();
    assert_eq!(reply.status, 200);
    assert_eq!(reply.body, "Service is healthy and running :D");
}

#[test]
fn health_answers_every_call_alike() {
    let first = health();
    for _ in 0..50 {
        let next = health();
        assert_eq!(next.status, first.status);
        assert_eq!(next.body, first.body);
    }
    assert_eq!(first.status, 200);
    assert_eq!(first.body.len(), 33);
}

#[test]
fn home_answers_ok_with_its_text() {
    let reply = home();
    assert_eq!(reply.status, 200);
    assert_eq!(reply.body, "Home");
}

#[test]
fn home_answers_every_call_alike() {
    let first = home();
    let second = home();
    assert_eq!(first.status, second.status);
    assert_eq!(first.body, second.body);
}

#[test]
fn ok_reply_keeps_the_body() {
    let reply = Reply::ok(String::from("anything at all"));
    assert_eq!(reply.status, STATUS_OK);
    assert_eq!(STATUS_OK, 200);
    assert_eq!(reply.body, "anything at all");
}

#[test]
fn ok_reply_may_be_empty() {
    let reply = Reply::ok(String::new());
    assert_eq!(reply.status, 200);
    assert_eq!(reply.body, "");
}

#[test]
fn metrics_reply_carries_the_snapshot_unchanged() {
    let snapshot = "# TYPE jobs counter\njobs{kind=\"a\"} 7\n\n";
    let reply = metrics_reply(String::from(snapshot));
    assert_eq!(reply.status, 200);
    assert_eq!(reply.body, snapshot);
}

#[test]
fn metrics_of_an_idle_recorder_is_ok() {
    let recorder = PrometheusBuilder::new().build_recorder();
    let reply = metrics(&recorder.handle());
    assert_eq!(reply.status, 200);
    assert!(!reply.body.contains("jobs_done"));
}

#[test]
fn metrics_renders_what_the_recorder_holds() {
    let recorder = PrometheusBuilder::new().build_recorder();
    let handle = recorder.handle();
    let key = Key::from_name("jobs_done");
    let metadata = Metadata::new("handlers", Level::INFO, None);
    recorder.register_counter(&key, &metadata).increment(2);
    let first = metrics(&handle);
    assert_eq!(first.status, 200);
    assert!(first.body.contains("jobs_done 2"), "{}", first.body);
    recorder.register_counter(&key, &metadata).increment(3);
    let second = metrics(&handle);
    assert_eq!(second.status, 200);
    assert!(second.body.contains("jobs_done 5"), "{}", second.body);
}

#[test]
fn respond_calls_the_handler_of_the_endpoint() {
    let recorder = PrometheusBuilder::new().build_recorder();
    let handle = recorder.handle();
    let key = Key::from_name("probes");
    let metadata = Metadata::new("handlers", Level::INFO, None);
    recorder.register_counter(&key, &metadata).increment(1);

    let reply = respond(Endpoint::Health, &handle);
    assert_eq!(reply.status, 200);
    assert_eq!(reply.body, "Service is healthy and running :D");

    let reply = respond(Endpoint::Home, &handle);
    assert_eq!(reply.status, 200);
    assert_eq!(reply.body, "Home");

    let reply = respond(Endpoint::Metrics, &handle);
    assert_eq!(reply.status, 200);
    assert!(reply.body.contains("probes 1"), "{}", reply.body);
}

#[test]
fn endpoints_have_their_own_paths() {
    assert_eq!(Endpoint::Health.path(), "/health");
    assert_eq!(Endpoint::Home.path(), "/home");
    assert_eq!(Endpoint::Metrics.path(), "/metrics");
    assert_ne!(Endpoint::Health, Endpoint::Home);
    assert_ne!(Endpoint::Home, Endpoint::Metrics);
}
