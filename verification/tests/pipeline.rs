use palantir_agent::records::{ApmV1Action, Measurement, Message};
use palantir_agent::util::checksum::Checksum;
use palantir_agent::workers::registry::apm::Registry;
use palantir_agent::workers::registry::error::RegistryError;
use palantir_agent::workers::registry::pipeline::{
    processor_liveness_step, processor_queue_step, reporter_step, LivenessSignal, QueueEvent,
};
use palantir_agent::workers::registry::reporter::Reporter;

fn sample_message() -> Message {
    Message::ApmV1Action(ApmV1Action {
        realm: "realm".to_string(),
        application: "app".to_string(),
        application_hash: "hash".to_string(),
        action_kind: "kind".to_string(),
        action_name: "name".to_string(),
        total_us: 100,
        measurements: vec![Measurement {
            name: "db".to_string(),
            took_us: 40,
        }],
        additional_dimensions: Vec::new(),
    })
}

#[test]
fn test_liveness_closed_stops_processor() {
    assert!(matches!(
        processor_liveness_step(LivenessSignal::Closed),
        Err(RegistryError::Disconnected)
    ));
    assert!(processor_liveness_step(LivenessSignal::Empty).is_ok());
    assert!(processor_liveness_step(LivenessSignal::Received).is_ok());
}

#[test]
fn test_queue_closed_stops_processor() {
    let mut registry = Registry::new();

    let r = processor_queue_step(&mut registry, QueueEvent::Closed, 0);

    assert!(matches!(r, Err(RegistryError::Disconnected)));
    assert_eq!(registry.len(), 0);
}

#[test]
fn test_undelivered_heartbeat_stops_reporter() {
    let registry = Registry::new();
    let reporter = Reporter::new("http://localhost/import".to_string(), Vec::new());

    let r = reporter_step(&reporter, &registry, false);

    assert!(matches!(r, Err(RegistryError::Disconnected)));
}

#[test]
fn test_report_of_empty_registry() {
    let registry = Registry::new();
    let reporter = Reporter::new("http://localhost/import".to_string(), Vec::new());

    let payload = reporter_step(&reporter, &registry, true).ok().unwrap();

    assert_eq!(
        payload,
        "request_handle_time_count{generation=\"1\"} 0\nrequest_handle_time_sum{generation=\"1\"} 0"
    );
}

#[test]
fn test_ingest_groups_by_fingerprint() {
    let mut registry = Registry::new();

    let r1 = processor_queue_step(&mut registry, QueueEvent::Received(sample_message()), 1);
    let r2 = processor_queue_step(&mut registry, QueueEvent::Received(sample_message()), 2);
    assert!(r1.is_ok() && r2.is_ok());

    // both records share one fingerprint, so one collection aggregates them
    assert_eq!(registry.len(), 1);
    let key = sample_message().checksum();
    let hc = registry.get_collection(key).unwrap();
    let db = hc.get_histogram(&"db".to_string()).unwrap();
    assert_eq!(db.count(), 2);
    assert_eq!(db.sum(), 80);
    assert_eq!(hc.last_hit(), 2);
}

#[test]
fn test_report_after_ingest_is_newline_joined() {
    let mut registry = Registry::new();
    registry.ingest(sample_message(), 1);
    registry.track_handle_time(5);
    let reporter = Reporter::new("http://localhost/import".to_string(), Vec::new());

    let payload = reporter_step(&reporter, &registry, true).ok().unwrap();

    let lines: Vec<&str> = payload.split('\n').collect();
    // latency histogram: one bucket line, count, sum; collection: three
    // members (db, untracked, total), each a bucket line, count and sum
    assert_eq!(lines.len(), 12);
    assert_eq!(
        lines[0],
        "request_handle_time_bucket{generation=\"1\",vmrange=\"0...255\"} 5"
    );
    assert_eq!(lines[1], "request_handle_time_count{generation=\"1\"} 1");
    assert_eq!(lines[2], "request_handle_time_sum{generation=\"1\"} 5");
    assert!(lines[3].starts_with("palantir_apm_bucket{generation=\"1\",palantir_realm=\"realm\""));
}
