use palantir_agent::constants::{TOTAL_ACTION_KIND_NAME, UNTRACKED_ACTION_KIND_NAME};
use palantir_agent::metrics::tag::Tag;
use palantir_agent::records::{ApmV1Action, Measurement, Message};
use palantir_agent::workers::registry::hc::HistogramCollection;

fn action_with(total_us: u64, took: Vec<u64>) -> ApmV1Action {
    let measurements = took
        .into_iter()
        .enumerate()
        .map(|(i, us)| Measurement {
            name: format!("span{}", i),
            took_us: us,
        })
        .collect();
    ApmV1Action {
        realm: "realm".to_string(),
        application: "app".to_string(),
        application_hash: "hash".to_string(),
        action_kind: "kind".to_string(),
        action_name: "name".to_string(),
        total_us,
        measurements,
        additional_dimensions: Vec::new(),
    }
}

#[test]
fn test_reconciliation_untracked_remainder() {
    let action = action_with(100, vec![10, 30]);
    let mut hc = HistogramCollection::from_action(&action, 0);

    hc.process(Message::ApmV1Action(action), 1);

    let untracked = hc
        .get_histogram(&UNTRACKED_ACTION_KIND_NAME.to_string())
        .unwrap();
    assert_eq!(untracked.sum(), 60);
    assert_eq!(untracked.count(), 1);
    let total = hc.get_histogram(&TOTAL_ACTION_KIND_NAME.to_string()).unwrap();
    assert_eq!(total.sum(), 100);
    assert_eq!(total.count(), 1);
}

#[test]
fn test_reconciliation_exceeding_total() {
    let action = action_with(100, vec![90, 50]);
    let mut hc = HistogramCollection::from_action(&action, 0);

    hc.process(Message::ApmV1Action(action), 1);

    let untracked = hc
        .get_histogram(&UNTRACKED_ACTION_KIND_NAME.to_string())
        .unwrap();
    assert_eq!(untracked.sum(), 0);
    assert_eq!(untracked.count(), 1);
    let total = hc.get_histogram(&TOTAL_ACTION_KIND_NAME.to_string()).unwrap();
    assert_eq!(total.sum(), 140);
    assert_eq!(total.count(), 1);
}

#[test]
fn test_collection_tracks_each_span() {
    let action = action_with(100, vec![10, 30]);
    let mut hc = HistogramCollection::from_action(&action, 0);

    hc.process(Message::ApmV1Action(action), 7);

    let span0 = hc.get_histogram(&"span0".to_string()).unwrap();
    assert_eq!(span0.sum(), 10);
    let span1 = hc.get_histogram(&"span1".to_string()).unwrap();
    assert_eq!(span1.sum(), 30);
    assert!(hc.get_histogram(&"span2".to_string()).is_none());
    assert_eq!(hc.last_hit(), 7);
}

#[test]
fn test_collection_span_tag_in_serialization() {
    let mut hc = HistogramCollection::new(
        vec![Tag {
            key: "realm".to_string(),
            value: "r1".to_string(),
        }],
        0,
    );

    hc.process_measurement("db".to_string(), 1);

    let lines = hc.serialize_prometheus();
    assert_eq!(lines.len(), 3);
    assert_eq!(
        lines[0],
        "palantir_apm_bucket{generation=\"1\",realm=\"r1\",palantir_span=\"db\",vmrange=\"0...255\"} 1"
    );
    assert_eq!(
        lines[1],
        "palantir_apm_count{generation=\"1\",realm=\"r1\",palantir_span=\"db\"} 1"
    );
    assert_eq!(
        lines[2],
        "palantir_apm_sum{generation=\"1\",realm=\"r1\",palantir_span=\"db\"} 1"
    );
}

#[test]
fn test_collection_merges_same_span() {
    let mut hc = HistogramCollection::new(Vec::new(), 0);

    hc.process_measurement("db".to_string(), 10);
    hc.process_measurement("db".to_string(), 20);

    let db = hc.get_histogram(&"db".to_string()).unwrap();
    assert_eq!(db.count(), 2);
    assert_eq!(db.sum(), 30);
}
