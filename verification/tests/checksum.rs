use palantir_agent::metrics::tag::Tag;
use palantir_agent::records::{ApmV1Action, Measurement};
use palantir_agent::util::checksum::Checksum;

fn action(total_us: u64, measurements: Vec<Measurement>, dims: Vec<Tag>) -> ApmV1Action {
    ApmV1Action {
        realm: "realm".to_string(),
        application: "app".to_string(),
        application_hash: "hash".to_string(),
        action_kind: "kind".to_string(),
        action_name: "name".to_string(),
        total_us,
        measurements,
        additional_dimensions: dims,
    }
}

#[test]
fn test_same_checksum_different_order() {
    let t1 = Tag {
        key: "a".to_string(),
        value: "a".to_string(),
    };
    let t2 = Tag {
        key: "b".to_string(),
        value: "b".to_string(),
    };
    let t3 = Tag {
        key: "c".to_string(),
        value: "c".to_string(),
    };

    let v1 = vec![t1.clone(), t2.clone(), t3.clone()];
    let v2 = vec![t3, t2, t1];

    assert_eq!(v1.checksum(), v2.checksum());
}

#[test]
fn test_record_checksum_ignores_measurements() {
    let a1 = action(
        100,
        vec![Measurement {
            name: "db".to_string(),
            took_us: 40,
        }],
        vec![
            Tag {
                key: "k1".to_string(),
                value: "v1".to_string(),
            },
            Tag {
                key: "k2".to_string(),
                value: "v2".to_string(),
            },
        ],
    );
    let a2 = action(
        999,
        vec![],
        vec![
            Tag {
                key: "k2".to_string(),
                value: "v2".to_string(),
            },
            Tag {
                key: "k1".to_string(),
                value: "v1".to_string(),
            },
        ],
    );

    assert_eq!(a1.checksum(), a2.checksum());
}

#[test]
fn test_different_identity_different_checksum() {
    let a1 = action(100, vec![], vec![]);
    let mut a2 = action(100, vec![], vec![]);
    a2.action_name = "other".to_string();

    assert_ne!(a1.checksum(), a2.checksum());
}

#[test]
fn test_tag_pairing_affects_checksum() {
    // the same keys and values, paired differently, name different series
    let v1 = vec![
        Tag {
            key: "x".to_string(),
            value: "1".to_string(),
        },
        Tag {
            key: "y".to_string(),
            value: "2".to_string(),
        },
    ];
    let v2 = vec![
        Tag {
            key: "x".to_string(),
            value: "2".to_string(),
        },
        Tag {
            key: "y".to_string(),
            value: "1".to_string(),
        },
    ];

    assert_ne!(v1.checksum(), v2.checksum());
}
