use palantir_agent::constants::is_valid_extra_label;
use palantir_agent::metrics::tag::Tag;
use palantir_agent::workers::registry::reporter::extra_labels;

#[test]
fn test_extra_label_regex() {
    let valid = vec!["some-valid-ai234s", "some_valid_0987123"];
    let invalid = vec![
        "dot.inside",
        "another;punctuation",
        "cyrillic-symbols-inside-quotes-'АААА'",
        "😀😃😄😅😘🤑",
    ];

    for entry in valid {
        assert!(is_valid_extra_label(entry));
    }
    for entry in invalid {
        assert!(!is_valid_extra_label(entry));
    }
}

#[test]
fn test_extra_labels_strip_and_lowercase() {
    let vars = vec![
        Tag {
            key: "PALANTIR_LABEL_DataCenter-1".to_string(),
            value: "eu-west".to_string(),
        },
        Tag {
            key: "PATH".to_string(),
            value: "/usr/bin".to_string(),
        },
    ];

    let labels = extra_labels(&vars);

    assert_eq!(labels.len(), 1);
    assert_eq!(labels[0].key, "datacenter-1");
    assert_eq!(labels[0].value, "eu-west");
}

#[test]
fn test_extra_labels_drop_invalid() {
    let vars = vec![
        // invalid value
        Tag {
            key: "PALANTIR_LABEL_ok".to_string(),
            value: "has space".to_string(),
        },
        // stripped name empty
        Tag {
            key: "PALANTIR_LABEL_".to_string(),
            value: "v".to_string(),
        },
        // invalid stripped name
        Tag {
            key: "PALANTIR_LABEL_dot.inside".to_string(),
            value: "v".to_string(),
        },
        // fine
        Tag {
            key: "PALANTIR_LABEL_zone_0".to_string(),
            value: "A-1".to_string(),
        },
    ];

    let labels = extra_labels(&vars);

    assert_eq!(labels.len(), 1);
    assert_eq!(labels[0].key, "zone_0");
    assert_eq!(labels[0].value, "A-1");
}
