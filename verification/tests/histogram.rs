use palantir_agent::decimal::u64_to_string;
use palantir_agent::metrics::histogram::builder::HistogramBuilder;
use palantir_agent::metrics::histogram::metric::{get_vmrange, Histogram, BUCKETS_COUNT};
use palantir_agent::metrics::tag::Tag;

#[test]
fn test_vmrange_min() {
    let bucket_no = 0usize;

    let vmrange = get_vmrange(bucket_no);

    assert_eq!(vmrange, "0...255")
}

#[test]
fn test_vmrange_max() {
    let bucket_no = BUCKETS_COUNT - 1;

    let vmrange = get_vmrange(bucket_no);

    assert_eq!(vmrange, "68719476736...+Inf")
}

#[test]
fn test_vmrange_5() {
    let bucket_no = 5usize;

    let vmrange = get_vmrange(bucket_no);

    assert_eq!(vmrange, "4096...8191")
}

#[test]
fn test_vmrange_6() {
    let bucket_no = 6usize;

    let vmrange = get_vmrange(bucket_no);

    assert_eq!(vmrange, "8192...16383")
}

#[test]
fn test_overflow_sum() {
    let mut histogram = Histogram::new(String::from("hist"), Vec::new());
    histogram.track(1);
    histogram.track(2);

    histogram.track(u64::MAX - 1);

    assert_eq!(histogram.generation(), 2);
    assert_eq!(histogram.sum(), 0);
    assert_eq!(histogram.count(), 0);
}

#[test]
fn test_overflow_bucket() {
    let mut histogram = Histogram::new(String::from("hist"), Vec::new());
    histogram.track(u64::MAX - 1);

    histogram.track(u64::MAX - 1);

    assert_eq!(histogram.generation(), 2);
    assert_eq!(histogram.sum(), 0);
    assert_eq!(histogram.count(), 0);
}

#[test]
fn test_track_1() {
    let mut histogram = Histogram::new(String::from("hist"), Vec::new());

    histogram.track(1);

    assert_eq!(histogram.sum(), 1);
    assert_eq!(histogram.count(), 1);
    assert_eq!(histogram.bucket(0), 1);
}

#[test]
fn test_track_1_256() {
    let mut histogram = Histogram::new(String::from("hist"), Vec::new());

    histogram.track(1);
    histogram.track(256);

    assert_eq!(histogram.sum(), 257);
    assert_eq!(histogram.count(), 2);
    assert_eq!(histogram.bucket(0), 1);
    assert_eq!(histogram.bucket(1), 256);
}

#[test]
fn test_serialize_prometheus_empty() {
    let histogram = Histogram::new(String::from("hist"), Vec::new());

    let res = histogram.serialize_prometheus();

    assert_eq!(res.len(), 2);
    assert_eq!(res[0], String::from("hist_count{generation=\"1\"} 0"));
    assert_eq!(res[1], String::from("hist_sum{generation=\"1\"} 0"));
}

#[test]
fn test_serialize_prometheus_buckets() {
    let mut histogram = Histogram::new(String::from("hist"), Vec::new());
    histogram.track(1);
    histogram.track(256);
    histogram.track(512);

    let res = histogram.serialize_prometheus();

    assert_eq!(res.len(), 5);
    assert_eq!(
        res[0],
        String::from("hist_bucket{generation=\"1\",vmrange=\"0...255\"} 1")
    );
    assert_eq!(
        res[1],
        String::from("hist_bucket{generation=\"1\",vmrange=\"256...511\"} 256")
    );
    assert_eq!(
        res[2],
        String::from("hist_bucket{generation=\"1\",vmrange=\"512...1023\"} 512")
    );
    assert_eq!(res[3], String::from("hist_count{generation=\"1\"} 3"));
    assert_eq!(res[4], String::from("hist_sum{generation=\"1\"} 769"));
}

#[test]
fn test_serialize_with_tags() {
    let mut histogram = Histogram::new(
        String::from("hist"),
        vec![Tag {
            key: String::from("key"),
            value: String::from("value"),
        }],
    );

    histogram.track(1);

    let res = histogram.serialize_prometheus();

    assert_eq!(res.len(), 3);
    assert_eq!(
        res[0],
        String::from("hist_bucket{generation=\"1\",key=\"value\",vmrange=\"0...255\"} 1")
    );
    assert_eq!(
        res[1],
        String::from("hist_count{generation=\"1\",key=\"value\"} 1")
    );
    assert_eq!(
        res[2],
        String::from("hist_sum{generation=\"1\",key=\"value\"} 1")
    );
}

#[test]
fn test_track_boundary_values() {
    let mut histogram = Histogram::new(String::from("hist"), Vec::new());

    histogram.track(255);
    histogram.track(256);

    assert_eq!(histogram.bucket(0), 255);
    assert_eq!(histogram.bucket(1), 256);

    let res = histogram.serialize_prometheus();
    assert_eq!(
        res[0],
        String::from("hist_bucket{generation=\"1\",vmrange=\"0...255\"} 255")
    );
    assert_eq!(
        res[1],
        String::from("hist_bucket{generation=\"1\",vmrange=\"256...511\"} 256")
    );
}

#[test]
fn test_track_max_lands_in_last_bucket() {
    let mut histogram = Histogram::new(String::from("hist"), Vec::new());

    histogram.track(u64::MAX);

    assert_eq!(histogram.bucket(BUCKETS_COUNT - 1), u64::MAX);
    assert_eq!(histogram.count(), 1);
    assert_eq!(histogram.sum(), u64::MAX);
}

#[test]
fn test_overflow_clears_buckets() {
    let mut histogram = Histogram::new(String::from("hist"), Vec::new());
    histogram.track(1);
    histogram.track(u64::MAX);

    assert_eq!(histogram.generation(), 2);
    for no in 0..BUCKETS_COUNT {
        assert_eq!(histogram.bucket(no), 0);
    }
    let res = histogram.serialize_prometheus();
    assert_eq!(res.len(), 2);
    assert_eq!(res[0], String::from("hist_count{generation=\"2\"} 0"));
    assert_eq!(res[1], String::from("hist_sum{generation=\"2\"} 0"));
}

#[test]
fn test_builder_builds_tagged_histogram() {
    let mut builder = HistogramBuilder::named("histogram");
    let histogram = builder.tag("key1", "val1").tag("key2", "val2").finish();

    let res = histogram.serialize_prometheus();
    assert_eq!(res.len(), 2);
    assert_eq!(
        res[0],
        String::from("histogram_count{generation=\"1\",key1=\"val1\",key2=\"val2\"} 0")
    );
    assert_eq!(
        res[1],
        String::from("histogram_sum{generation=\"1\",key1=\"val1\",key2=\"val2\"} 0")
    );
}

#[test]
fn test_u64_to_string_values() {
    assert_eq!(u64_to_string(0), "0");
    assert_eq!(u64_to_string(7), "7");
    assert_eq!(u64_to_string(255), "255");
    assert_eq!(u64_to_string(68719476736), "68719476736");
    assert_eq!(u64_to_string(u64::MAX), "18446744073709551615");
}
