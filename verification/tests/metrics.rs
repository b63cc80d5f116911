use api_core::metrics::{
    MetricLabels, duration_histogram_name, histogram_bucket_bounds_micros, idle_timeout_seconds,
    observe_request, requests_counter_name, u16_to_decimal_string,
};
use metrics::{Key, Label, Level, Metadata, Recorder};
use metrics_exporter_prometheus::{Matcher, PrometheusBuilder};

#[test]
fn metric_decimal_rendering() {
    assert_eq!(u16_to_decimal_string(0), "0");
    assert_eq!(u16_to_decimal_string(7), "7");
    assert_eq!(u16_to_decimal_string(42), "42");
    assert_eq!(u16_to_decimal_string(200), "200");
    assert_eq!(u16_to_decimal_string(404), "404");
    assert_eq!(u16_to_decimal_string(65535), "65535");
}

#[test]
fn metric_label_pairs_are_method_path_status() {
    let labels = MetricLabels::new("POST".to_string(), "/echo".to_string(), 200);
    let pairs = labels.label_pairs();
    assert_eq!(pairs.len(), 3);
    assert_eq!(pairs[0], ("method".to_string(), "POST".to_string()));
    assert_eq!(pairs[1], ("path".to_string(), "/echo".to_string()));
    assert_eq!(pairs[2], ("status".to_string(), "200".to_string()));
}

#[test]
fn metric_names_are_fixed() {
    assert_eq!(requests_counter_name(), "http_requests_total");
    assert_eq!(duration_histogram_name(), "http_requests_duration_seconds");
}

#[test]
fn metric_idle_timeout_is_ten_seconds() {
    assert_eq!(idle_timeout_seconds(), 10);
}

#[test]
fn metric_bucket_bounds_are_the_fixed_exponential_series() {
    let bounds = histogram_bucket_bounds_micros();
    let expected: Vec<u64> = vec![
        5000, 10000, 25000, 50000, 100000, 250000, 500000, 1000000, 2500000, 5000000, 10000000,
    ];
    assert_eq!(bounds, expected);
}

#[test]
fn metric_recent_series_render_with_fixed_buckets() {
    let bounds: Vec<f64> = histogram_bucket_bounds_micros()
        .iter()
        .map(|&us| us as f64 / 1_000_000.0)
        .collect();
    let recorder = PrometheusBuilder::new()
        .set_buckets_for_metric(Matcher::Full(duration_histogram_name().to_string()), &bounds)
        .unwrap()
        .build_recorder();
    let handle = recorder.handle();

    let labels: Vec<Label> = MetricLabels::new("GET".to_string(), "/health".to_string(), 200)
        .label_pairs()
        .into_iter()
        .map(|(k, v)| Label::new(k, v))
        .collect();
    let metadata = Metadata::new("", Level::INFO, None);

    let counter_key = Key::from_parts(requests_counter_name(), labels.clone());
    recorder.register_counter(&counter_key, &metadata).increment(1);

    let histogram_key = Key::from_parts(duration_histogram_name(), labels);
    recorder.register_histogram(&histogram_key, &metadata).record(0.007);

    let rendered = handle.render();
    assert!(rendered.contains("http_requests_total"));
    assert!(rendered.contains("method=\"GET\""));
    assert!(rendered.contains("path=\"/health\""));
    assert!(rendered.contains("status=\"200\""));
    // 0.007 s falls past the first bucket and into the second.
    assert!(rendered.contains("le=\"0.005\"} 0"));
    assert!(rendered.contains("le=\"0.01\"} 1"));
}

#[test]
fn metric_observation_is_one_count_and_one_sample() {
    let update = observe_request("GET".to_string(), "/health".to_string(), 200, 1500);
    assert_eq!(update.counter_name, "http_requests_total");
    assert_eq!(update.counter_increment, 1);
    assert_eq!(update.histogram_name, "http_requests_duration_seconds");
    assert_eq!(update.elapsed_micros, 1500);
    assert_eq!(update.labels.method, "GET");
    assert_eq!(update.labels.path, "/health");
    assert_eq!(update.labels.status, 200);
}
