use webhook_bench::reporter::{report_body, Reporter, WARMUP_SECS};
use webhook_bench::Gauge;

fn loaded_gauge() -> Gauge {
    let mut g = Gauge::new();
    g.append(10);
    g.append(50);
    g.append(30);
    g.append(30);
    g
}

#[test]
fn report_body_of_four_samples() {
    let body = report_body(&loaded_gauge());
    let expected = "{\"embeds\":[{\"title\":\"Webhook Benchmark Metrics\",\"color\":32768,\"fields\":[{\"name\":\"Count\",\"value\":\"4 times\"},{\"name\":\"Best\",\"value\":\"10ms\",\"inline\":true},{\"name\":\"Average\",\"value\":\"30ms\",\"inline\":true},{\"name\":\"Worst\",\"value\":\"50ms\",\"inline\":true}]}]}";
    assert_eq!(body, expected.as_bytes().to_vec());
}

#[test]
fn report_body_with_no_samples_guards_the_average() {
    let body = report_body(&Gauge::new());
    let text = String::from_utf8(body).unwrap();
    assert!(text.contains("\"value\":\"0 times\""));
    assert!(text.contains("\"value\":\"no data\""));
    // the untouched sentinels are reported as stored
    assert!(text.contains(&format!("\"value\":\"{}ms\"", i64::MAX)));
    assert!(text.contains(&format!("\"value\":\"{}ms\"", i64::MIN)));
}

#[test]
fn no_report_before_warmup_one_per_tick_after() {
    let gauge = loaded_gauge();
    let mut reporter = Reporter::new();
    assert!(reporter.on_tick(&gauge).is_none());
    assert!(reporter.on_tick(&gauge).is_none());
    reporter.complete_warmup();
    let first = reporter.on_tick(&gauge);
    assert!(first.is_some());
    // a failed send changes nothing: the next tick reports again
    reporter.on_send_result(false);
    let second = reporter.on_tick(&gauge);
    assert_eq!(first, second);
    reporter.on_send_result(true);
    assert!(reporter.on_tick(&gauge).is_some());
}

#[test]
fn warmup_delay_is_sixty_time_units() {
    assert_eq!(WARMUP_SECS, 60);
}
