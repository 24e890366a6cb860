use tilted::emitters::gate::RateGate;
use tilted::emitters::http::{
    default_content_type, default_format, default_method, default_repeat, Formats, HttpOptions,
};
use tilted::emitters::log::LogOptions;
use tilted::emitters::prometheus::PrometheusOptions;
use tilted::emitters::{init, Emitter, Emitters};

fn http_options(url: &str) -> HttpOptions {
    HttpOptions {
        method: default_method(),
        url: url.to_string(),
        content_type: default_content_type(),
        format: default_format(),
        min_interval: default_repeat(),
        payload: vec![("gravity".to_string(), "{gravity}".to_string())],
    }
}

fn prometheus_options() -> PrometheusOptions {
    PrometheusOptions {
        address: "foo".to_string(),
        temp_gauge_name: "temp_foo".to_string(),
        gravity_gauge_name: "gravity_foo".to_string(),
    }
}

#[test]
fn defaults() {
    assert_eq!(default_method(), "POST");
    assert_eq!(default_content_type(), "application/json");
    assert_eq!(default_format(), Formats::Json);
    assert_eq!(default_repeat(), 300_000);
}

#[test]
fn no_entries_give_no_emitters() {
    assert_eq!(init(&vec![]).len(), 0);
}

#[test]
fn one_entry_of_each_kind_gives_three_emitters() {
    let config = vec![
        Emitters::Log(LogOptions {}),
        Emitters::Http(http_options("http://foo")),
        Emitters::Prometheus(prometheus_options()),
    ];
    let e = init(&config);
    assert_eq!(e.len(), 3);
    assert!(matches!(e[0], Emitter::Log(_)));
    match &e[1] {
        Emitter::Http(h) => {
            assert_eq!(h.method, "POST");
            assert_eq!(h.uri, "http://foo");
            assert_eq!(h.content_type, "application/json");
            assert_eq!(h.format, Formats::Json);
            assert_eq!(h.payload, vec![("gravity".to_string(), "{gravity}".to_string())]);
            assert_eq!(h.gate, RateGate { last_emit: 0, min_interval: 300_000 });
        }
        other => panic!("expected an HTTP emitter, got {:?}", other),
    }
    match &e[2] {
        Emitter::Prometheus(p) => {
            assert_eq!(p.address, "foo");
            assert_eq!(p.temp_gauge_name, "temp_foo");
            assert_eq!(p.gravity_gauge_name, "gravity_foo");
        }
        other => panic!("expected a Prometheus emitter, got {:?}", other),
    }
}

#[test]
fn two_http_entries_give_two_emitters() {
    let config = vec![
        Emitters::Http(http_options("http://foo")),
        Emitters::Http(http_options("http://bar")),
    ];
    let e = init(&config);
    assert_eq!(e.len(), 2);
}

#[test]
fn two_calls_within_interval_send_once() {
    let mut g = RateGate::new(1000);
    assert!(g.try_pass(10_000));
    assert!(!g.try_pass(10_500));
    assert!(!g.try_pass(10_999));
    assert_eq!(g.last_emit, 10_000);
}

#[test]
fn two_calls_past_interval_send_twice() {
    let mut g = RateGate::new(1000);
    assert!(g.try_pass(10_000));
    assert!(g.try_pass(11_001));
    assert_eq!(g.last_emit, 11_001);
    assert!(g.try_pass(12_001));
}

#[test]
fn clock_before_last_send_does_not_pass() {
    let mut g = RateGate { last_emit: 5000, min_interval: 0 };
    assert!(!g.try_pass(4999));
    assert!(g.try_pass(5000));
}

#[test]
fn gate_starts_at_epoch() {
    let mut g = RateGate::new(300_000);
    assert!(!g.try_pass(299_999));
    assert!(g.try_pass(300_000));
}
