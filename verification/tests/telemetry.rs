use std::sync::{Arc, Mutex};

use gpui_starter::services::telemetry::{
    redact_endpoint, resolve_otlp_endpoint, ActiveSink, RemoteSink, TelemetryError, TelemetryMode,
    TelemetryService, TelemetrySink, TelemetrySnapshot, DEFAULT_OTLP_ENDPOINT,
};

struct FakeSink {
    events: Arc<Mutex<Vec<String>>>,
}

impl TelemetrySink for FakeSink {
    fn record_event(&self, name: &str) -> Result<(), TelemetryError> {
        self.events.lock().expect("lock").push(name.to_string());
        Ok(())
    }

    fn record_error(&self, error: &str) -> Result<(), TelemetryError> {
        self.events
            .lock()
            .expect("lock")
            .push(format!("err:{error}"));
        Ok(())
    }

    fn set_user_properties(&self, key: &str, value: &str) -> Result<(), TelemetryError> {
        self.events
            .lock()
            .expect("lock")
            .push(format!("prop:{key}={value}"));
        Ok(())
    }

    fn flush(&self) -> Result<(), TelemetryError> {
        Ok(())
    }
}

#[test]
fn redacts_endpoint_host_only() {
    let value =
        redact_endpoint("https://telemetry.example.com/v1/events").expect("redacted endpoint");
    assert_eq!(value, "telemetry.example.com/…");
}

#[test]
fn fake_sink_records_calls() {
    let events = Arc::new(Mutex::new(Vec::new()));
    let sink = FakeSink {
        events: events.clone(),
    };
    sink.record_event("evt").expect("event");
    sink.record_error("oops").expect("error");
    sink.set_user_properties("k", "v").expect("prop");

    let data = events.lock().expect("lock").clone();
    assert_eq!(data, vec!["evt", "err:oops", "prop:k=v"]);
}

#[test]
fn resolve_endpoint_prefers_explicit() {
    let ep = resolve_otlp_endpoint(Some("https://custom.example.com:4318"), None);
    assert_eq!(ep, "https://custom.example.com:4318");
}

#[test]
fn resolve_endpoint_ignores_empty_explicit() {
    let ep = resolve_otlp_endpoint(Some(""), None);
    assert!(!ep.is_empty());
}

#[test]
fn resolve_endpoint_falls_back_to_default() {
    let ep = resolve_otlp_endpoint(None, None);
    assert_eq!(ep, DEFAULT_OTLP_ENDPOINT);
}

#[test]
fn remote_sink_connected_without_feature() {
    let sink = RemoteSink::new("http://localhost:9999");
    assert!(sink.connected);
}

#[test]
fn resolve_endpoint_uses_environment_then_trims() {
    assert_eq!(
        resolve_otlp_endpoint(Some("   "), Some(" http://collector:4318 ")),
        "http://collector:4318"
    );
    assert_eq!(
        resolve_otlp_endpoint(Some(" http://a "), Some("http://b")),
        "http://a"
    );
    assert_eq!(resolve_otlp_endpoint(None, Some("")), "http://localhost:4318");
}

#[test]
fn redaction_keeps_only_the_host() {
    assert_eq!(redact_endpoint("localhost:4318/v1").as_deref(), Some("localhost:4318/…"));
    assert_eq!(redact_endpoint("   "), None);
    assert_eq!(
        redact_endpoint("http://user@host:1/a/b").as_deref(),
        Some("user@host:1/…")
    );
}

#[test]
fn nothing_is_recorded_without_consent() {
    let mut service = TelemetryService::new();
    service.set_mode(TelemetryMode::Remote, false, Some("https://t.example.com/x"), None);
    assert!(!service.snapshot.enabled);
    assert!(matches!(service.sink, ActiveSink::Disabled(_)));
    assert_eq!(
        service.capability().reason.as_deref(),
        Some("telemetry disabled until consent")
    );

    service.set_mode(TelemetryMode::LocalOnly, true, None, None);
    assert!(service.snapshot.enabled);
    assert!(matches!(service.sink, ActiveSink::Local(_)));
    service.record_event("opened");
    service.record_error("oops");
    assert_eq!(service.snapshot.events_recorded, 2);
    assert_eq!(
        service.snapshot.endpoint_redacted.as_deref(),
        Some("localhost:4318/…")
    );
}

#[test]
fn a_disconnected_remote_sink_records_its_refusal() {
    let mut service = TelemetryService::new();
    service.sink = ActiveSink::Remote(RemoteSink {
        endpoint: "http://collector".into(),
        connected: false,
    });
    service.record_event("evt");
    assert_eq!(service.snapshot.events_recorded, 0);
    assert_eq!(
        service.snapshot.last_error.as_deref(),
        Some("telemetry not available: OTLP exporter not connected to http://collector")
    );
    assert!(service.capability().degraded);
    assert_eq!(
        TelemetryError::Otlp("timeout".into()).to_string(),
        "OTLP error: timeout"
    );
}

#[test]
fn default_snapshot_is_disabled() {
    let snap = TelemetrySnapshot::default();
    assert!(snap.compiled);
    assert!(!snap.consented);
    assert_eq!(snap.mode, TelemetryMode::Disabled);
    assert_eq!(snap.events_recorded, 0);
}
