//! End-to-end record assembly through the drain: source location, field
//! precedence, resource, severity, body, and cross-call independence.
use slog_opentelemetry::attr::{AttrMap, AttrValue};
use slog_opentelemetry::serializer::FieldValue;
use slog_opentelemetry::severity::{Level, Severity};
use slog_opentelemetry::{LogEvent, LogRecord, OpenTelemetry, OpenTelemetryBuilder};
use std::time::{Duration, SystemTime};

fn provider() -> opentelemetry_sdk::logs::SdkLoggerProvider {
    opentelemetry_sdk::logs::SdkLoggerProvider::builder().build()
}

fn event(level: Level, message: &str, function: &str) -> LogEvent {
    LogEvent {
        level,
        message: message.to_string(),
        file: "src/server.rs".to_string(),
        line: 42,
        module: "server::api".to_string(),
        function: function.to_string(),
    }
}

fn adapter() -> OpenTelemetry<fn() -> SystemTime> {
    OpenTelemetryBuilder::new(SystemTime::now as fn() -> SystemTime).build(&provider())
}

fn get<'a>(r: &'a LogRecord, key: &str) -> Option<&'a AttrValue> {
    r.attributes.get(&key.to_string())
}

#[test]
fn source_location_attributes_always_present() {
    let drain = adapter();
    let rec = drain.log(&event(Level::Info, "m", "handle"), &vec![], &vec![]);
    assert_eq!(get(&rec, "code.lineno"), Some(&AttrValue::Int(42)));
    assert_eq!(get(&rec, "code.filepath"), Some(&AttrValue::Str("src/server.rs".to_string())));
    assert_eq!(get(&rec, "code.namespace"), Some(&AttrValue::Str("server::api".to_string())));
    assert_eq!(get(&rec, "code.function"), Some(&AttrValue::Str("handle".to_string())));
}

#[test]
fn function_attribute_absent_for_empty_function_name() {
    let drain = adapter();
    let rec = drain.log(&event(Level::Info, "m", ""), &vec![], &vec![]);
    assert_eq!(get(&rec, "code.lineno"), Some(&AttrValue::Int(42)));
    assert_eq!(get(&rec, "code.function"), None);
}

#[test]
fn call_site_field_overrides_persistent_field() {
    let drain = adapter();
    let persistent = vec![("request_id".to_string(), FieldValue::Str("a".to_string()))];
    let call_site = vec![("request_id".to_string(), FieldValue::Str("b".to_string()))];
    let rec = drain.log(&event(Level::Info, "m", ""), &persistent, &call_site);
    assert_eq!(get(&rec, "request_id"), Some(&AttrValue::Str("b".to_string())));
}

#[test]
fn reused_persistent_logger_keeps_calls_independent() {
    let drain = adapter();
    let persistent = vec![("request_id".to_string(), FieldValue::Str("a".to_string()))];
    let with_override = vec![("request_id".to_string(), FieldValue::Str("b".to_string()))];
    let second = drain.log(&event(Level::Info, "m", ""), &persistent, &with_override);
    let first = drain.log(&event(Level::Info, "m", ""), &persistent, &vec![]);
    assert_eq!(get(&second, "request_id"), Some(&AttrValue::Str("b".to_string())));
    assert_eq!(get(&first, "request_id"), Some(&AttrValue::Str("a".to_string())));
}

#[test]
fn info_scenario_with_persistent_service_field() {
    let drain = adapter();
    let persistent = vec![("service".to_string(), FieldValue::Str("x".to_string()))];
    let call_site = vec![("retries".to_string(), FieldValue::I32(5))];
    let rec = drain.log(&event(Level::Info, "start", ""), &persistent, &call_site);
    assert_eq!(rec.severity, Severity::Info);
    assert_eq!(rec.severity_text, "INFO");
    assert_eq!(rec.severity.number(), 9);
    assert_eq!(rec.body.as_str(), "start");
    assert_eq!(get(&rec, "service"), Some(&AttrValue::Str("x".to_string())));
    assert_eq!(get(&rec, "retries"), Some(&AttrValue::Int(5)));
    assert_eq!(get(&rec, "code.lineno"), Some(&AttrValue::Int(42)));
    assert!(get(&rec, "code.filepath").is_some());
    assert!(get(&rec, "code.namespace").is_some());
    assert!(rec.resource.is_none());
}

#[test]
fn u128_max_field_becomes_decimal_string_attribute() {
    let drain = adapter();
    let call_site = vec![("huge".to_string(), FieldValue::U128(u128::MAX))];
    let rec = drain.log(&event(Level::Debug, "m", ""), &vec![], &call_site);
    assert_eq!(
        get(&rec, "huge"),
        Some(&AttrValue::Str("340282366920938463463374607431768211455".to_string()))
    );
}

fn sample_resource() -> AttrMap {
    let mut resource = AttrMap::new();
    resource.insert("service.name".to_string(), AttrValue::Str("svc".to_string()));
    resource.insert("deployment".to_string(), AttrValue::Structured(
        serde_json::Value::String("prod".to_string()),
    ));
    resource
}

#[test]
fn configured_resource_is_cloned_into_every_record() {
    let drain = OpenTelemetryBuilder::new(SystemTime::now as fn() -> SystemTime)
        .with_resource(sample_resource())
        .build(&provider());
    let rec1 = drain.log(&event(Level::Info, "m", ""), &vec![], &vec![]);
    let rec2 = drain.log(&event(Level::Error, "m", ""), &vec![], &vec![]);
    assert_eq!(rec1.resource, Some(sample_resource()));
    assert_eq!(rec2.resource, Some(sample_resource()));
}

#[test]
fn no_configured_resource_means_no_record_resource() {
    let drain = adapter();
    let rec = drain.log(&event(Level::Warning, "m", ""), &vec![], &vec![]);
    assert!(rec.resource.is_none());
}

#[test]
fn timestamp_provider_is_evaluated_at_emit_time() {
    let fixed = || SystemTime::UNIX_EPOCH + Duration::from_secs(1234567);
    let drain = OpenTelemetryBuilder::new(fixed).build(&provider());
    let rec = drain.log(&event(Level::Trace, "m", ""), &vec![], &vec![]);
    assert_eq!(rec.timestamp, SystemTime::UNIX_EPOCH + Duration::from_secs(1234567));
}

#[test]
fn severity_per_level_on_records() {
    let drain = adapter();
    let cases = [
        (Level::Critical, Severity::Fatal, "CRITICAL", 21u8),
        (Level::Error, Severity::Error, "ERROR", 17),
        (Level::Warning, Severity::Warn, "WARNING", 13),
        (Level::Info, Severity::Info, "INFO", 9),
        (Level::Debug, Severity::Debug, "DEBUG", 5),
        (Level::Trace, Severity::Trace, "TRACE", 1),
    ];
    for (level, severity, text, number) in cases {
        let rec = drain.log(&event(level, "m", ""), &vec![], &vec![]);
        assert_eq!(rec.severity, severity);
        assert_eq!(rec.severity_text, text);
        assert_eq!(rec.severity.number(), number);
    }
}

#[test]
fn all_field_kinds_flow_through_a_record() {
    let drain = adapter();
    let bits = (2.25f64).to_bits();
    let call_site = vec![
        ("b".to_string(), FieldValue::Bool(false)),
        ("f".to_string(), FieldValue::DoubleBits(bits)),
        ("s".to_string(), FieldValue::Str("text".to_string())),
        ("a".to_string(), FieldValue::Arguments("x = 3".to_string())),
        ("n".to_string(), FieldValue::Structured(serde_json::Value::Bool(true))),
        ("u".to_string(), FieldValue::U64(17)),
    ];
    let rec = drain.log(&event(Level::Info, "m", ""), &vec![], &call_site);
    assert_eq!(get(&rec, "b"), Some(&AttrValue::Bool(false)));
    assert_eq!(get(&rec, "f"), Some(&AttrValue::DoubleBits(bits)));
    assert_eq!(get(&rec, "s"), Some(&AttrValue::Str("text".to_string())));
    assert_eq!(get(&rec, "a"), Some(&AttrValue::Str("x = 3".to_string())));
    assert_eq!(get(&rec, "n"), Some(&AttrValue::Structured(serde_json::Value::Bool(true))));
    assert_eq!(get(&rec, "u"), Some(&AttrValue::Int(17)));
}
