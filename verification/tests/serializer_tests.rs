//! Severity mapping, decimal rendering, and per-type field conversion.
use slog_opentelemetry::attr::AttrValue;
use slog_opentelemetry::decimal::{i128_to_decimal, u128_to_decimal};
use slog_opentelemetry::serializer::OtelSerializer;
use slog_opentelemetry::severity::{level_to_severity, Level, Severity};
use slog_opentelemetry::Error;

#[test]
fn severity_mapping_is_total_and_order_preserving() {
    let levels = [
        Level::Critical,
        Level::Error,
        Level::Warning,
        Level::Info,
        Level::Debug,
        Level::Trace,
    ];
    let expected_numbers = [21u8, 17, 13, 9, 5, 1];
    let expected_severities = [
        Severity::Fatal,
        Severity::Error,
        Severity::Warn,
        Severity::Info,
        Severity::Debug,
        Severity::Trace,
    ];
    let expected_texts = ["CRITICAL", "ERROR", "WARNING", "INFO", "DEBUG", "TRACE"];
    let mut last: u8 = u8::MAX;
    for i in 0..levels.len() {
        let s = level_to_severity(levels[i]);
        assert_eq!(s, expected_severities[i]);
        assert_eq!(s.number(), expected_numbers[i]);
        assert_eq!(levels[i].as_str(), expected_texts[i]);
        // Levels listed most severe first: ordinals must not increase.
        assert!(s.number() <= last);
        last = s.number();
    }
}

#[test]
fn decimal_rendering_exact_values() {
    assert_eq!(u128_to_decimal(0).as_str(), "0");
    assert_eq!(u128_to_decimal(7).as_str(), "7");
    assert_eq!(u128_to_decimal(10).as_str(), "10");
    assert_eq!(u128_to_decimal(90210).as_str(), "90210");
    assert_eq!(u128_to_decimal(u128::MAX).as_str(), "340282366920938463463374607431768211455");
    assert_eq!(i128_to_decimal(0).as_str(), "0");
    assert_eq!(i128_to_decimal(-1).as_str(), "-1");
    assert_eq!(i128_to_decimal(-90210).as_str(), "-90210");
    assert_eq!(i128_to_decimal(i128::MIN).as_str(), "-170141183460469231731687303715884105728");
}

fn stored(build: impl FnOnce(&mut OtelSerializer)) -> Option<AttrValue> {
    let mut s = OtelSerializer::new();
    build(&mut s);
    let map = s.into_map();
    map.get(&"k".to_string()).cloned()
}

#[test]
fn small_integers_stored_numerically() {
    let key = || "k".to_string();
    assert_eq!(stored(|s| s.emit_u8(key(), 255)), Some(AttrValue::Int(255)));
    assert_eq!(stored(|s| s.emit_i8(key(), -128)), Some(AttrValue::Int(-128)));
    assert_eq!(stored(|s| s.emit_u16(key(), 65535)), Some(AttrValue::Int(65535)));
    assert_eq!(stored(|s| s.emit_i16(key(), -32768)), Some(AttrValue::Int(-32768)));
    assert_eq!(stored(|s| s.emit_u32(key(), u32::MAX)), Some(AttrValue::Int(4294967295)));
    assert_eq!(stored(|s| s.emit_i32(key(), i32::MIN)), Some(AttrValue::Int(-2147483648)));
    assert_eq!(stored(|s| s.emit_i64(key(), i64::MIN)), Some(AttrValue::Int(i64::MIN)));
    assert_eq!(stored(|s| s.emit_i64(key(), i64::MAX)), Some(AttrValue::Int(i64::MAX)));
}

#[test]
fn wide_integers_in_range_stored_numerically_and_exactly() {
    let key = || "k".to_string();
    let max = i64::MAX;
    assert_eq!(stored(|s| s.emit_u64(key(), max as u64)), Some(AttrValue::Int(max)));
    assert_eq!(stored(|s| s.emit_usize(key(), max as usize)), Some(AttrValue::Int(max)));
    assert_eq!(stored(|s| s.emit_isize(key(), isize::MAX)), Some(AttrValue::Int(isize::MAX as i64)));
    assert_eq!(stored(|s| s.emit_u128(key(), max as u128)), Some(AttrValue::Int(max)));
    assert_eq!(stored(|s| s.emit_i128(key(), max as i128)), Some(AttrValue::Int(max)));
    assert_eq!(stored(|s| s.emit_i128(key(), i64::MIN as i128)), Some(AttrValue::Int(i64::MIN)));
}

#[test]
fn wide_integers_out_of_range_stored_as_decimal_strings() {
    let key = || "k".to_string();
    let over = i64::MAX as u64 + 1;
    assert_eq!(
        stored(|s| s.emit_u64(key(), over)),
        Some(AttrValue::Str("9223372036854775808".to_string()))
    );
    assert_eq!(
        stored(|s| s.emit_usize(key(), usize::MAX)),
        Some(AttrValue::Str(usize::MAX.to_string()))
    );
    assert_eq!(
        stored(|s| s.emit_u128(key(), u128::MAX)),
        Some(AttrValue::Str("340282366920938463463374607431768211455".to_string()))
    );
    assert_eq!(
        stored(|s| s.emit_i128(key(), i64::MAX as i128 + 1)),
        Some(AttrValue::Str("9223372036854775808".to_string()))
    );
    assert_eq!(
        stored(|s| s.emit_i128(key(), i64::MIN as i128 - 1)),
        Some(AttrValue::Str("-9223372036854775809".to_string()))
    );
    assert_eq!(
        stored(|s| s.emit_i128(key(), i128::MIN)),
        Some(AttrValue::Str("-170141183460469231731687303715884105728".to_string()))
    );
}

#[test]
fn strings_booleans_doubles_stored_directly() {
    let key = || "k".to_string();
    assert_eq!(stored(|s| s.emit_str(key(), "hello")), Some(AttrValue::Str("hello".to_string())));
    assert_eq!(stored(|s| s.emit_arguments(key(), "a rendered message")), Some(AttrValue::Str("a rendered message".to_string())));
    assert_eq!(stored(|s| s.emit_bool(key(), true)), Some(AttrValue::Bool(true)));
    let bits = (1.5f64).to_bits();
    assert_eq!(stored(|s| s.emit_double_bits(key(), bits)), Some(AttrValue::DoubleBits(bits)));
}

#[test]
fn structured_value_stored_and_encode_failure_is_the_only_field_error() {
    let v = serde_json::Value::String("nested".to_string());
    let mut s = OtelSerializer::new();
    assert!(s.emit_serde("k".to_string(), Ok(v.clone())).is_ok());
    let map = s.into_map();
    assert_eq!(map.get(&"k".to_string()), Some(&AttrValue::Structured(v)));

    let mut s = OtelSerializer::new();
    let r = s.emit_serde("k".to_string(), Err("encode failed".to_string()));
    assert_eq!(r, Err(Error::Slog("encode failed".to_string())));
    let map = s.into_map();
    assert_eq!(map.get(&"k".to_string()), None);
}

#[test]
fn later_write_for_a_key_wins_in_the_map() {
    let mut s = OtelSerializer::new();
    s.emit_str("k".to_string(), "first");
    s.emit_i32("k".to_string(), 2);
    let map = s.into_map();
    assert_eq!(map.get(&"k".to_string()), Some(&AttrValue::Int(2)));
    // The overwritten key occupies a single entry.
    assert_eq!(map.as_entries().len(), 1);
    assert_eq!(map.as_entries()[0], ("k".to_string(), AttrValue::Int(2)));
}
