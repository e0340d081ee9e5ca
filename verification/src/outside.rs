//! Declarations of the outside types the library carries, and the trusted
//! wrappers around the outside calls its logic makes.
use vstd::prelude::*;

verus! {

/// serde_json's dynamic value type; an encoded structured field value is
/// carried through the attribute map opaquely.
#[verifier::external_type_specification]
#[verifier::external_body]
pub struct ExSerdeJsonValue(serde_json::Value);

/// The ambient trace/span context snapshot, carried opaquely into each
/// record.
#[verifier::external_type_specification]
#[verifier::external_body]
pub struct ExContext(opentelemetry::Context);

/// A wall-clock instant, produced by the injected timestamp provider and
/// carried opaquely into each record.
#[verifier::external_type_specification]
#[verifier::external_body]
pub struct ExSystemTime(std::time::SystemTime);

/// The SDK's bound log emitter, derived once at build time and handed each
/// assembled record.
#[verifier::external_type_specification]
#[verifier::external_body]
pub struct ExSdkLogger(opentelemetry_sdk::logs::SdkLogger);

/// The SDK's emitter provider, from which a named emitter is derived.
#[verifier::external_type_specification]
#[verifier::external_body]
pub struct ExSdkLoggerProvider(opentelemetry_sdk::logs::SdkLoggerProvider);

/// Relies on serde_json::Value::clone: the clone is a value equal to the
/// one it was cloned from.
pub assume_specification[ <serde_json::Value as Clone>::clone ](v: &serde_json::Value) -> (r:
    serde_json::Value)
    ensures
        r == *v,
;

/// Relies on opentelemetry::Context::current: snapshots the ambient
/// trace/span context. The value depends on the calling thread's state, so
/// nothing is assumed of it.
#[verifier::external_body]
pub(crate) fn current_context() -> opentelemetry::Context {
    opentelemetry::Context::current()
}

/// Relies on opentelemetry::logs::LoggerProvider::logger as implemented by
/// SdkLoggerProvider: derives a named emitter bound to the provider. It
/// never fails (after shutdown it yields a no-op emitter), so nothing is
/// assumed of the value.
#[verifier::external_body]
pub(crate) fn logger_for(
    provider: &opentelemetry_sdk::logs::SdkLoggerProvider,
    name: &'static str,
) -> opentelemetry_sdk::logs::SdkLogger {
    opentelemetry::logs::LoggerProvider::logger(provider, name)
}

} // verus!
