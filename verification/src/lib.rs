//! A logging drain that converts structured log events into the
//! attribute/body/severity model of an OpenTelemetry log emitter: it maps a
//! dynamically keyed set of typed fields into one attribute map, maps the
//! source severity onto the backend's severity ordinal and text, stamps
//! source location, resource and trace context, and assembles one backend
//! record per log call.
pub mod attr;
pub mod decimal;
pub mod outside;
pub mod serializer;
pub mod severity;

use crate::attr::{AttrMap, AttrValue, AttrValueModel};
use crate::serializer::{fold_fields, lemma_fold_fields_keeps_dom, lemma_fold_fields_last_occurrence,
    lemma_fold_fields_no_key, FieldValue, OtelSerializer};
use crate::severity::{level_text_spec, level_to_severity, level_to_severity_spec, Level, Severity};
use vstd::prelude::*;

verus! {

/// The provenance name under which the emitter is derived from the
/// provider.
const LOG_EMITTER_NAME: &'static str = "github.com/vibhavp/slog-opentelemetry";

/// The library's error: either the field-serialization protocol failed
/// (`Slog`), or the backend rejected an operation (`Otel`); each carries
/// the reporting layer's message. Nothing else is an error: numeric
/// overflow degrades to a string attribute, an absent function name to
/// omission, an absent resource to no resource.
#[derive(Debug, Clone, PartialEq)]
pub enum Error {
    Slog(String),
    Otel(String),
}

/// One structured log event, as the call site hands it over: severity
/// level, rendered message, and source location. The function name may be
/// empty; the other location fields are always present.
#[derive(Debug, Clone)]
pub struct LogEvent {
    pub level: Level,
    pub message: String,
    pub file: String,
    pub line: u32,
    pub module: String,
    pub function: String,
}

/// One outbound backend log record, assembled fresh per log call.
#[derive(Debug)]
pub struct LogRecord {
    pub context: opentelemetry::Context,
    pub timestamp: std::time::SystemTime,
    pub severity: Severity,
    pub severity_text: &'static str,
    pub body: String,
    pub attributes: AttrMap,
    pub resource: Option<AttrMap>,
}

/// The base attribute map of an event: the source-location attributes,
/// unconditionally line, file path and namespace, and the function name
/// exactly when the call site supplies a non-empty one.
pub open spec fn base_attrs(event: LogEvent) -> Map<Seq<char>, AttrValueModel> {
    let m = Map::<Seq<char>, AttrValueModel>::empty().insert(
        "code.lineno"@,
        AttrValueModel::Int(event.line as int),
    ).insert("code.filepath"@, AttrValueModel::Str(event.file@)).insert(
        "code.namespace"@,
        AttrValueModel::Str(event.module@),
    );
    if event.function@.len() == 0 {
        m
    } else {
        m.insert("code.function"@, AttrValueModel::Str(event.function@))
    }
}

/// The full attribute map of an emitted record: the source-location
/// attributes, then the persistent fields, then the call-site fields, a
/// later write to a key winning.
pub open spec fn record_attrs(
    event: LogEvent,
    persistent: Seq<(String, FieldValue)>,
    call_site: Seq<(String, FieldValue)>,
) -> Map<Seq<char>, AttrValueModel> {
    fold_fields(fold_fields(base_attrs(event), persistent), call_site)
}

/// A builder for the [`OpenTelemetry`] drain.
pub struct OpenTelemetryBuilder<F: Fn() -> std::time::SystemTime> {
    resource: Option<AttrMap>,
    timestamp: F,
}

impl<F: Fn() -> std::time::SystemTime> OpenTelemetryBuilder<F> {
    /// The resource configured so far.
    pub closed spec fn spec_resource(&self) -> Option<AttrMap> {
        self.resource
    }

    /// The configured timestamp provider.
    pub closed spec fn spec_timestamp(&self) -> F {
        self.timestamp
    }

    /// Well-formedness: the configured resource map, if any, is well
    /// formed.
    pub open spec fn wf(&self) -> bool {
        match self.spec_resource() {
            Some(m) => m.wf(),
            None => true,
        }
    }

    /// Create a new builder with a function that returns the current
    /// timestamp.
    pub fn new(f: F) -> (r: Self)
        ensures
            r.wf(),
            r.spec_resource() is None,
            r.spec_timestamp() == f,
    {
        OpenTelemetryBuilder { timestamp: f, resource: None }
    }

    /// Set the resource attached to all emitted records.
    pub fn with_resource(self, resource: AttrMap) -> (r: Self)
        requires
            resource.wf(),
        ensures
            r.wf(),
            r.spec_resource() == Some(resource),
            r.spec_timestamp() == self.spec_timestamp(),
    {
        OpenTelemetryBuilder { resource: Some(resource), timestamp: self.timestamp }
    }

    /// Build a drain, consuming this builder: derives a named emitter from
    /// the provider and binds the configuration to it. Building never
    /// fails.
    pub fn build(self, emitter_provider: &opentelemetry_sdk::logs::SdkLoggerProvider) -> (r:
        OpenTelemetry<F>)
        requires
            self.wf(),
        ensures
            r.wf(),
            r.spec_resource() == self.spec_resource(),
            r.spec_timestamp() == self.spec_timestamp(),
    {
        OpenTelemetry {
            emitter: crate::outside::logger_for(emitter_provider, LOG_EMITTER_NAME),
            resource: self.resource,
            timestamp: self.timestamp,
        }
    }
}

/// The OpenTelemetry drain: converts each structured log event into one
/// backend log record. Immutable after construction; each conversion owns
/// its own attribute map and record, so concurrent calls cannot interfere.
pub struct OpenTelemetry<F: Fn() -> std::time::SystemTime> {
    emitter: opentelemetry_sdk::logs::SdkLogger,
    resource: Option<AttrMap>,
    timestamp: F,
}

impl<F: Fn() -> std::time::SystemTime> OpenTelemetry<F> {
    /// The resource cloned into every emitted record.
    pub closed spec fn spec_resource(&self) -> Option<AttrMap> {
        self.resource
    }

    /// The injected timestamp provider, evaluated afresh at each emit.
    pub closed spec fn spec_timestamp(&self) -> F {
        self.timestamp
    }

    /// Well-formedness: the configured resource map, if any, is well
    /// formed.
    pub open spec fn wf(&self) -> bool {
        match self.spec_resource() {
            Some(m) => m.wf(),
            None => true,
        }
    }

    /// The bound backend emitter this drain submits records to.
    pub fn emitter(&self) -> &opentelemetry_sdk::logs::SdkLogger {
        &self.emitter
    }

    /// Convert one log event, with its persistent and call-site field
    /// lists, into the backend record to submit: source-location
    /// attributes, then the persistent fields, then the call-site fields
    /// (a later write to a key wins), severity mapped totally, body taken
    /// from the message, the configured resource cloned in, the timestamp
    /// evaluated now and the ambient trace context snapshotted now.
    pub fn log(
        &self,
        event: &LogEvent,
        persistent: &Vec<(String, FieldValue)>,
        call_site: &Vec<(String, FieldValue)>,
    ) -> (r: LogRecord)
        requires
            self.wf(),
            call_requires(self.spec_timestamp(), ()),
        ensures
            r.severity == level_to_severity_spec(event.level),
            r.severity_text@ == level_text_spec(event.level),
            r.body@ == event.message@,
            call_ensures(self.spec_timestamp(), (), r.timestamp),
            r.attributes.wf(),
            r.attributes@ == record_attrs(*event, persistent@, call_site@),
            match self.spec_resource() {
                Some(m) => r.resource matches Some(rm) && rm.wf() && rm@ == m@,
                None => r.resource is None,
            },
    {
        let context = crate::outside::current_context();
        let mut base = AttrMap::new();
        base.insert(String::from_str("code.lineno"), AttrValue::Int(event.line as i64));
        base.insert(String::from_str("code.filepath"), AttrValue::Str(event.file.clone()));
        base.insert(String::from_str("code.namespace"), AttrValue::Str(event.module.clone()));
        if !event.function.as_str().is_empty() {
            base.insert(String::from_str("code.function"), AttrValue::Str(event.function.clone()));
        }
        let mut attrs = OtelSerializer::over(base);
        attrs.serialize_fields(persistent);
        attrs.serialize_fields(call_site);
        let resource = match &self.resource {
            Some(m) => Some(m.duplicate()),
            None => None,
        };
        let timestamp = (self.timestamp)();
        LogRecord {
            context,
            timestamp,
            severity: level_to_severity(event.level),
            severity_text: event.level.as_str(),
            body: event.message.clone(),
            attributes: attrs.into_map(),
            resource,
        }
    }
}

/// Every emitted attribute map carries the source-location attributes:
/// line, file path and namespace unconditionally; the function name when
/// the call site supplies a non-empty one, and — as long as no field is
/// itself keyed like the function attribute — only then.
pub proof fn lemma_source_location_attrs(
    event: LogEvent,
    persistent: Seq<(String, FieldValue)>,
    call_site: Seq<(String, FieldValue)>,
)
    ensures
        record_attrs(event, persistent, call_site).dom().contains("code.lineno"@),
        record_attrs(event, persistent, call_site).dom().contains("code.filepath"@),
        record_attrs(event, persistent, call_site).dom().contains("code.namespace"@),
        event.function@.len() > 0 ==> record_attrs(event, persistent, call_site).dom().contains(
            "code.function"@,
        ),
        (event.function@.len() == 0 && (forall|i: int|
            0 <= i < persistent.len() ==> persistent[i].0@ != "code.function"@) && (forall|i: int|
            0 <= i < call_site.len() ==> call_site[i].0@ != "code.function"@))
            ==> !record_attrs(event, persistent, call_site).dom().contains("code.function"@),
{
    let base = base_attrs(event);
    let mid = fold_fields(base, persistent);
    lemma_fold_fields_keeps_dom(base, persistent);
    lemma_fold_fields_keeps_dom(mid, call_site);
    if event.function@.len() == 0 && (forall|i: int|
        0 <= i < persistent.len() ==> persistent[i].0@ != "code.function"@) && (forall|i: int|
        0 <= i < call_site.len() ==> call_site[i].0@ != "code.function"@) {
        reveal_strlit("code.lineno");
        reveal_strlit("code.filepath");
        reveal_strlit("code.namespace");
        reveal_strlit("code.function");
        assert("code.function"@.len() == 13 && "code.lineno"@.len() == 11 && "code.namespace"@.len()
            == 14);
        assert("code.function"@[6] == 'u' && "code.filepath"@[6] == 'i');
        assert("code.function"@ != "code.lineno"@);
        assert("code.function"@ != "code.namespace"@);
        assert("code.function"@ != "code.filepath"@);
        assert(!base.dom().contains("code.function"@));
        lemma_fold_fields_no_key(base, persistent, "code.function"@);
        lemma_fold_fields_no_key(mid, call_site, "code.function"@);
    }
}

/// When the persistent and the call-site field lists both define a key, the
/// emitted attribute under that key is the call-site value: the value of
/// the last call-site field that writes the key.
pub proof fn lemma_call_site_wins(
    event: LogEvent,
    persistent: Seq<(String, FieldValue)>,
    call_site: Seq<(String, FieldValue)>,
    i: int,
)
    requires
        0 <= i < call_site.len(),
        forall|j: int| i < j < call_site.len() ==> call_site[j].0@ != call_site[i].0@,
    ensures
        record_attrs(event, persistent, call_site).dom().contains(call_site[i].0@),
        record_attrs(event, persistent, call_site)[call_site[i].0@] == crate::serializer::field_attr(
            call_site[i].1,
        ),
{
    lemma_fold_fields_last_occurrence(fold_fields(base_attrs(event), persistent), call_site, i);
}

/// Two calls through one drain do not interfere: a call whose call-site
/// fields never write a persistently bound key sees the persistent value,
/// while a call that overrides the key sees its own call-site value —
/// each record's attributes are a function of that call's inputs alone.
pub proof fn lemma_calls_do_not_interfere(
    event1: LogEvent,
    event2: LogEvent,
    persistent: Seq<(String, FieldValue)>,
    call1: Seq<(String, FieldValue)>,
    call2: Seq<(String, FieldValue)>,
    i: int,
    j: int,
)
    requires
        0 <= i < persistent.len(),
        forall|k: int| i < k < persistent.len() ==> persistent[k].0@ != persistent[i].0@,
        forall|k: int| 0 <= k < call1.len() ==> call1[k].0@ != persistent[i].0@,
        0 <= j < call2.len(),
        call2[j].0@ == persistent[i].0@,
        forall|k: int| j < k < call2.len() ==> call2[k].0@ != call2[j].0@,
    ensures
        record_attrs(event1, persistent, call1)[persistent[i].0@] == crate::serializer::field_attr(
            persistent[i].1,
        ),
        record_attrs(event2, persistent, call2)[persistent[i].0@] == crate::serializer::field_attr(
            call2[j].1,
        ),
{
    let key = persistent[i].0@;
    lemma_fold_fields_last_occurrence(base_attrs(event1), persistent, i);
    lemma_fold_fields_no_key(fold_fields(base_attrs(event1), persistent), call1, key);
    lemma_fold_fields_last_occurrence(fold_fields(base_attrs(event2), persistent), call2, j);
}

} // verus!
