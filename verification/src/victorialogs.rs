//! The log-store sink: each record becomes one JSON line holding every
//! visible field, the record formatted under the configured output format
//! as `_msg`, and a timestamp as `_time` — taken from the configured time
//! field when the record carries one, else from the clock reading the
//! caller supplies. Posting the line is transport work around this core.

use vstd::prelude::*;
use crate::connector::{owned_strings, ConnectorDef, ConnectorScope, SinkSpec};
use crate::errors::{sink_reason_text, SinkReason};
use crate::fmt::{
    fmt_of_tag, format_record_spec, format_record, json_object, json_object_spec, visible_pairs,
    TextFmt,
};
use crate::kafka::param_of;
use crate::mysql::nonblank_text;
use crate::params::{ParamMap, ParamValue};
use crate::record::{lookup_field, DataRecord, Value};
use crate::sink::{sink_reason_text_is, unsupported_raw};
use crate::text::i64_dec;

verus! {

/// The sink configuration: the backend endpoint, the insert path appended
/// to it, an optional record field to read event time from, and the flush
/// interval in milliseconds.
pub struct VictoriaLog {
    pub endpoint: String,
    pub insert_path: String,
    pub create_time_field: Option<String>,
    pub flush_interval_ms: u64,
}

impl Default for VictoriaLog {
    /// The documented defaults: the local ingestion endpoint and its JSON
    /// line path, no time field, a tenth of a second between flushes.
    fn default() -> (r: VictoriaLog)
        ensures
            r.endpoint@ == "127.0.0.1:9428"@,
            r.insert_path@ == "/insert/jsonline"@,
            r.create_time_field is None,
            r.flush_interval_ms == 100,
    {
        VictoriaLog {
            endpoint: "127.0.0.1:9428".to_owned(),
            insert_path: "/insert/jsonline".to_owned(),
            create_time_field: None,
            flush_interval_ms: 100,
        }
    }
}

/// The timestamp a record resolves to, in nanoseconds rendered as decimal
/// text: the configured time field's value when the record carries it as a
/// timestamp, else the caller's clock reading.
pub open spec fn resolved_timestamp(
    create_time_field: Option<String>,
    items: Seq<crate::record::DataField>,
    now_nanos: i64,
) -> Seq<char> {
    match create_time_field {
        Some(f) => match lookup_field(items, f@) {
            Some(field) => match field.value {
                Value::Time(t) => i64_dec(t as int),
                _ => i64_dec(now_nanos as int),
            },
            None => i64_dec(now_nanos as int),
        },
        None => i64_dec(now_nanos as int),
    }
}

/// The JSON line posted for one record: every visible field as a member,
/// then the formatted record as `_msg` and the resolved timestamp as
/// `_time`.
pub open spec fn jsonline_of(
    fmt: TextFmt,
    create_time_field: Option<String>,
    items: Seq<crate::record::DataField>,
    now_nanos: i64,
) -> Seq<char> {
    json_object_spec(
        visible_pairs(items).push(("_msg"@, format_record_spec(fmt, items))).push(
            ("_time"@, resolved_timestamp(create_time_field, items, now_nanos)),
        ),
    )
}

/// The log-store sink core.
pub struct VictoriaLogSink {
    pub endpoint: String,
    pub insert_path: String,
    pub fmt: TextFmt,
    pub create_time_field: Option<String>,
}

impl VictoriaLogSink {
    /// Builds the sink core.
    pub fn new(
        endpoint: String,
        insert_path: String,
        fmt: TextFmt,
        create_time_field: Option<String>,
    ) -> (r: VictoriaLogSink)
        ensures
            r.endpoint == endpoint,
            r.insert_path == insert_path,
            r.fmt == fmt,
            r.create_time_field == create_time_field,
    {
        VictoriaLogSink { endpoint, insert_path, fmt, create_time_field }
    }

    /// The URL lines are posted to: the endpoint with the insert path
    /// appended.
    pub fn insert_url(&self) -> (r: String)
        ensures
            r@ == self.endpoint@ + self.insert_path@,
    {
        let mut u = self.endpoint.clone();
        u.append(self.insert_path.as_str());
        u
    }

    /// Resolves a record's timestamp as decimal text: the configured time
    /// field when the record carries a timestamp under it, else the given
    /// clock reading.
    pub fn resolve_timestamp_str(&self, data: &DataRecord, now_nanos: i64) -> (r: String)
        ensures
            r@ == resolved_timestamp(self.create_time_field, data.items@, now_nanos),
    {
        match &self.create_time_field {
            Some(f) => match data.get2(f.as_str()) {
                Some(field) => match &field.value {
                    Value::Time(t) => crate::text::i64_to_string(*t),
                    _ => crate::text::i64_to_string(now_nanos),
                },
                None => crate::text::i64_to_string(now_nanos),
            },
            None => crate::text::i64_to_string(now_nanos),
        }
    }

    /// The JSON line posted for one record, at the given clock reading.
    pub fn sink_record_payload(&self, data: &DataRecord, now_nanos: i64) -> (r: String)
        ensures
            r@ == jsonline_of(self.fmt, self.create_time_field, data.items@, now_nanos),
    {
        let mut pairs = crate::fmt::collect_visible_pairs(data);
        let msg = format_record(self.fmt, data);
        pairs.push(("_msg".to_owned(), msg));
        let ts = self.resolve_timestamp_str(data, now_nanos);
        pairs.push(("_time".to_owned(), ts));
        proof {
            assert(pairs.deep_view() =~~= visible_pairs(data.items@).push(
                ("_msg"@, format_record_spec(self.fmt, data.items@)),
            ).push(("_time"@, resolved_timestamp(self.create_time_field, data.items@, now_nanos))));
        }
        json_object(&pairs)
    }

    /// The JSON lines posted for a batch, one per record in batch order, all
    /// at the given clock reading.
    pub fn sink_records_payloads(&self, data: &Vec<DataRecord>, now_nanos: i64) -> (r: Vec<String>)
        ensures
            r@.len() == data@.len(),
            forall|j: int|
                0 <= j < data@.len() ==> (#[trigger] r@[j])@ == jsonline_of(
                    self.fmt,
                    self.create_time_field,
                    data@[j].items@,
                    now_nanos,
                ),
    {
        let mut out: Vec<String> = Vec::new();
        let mut i: usize = 0;
        while i < data.len()
            invariant
                i <= data@.len(),
                out@.len() == i,
                forall|j: int|
                    0 <= j < i ==> (#[trigger] out@[j])@ == jsonline_of(
                        self.fmt,
                        self.create_time_field,
                        data@[j].items@,
                        now_nanos,
                    ),
            decreases data@.len() - i,
        {
            let line = self.sink_record_payload(&data[i], now_nanos);
            out.push(line);
            i = i + 1;
        }
        out
    }

    /// This sink routes structured records only: raw text is refused rather
    /// than silently dropped.
    pub fn sink_str(&self, _data: &str) -> (r: SinkReason)
        ensures
            r is Unsupported,
            sink_reason_text_is(r, "victorialogs"@ + " sink does not accept "@ + "raw input"@),
    {
        unsupported_raw("victorialogs", "raw input")
    }

    /// This sink routes structured records only: raw bytes are refused
    /// rather than silently dropped.
    pub fn sink_bytes(&self, _data: &[u8]) -> (r: SinkReason)
        ensures
            r is Unsupported,
            sink_reason_text_is(r, "victorialogs"@ + " sink does not accept "@ + "raw bytes"@),
    {
        unsupported_raw("victorialogs", "raw bytes")
    }
}

/// Builds the log-store sinks from validated specs.
pub struct VictoriaLogSinkFactory;

impl VictoriaLogSinkFactory {
    /// The connector kind this factory serves.
    pub fn kind(&self) -> (r: &'static str)
        ensures
            r@ == "victorialogs"@,
    {
        "victorialogs"
    }

    /// Validates a sink spec: `endpoint` must be nonblank text.
    pub fn validate_spec(&self, spec: &SinkSpec) -> (r: Result<(), SinkReason>)
        ensures
            match r {
                Ok(()) => nonblank_text(spec.params, "endpoint"@),
                Err(e) => !nonblank_text(spec.params, "endpoint"@) && e is Validation
                    && sink_reason_text(e) == "victorialogs.endpoint must not be empty"@,
            },
    {
        if nonblank_endpoint(&spec.params) {
            Ok(())
        } else {
            Err(SinkReason::Validation("victorialogs.endpoint must not be empty".to_owned()))
        }
    }
}

/// Decides whether the spec names a nonblank `endpoint`.
fn nonblank_endpoint(params: &ParamMap) -> (r: bool)
    ensures
        r == nonblank_text(*params, "endpoint"@),
{
    match params.get_text("endpoint") {
        Some(s) => {
            let t = crate::text::trim_spaces(s.as_str());
            t.as_str().unicode_len() > 0
        },
        None => false,
    }
}

/// Reads the sink configuration and output format from a spec's parameters:
/// `endpoint`, `insert_path` and `create_time_field` replace their defaults
/// when present as text, and `fmt` selects the output format (JSON when
/// absent or not one of the allowed tags).
pub fn build_victorialog_conf(params: &ParamMap) -> (r: (VictoriaLog, TextFmt))
    ensures
        match param_of(*params, "endpoint"@) {
            Some(ParamValue::Text(s)) => r.0.endpoint@ == s@,
            _ => r.0.endpoint@ == "127.0.0.1:9428"@,
        },
        match param_of(*params, "insert_path"@) {
            Some(ParamValue::Text(s)) => r.0.insert_path@ == s@,
            _ => r.0.insert_path@ == "/insert/jsonline"@,
        },
        match param_of(*params, "create_time_field"@) {
            Some(ParamValue::Text(s)) => r.0.create_time_field matches Some(f) && f@ == s@,
            _ => r.0.create_time_field is None,
        },
        match param_of(*params, "fmt"@) {
            Some(ParamValue::Text(s)) => r.1 == (match fmt_of_tag(s@) {
                Some(f) => f,
                None => TextFmt::Json,
            }),
            _ => r.1 == TextFmt::Json,
        },
{
    let mut conf = VictoriaLog::default();
    match params.get_text("endpoint") {
        Some(s) => {
            conf.endpoint = s.clone();
        },
        None => {},
    }
    match params.get_text("insert_path") {
        Some(s) => {
            conf.insert_path = s.clone();
        },
        None => {},
    }
    match params.get_text("create_time_field") {
        Some(s) => {
            conf.create_time_field = Some(s.clone());
        },
        None => {},
    }
    let fmt = match params.get_text("fmt") {
        Some(s) => match TextFmt::from_tag(s.as_str()) {
            Some(f) => f,
            None => TextFmt::Json,
        },
        None => TextFmt::Json,
    };
    (conf, fmt)
}

} // verus!
