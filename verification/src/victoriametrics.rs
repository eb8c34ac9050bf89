//! The metrics exporter sink: pipeline-stage records are turned into
//! counter and gauge updates against process-wide label sets, and the
//! gathered registry text is pushed to the backend on a fixed interval.
//! This module computes the updates and the scheduling decisions; the
//! registry itself, the timer task and the HTTP push are work around it.

use vstd::prelude::*;
use crate::connector::{owned_strings, ConnectorDef, ConnectorScope, SinkSpec};
use crate::errors::{sink_reason_text, SinkReason};
use crate::kafka::param_of;
use crate::mysql::nonblank_text;
use crate::params::{ParamMap, ParamValue};
use crate::record::{chars_of, chars_or_empty, digit_or_zero, DataRecord};
use crate::sink::{sink_reason_text_is, unsupported_raw};
use crate::text::parse_u64;

verus! {

/// The process-wide metric a stage record updates.
#[derive(Debug, Clone, Copy, PartialEq, Eq, Structural)]
pub enum StatKind {
    RecvFromSource,
    SourceTypes,
    ParseSuccess,
    ParseAll,
    SendToSink,
    SinkTypes,
}

/// What happens to the metric under its labels.
#[derive(Debug, Clone, Copy, PartialEq, Eq, Structural)]
pub enum StatAction {
    /// Add this much to the counter.
    IncBy(u64),
    /// Set the gauge to one.
    SetOne,
}

/// One observation: a metric, its label values in registration order, and
/// the action applied.
pub struct MetricUpdate {
    pub kind: StatKind,
    pub labels: Vec<String>,
    pub action: StatAction,
}

/// Whether an update is exactly the given metric, labels and action.
pub open spec fn update_is(
    u: MetricUpdate,
    kind: StatKind,
    labels: Seq<Seq<char>>,
    action: StatAction,
) -> bool {
    u.kind == kind && u.labels.deep_view() == labels && u.action == action
}

/// A record's nonnegative count under a field name: a missing, non-numeric
/// or negative count adds nothing.
pub open spec fn count_of(items: Seq<crate::record::DataField>, name: Seq<char>) -> u64 {
    if digit_or_zero(items, name) >= 0 {
        digit_or_zero(items, name) as u64
    } else {
        0
    }
}

/// Reads a record's nonnegative count under a field name.
fn read_count(data: &DataRecord, name: &str) -> (r: u64)
    ensures
        r == count_of(data.items@, name@),
{
    match data.get_digit(name) {
        Some(d) => if d >= 0 {
            d as u64
        } else {
            0
        },
        None => 0,
    }
}

/// The label values of the received-data counter: the process, the source
/// key, and the source type (both read from `target`).
pub open spec fn recv_labels(items: Seq<crate::record::DataField>, pid: Seq<char>) -> Seq<
    Seq<char>,
> {
    seq![pid, chars_or_empty(items, "target"@), chars_or_empty(items, "target"@)]
}

/// The received-data observation of one `Pick` record: the count under
/// `total` added to the receive counter.
pub fn receive_data_stat(data: &DataRecord, pid: &str) -> (r: MetricUpdate)
    ensures
        update_is(
            r,
            StatKind::RecvFromSource,
            recv_labels(data.items@, pid@),
            StatAction::IncBy(count_of(data.items@, "total"@)),
        ),
{
    let target = data.chars_field_or_empty("target");
    let mut labels: Vec<String> = Vec::new();
    labels.push(pid.to_owned());
    labels.push(target.clone());
    labels.push(target);
    proof {
        assert(labels.deep_view() =~~= recv_labels(data.items@, pid@));
    }
    MetricUpdate {
        kind: StatKind::RecvFromSource,
        labels,
        action: StatAction::IncBy(read_count(data, "total")),
    }
}

/// The label values of the source-type gauge.
pub open spec fn source_type_labels(items: Seq<crate::record::DataField>, pid: Seq<char>) -> Seq<
    Seq<char>,
> {
    seq![pid, chars_or_empty(items, "target"@)]
}

/// The source-type observation of one `Pick` record: the gauge under the
/// source type set to one.
pub fn source_type_stat(data: &DataRecord, pid: &str) -> (r: MetricUpdate)
    ensures
        update_is(
            r,
            StatKind::SourceTypes,
            source_type_labels(data.items@, pid@),
            StatAction::SetOne,
        ),
{
    let mut labels: Vec<String> = Vec::new();
    labels.push(pid.to_owned());
    labels.push(data.chars_field_or_empty("target"));
    proof {
        assert(labels.deep_view() =~~= source_type_labels(data.items@, pid@));
    }
    MetricUpdate { kind: StatKind::SourceTypes, labels, action: StatAction::SetOne }
}

/// The label values of the parse-success counter: the process, the rule
/// (from `target`), the source address, the business (also from `target`),
/// the log type and description, and the position serial.
pub open spec fn parse_labels(items: Seq<crate::record::DataField>, pid: Seq<char>) -> Seq<
    Seq<char>,
> {
    seq![
        pid,
        chars_or_empty(items, "target"@),
        chars_or_empty(items, "wp_src_ip"@),
        chars_or_empty(items, "target"@),
        chars_or_empty(items, "log_type"@),
        chars_or_empty(items, "log_desc"@),
        chars_or_empty(items, "pos_sn"@),
    ]
}

/// The parse-success observation of one `Parse` record: the count under
/// `success` added to the parse counter.
pub fn parse_success_stat(data: &DataRecord, pid: &str) -> (r: MetricUpdate)
    ensures
        update_is(
            r,
            StatKind::ParseSuccess,
            parse_labels(data.items@, pid@),
            StatAction::IncBy(count_of(data.items@, "success"@)),
        ),
{
    let target = data.chars_field_or_empty("target");
    let mut labels: Vec<String> = Vec::new();
    labels.push(pid.to_owned());
    labels.push(target.clone());
    labels.push(data.chars_field_or_empty("wp_src_ip"));
    labels.push(target);
    labels.push(data.chars_field_or_empty("log_type"));
    labels.push(data.chars_field_or_empty("log_desc"));
    labels.push(data.chars_field_or_empty("pos_sn"));
    proof {
        assert(labels.deep_view() =~~= parse_labels(data.items@, pid@));
    }
    MetricUpdate {
        kind: StatKind::ParseSuccess,
        labels,
        action: StatAction::IncBy(read_count(data, "success")),
    }
}

/// The label values of the parse-total counter: the process, the fixed
/// `parse` tag, and two unset labels.
pub open spec fn parse_all_labels(pid: Seq<char>) -> Seq<Seq<char>> {
    seq![pid, "parse"@, Seq::<char>::empty(), Seq::<char>::empty()]
}

/// The parse-total observation of one `Parse` record: the count under
/// `total` added to the parse-total counter.
pub fn parse_all_stat(data: &DataRecord, pid: &str) -> (r: MetricUpdate)
    ensures
        update_is(
            r,
            StatKind::ParseAll,
            parse_all_labels(pid@),
            StatAction::IncBy(count_of(data.items@, "total"@)),
        ),
{
    let mut labels: Vec<String> = Vec::new();
    labels.push(pid.to_owned());
    labels.push("parse".to_owned());
    labels.push(String::new());
    labels.push(String::new());
    proof {
        assert(labels.deep_view() =~~= parse_all_labels(pid@));
    }
    MetricUpdate {
        kind: StatKind::ParseAll,
        labels,
        action: StatAction::IncBy(read_count(data, "total")),
    }
}

/// The label values of the sink counter: the process, the sink name and
/// type (both from `target`), the source address, position serial, log
/// type, description and business, and the sink business and category.
pub open spec fn sink_labels(items: Seq<crate::record::DataField>, pid: Seq<char>) -> Seq<
    Seq<char>,
> {
    seq![
        pid,
        chars_or_empty(items, "target"@),
        chars_or_empty(items, "wp_src_ip"@),
        chars_or_empty(items, "pos_sn"@),
        chars_or_empty(items, "log_type"@),
        chars_or_empty(items, "log_desc"@),
        chars_or_empty(items, "log_business"@),
        chars_or_empty(items, "target"@),
        chars_or_empty(items, "sink_business"@),
        chars_or_empty(items, "sink_category"@),
    ]
}

/// The sink observation of one `Sink` record: the count under `success`
/// added to the sink counter.
pub fn sink_stat(data: &DataRecord, pid: &str) -> (r: MetricUpdate)
    ensures
        update_is(
            r,
            StatKind::SendToSink,
            sink_labels(data.items@, pid@),
            StatAction::IncBy(count_of(data.items@, "success"@)),
        ),
{
    let target = data.chars_field_or_empty("target");
    let mut labels: Vec<String> = Vec::new();
    labels.push(pid.to_owned());
    labels.push(target.clone());
    labels.push(data.chars_field_or_empty("wp_src_ip"));
    labels.push(data.chars_field_or_empty("pos_sn"));
    labels.push(data.chars_field_or_empty("log_type"));
    labels.push(data.chars_field_or_empty("log_desc"));
    labels.push(data.chars_field_or_empty("log_business"));
    labels.push(target);
    labels.push(data.chars_field_or_empty("sink_business"));
    labels.push(data.chars_field_or_empty("sink_category"));
    proof {
        assert(labels.deep_view() =~~= sink_labels(data.items@, pid@));
    }
    MetricUpdate {
        kind: StatKind::SendToSink,
        labels,
        action: StatAction::IncBy(read_count(data, "success")),
    }
}

/// The label values of the sink-type gauge.
pub open spec fn sink_type_labels(items: Seq<crate::record::DataField>, pid: Seq<char>) -> Seq<
    Seq<char>,
> {
    seq![pid, chars_or_empty(items, "target"@), chars_or_empty(items, "sink_category"@)]
}

/// The sink-type observation of one `Sink` record: the gauge under the sink
/// type and category set to one.
pub fn sink_type_stat(data: &DataRecord, pid: &str) -> (r: MetricUpdate)
    ensures
        update_is(
            r,
            StatKind::SinkTypes,
            sink_type_labels(data.items@, pid@),
            StatAction::SetOne,
        ),
{
    let mut labels: Vec<String> = Vec::new();
    labels.push(pid.to_owned());
    labels.push(data.chars_field_or_empty("target"));
    labels.push(data.chars_field_or_empty("sink_category"));
    proof {
        assert(labels.deep_view() =~~= sink_type_labels(data.items@, pid@));
    }
    MetricUpdate { kind: StatKind::SinkTypes, labels, action: StatAction::SetOne }
}

/// The observations one record yields, as (metric, labels, action) triples:
/// a `Pick` record updates the receive counter and source-type gauge, a
/// `Parse` record the parse counters, a `Sink` record the sink counter and
/// sink-type gauge; any other stage, or none, yields nothing.
pub open spec fn record_updates(items: Seq<crate::record::DataField>, pid: Seq<char>) -> Seq<
    (StatKind, Seq<Seq<char>>, StatAction),
> {
    match chars_of(items, "stage"@) {
        Some(s) => if s == "Pick"@ {
            seq![
                (
                    StatKind::RecvFromSource,
                    recv_labels(items, pid),
                    StatAction::IncBy(count_of(items, "total"@)),
                ),
                (StatKind::SourceTypes, source_type_labels(items, pid), StatAction::SetOne),
            ]
        } else if s == "Parse"@ {
            seq![
                (
                    StatKind::ParseSuccess,
                    parse_labels(items, pid),
                    StatAction::IncBy(count_of(items, "success"@)),
                ),
                (
                    StatKind::ParseAll,
                    parse_all_labels(pid),
                    StatAction::IncBy(count_of(items, "total"@)),
                ),
            ]
        } else if s == "Sink"@ {
            seq![
                (
                    StatKind::SendToSink,
                    sink_labels(items, pid),
                    StatAction::IncBy(count_of(items, "success"@)),
                ),
                (StatKind::SinkTypes, sink_type_labels(items, pid), StatAction::SetOne),
            ]
        } else {
            Seq::empty()
        },
        None => Seq::empty(),
    }
}

/// The observations a batch yields: each record's updates, concatenated in
/// batch order.
pub open spec fn batch_updates(recs: Seq<DataRecord>, pid: Seq<char>) -> Seq<
    (StatKind, Seq<Seq<char>>, StatAction),
>
    decreases recs.len(),
{
    if recs.len() == 0 {
        Seq::empty()
    } else {
        batch_updates(recs.drop_last(), pid) + record_updates(recs.last().items@, pid)
    }
}

/// Whether a list of updates is exactly the given (metric, labels, action)
/// triples, position by position.
pub open spec fn updates_match(
    us: Seq<MetricUpdate>,
    ts: Seq<(StatKind, Seq<Seq<char>>, StatAction)>,
) -> bool {
    us.len() == ts.len() && forall|j: int|
        0 <= j < us.len() ==> update_is(#[trigger] us[j], ts[j].0, ts[j].1, ts[j].2)
}

/// The exporter configuration: the import URL metrics are pushed to and the
/// push interval in milliseconds.
pub struct VictoriaMetric {
    pub insert_url: String,
    pub flush_interval_ms: u64,
}

impl Default for VictoriaMetric {
    /// The documented defaults: the local import endpoint, pushed every
    /// hundred milliseconds.
    fn default() -> (r: VictoriaMetric)
        ensures
            r.insert_url@ == "http://0.0.0.0:9090/insert/0/prometheus/api/v1/import/prometheus"@,
            r.flush_interval_ms == 100,
    {
        VictoriaMetric {
            insert_url: "http://0.0.0.0:9090/insert/0/prometheus/api/v1/import/prometheus".to_owned(),
            flush_interval_ms: 100,
        }
    }
}

/// The exporter core: where gathered metrics are pushed and how often.
/// The timer task, registry and transport run around it.
pub struct VictoriaMetricExporter {
    pub insert_url: String,
    pub flush_interval_ms: u64,
}

impl VictoriaMetricExporter {
    /// Builds the exporter core.
    pub fn new(insert_url: String, flush_interval_ms: u64) -> (r: VictoriaMetricExporter)
        ensures
            r.insert_url == insert_url,
            r.flush_interval_ms == flush_interval_ms,
    {
        VictoriaMetricExporter { insert_url, flush_interval_ms }
    }

    /// Whether a periodic flush task is to be scheduled: a zero interval
    /// schedules nothing.
    pub fn should_schedule_flush(&self) -> (r: bool)
        ensures
            r == (self.flush_interval_ms > 0),
    {
        self.flush_interval_ms > 0
    }

    /// The observations one record yields, by its `stage` field: a `Pick`
    /// record updates the receive counter and source-type gauge, a `Parse`
    /// record the parse counters, a `Sink` record the sink counter and
    /// sink-type gauge; anything else updates nothing. Exactly
    /// [`record_updates`], in that order.
    pub fn sink_record(&self, data: &DataRecord, pid: &str) -> (r: Vec<MetricUpdate>)
        ensures
            updates_match(r@, record_updates(data.items@, pid@)),
    {
        let mut out: Vec<MetricUpdate> = Vec::new();
        match data.get_chars("stage") {
            Some(stage) => {
                if crate::strutil::str_eq(stage.as_str(), "Pick") {
                    out.push(receive_data_stat(data, pid));
                    out.push(source_type_stat(data, pid));
                } else if crate::strutil::str_eq(stage.as_str(), "Parse") {
                    out.push(parse_success_stat(data, pid));
                    out.push(parse_all_stat(data, pid));
                } else if crate::strutil::str_eq(stage.as_str(), "Sink") {
                    out.push(sink_stat(data, pid));
                    out.push(sink_type_stat(data, pid));
                }
            },
            None => {},
        }
        out
    }

    /// The observations a batch of records yields: the per-record updates
    /// of every record, concatenated in batch order. Exactly
    /// [`batch_updates`].
    pub fn sink_records(&self, data: &Vec<DataRecord>, pid: &str) -> (r: Vec<MetricUpdate>)
        ensures
            updates_match(r@, batch_updates(data@, pid@)),
    {
        let mut out: Vec<MetricUpdate> = Vec::new();
        let mut i: usize = 0;
        proof {
            assert(data@.take(0) =~= Seq::<DataRecord>::empty());
        }
        while i < data.len()
            invariant
                i <= data@.len(),
                updates_match(out@, batch_updates(data@.take(i as int), pid@)),
            decreases data@.len() - i,
        {
            proof {
                assert(data@.take(i + 1).drop_last() =~= data@.take(i as int));
                assert(data@.take(i + 1).last() == data@[i as int]);
            }
            let ghost before = out@;
            let mut updates = self.sink_record(&data[i], pid);
            let ghost fresh = updates@;
            out.append(&mut updates);
            proof {
                let prev = batch_updates(data@.take(i as int), pid@);
                let step = record_updates(data@[i as int].items@, pid@);
                assert(batch_updates(data@.take(i + 1), pid@) =~~= prev + step);
                assert forall|j: int| 0 <= j < out@.len() implies update_is(
                    #[trigger] out@[j],
                    (prev + step)[j].0,
                    (prev + step)[j].1,
                    (prev + step)[j].2,
                ) by {
                    if j < before.len() {
                        assert(out@[j] == before[j]);
                        assert((prev + step)[j] == prev[j]);
                    } else {
                        assert(out@[j] == fresh[j - before.len()]);
                        assert((prev + step)[j] == step[j - before.len()]);
                    }
                }
            }
            i = i + 1;
        }
        proof {
            assert(data@.take(data@.len() as int) =~= data@);
        }
        out
    }

    /// The shutdown sequence: one final synchronous push of whatever the
    /// registry holds, then the periodic flush task is stopped — in that
    /// order, so observations made before shutdown are not lost.
    pub fn stop_plan(&self) -> (r: Vec<ExporterAction>)
        ensures
            r@ == seq![ExporterAction::PushMetrics, ExporterAction::StopFlushTask],
    {
        let mut plan: Vec<ExporterAction> = Vec::new();
        plan.push(ExporterAction::PushMetrics);
        plan.push(ExporterAction::StopFlushTask);
        proof {
            assert(plan@ =~= seq![ExporterAction::PushMetrics, ExporterAction::StopFlushTask]);
        }
        plan
    }

    /// This exporter routes stage metrics only: raw text is refused.
    pub fn sink_str(&self, _data: &str) -> (r: SinkReason)
        ensures
            r is Unsupported,
            sink_reason_text_is(
                r,
                "victoriametrics"@ + " sink does not accept "@ + "raw input"@,
            ),
    {
        unsupported_raw("victoriametrics", "raw input")
    }

    /// This exporter routes stage metrics only: raw bytes are refused.
    pub fn sink_bytes(&self, _data: &[u8]) -> (r: SinkReason)
        ensures
            r is Unsupported,
            sink_reason_text_is(
                r,
                "victoriametrics"@ + " sink does not accept "@ + "raw bytes"@,
            ),
    {
        unsupported_raw("victoriametrics", "raw bytes")
    }
}

/// One step of the exporter's work that the surrounding runtime performs.
#[derive(Debug, Clone, Copy, PartialEq, Eq, Structural)]
pub enum ExporterAction {
    /// Gather the registry and push it to the import URL.
    PushMetrics,
    /// Cancel and release the periodic flush task.
    StopFlushTask,
}

/// Builds the metrics exporter sinks from validated specs.
pub struct VictoriaMetricFactory;

impl VictoriaMetricFactory {
    /// The connector kind this factory serves.
    pub fn kind(&self) -> (r: &'static str)
        ensures
            r@ == "victoriametrics"@,
    {
        "victoriametrics"
    }

    /// Validates a sink spec: `endpoint` must be nonblank text.
    pub fn validate_spec(&self, spec: &SinkSpec) -> (r: Result<(), SinkReason>)
        ensures
            match r {
                Ok(()) => nonblank_text(spec.params, "endpoint"@),
                Err(e) => !nonblank_text(spec.params, "endpoint"@) && e is Validation
                    && sink_reason_text(e) == "victoriametric.endpoint must not be empty"@,
            },
    {
        match parse_endpoint(&spec.params) {
            true => Ok(()),
            false => Err(
                SinkReason::Validation("victoriametric.endpoint must not be empty".to_owned()),
            ),
        }
    }

    /// The published definition of this sink kind.
    pub fn sink_def(&self) -> (r: ConnectorDef)
        ensures
            r.scope == ConnectorScope::Sink,
            r.id@ == "victoriametric_sink"@,
            r.kind@ == "victoriametrics"@,
            r.allow_override.deep_view() == seq!["endpoint"@, "flush_interval_secs"@],
            victoriametric_defaults_spec(r.default_params),
    {
        let allow_override = owned_strings(&["endpoint", "flush_interval_secs"]);
        proof {
            assert(allow_override.deep_view() =~~= seq!["endpoint"@, "flush_interval_secs"@]);
        }
        ConnectorDef {
            id: "victoriametric_sink".to_owned(),
            kind: "victoriametrics".to_owned(),
            scope: ConnectorScope::Sink,
            allow_override,
            default_params: victoriametric_defaults(),
            origin: Some("wp-connectors:victoriametric_sink".to_owned()),
        }
    }
}

/// Decides whether the spec names a nonblank `endpoint`.
fn parse_endpoint(params: &ParamMap) -> (r: bool)
    ensures
        r == nonblank_text(*params, "endpoint"@),
{
    match params.get_text("endpoint") {
        Some(s) => {
            let t = crate::text::trim_spaces(s.as_str());
            t.as_str().unicode_len() > 0
        },
        None => false,
    }
}

/// The published defaults of this sink kind: a local import endpoint and a
/// five-second push interval.
pub open spec fn victoriametric_defaults_spec(p: ParamMap) -> bool {
    &&& p.entries@.len() == 2
    &&& crate::params::entry_is_text(p.entries@, 0, "endpoint"@, "http://localhost:8480"@)
    &&& crate::params::entry_is_int(p.entries@, 1, "flush_interval_secs"@, 5)
}

/// The default parameters the definition publishes.
pub fn victoriametric_defaults() -> (r: ParamMap)
    ensures
        victoriametric_defaults_spec(r),
{
    let mut params = ParamMap::new();
    params.insert("endpoint", ParamValue::Text("http://localhost:8480".to_owned()));
    params.insert("flush_interval_secs", ParamValue::Int(5));
    params
}

/// Reads the exporter configuration from a spec's parameters: a positive
/// integer `flush_interval_secs` (as a number or as decimal text) replaces
/// the default interval, and `insert_url` replaces the default URL.
pub fn build_victoriametric_conf(params: &ParamMap) -> (r: VictoriaMetric)
    ensures
        match param_of(*params, "insert_url"@) {
            Some(ParamValue::Text(s)) => r.insert_url@ == s@,
            _ => r.insert_url@
                == "http://0.0.0.0:9090/insert/0/prometheus/api/v1/import/prometheus"@,
        },
        match param_of(*params, "flush_interval_secs"@) {
            Some(ParamValue::Int(n)) => r.flush_interval_ms as int == (if 0 < n <= 1000000 {
                n * 1000
            } else {
                100int
            }),
            Some(ParamValue::Text(s)) => r.flush_interval_ms as int == (if crate::text::is_digits(
                s@,
            ) && crate::text::dec_value(s@) <= u64::MAX && 0 < crate::text::dec_value(s@)
                <= 1000000 {
                crate::text::dec_value(s@) * 1000int
            } else {
                100int
            }),
            _ => r.flush_interval_ms == 100,
        },
{
    let mut conf = VictoriaMetric::default();
    match params.get_int("flush_interval_secs") {
        Some(n) => {
            if n > 0 && n <= 1000000 {
                conf.flush_interval_ms = (n as u64) * 1000;
            }
        },
        None => {
            match params.get_text("flush_interval_secs") {
                Some(s) => {
                    match parse_u64(s.as_str()) {
                        Some(n) => {
                            if n > 0 && n <= 1000000 {
                                conf.flush_interval_ms = n * 1000;
                            }
                        },
                        None => {},
                    }
                },
                None => {},
            }
        },
    }
    match params.get_text("insert_url") {
        Some(s) => {
            conf.insert_url = s.clone();
        },
        None => {},
    }
    conf
}

} // verus!
