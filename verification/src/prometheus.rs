//! The scrape-endpoint metrics sink: stage records update process-wide
//! counters whose type labels are extracted from the record's `target` by
//! operator-configured patterns with named capture groups. This module
//! computes the label sets and counter updates; serving the scrape endpoint
//! and the registry run around it.

use vstd::prelude::*;
use crate::connector::{owned_strings, ConnectorDef, ConnectorScope, SinkSpec};
use crate::errors::{sink_reason_text, SinkReason};
use crate::mysql::nonblank_text;
use crate::params::{ParamMap, ParamValue};
use crate::record::{chars_or_empty, DataRecord};
use crate::victoriametrics::{update_is, MetricUpdate, StatAction, StatKind, count_of};

verus! {

/// The substring the named capture group of a pattern matches in a text:
/// what the pattern's group yields on that text, and nothing when the
/// pattern does not compile, does not match, or has no such group.
pub uninterp spec fn regex_capture(pattern: Seq<char>, text: Seq<char>, group: Seq<char>) -> Option<
    Seq<char>,
>;

/// Relies on `regex::Regex::new`, `Regex::captures` and `Captures::name`:
/// the named group's match is a function of the pattern, the text and the
/// group name alone, `None` when the pattern is invalid, does not match,
/// or the group is absent or unmatched.
#[verifier::external_body]
fn capture_named(pattern: &str, text: &str, group: &str) -> (r: Option<String>)
    ensures
        r.deep_view() == regex_capture(pattern@, text@, group@),
{
    match regex::Regex::new(pattern) {
        Ok(re) => match re.captures(text) {
            Some(caps) => caps.name(group).map(|m| m.as_str().to_string()),
            None => None,
        },
        Err(_) => None,
    }
}

/// The capture, or empty text where there is none.
pub open spec fn capture_or_empty(
    pattern: Seq<char>,
    text: Seq<char>,
    group: Seq<char>,
) -> Seq<char> {
    match regex_capture(pattern, text, group) {
        Some(s) => s,
        None => Seq::empty(),
    }
}

/// The scrape sink configuration: the listen endpoint and the patterns
/// that extract a source type and a sink type from `target` names.
pub struct Prometheus {
    pub endpoint: String,
    pub source_key_format: String,
    pub sink_key_format: String,
}

impl Default for Prometheus {
    /// The documented defaults: listen on every interface, and split
    /// `target` names of the `<type>_<access>` and `<rule>_<type>_sink`
    /// shapes.
    fn default() -> (r: Prometheus)
        ensures
            r.endpoint@ == "0.0.0.0:9090"@,
            r.source_key_format@ == "(?P<source_type>.*)_(?P<access_source>.*)"@,
            r.sink_key_format@ == "(?P<rule>.*)_(?P<sink_type>.*)_sink"@,
    {
        Prometheus {
            endpoint: "0.0.0.0:9090".to_owned(),
            source_key_format: "(?P<source_type>.*)_(?P<access_source>.*)".to_owned(),
            sink_key_format: "(?P<rule>.*)_(?P<sink_type>.*)_sink".to_owned(),
        }
    }
}

/// The label values of the received-data counter: the process, the source
/// key (`target`), the source type captured from the key by the configured
/// pattern, and the access source tag.
pub open spec fn recv_labels(
    items: Seq<crate::record::DataField>,
    format: Seq<char>,
    pid: Seq<char>,
) -> Seq<Seq<char>> {
    seq![
        pid,
        chars_or_empty(items, "target"@),
        capture_or_empty(format, chars_or_empty(items, "target"@), "source_type"@),
        chars_or_empty(items, "access_source"@),
    ]
}

/// Whether every label of a set is nonempty.
pub open spec fn all_labels_set(labels: Seq<Seq<char>>) -> bool {
    forall|i: int| 0 <= i < labels.len() ==> (#[trigger] labels[i]).len() > 0
}

/// The received-data observation of one `Pick` record, or nothing when a
/// required label is empty (the `target` is absent, the pattern does not
/// match it, or the access source tag is missing).
pub fn receive_data_stat(data: &DataRecord, format: &str, pid: &str) -> (r: Option<MetricUpdate>)
    ensures
        match r {
            Some(u) => all_labels_set(recv_labels(data.items@, format@, pid@)) && update_is(
                u,
                StatKind::RecvFromSource,
                recv_labels(data.items@, format@, pid@),
                StatAction::IncBy(count_of(data.items@, "total"@)),
            ),
            None => !all_labels_set(recv_labels(data.items@, format@, pid@)),
        },
{
    let target = data.chars_field_or_empty("target");
    let source_type = match capture_named(format, target.as_str(), "source_type") {
        Some(s) => s,
        None => String::new(),
    };
    let access = data.chars_field_or_empty("access_source");
    let mut labels: Vec<String> = Vec::new();
    labels.push(pid.to_owned());
    labels.push(target);
    labels.push(source_type);
    labels.push(access);
    proof {
        assert(labels.deep_view() =~~= recv_labels(data.items@, format@, pid@));
    }
    if !all_set(&labels) {
        return None;
    }
    let count = read_total(data);
    Some(MetricUpdate { kind: StatKind::RecvFromSource, labels, action: StatAction::IncBy(count) })
}

/// Decides [`all_labels_set`] for a label vector.
fn all_set(labels: &Vec<String>) -> (r: bool)
    ensures
        r == all_labels_set(labels.deep_view()),
{
    let mut i: usize = 0;
    while i < labels.len()
        invariant
            i <= labels@.len(),
            forall|j: int| 0 <= j < i ==> (#[trigger] labels.deep_view()[j]).len() > 0,
        decreases labels@.len() - i,
    {
        if labels[i].as_str().unicode_len() == 0 {
            proof {
                assert(labels.deep_view()[i as int].len() == 0);
            }
            return false;
        }
        proof {
            assert(labels.deep_view()[i as int].len() > 0);
        }
        i = i + 1;
    }
    true
}

/// Reads the record's nonnegative `total` count.
fn read_total(data: &DataRecord) -> (r: u64)
    ensures
        r == count_of(data.items@, "total"@),
{
    match data.get_digit("total") {
        Some(d) => if d >= 0 {
            d as u64
        } else {
            0
        },
        None => 0,
    }
}

/// Reads the record's nonnegative `success` count.
fn read_success(data: &DataRecord) -> (r: u64)
    ensures
        r == count_of(data.items@, "success"@),
{
    match data.get_digit("success") {
        Some(d) => if d >= 0 {
            d as u64
        } else {
            0
        },
        None => 0,
    }
}

/// The label values of the parse-success counter: the process, the rule
/// (`target`), the access address, log type and description, and the
/// position serial.
pub open spec fn parse_labels(items: Seq<crate::record::DataField>, pid: Seq<char>) -> Seq<
    Seq<char>,
> {
    seq![
        pid,
        chars_or_empty(items, "target"@),
        chars_or_empty(items, "access_ip"@),
        chars_or_empty(items, "log_type"@),
        chars_or_empty(items, "log_desc"@),
        chars_or_empty(items, "pos_sn"@),
    ]
}

/// Whether the parse labels are usable: every label but the position
/// serial must be nonempty.
pub open spec fn parse_labels_valid(labels: Seq<Seq<char>>) -> bool {
    forall|i: int| 0 <= i < labels.len() && i != 5 ==> (#[trigger] labels[i]).len() > 0
}

/// The parse-success observation of one `Parse` record, or nothing when a
/// required label is empty.
pub fn parse_success_stat(data: &DataRecord, pid: &str) -> (r: Option<MetricUpdate>)
    ensures
        match r {
            Some(u) => parse_labels_valid(parse_labels(data.items@, pid@)) && update_is(
                u,
                StatKind::ParseSuccess,
                parse_labels(data.items@, pid@),
                StatAction::IncBy(count_of(data.items@, "success"@)),
            ),
            None => !parse_labels_valid(parse_labels(data.items@, pid@)),
        },
{
    let mut labels: Vec<String> = Vec::new();
    labels.push(pid.to_owned());
    labels.push(data.chars_field_or_empty("target"));
    labels.push(data.chars_field_or_empty("access_ip"));
    labels.push(data.chars_field_or_empty("log_type"));
    labels.push(data.chars_field_or_empty("log_desc"));
    labels.push(data.chars_field_or_empty("pos_sn"));
    proof {
        assert(labels.deep_view() =~~= parse_labels(data.items@, pid@));
    }
    let mut ok = true;
    let mut i: usize = 0;
    while i < labels.len()
        invariant
            labels@.len() == 6,
            i <= labels@.len(),
            ok == (forall|j: int|
                0 <= j < i && j != 5 ==> (#[trigger] labels.deep_view()[j]).len() > 0),
        decreases labels@.len() - i,
    {
        if i != 5 && labels[i].as_str().unicode_len() == 0 {
            proof {
                assert(labels.deep_view()[i as int].len() == 0);
            }
            ok = false;
        }
        proof {
            if ok {
                assert(labels.deep_view()[i as int].len() > 0 || i == 5);
            }
        }
        i = i + 1;
    }
    if !ok {
        return None;
    }
    let count = read_success(data);
    Some(MetricUpdate { kind: StatKind::ParseSuccess, labels, action: StatAction::IncBy(count) })
}

/// The label values of the parse-total counter.
pub open spec fn parse_all_labels(pid: Seq<char>) -> Seq<Seq<char>> {
    seq![pid, "parse"@]
}

/// The parse-total observation of one `Parse` record: the count under
/// `total` added to the parse-total counter.
pub fn parse_all_stat(data: &DataRecord, pid: &str) -> (r: MetricUpdate)
    ensures
        update_is(
            r,
            StatKind::ParseAll,
            parse_all_labels(pid@),
            StatAction::IncBy(count_of(data.items@, "total"@)),
        ),
{
    let mut labels: Vec<String> = Vec::new();
    labels.push(pid.to_owned());
    labels.push("parse".to_owned());
    proof {
        assert(labels.deep_view() =~~= parse_all_labels(pid@));
    }
    MetricUpdate {
        kind: StatKind::ParseAll,
        labels,
        action: StatAction::IncBy(read_total(data)),
    }
}

/// The label values of the sink counter: the process, the sink name
/// (`target`), the sink type captured from the name by the configured
/// pattern, the access address, log type and description, and the position
/// serial.
pub open spec fn sink_labels(
    items: Seq<crate::record::DataField>,
    format: Seq<char>,
    pid: Seq<char>,
) -> Seq<Seq<char>> {
    seq![
        pid,
        chars_or_empty(items, "target"@),
        capture_or_empty(format, chars_or_empty(items, "target"@), "sink_type"@),
        chars_or_empty(items, "access_ip"@),
        chars_or_empty(items, "log_type"@),
        chars_or_empty(items, "log_desc"@),
        chars_or_empty(items, "pos_sn"@),
    ]
}

/// Whether the sink labels are usable: every label but the position serial
/// must be nonempty.
pub open spec fn sink_labels_valid(labels: Seq<Seq<char>>) -> bool {
    forall|i: int| 0 <= i < labels.len() && i != 6 ==> (#[trigger] labels[i]).len() > 0
}

/// The sink observation of one `Sink` record, or nothing when a required
/// label is empty.
pub fn sink_stat(data: &DataRecord, format: &str, pid: &str) -> (r: Option<MetricUpdate>)
    ensures
        match r {
            Some(u) => sink_labels_valid(sink_labels(data.items@, format@, pid@)) && update_is(
                u,
                StatKind::SendToSink,
                sink_labels(data.items@, format@, pid@),
                StatAction::IncBy(count_of(data.items@, "success"@)),
            ),
            None => !sink_labels_valid(sink_labels(data.items@, format@, pid@)),
        },
{
    let target = data.chars_field_or_empty("target");
    let sink_type = match capture_named(format, target.as_str(), "sink_type") {
        Some(s) => s,
        None => String::new(),
    };
    let mut labels: Vec<String> = Vec::new();
    labels.push(pid.to_owned());
    labels.push(target);
    labels.push(sink_type);
    labels.push(data.chars_field_or_empty("access_ip"));
    labels.push(data.chars_field_or_empty("log_type"));
    labels.push(data.chars_field_or_empty("log_desc"));
    labels.push(data.chars_field_or_empty("pos_sn"));
    proof {
        assert(labels.deep_view() =~~= sink_labels(data.items@, format@, pid@));
    }
    let mut ok = true;
    let mut i: usize = 0;
    while i < labels.len()
        invariant
            labels@.len() == 7,
            i <= labels@.len(),
            ok == (forall|j: int|
                0 <= j < i && j != 6 ==> (#[trigger] labels.deep_view()[j]).len() > 0),
        decreases labels@.len() - i,
    {
        if i != 6 && labels[i].as_str().unicode_len() == 0 {
            proof {
                assert(labels.deep_view()[i as int].len() == 0);
            }
            ok = false;
        }
        proof {
            if ok {
                assert(labels.deep_view()[i as int].len() > 0 || i == 6);
            }
        }
        i = i + 1;
    }
    if !ok {
        return None;
    }
    let count = read_success(data);
    Some(MetricUpdate { kind: StatKind::SendToSink, labels, action: StatAction::IncBy(count) })
}

/// Builds the scrape-endpoint metrics sinks from validated specs.
pub struct PrometheusFactory;

impl PrometheusFactory {
    /// The connector kind this factory serves.
    pub fn kind(&self) -> (r: &'static str)
        ensures
            r@ == "prometheus"@,
    {
        "prometheus"
    }

    /// Validates a sink spec: `endpoint` must be nonblank text.
    pub fn validate_spec(&self, spec: &SinkSpec) -> (r: Result<(), SinkReason>)
        ensures
            match r {
                Ok(()) => nonblank_text(spec.params, "endpoint"@),
                Err(e) => !nonblank_text(spec.params, "endpoint"@) && e is Validation
                    && sink_reason_text(e) == "prometheus.endpoint must not be empty"@,
            },
    {
        match spec.params.get_text("endpoint") {
            Some(s) => {
                let t = crate::text::trim_spaces(s.as_str());
                if t.as_str().unicode_len() > 0 {
                    return Ok(());
                }
            },
            None => {},
        }
        Err(SinkReason::Validation("prometheus.endpoint must not be empty".to_owned()))
    }

    /// The published definition of this sink kind.
    pub fn sink_def(&self) -> (r: ConnectorDef)
        ensures
            r.scope == ConnectorScope::Sink,
            r.id@ == "prometheus_sink"@,
            r.kind@ == "prometheus"@,
            r.allow_override.deep_view() == seq![
                "endpoint"@,
                "source_key_format"@,
                "sink_key_format"@,
            ],
            prometheus_defaults_spec(r.default_params),
    {
        let allow_override = owned_strings(&["endpoint", "source_key_format", "sink_key_format"]);
        proof {
            assert(allow_override.deep_view() =~~= seq![
                "endpoint"@,
                "source_key_format"@,
                "sink_key_format"@,
            ]);
        }
        ConnectorDef {
            id: "prometheus_sink".to_owned(),
            kind: "prometheus".to_owned(),
            scope: ConnectorScope::Sink,
            allow_override,
            default_params: prometheus_defaults(),
            origin: Some("wp-connectors:prometheus_sink".to_owned()),
        }
    }
}

/// The published defaults of this sink kind: a scrape listener and the
/// short tags the key patterns start from.
pub open spec fn prometheus_defaults_spec(p: ParamMap) -> bool {
    &&& p.entries@.len() == 3
    &&& crate::params::entry_is_text(p.entries@, 0, "endpoint"@, "0.0.0.0:9898"@)
    &&& crate::params::entry_is_text(p.entries@, 1, "source_key_format"@, "source"@)
    &&& crate::params::entry_is_text(p.entries@, 2, "sink_key_format"@, "sink"@)
}

/// The default parameters the definition publishes.
pub fn prometheus_defaults() -> (r: ParamMap)
    ensures
        prometheus_defaults_spec(r),
{
    let mut params = ParamMap::new();
    params.insert("endpoint", ParamValue::Text("0.0.0.0:9898".to_owned()));
    params.insert("source_key_format", ParamValue::Text("source".to_owned()));
    params.insert("sink_key_format", ParamValue::Text("sink".to_owned()));
    params
}

/// Reads the scrape configuration from a spec's parameters: `endpoint`,
/// `source_key_format` and `sink_key_format` replace their defaults when
/// present as text.
pub fn build_prometheus_conf(params: &ParamMap) -> (r: Prometheus)
    ensures
        match crate::kafka::param_of(*params, "endpoint"@) {
            Some(ParamValue::Text(s)) => r.endpoint@ == s@,
            _ => r.endpoint@ == "0.0.0.0:9090"@,
        },
        match crate::kafka::param_of(*params, "source_key_format"@) {
            Some(ParamValue::Text(s)) => r.source_key_format@ == s@,
            _ => r.source_key_format@ == "(?P<source_type>.*)_(?P<access_source>.*)"@,
        },
        match crate::kafka::param_of(*params, "sink_key_format"@) {
            Some(ParamValue::Text(s)) => r.sink_key_format@ == s@,
            _ => r.sink_key_format@ == "(?P<rule>.*)_(?P<sink_type>.*)_sink"@,
        },
{
    let mut conf = Prometheus::default();
    match params.get_text("endpoint") {
        Some(s) => {
            conf.endpoint = s.clone();
        },
        None => {},
    }
    match params.get_text("source_key_format") {
        Some(s) => {
            conf.source_key_format = s.clone();
        },
        None => {},
    }
    match params.get_text("sink_key_format") {
        Some(s) => {
            conf.sink_key_format = s.clone();
        },
        None => {},
    }
    conf
}

} // verus!
