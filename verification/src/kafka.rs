//! The queue connector: configuration, validation and the pure half of its
//! source and sink. A source spec carries `brokers`, `topic` (one name, a
//! comma-joined list, or a list value), `group_id` and optional client
//! `config` lines; a sink spec carries `brokers`, `topic`, optional
//! `num_partitions`, `replication`, `fmt` and `config`. Validation fails
//! fast, before any client is created.

use vstd::prelude::*;
use crate::connector::{owned_strings, ConnectorDef, ConnectorScope, SinkSpec, SourceSpec};
use crate::errors::{sink_reason_text, source_reason_text, SinkReason, SourceReason};
use crate::fmt::{fmt_of_tag, format_record_spec, format_record, TextFmt};
use crate::params::{entry_is_int, entry_is_text, param_lookup, ParamMap, ParamValue};
use crate::record::DataRecord;
use crate::source::SourceEvent;
use crate::source::RawData;
use crate::strutil::push_char;
use crate::text::{split_char, split_string, trim_spec, trim_spaces};

verus! {

/// The value a spec's parameter map holds for a key.
pub open spec fn param_of(params: ParamMap, key: Seq<char>) -> Option<ParamValue> {
    param_lookup(params.entries@, key)
}

/// What a required-string parameter denotes: present, text, and nonempty
/// after trimming.
pub open spec fn required_string_of(v: Option<ParamValue>) -> Option<Seq<char>> {
    match v {
        Some(ParamValue::Text(s)) => if trim_spec(s@).len() > 0 {
            Some(trim_spec(s@))
        } else {
            None
        },
        _ => None,
    }
}

/// Reads a required string parameter: the trimmed text, which must not be
/// empty. Fails with the field named in the message otherwise.
pub fn parse_required_string(value: Option<&ParamValue>, field: &str) -> (r: Result<
    String,
    SourceReason,
>)
    ensures
        match r {
            Ok(s) => required_string_of(opt_deref(value)) == Some(s@),
            Err(e) => required_string_of(opt_deref(value)) is None && e is Other
                && source_reason_text(e) == field@ + " must not be empty"@,
        },
{
    if let Some(v) = value {
        if let Some(s) = v.as_text() {
            let t = trim_spaces(s.as_str());
            if t.as_str().unicode_len() > 0 {
                return Ok(t);
            }
        }
    }
    Err(SourceReason::Other(must_not_be_empty(field)))
}

/// The spec-level form of an optional borrowed parameter.
pub open spec fn opt_deref(v: Option<&ParamValue>) -> Option<ParamValue> {
    match v {
        Some(p) => Some(*p),
        None => None,
    }
}

/// Builds `<field> must not be empty`.
fn must_not_be_empty(field: &str) -> (r: String)
    ensures
        r@ == field@ + " must not be empty"@,
{
    let mut m = field.to_owned();
    m.append(" must not be empty");
    proof {
        assert(m@ =~= field@ + " must not be empty"@);
    }
    m
}

/// Segments after trimming, with blank segments dropped.
pub open spec fn clean_segments(parts: Seq<Seq<char>>) -> Seq<Seq<char>>
    decreases parts.len(),
{
    if parts.len() == 0 {
        Seq::empty()
    } else {
        clean_segments(parts.drop_last()) + (if trim_spec(parts.last()).len() > 0 {
            seq![trim_spec(parts.last())]
        } else {
            Seq::<Seq<char>>::empty()
        })
    }
}

/// Trims each part and drops the blank ones.
pub fn clean_parts(parts: &Vec<String>) -> (r: Vec<String>)
    ensures
        r.deep_view() == clean_segments(parts.deep_view()),
{
    let mut out: Vec<String> = Vec::new();
    let mut i: usize = 0;
    proof {
        assert(parts.deep_view().take(0) =~= Seq::<Seq<char>>::empty());
    }
    while i < parts.len()
        invariant
            i <= parts@.len(),
            out.deep_view() == clean_segments(parts.deep_view().take(i as int)),
        decreases parts@.len() - i,
    {
        proof {
            assert(parts.deep_view().take(i + 1).drop_last() =~= parts.deep_view().take(i as int));
            assert(parts.deep_view().take(i + 1).last() == parts.deep_view()[i as int]);
            assert(parts.deep_view()[i as int] == parts@[i as int]@);
        }
        let t = trim_spaces(parts[i].as_str());
        if t.as_str().unicode_len() > 0 {
            out.push(t);
            proof {
                assert(out.deep_view() =~~= clean_segments(parts.deep_view().take(i + 1)));
            }
        } else {
            proof {
                assert(out.deep_view() =~~= clean_segments(parts.deep_view().take(i + 1)));
            }
        }
        i = i + 1;
    }
    proof {
        assert(parts.deep_view().take(parts@.len() as int) =~= parts.deep_view());
    }
    out
}

/// Whether every entry of a list value is text.
pub open spec fn all_text(vs: Seq<ParamValue>) -> bool {
    forall|i: int| 0 <= i < vs.len() ==> (#[trigger] vs[i]) is Text
}

/// The text of each entry of a list value.
pub open spec fn text_views(vs: Seq<ParamValue>) -> Seq<Seq<char>> {
    vs.map_values(
        |v: ParamValue|
            match v {
                ParamValue::Text(s) => s@,
                _ => Seq::<char>::empty(),
            },
    )
}

/// Collects the text of every entry; `None` if some entry is not text.
pub(crate) fn collect_texts(vs: &Vec<ParamValue>) -> (r: Option<Vec<String>>)
    ensures
        match r {
            Some(ts) => all_text(vs@) && ts.deep_view() == text_views(vs@),
            None => !all_text(vs@),
        },
{
    let mut out: Vec<String> = Vec::new();
    let mut i: usize = 0;
    while i < vs.len()
        invariant
            i <= vs@.len(),
            out@.len() == i,
            forall|j: int| 0 <= j < i ==> (#[trigger] vs@[j]) is Text,
            forall|j: int|
                0 <= j < i ==> (#[trigger] out@[j])@ == text_views(vs@)[j],
        decreases vs@.len() - i,
    {
        proof {
            assert(text_views(vs@)[i as int] == match vs@[i as int] {
                ParamValue::Text(s) => s@,
                _ => Seq::<char>::empty(),
            });
        }
        match vs[i].as_text() {
            Some(s) => {
                out.push(s.clone());
            },
            None => {
                return None;
            },
        }
        i = i + 1;
    }
    proof {
        assert forall|j: int| 0 <= j < vs@.len() implies (#[trigger] out.deep_view()[j])
            == text_views(vs@)[j] by {
            assert(out.deep_view()[j] == out@[j]@);
        }
        assert(out.deep_view() =~~= text_views(vs@));
    }
    Some(out)
}

/// What the `topic` parameter denotes: comma-separated names from one text
/// value, or the entries of a list value; blanks dropped; the result must
/// be nonempty and every list entry must be text.
pub open spec fn topics_of(v: Option<ParamValue>) -> Option<Seq<Seq<char>>> {
    match v {
        Some(ParamValue::Text(s)) => {
            let ts = clean_segments(split_char(s@, ','));
            if ts.len() > 0 {
                Some(ts)
            } else {
                None
            }
        },
        Some(ParamValue::List(vs)) => if all_text(vs@) {
            let ts = clean_segments(text_views(vs@));
            if ts.len() > 0 {
                Some(ts)
            } else {
                None
            }
        } else {
            None
        },
        _ => None,
    }
}

/// The message a rejected `topic` parameter carries.
pub open spec fn topics_error(v: Option<ParamValue>) -> Seq<char> {
    match v {
        Some(ParamValue::Text(s)) => "kafka.topic must not be empty"@,
        Some(ParamValue::List(vs)) => if all_text(vs@) {
            "kafka.topic must not be empty"@
        } else {
            "kafka.topic entries must be strings"@
        },
        Some(ParamValue::Int(i)) => "kafka.topic must be a string or array"@,
        Some(ParamValue::Flag(b)) => "kafka.topic must be a string or array"@,
        None => "kafka.topic must not be empty"@,
    }
}

/// Reads the `topic` parameter: one topic name, a comma-joined list in one
/// string, or a list of names; blank names are dropped and at least one
/// must remain.
pub fn parse_topics(value: Option<&ParamValue>) -> (r: Result<Vec<String>, SourceReason>)
    ensures
        match r {
            Ok(ts) => topics_of(opt_deref(value)) == Some(ts.deep_view()),
            Err(e) => topics_of(opt_deref(value)) is None && e is Other && source_reason_text(e)
                == topics_error(opt_deref(value)),
        },
{
    match value {
        Some(ParamValue::Text(s)) => {
            let parts = split_string(s.as_str(), ',');
            let topics = clean_parts(&parts);
            if topics.len() == 0 {
                Err(SourceReason::Other("kafka.topic must not be empty".to_owned()))
            } else {
                Ok(topics)
            }
        },
        Some(ParamValue::List(vs)) => {
            match collect_texts(vs) {
                Some(texts) => {
                    let topics = clean_parts(&texts);
                    if topics.len() == 0 {
                        Err(SourceReason::Other("kafka.topic must not be empty".to_owned()))
                    } else {
                        Ok(topics)
                    }
                },
                None => Err(
                    SourceReason::Other("kafka.topic entries must be strings".to_owned()),
                ),
            }
        },
        Some(_) => Err(SourceReason::Other("kafka.topic must be a string or array".to_owned())),
        None => Err(SourceReason::Other("kafka.topic must not be empty".to_owned())),
    }
}

/// What the `config` parameter denotes: optional client-config lines from a
/// list of strings or one string; blanks dropped; an empty result counts as
/// absent. The outer `None` marks a rejected value.
pub open spec fn config_of(v: Option<ParamValue>) -> Option<Option<Seq<Seq<char>>>> {
    match v {
        None => Some(None),
        Some(ParamValue::List(vs)) => if all_text(vs@) {
            let c = clean_segments(text_views(vs@));
            if c.len() > 0 {
                Some(Some(c))
            } else {
                Some(None)
            }
        } else {
            None
        },
        Some(ParamValue::Text(s)) => if trim_spec(s@).len() > 0 {
            Some(Some(seq![trim_spec(s@)]))
        } else {
            Some(None)
        },
        Some(_) => None,
    }
}

/// The message a rejected `config` parameter carries.
pub open spec fn config_error(v: Option<ParamValue>) -> Seq<char> {
    match v {
        Some(ParamValue::List(vs)) => "kafka.config entries must be strings"@,
        _ => "kafka.config must be a string or array"@,
    }
}

/// Reads the optional `config` parameter for a source spec.
pub fn parse_config(value: Option<&ParamValue>) -> (r: Result<Option<Vec<String>>, SourceReason>)
    ensures
        match r {
            Ok(Some(c)) => config_of(opt_deref(value)) == Some(Some(c.deep_view())),
            Ok(None) => config_of(opt_deref(value)) == Some(Option::<Seq<Seq<char>>>::None),
            Err(e) => config_of(opt_deref(value)) is None && e is Other && source_reason_text(e)
                == config_error(opt_deref(value)),
        },
{
    match parse_config_value(value) {
        Ok(c) => Ok(c),
        Err(m) => Err(SourceReason::Other(m)),
    }
}

/// Reads the optional `config` parameter for a sink spec.
pub fn parse_sink_config(value: Option<&ParamValue>) -> (r: Result<Option<Vec<String>>, SinkReason>)
    ensures
        match r {
            Ok(Some(c)) => config_of(opt_deref(value)) == Some(Some(c.deep_view())),
            Ok(None) => config_of(opt_deref(value)) == Some(Option::<Seq<Seq<char>>>::None),
            Err(e) => config_of(opt_deref(value)) is None && e is Validation && sink_reason_text(e)
                == config_error(opt_deref(value)),
        },
{
    match parse_config_value(value) {
        Ok(c) => Ok(c),
        Err(m) => Err(SinkReason::Validation(m)),
    }
}

/// The shared reading of a `config` parameter; the error is its message.
fn parse_config_value(value: Option<&ParamValue>) -> (r: Result<Option<Vec<String>>, String>)
    ensures
        match r {
            Ok(Some(c)) => config_of(opt_deref(value)) == Some(Some(c.deep_view())),
            Ok(None) => config_of(opt_deref(value)) == Some(Option::<Seq<Seq<char>>>::None),
            Err(m) => config_of(opt_deref(value)) is None && m@ == config_error(opt_deref(value)),
        },
{
    match value {
        None => Ok(None),
        Some(ParamValue::List(vs)) => {
            match collect_texts(vs) {
                Some(texts) => {
                    let cleaned = clean_parts(&texts);
                    if cleaned.len() == 0 {
                        Ok(None)
                    } else {
                        Ok(Some(cleaned))
                    }
                },
                None => Err("kafka.config entries must be strings".to_owned()),
            }
        },
        Some(ParamValue::Text(s)) => {
            let t = trim_spaces(s.as_str());
            if t.as_str().unicode_len() == 0 {
                Ok(None)
            } else {
                let mut one: Vec<String> = Vec::new();
                one.push(t);
                proof {
                    assert(one.deep_view() =~~= seq![trim_spec(s@)]);
                }
                Ok(Some(one))
            }
        },
        Some(_) => Err("kafka.config must be a string or array".to_owned()),
    }
}

/// Reads a required string parameter of a sink spec.
pub fn parse_sink_required_string(value: Option<&ParamValue>, field: &str) -> (r: Result<
    String,
    SinkReason,
>)
    ensures
        match r {
            Ok(s) => required_string_of(opt_deref(value)) == Some(s@),
            Err(e) => required_string_of(opt_deref(value)) is None && e is Validation
                && sink_reason_text(e) == field@ + " must not be empty"@,
        },
{
    if let Some(v) = value {
        if let Some(s) = v.as_text() {
            let t = trim_spaces(s.as_str());
            if t.as_str().unicode_len() > 0 {
                return Ok(t);
            }
        }
    }
    Err(SinkReason::Validation(must_not_be_empty(field)))
}

/// What an optional positive 32-bit parameter denotes; the outer `None`
/// marks a rejected value (not an integer, not positive, or too wide).
pub open spec fn positive_i32_of(v: Option<ParamValue>) -> Option<Option<int>> {
    match v {
        None => Some(None),
        Some(ParamValue::Int(i)) => if 0 < i <= i32::MAX {
            Some(Some(i as int))
        } else {
            None
        },
        Some(_) => None,
    }
}

/// The message suffix a rejected positive 32-bit parameter carries.
pub open spec fn positive_i32_error(v: Option<ParamValue>) -> Seq<char> {
    match v {
        Some(ParamValue::Int(i)) => if i <= 0 {
            " must be > 0"@
        } else {
            " must be an integer"@
        },
        _ => " must be an integer"@,
    }
}

/// Reads an optional positive integer parameter that must fit 32 bits.
pub fn parse_positive_i32(value: Option<&ParamValue>, field: &str) -> (r: Result<
    Option<i32>,
    SinkReason,
>)
    ensures
        match r {
            Ok(Some(n)) => positive_i32_of(opt_deref(value)) == Some(Some(n as int)) && n > 0,
            Ok(None) => positive_i32_of(opt_deref(value)) == Some(Option::<int>::None),
            Err(e) => positive_i32_of(opt_deref(value)) is None && e is Validation
                && sink_reason_text(e) == field@ + positive_i32_error(opt_deref(value)),
        },
{
    match value {
        None => Ok(None),
        Some(ParamValue::Int(i)) => {
            let i = *i;
            if i <= 0 {
                let mut m = field.to_owned();
                m.append(" must be > 0");
                proof {
                    assert(m@ =~= field@ + " must be > 0"@);
                }
                Err(SinkReason::Validation(m))
            } else if i <= i32::MAX as i64 {
                Ok(Some(i as i32))
            } else {
                let mut m = field.to_owned();
                m.append(" must be an integer");
                proof {
                    assert(m@ =~= field@ + " must be an integer"@);
                }
                Err(SinkReason::Validation(m))
            }
        },
        Some(_) => {
            let mut m = field.to_owned();
            m.append(" must be an integer");
            proof {
                assert(m@ =~= field@ + " must be an integer"@);
            }
            Err(SinkReason::Validation(m))
        },
    }
}

/// What the `fmt` parameter denotes: absent means the JSON format; text is
/// trimmed and must be one of the allowed tags.
pub open spec fn fmt_param_of(v: Option<ParamValue>) -> Option<TextFmt> {
    match v {
        None => Some(TextFmt::Json),
        Some(ParamValue::Text(s)) => if trim_spec(s@).len() == 0 {
            None
        } else {
            fmt_of_tag(trim_spec(s@))
        },
        Some(_) => None,
    }
}

/// The message a rejected `fmt` parameter carries: an unknown tag echoes
/// the whole allowed set.
pub open spec fn fmt_param_error(v: Option<ParamValue>) -> Seq<char> {
    match v {
        Some(ParamValue::Text(s)) => if trim_spec(s@).len() == 0 {
            "kafka.fmt must not be empty"@
        } else {
            "invalid fmt: '"@ + trim_spec(s@)
                + "'; allowed: json,csv,show,kv,raw,proto,proto-text"@
        },
        _ => "kafka.fmt must be a string"@,
    }
}

/// Reads the optional `fmt` parameter; an invalid tag is rejected with the
/// full allowed set echoed in the message.
pub fn parse_sink_fmt(value: Option<&ParamValue>) -> (r: Result<TextFmt, SinkReason>)
    ensures
        match r {
            Ok(f) => fmt_param_of(opt_deref(value)) == Some(f),
            Err(e) => fmt_param_of(opt_deref(value)) is None && e is Validation
                && sink_reason_text(e) == fmt_param_error(opt_deref(value)),
        },
{
    match value {
        None => Ok(TextFmt::Json),
        Some(ParamValue::Text(s)) => {
            let t = trim_spaces(s.as_str());
            if t.as_str().unicode_len() == 0 {
                return Err(SinkReason::Validation("kafka.fmt must not be empty".to_owned()));
            }
            match TextFmt::from_tag(t.as_str()) {
                Some(f) => Ok(f),
                None => {
                    let mut m = "invalid fmt: '".to_owned();
                    m.append(t.as_str());
                    m.append("'; allowed: json,csv,show,kv,raw,proto,proto-text");
                    proof {
                        assert(m@ =~= fmt_param_error(opt_deref(value)));
                    }
                    Err(SinkReason::Validation(m))
                },
            }
        },
        Some(_) => Err(SinkReason::Validation("kafka.fmt must be a string".to_owned())),
    }
}

/// The configuration of a queue source: brokers, subscribed topics,
/// optional client-config lines, an enable flag, and free-form tags.
#[derive(Debug)]
pub struct KafkaSourceConf {
    pub key: String,
    pub brokers: String,
    pub topic: Vec<String>,
    pub config: Option<Vec<String>>,
    pub enable: bool,
    pub tags: Vec<String>,
}

impl KafkaSourceConf {
    /// The free-form tags attached to every event of this source.
    pub fn tag_vec_str(&self) -> (r: &Vec<String>)
        ensures
            r == &self.tags,
    {
        &self.tags
    }

    /// Checks the configuration: brokers must not be blank and at least one
    /// topic must be named.
    pub fn validate(&self) -> (r: Result<(), SourceReason>)
        ensures
            match r {
                Ok(()) => trim_spec(self.brokers@).len() > 0 && self.topic@.len() > 0,
                Err(e) => e is Other && (trim_spec(self.brokers@).len() == 0 || self.topic@.len()
                    == 0) && source_reason_text(e) == (if trim_spec(self.brokers@).len() == 0 {
                    "kafka.brokers must not be empty"@
                } else {
                    "kafka.topic must not be empty"@
                }),
            },
    {
        let b = trim_spaces(self.brokers.as_str());
        if b.as_str().unicode_len() == 0 {
            return Err(SourceReason::Other("kafka.brokers must not be empty".to_owned()));
        }
        if self.topic.len() == 0 {
            return Err(SourceReason::Other("kafka.topic must not be empty".to_owned()));
        }
        Ok(())
    }
}

impl Default for KafkaSourceConf {
    /// The documented defaults: a local broker, one test topic, the client
    /// options every deployment starts from, and the source disabled.
    fn default() -> (r: KafkaSourceConf)
        ensures
            r.key@ == "kafka_1"@,
            r.brokers@ == "localhost:9092"@,
            r.topic.deep_view() == seq!["test"@],
            r.config matches Some(c) && c.deep_view() == seq![
                "enable.partition.eof = false"@,
                "enable.auto.commit = true"@,
                "enable.auto.offset.store = true"@,
                "receive.message.max.bytes = 100001000"@,
                "auto.offset.reset = earliest"@,
            ],
            !r.enable,
            r.tags@.len() == 0,
    {
        let mut topic: Vec<String> = Vec::new();
        topic.push("test".to_owned());
        let mut config: Vec<String> = Vec::new();
        config.push("enable.partition.eof = false".to_owned());
        config.push("enable.auto.commit = true".to_owned());
        config.push("enable.auto.offset.store = true".to_owned());
        config.push("receive.message.max.bytes = 100001000".to_owned());
        config.push("auto.offset.reset = earliest".to_owned());
        proof {
            assert(topic.deep_view() =~~= seq!["test"@]);
            assert(config.deep_view() =~~= seq![
                "enable.partition.eof = false"@,
                "enable.auto.commit = true"@,
                "enable.auto.offset.store = true"@,
                "receive.message.max.bytes = 100001000"@,
                "auto.offset.reset = earliest"@,
            ]);
        }
        KafkaSourceConf {
            key: "kafka_1".to_owned(),
            brokers: "localhost:9092".to_owned(),
            topic,
            config: Some(config),
            enable: false,
            tags: Vec::new(),
        }
    }
}

/// The configuration of a queue sink: brokers, one target topic, the topic
/// shape when it must be created, and optional client-config lines.
#[derive(Debug)]
pub struct KafkaSinkConf {
    pub brokers: String,
    pub topic: String,
    pub num_partitions: i32,
    pub replication: i32,
    pub config: Option<Vec<String>>,
}

impl KafkaSinkConf {
    /// The default configuration pointed at the given topic.
    pub fn new(topic: &str) -> (r: KafkaSinkConf)
        ensures
            r.topic@ == topic@,
            r.brokers@ == "localhost:9092"@,
            r.num_partitions == 3,
            r.replication == 1,
            r.config matches Some(c) && c.deep_view() == seq![
                "queue.buffering.max.messages = 50000"@,
                "queue.buffering.max.kbytes = 2147483647"@,
                "message.max.bytes = 10485760"@,
            ],
    {
        let mut r = KafkaSinkConf::default();
        r.topic = topic.to_owned();
        r
    }
}

impl Default for KafkaSinkConf {
    /// The documented defaults: a local broker, a test topic, three
    /// partitions with single replication, and generous buffering.
    fn default() -> (r: KafkaSinkConf)
        ensures
            r.brokers@ == "localhost:9092"@,
            r.topic@ == "test"@,
            r.num_partitions == 3,
            r.replication == 1,
            r.config matches Some(c) && c.deep_view() == seq![
                "queue.buffering.max.messages = 50000"@,
                "queue.buffering.max.kbytes = 2147483647"@,
                "message.max.bytes = 10485760"@,
            ],
    {
        let mut config: Vec<String> = Vec::new();
        config.push("queue.buffering.max.messages = 50000".to_owned());
        config.push("queue.buffering.max.kbytes = 2147483647".to_owned());
        config.push("message.max.bytes = 10485760".to_owned());
        proof {
            assert(config.deep_view() =~~= seq![
                "queue.buffering.max.messages = 50000"@,
                "queue.buffering.max.kbytes = 2147483647"@,
                "message.max.bytes = 10485760"@,
            ]);
        }
        KafkaSinkConf {
            brokers: "localhost:9092".to_owned(),
            topic: "test".to_owned(),
            num_partitions: 3,
            replication: 1,
            config: Some(config),
        }
    }
}

/// The message a rejected source spec carries: the first failing parameter
/// decides, reading `brokers`, `topic`, `group_id`, `config` in that order.
pub open spec fn source_conf_error(params: ParamMap) -> Seq<char> {
    if required_string_of(param_of(params, "brokers"@)) is None {
        "kafka.brokers"@ + " must not be empty"@
    } else if topics_of(param_of(params, "topic"@)) is None {
        topics_error(param_of(params, "topic"@))
    } else if required_string_of(param_of(params, "group_id"@)) is None {
        "kafka.group_id"@ + " must not be empty"@
    } else {
        config_error(param_of(params, "config"@))
    }
}

/// Whether a source spec's parameters are all acceptable.
pub open spec fn source_conf_ok(params: ParamMap) -> bool {
    &&& required_string_of(param_of(params, "brokers"@)) is Some
    &&& topics_of(param_of(params, "topic"@)) is Some
    &&& required_string_of(param_of(params, "group_id"@)) is Some
    &&& config_of(param_of(params, "config"@)) is Some
}

/// Builds the source configuration and the consumer group from a spec:
/// `brokers` and `group_id` are required strings, `topic` one or more
/// names, `config` optional client lines; the source keeps the spec's name
/// as its identifier and is enabled.
pub fn build_kafka_conf_from_spec(spec: &SourceSpec) -> (r: Result<
    (KafkaSourceConf, String),
    SourceReason,
>)
    ensures
        match r {
            Ok(p) => {
                &&& source_conf_ok(spec.params)
                &&& Some(p.0.brokers@) == required_string_of(param_of(spec.params, "brokers"@))
                &&& Some(p.0.topic.deep_view()) == topics_of(param_of(spec.params, "topic"@))
                &&& Some(p.1@) == required_string_of(param_of(spec.params, "group_id"@))
                &&& match p.0.config {
                    Some(c) => config_of(param_of(spec.params, "config"@)) == Some(
                        Some(c.deep_view()),
                    ),
                    None => config_of(param_of(spec.params, "config"@)) == Some(
                        Option::<Seq<Seq<char>>>::None,
                    ),
                }
                &&& p.0.key@ == spec.name@
                &&& p.0.enable
                &&& p.0.tags@.len() == 0
            },
            Err(e) => !source_conf_ok(spec.params) && e is Other && source_reason_text(e)
                == source_conf_error(spec.params),
        },
{
    let brokers = match parse_required_string(spec.params.get("brokers"), "kafka.brokers") {
        Ok(b) => b,
        Err(e) => {
            return Err(e);
        },
    };
    let topics = match parse_topics(spec.params.get("topic")) {
        Ok(t) => t,
        Err(e) => {
            return Err(e);
        },
    };
    let group_id = match parse_required_string(spec.params.get("group_id"), "kafka.group_id") {
        Ok(g) => g,
        Err(e) => {
            return Err(e);
        },
    };
    let config = match parse_config(spec.params.get("config")) {
        Ok(c) => c,
        Err(e) => {
            return Err(e);
        },
    };
    let conf = KafkaSourceConf {
        key: spec.name.clone(),
        brokers,
        topic: topics,
        config,
        enable: true,
        tags: Vec::new(),
    };
    Ok((conf, group_id))
}

/// The message a rejected sink spec carries: the first failing parameter
/// decides, reading `brokers`, `topic`, `num_partitions`, `replication`,
/// `config`, `fmt` in that order.
pub open spec fn sink_conf_error(params: ParamMap) -> Seq<char> {
    if required_string_of(param_of(params, "brokers"@)) is None {
        "kafka.brokers"@ + " must not be empty"@
    } else if required_string_of(param_of(params, "topic"@)) is None {
        "kafka.topic"@ + " must not be empty"@
    } else if positive_i32_of(param_of(params, "num_partitions"@)) is None {
        "kafka.num_partitions"@ + positive_i32_error(param_of(params, "num_partitions"@))
    } else if positive_i32_of(param_of(params, "replication"@)) is None {
        "kafka.replication"@ + positive_i32_error(param_of(params, "replication"@))
    } else if config_of(param_of(params, "config"@)) is None {
        config_error(param_of(params, "config"@))
    } else {
        fmt_param_error(param_of(params, "fmt"@))
    }
}

/// Whether a sink spec's parameters are all acceptable.
pub open spec fn sink_conf_ok(params: ParamMap) -> bool {
    &&& required_string_of(param_of(params, "brokers"@)) is Some
    &&& required_string_of(param_of(params, "topic"@)) is Some
    &&& positive_i32_of(param_of(params, "num_partitions"@)) is Some
    &&& positive_i32_of(param_of(params, "replication"@)) is Some
    &&& config_of(param_of(params, "config"@)) is Some
    &&& fmt_param_of(param_of(params, "fmt"@)) is Some
}

/// The partition count or replication factor a sink spec carries: the
/// parameter's value, or zero where the parameter is absent.
pub open spec fn i32_or_zero(v: Option<Option<int>>) -> int {
    match v {
        Some(Some(n)) => n,
        _ => 0,
    }
}

/// Builds the sink configuration and output format from a spec: `brokers`
/// and `topic` are required strings, `num_partitions` and `replication`
/// optional positive numbers (zero when absent), `config` optional client
/// lines, `fmt` one of the allowed format tags (JSON when absent).
pub fn build_kafka_sink_conf_from_spec(spec: &SinkSpec) -> (r: Result<
    (KafkaSinkConf, TextFmt),
    SinkReason,
>)
    ensures
        match r {
            Ok(p) => {
                &&& sink_conf_ok(spec.params)
                &&& Some(p.0.brokers@) == required_string_of(param_of(spec.params, "brokers"@))
                &&& Some(p.0.topic@) == required_string_of(param_of(spec.params, "topic"@))
                &&& p.0.num_partitions == i32_or_zero(
                    positive_i32_of(param_of(spec.params, "num_partitions"@)),
                )
                &&& p.0.replication == i32_or_zero(
                    positive_i32_of(param_of(spec.params, "replication"@)),
                )
                &&& match p.0.config {
                    Some(c) => config_of(param_of(spec.params, "config"@)) == Some(
                        Some(c.deep_view()),
                    ),
                    None => config_of(param_of(spec.params, "config"@)) == Some(
                        Option::<Seq<Seq<char>>>::None,
                    ),
                }
                &&& Some(p.1) == fmt_param_of(param_of(spec.params, "fmt"@))
            },
            Err(e) => !sink_conf_ok(spec.params) && e is Validation && sink_reason_text(e)
                == sink_conf_error(spec.params),
        },
{
    let brokers = match parse_sink_required_string(spec.params.get("brokers"), "kafka.brokers") {
        Ok(b) => b,
        Err(e) => {
            return Err(e);
        },
    };
    let topic = match parse_sink_required_string(spec.params.get("topic"), "kafka.topic") {
        Ok(t) => t,
        Err(e) => {
            return Err(e);
        },
    };
    let num_partitions = match parse_positive_i32(
        spec.params.get("num_partitions"),
        "kafka.num_partitions",
    ) {
        Ok(n) => n,
        Err(e) => {
            return Err(e);
        },
    };
    let replication = match parse_positive_i32(spec.params.get("replication"), "kafka.replication") {
        Ok(n) => n,
        Err(e) => {
            return Err(e);
        },
    };
    let config = match parse_sink_config(spec.params.get("config")) {
        Ok(c) => c,
        Err(e) => {
            return Err(e);
        },
    };
    let fmt = match parse_sink_fmt(spec.params.get("fmt")) {
        Ok(f) => f,
        Err(e) => {
            return Err(e);
        },
    };
    let conf = KafkaSinkConf {
        brokers,
        topic,
        num_partitions: match num_partitions {
            Some(n) => n,
            None => 0,
        },
        replication: match replication {
            Some(n) => n,
            None => 0,
        },
        config,
    };
    Ok((conf, fmt))
}

/// Builds the queue source connectors from validated specs.
pub struct KafkaSourceFactory;

impl KafkaSourceFactory {
    /// The connector kind this factory serves.
    pub fn kind(&self) -> (r: &'static str)
        ensures
            r@ == "kafka"@,
    {
        "kafka"
    }

    /// Validates a source spec without building anything.
    pub fn validate_spec(&self, spec: &SourceSpec) -> (r: Result<(), SourceReason>)
        ensures
            match r {
                Ok(()) => source_conf_ok(spec.params),
                Err(e) => !source_conf_ok(spec.params) && e is Other && source_reason_text(e)
                    == source_conf_error(spec.params),
            },
    {
        match build_kafka_conf_from_spec(spec) {
            Ok(_) => Ok(()),
            Err(e) => Err(e),
        }
    }

    /// The published definition of this source kind.
    pub fn source_def(&self) -> (r: ConnectorDef)
        ensures
            r.scope == ConnectorScope::Source,
            r.id@ == "kafka_src"@,
            r.kind@ == "kafka"@,
            r.allow_override.deep_view() == seq!["brokers"@, "topic"@, "group_id"@, "config"@],
            kafka_source_defaults_spec(r.default_params),
    {
        let allow_override = owned_strings(&["brokers", "topic", "group_id", "config"]);
        proof {
            assert(allow_override.deep_view() =~~= seq![
                "brokers"@,
                "topic"@,
                "group_id"@,
                "config"@,
            ]);
        }
        ConnectorDef {
            id: "kafka_src".to_owned(),
            kind: "kafka".to_owned(),
            scope: ConnectorScope::Source,
            allow_override,
            default_params: kafka_source_defaults(),
            origin: Some("wp-connectors:kafka_source".to_owned()),
        }
    }
}

/// Builds the queue sink connectors from validated specs.
pub struct KafkaSinkFactory;

impl KafkaSinkFactory {
    /// The connector kind this factory serves.
    pub fn kind(&self) -> (r: &'static str)
        ensures
            r@ == "kafka"@,
    {
        "kafka"
    }

    /// Validates a sink spec without building anything.
    pub fn validate_spec(&self, spec: &SinkSpec) -> (r: Result<(), SinkReason>)
        ensures
            match r {
                Ok(()) => sink_conf_ok(spec.params),
                Err(e) => !sink_conf_ok(spec.params) && e is Validation && sink_reason_text(e)
                    == sink_conf_error(spec.params),
            },
    {
        match build_kafka_sink_conf_from_spec(spec) {
            Ok(_) => Ok(()),
            Err(e) => Err(e),
        }
    }

    /// The published definition of this sink kind.
    pub fn sink_def(&self) -> (r: ConnectorDef)
        ensures
            r.scope == ConnectorScope::Sink,
            r.id@ == "kafka_sink"@,
            r.kind@ == "kafka"@,
            r.allow_override.deep_view() == seq![
                "brokers"@,
                "topic"@,
                "fmt"@,
                "num_partitions"@,
                "replication"@,
                "config"@,
            ],
            kafka_sink_defaults_spec(r.default_params),
    {
        let allow_override = owned_strings(
            &["brokers", "topic", "fmt", "num_partitions", "replication", "config"],
        );
        proof {
            assert(allow_override.deep_view() =~~= seq![
                "brokers"@,
                "topic"@,
                "fmt"@,
                "num_partitions"@,
                "replication"@,
                "config"@,
            ]);
        }
        ConnectorDef {
            id: "kafka_sink".to_owned(),
            kind: "kafka".to_owned(),
            scope: ConnectorScope::Sink,
            allow_override,
            default_params: kafka_sink_defaults(),
            origin: Some("wp-connectors:kafka_sink".to_owned()),
        }
    }
}

/// The published defaults of the source kind: a local broker, the standard
/// topic and group, and the client options every deployment starts from.
pub open spec fn kafka_source_defaults_spec(p: ParamMap) -> bool {
    &&& p.entries@.len() == 4
    &&& entry_is_text(p.entries@, 0, "brokers"@, "localhost:9092"@)
    &&& entry_is_text(p.entries@, 1, "topic"@, "wp_events"@)
    &&& entry_is_text(p.entries@, 2, "group_id"@, "wp_events_group"@)
    &&& p.entries@[3].0@ == "config"@
    &&& p.entries@[3].1 matches ParamValue::List(vs) && all_text(vs@) && text_views(vs@) == seq![
        "auto.offset.reset=latest"@,
        "enable.auto.commit=true"@,
    ]
}

/// The default parameters the source definition publishes.
pub fn kafka_source_defaults() -> (r: ParamMap)
    ensures
        kafka_source_defaults_spec(r),
{
    let mut params = ParamMap::new();
    params.insert("brokers", ParamValue::Text("localhost:9092".to_owned()));
    params.insert("topic", ParamValue::Text("wp_events".to_owned()));
    params.insert("group_id", ParamValue::Text("wp_events_group".to_owned()));
    let mut cfg: Vec<ParamValue> = Vec::new();
    cfg.push(ParamValue::Text("auto.offset.reset=latest".to_owned()));
    cfg.push(ParamValue::Text("enable.auto.commit=true".to_owned()));
    proof {
        assert(text_views(cfg@) =~~= seq!["auto.offset.reset=latest"@, "enable.auto.commit=true"@]);
    }
    params.insert("config", ParamValue::List(cfg));
    params
}

/// The published defaults of the sink kind: a local broker, the standard
/// topic, the JSON format and a single partition and replica.
pub open spec fn kafka_sink_defaults_spec(p: ParamMap) -> bool {
    &&& p.entries@.len() == 5
    &&& entry_is_text(p.entries@, 0, "brokers"@, "localhost:9092"@)
    &&& entry_is_text(p.entries@, 1, "topic"@, "wp_events"@)
    &&& entry_is_text(p.entries@, 2, "fmt"@, "json"@)
    &&& entry_is_int(p.entries@, 3, "num_partitions"@, 1)
    &&& entry_is_int(p.entries@, 4, "replication"@, 1)
}

/// The default parameters the sink definition publishes.
pub fn kafka_sink_defaults() -> (r: ParamMap)
    ensures
        kafka_sink_defaults_spec(r),
{
    let mut params = ParamMap::new();
    params.insert("brokers", ParamValue::Text("localhost:9092".to_owned()));
    params.insert("topic", ParamValue::Text("wp_events".to_owned()));
    params.insert("fmt", ParamValue::Text("json".to_owned()));
    params.insert("num_partitions", ParamValue::Int(1));
    params.insert("replication", ParamValue::Int(1));
    params
}

/// The client option one config line carries: the text before the first
/// `=` and the text between the first and second `=`, both trimmed; a line
/// without `=` carries none.
pub open spec fn kv_of_line(s: Seq<char>) -> Option<(Seq<char>, Seq<char>)> {
    let parts = split_char(s, '=');
    if parts.len() >= 2 {
        Some((trim_spec(parts[0]), trim_spec(parts[1])))
    } else {
        None
    }
}

/// The client options a list of config lines carries, in order, lines
/// without `=` dropped.
pub open spec fn kv_pairs_of(lines: Seq<Seq<char>>) -> Seq<(Seq<char>, Seq<char>)>
    decreases lines.len(),
{
    if lines.len() == 0 {
        Seq::empty()
    } else {
        kv_pairs_of(lines.drop_last()) + (match kv_of_line(lines.last()) {
            Some(p) => seq![p],
            None => Seq::<(Seq<char>, Seq<char>)>::empty(),
        })
    }
}

/// Reads `key=value` client-config lines into pairs, dropping lines
/// without `=`; of a line with several `=` the first two fields count.
pub fn parse_kv_pairs(lines: &Vec<String>) -> (r: Vec<(String, String)>)
    ensures
        r.deep_view() == kv_pairs_of(lines.deep_view()),
{
    let mut out: Vec<(String, String)> = Vec::new();
    let mut i: usize = 0;
    proof {
        assert(lines.deep_view().take(0) =~= Seq::<Seq<char>>::empty());
    }
    while i < lines.len()
        invariant
            i <= lines@.len(),
            out.deep_view() == kv_pairs_of(lines.deep_view().take(i as int)),
        decreases lines@.len() - i,
    {
        proof {
            assert(lines.deep_view().take(i + 1).drop_last() =~= lines.deep_view().take(i as int));
            assert(lines.deep_view().take(i + 1).last() == lines.deep_view()[i as int]);
            assert(lines.deep_view()[i as int] == lines@[i as int]@);
        }
        let parts = split_string(lines[i].as_str(), '=');
        if parts.len() >= 2 {
            let k = trim_spaces(parts[0].as_str());
            let v = trim_spaces(parts[1].as_str());
            proof {
                assert(parts.deep_view()[0] == parts@[0]@);
                assert(parts.deep_view()[1] == parts@[1]@);
            }
            out.push((k, v));
            proof {
                assert(out.deep_view() =~~= kv_pairs_of(lines.deep_view().take(i + 1)));
            }
        } else {
            proof {
                assert(out.deep_view() =~~= kv_pairs_of(lines.deep_view().take(i + 1)));
            }
        }
        i = i + 1;
    }
    proof {
        assert(lines.deep_view().take(lines@.len() as int) =~= lines.deep_view());
    }
    out
}

/// The pure half of the queue sink: its configuration and output format.
/// Publishing, flushing and reconnecting the producer are transport work
/// around this core.
pub struct KafkaSink {
    pub conf: KafkaSinkConf,
    pub fmt: TextFmt,
}

impl KafkaSink {
    /// Builds the sink core from a validated configuration.
    pub fn from_conf(conf: KafkaSinkConf, fmt: TextFmt) -> (r: KafkaSink)
        ensures
            r.conf == conf,
            r.fmt == fmt,
    {
        KafkaSink { conf, fmt }
    }

    /// The client options of the configuration's config lines.
    pub fn client_config_pairs(&self) -> (r: Vec<(String, String)>)
        ensures
            match self.conf.config {
                Some(c) => r.deep_view() == kv_pairs_of(c.deep_view()),
                None => r.deep_view().len() == 0,
            },
    {
        match &self.conf.config {
            Some(lines) => parse_kv_pairs(lines),
            None => Vec::new(),
        }
    }

    /// The message line published for one record: the record under the
    /// sink's output format, with a trailing newline.
    pub fn record_line(&self, record: &DataRecord) -> (r: String)
        ensures
            r@ == format_record_spec(self.fmt, record.items@) + seq!['\n'],
    {
        let mut line = format_record(self.fmt, record);
        push_char(&mut line, '\n');
        line
    }
}

/// Classifies what the queue client reported for one receive: an explicit
/// "no message this poll" is an idle poll, not a failure; anything else is
/// an upstream fault carrying the client's text.
pub fn classify_consumer_error(no_message: bool, detail: &str) -> (r: SourceReason)
    ensures
        no_message ==> r == SourceReason::NotData,
        !no_message ==> r is Supplier && source_reason_text(r) == detail@,
{
    if no_message {
        SourceReason::NotData
    } else {
        SourceReason::Supplier(detail.to_owned())
    }
}

/// The pure half of the queue source: its identifier, tags and the event
/// sequence counter. Receiving bytes from the consumer is transport work
/// around this core.
pub struct KafkaSource {
    pub key: String,
    pub tags: Vec<(String, String)>,
    pub event_seq: u64,
}

impl KafkaSource {
    /// A fresh source core; the event sequence starts at zero.
    pub fn new(key: String, tags: Vec<(String, String)>) -> (r: KafkaSource)
        ensures
            r.key == key,
            r.tags == tags,
            r.event_seq == 0,
    {
        KafkaSource { key, tags, event_seq: 0 }
    }

    /// The stable, caller-supplied name of this source.
    pub fn identifier(&self) -> (r: &str)
        ensures
            r@ == self.key@,
    {
        self.key.as_str()
    }

    /// Wraps one received message payload as the next event: the sequence
    /// number advances by one (wrapping at the type's width), and the event
    /// carries the payload, this source's name, its tags, and the
    /// originating topic as the `access_source` tag.
    pub fn wrap_message(&mut self, payload: Vec<u8>, topic: &str) -> (ev: SourceEvent)
        ensures
            final(self).key == old(self).key,
            final(self).tags == old(self).tags,
            final(self).event_seq == (if old(self).event_seq < u64::MAX {
                old(self).event_seq + 1
            } else {
                0
            }),
            ev.id == final(self).event_seq,
            ev.source@ == old(self).key@,
            ev.data == RawData::Bytes(payload),
            ev.tags@.len() == old(self).tags@.len() + 1,
            ev.tags@.take(old(self).tags@.len() as int) == old(self).tags@,
            ev.tags@.last().0@ == "access_source"@,
            ev.tags@.last().1@ == topic@,
    {
        self.event_seq = self.event_seq.wrapping_add(1);
        let mut tags = crate::source::clone_tags(&self.tags);
        tags.push(("access_source".to_owned(), topic.to_owned()));
        let ev = SourceEvent::new(
            self.event_seq,
            self.key.clone(),
            RawData::Bytes(payload),
            tags,
        );
        proof {
            assert(ev.tags@.take(old(self).tags@.len() as int) =~= old(self).tags@);
        }
        ev
    }
}

} // verus!
