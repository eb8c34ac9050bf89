use wp_connectors::connector::{SinkSpec, SourceSpec};
use wp_connectors::fmt::TextFmt;
use wp_connectors::kafka::{
    build_kafka_conf_from_spec, build_kafka_sink_conf_from_spec, parse_kv_pairs, KafkaSinkConf,
    KafkaSourceConf,
};
use wp_connectors::params::{ParamMap, ParamValue};
use wp_connectors::record::{DataField, DataRecord};
use wp_connectors::source::RawData;
use wp_connectors::errors::SourceReason;

fn text(v: &str) -> ParamValue {
    ParamValue::Text(v.to_string())
}

fn text_list(vs: &[&str]) -> ParamValue {
    ParamValue::List(vs.iter().map(|v| text(v)).collect())
}

fn build_source_spec(params: ParamMap) -> SourceSpec {
    SourceSpec {
        name: "kafka_source".into(),
        kind: "kafka".into(),
        connector_id: "connector".into(),
        params,
        tags: vec![],
    }
}

fn build_sink_spec(params: ParamMap) -> SinkSpec {
    SinkSpec {
        name: "kafka_sink".into(),
        kind: "kafka".into(),
        connector_id: "connector".into(),
        group: "group".into(),
        params,
        filter: None,
    }
}

#[test]
fn kafka_conf_from_spec_parses_topics_and_config_array() {
    let mut params = ParamMap::new();
    params.insert("brokers", text("localhost:9092"));
    params.insert("topic", text("topic_a,topic_b"));
    params.insert("group_id", text("group-a"));
    params.insert(
        "config",
        text_list(&["auto.offset.reset=earliest", "enable.auto.commit=true"]),
    );
    let spec = build_source_spec(params);

    let (conf, group_id) = build_kafka_conf_from_spec(&spec).expect("valid spec");
    assert_eq!(conf.brokers, "localhost:9092");
    assert_eq!(conf.topic, vec!["topic_a".to_string(), "topic_b".to_string()]);
    assert_eq!(group_id, "group-a");
    assert_eq!(
        conf.config.as_ref().unwrap(),
        &vec![
            "auto.offset.reset=earliest".to_string(),
            "enable.auto.commit=true".to_string()
        ]
    );
}

#[test]
fn kafka_conf_from_spec_rejects_missing_topic() {
    let mut params = ParamMap::new();
    params.insert("brokers", text("localhost:9092"));
    params.insert("group_id", text("group-a"));
    let spec = build_source_spec(params);

    let err = build_kafka_conf_from_spec(&spec).expect_err("topic missing");
    let msg = err.message();
    assert!(msg.contains("kafka.topic"));
}

#[test]
fn kafka_conf_from_spec_supports_array_topics_and_string_config() {
    let mut params = ParamMap::new();
    params.insert("brokers", text("localhost:9092"));
    params.insert("group_id", text("group-a"));
    params.insert("topic", text_list(&["topic_a", "topic_b"]));
    params.insert("config", text("auto.offset.reset=latest"));
    let spec = build_source_spec(params);

    let (conf, group_id) = build_kafka_conf_from_spec(&spec).expect("valid spec");
    assert_eq!(conf.topic, vec!["topic_a".to_string(), "topic_b".to_string()]);
    assert_eq!(group_id, "group-a");
    assert_eq!(conf.config, Some(vec!["auto.offset.reset=latest".to_string()]));
}

#[test]
fn kafka_sink_conf_from_spec_parses_fields() {
    let mut params = ParamMap::new();
    params.insert("brokers", text("localhost:9092"));
    params.insert("topic", text("sink-topic"));
    params.insert("num_partitions", ParamValue::Int(6));
    params.insert("replication", ParamValue::Int(2));
    params.insert("fmt", text("csv"));
    params.insert("config", text_list(&["acks=all", "compression.type=snappy"]));
    let spec = build_sink_spec(params);

    let (conf, fmt) = build_kafka_sink_conf_from_spec(&spec).expect("valid sink spec");
    assert_eq!(conf.brokers, "localhost:9092");
    assert_eq!(conf.topic, "sink-topic");
    assert_eq!(conf.num_partitions, 6);
    assert_eq!(conf.replication, 2);
    assert_eq!(fmt, TextFmt::Csv);
    assert_eq!(
        conf.config,
        Some(vec![
            "acks=all".to_string(),
            "compression.type=snappy".to_string()
        ])
    );
}

#[test]
fn kafka_sink_conf_from_spec_rejects_invalid_fmt() {
    let mut params = ParamMap::new();
    params.insert("brokers", text("localhost:9092"));
    params.insert("topic", text("sink-topic"));
    params.insert("fmt", text("bad"));
    let spec = build_sink_spec(params);

    let err = build_kafka_sink_conf_from_spec(&spec).expect_err("invalid fmt");
    let msg = err.message();
    assert!(msg.contains("invalid fmt"));
    assert!(msg.contains("json,csv,show,kv,raw,proto,proto-text"));
}

#[test]
fn kafka_sink_conf_from_spec_supports_string_config() {
    let mut params = ParamMap::new();
    params.insert("brokers", text("localhost:9092"));
    params.insert("topic", text("sink-topic"));
    params.insert("config", text("acks=1"));
    let spec = build_sink_spec(params);

    let (conf, _fmt) = build_kafka_sink_conf_from_spec(&spec).expect("valid sink spec");
    assert_eq!(conf.config, Some(vec!["acks=1".to_string()]));
}

#[test]
fn kafka_sink_conf_rejects_nonpositive_partitions() {
    let mut params = ParamMap::new();
    params.insert("brokers", text("localhost:9092"));
    params.insert("topic", text("sink-topic"));
    params.insert("num_partitions", ParamValue::Int(0));
    let spec = build_sink_spec(params);

    let err = build_kafka_sink_conf_from_spec(&spec).expect_err("zero partitions");
    assert!(err.message().contains("kafka.num_partitions must be > 0"));
}

#[test]
fn kafka_source_conf_validate_checks_brokers_and_topics() {
    let mut conf = KafkaSourceConf::default();
    conf.brokers = "  ".to_string();
    let err = conf.validate().expect_err("blank brokers");
    assert!(err.message().contains("kafka.brokers"));

    let mut conf = KafkaSourceConf::default();
    conf.topic = vec![];
    let err = conf.validate().expect_err("no topics");
    assert!(err.message().contains("kafka.topic"));

    assert!(KafkaSourceConf::default().validate().is_ok());
}

#[test]
fn kafka_sink_conf_new_keeps_defaults() {
    let conf = KafkaSinkConf::new("audit");
    assert_eq!(conf.topic, "audit");
    assert_eq!(conf.brokers, "localhost:9092");
    assert_eq!(conf.num_partitions, 3);
    assert_eq!(conf.replication, 1);
}

#[test]
fn parse_kv_pairs_splits_on_first_two_fields() {
    let lines = vec![
        "acks = all".to_string(),
        "no-equals-line".to_string(),
        "a=b=c".to_string(),
    ];
    let pairs = parse_kv_pairs(&lines);
    assert_eq!(
        pairs,
        vec![
            ("acks".to_string(), "all".to_string()),
            ("a".to_string(), "b".to_string()),
        ]
    );
}

#[test]
fn kafka_sink_core_formats_record_lines() {
    let sink = wp_connectors::kafka::KafkaSink::from_conf(KafkaSinkConf::new("t"), TextFmt::Kv);
    let mut r = DataRecord::default();
    r.append(DataField::from_chars("host", "db-1"));
    r.append(DataField::from_digit("count", 3));
    assert_eq!(sink.record_line(&r), "host=db-1 count=3\n");
    let pairs = sink.client_config_pairs();
    assert_eq!(
        pairs,
        vec![
            ("queue.buffering.max.messages".to_string(), "50000".to_string()),
            ("queue.buffering.max.kbytes".to_string(), "2147483647".to_string()),
            ("message.max.bytes".to_string(), "10485760".to_string()),
        ]
    );
}

#[test]
fn kafka_source_wraps_messages_with_increasing_ids() {
    let mut source = wp_connectors::kafka::KafkaSource::new(
        "k1".to_string(),
        vec![("env".to_string(), "test".to_string())],
    );
    assert_eq!(source.identifier(), "k1");
    let e1 = source.wrap_message(b"one".to_vec(), "topic_a");
    let e2 = source.wrap_message(b"two".to_vec(), "topic_b");
    assert_eq!(e1.id, 1);
    assert_eq!(e2.id, 2);
    assert_eq!(e1.source, "k1");
    assert_eq!(e1.data, RawData::Bytes(b"one".to_vec()));
    assert_eq!(
        e1.tags,
        vec![
            ("env".to_string(), "test".to_string()),
            ("access_source".to_string(), "topic_a".to_string()),
        ]
    );
}

#[test]
fn consumer_outcomes_classify_idle_polls_apart_from_faults() {
    let idle = wp_connectors::kafka::classify_consumer_error(true, "");
    assert_eq!(idle, SourceReason::NotData);
    let fault = wp_connectors::kafka::classify_consumer_error(false, "broker transport failure");
    assert_eq!(fault, SourceReason::Supplier("broker transport failure".to_string()));
}
