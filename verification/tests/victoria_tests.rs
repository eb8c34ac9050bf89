use wp_connectors::connector::{SinkSpec, SourceSpec};
use wp_connectors::fmt::TextFmt;
use wp_connectors::mysql::{extract_spec_tags, MySQLSinkFactory, MySQLSourceFactory};
use wp_connectors::params::{ParamMap, ParamValue};
use wp_connectors::prometheus::{receive_data_stat, sink_stat, Prometheus, PrometheusFactory};
use wp_connectors::record::{DataField, DataRecord};
use wp_connectors::victorialogs::{VictoriaLogSink, VictoriaLogSinkFactory};
use wp_connectors::victoriametrics::{
    ExporterAction, StatAction, StatKind, VictoriaMetricExporter, VictoriaMetricFactory,
};

const NOW: i64 = 1_700_000_000_000_000_000;

fn text(v: &str) -> ParamValue {
    ParamValue::Text(v.to_string())
}

fn sink_spec(params: ParamMap) -> SinkSpec {
    SinkSpec {
        name: "sink".into(),
        kind: "kind".into(),
        connector_id: "c".into(),
        group: "g".into(),
        params,
        filter: None,
    }
}

fn create_test_sink(create_time_field: Option<&str>) -> VictoriaLogSink {
    VictoriaLogSink::new(
        "http://127.0.0.1:8428".into(),
        "/insert".into(),
        TextFmt::Json,
        create_time_field.map(|s| s.to_string()),
    )
}

#[test]
fn test_resolve_timestamp_str() {
    let cases: Vec<(Option<&str>, Option<&str>, &str)> = vec![
        (None, None, "no custom field"),
        (Some("timestamp_field"), None, "field not found"),
        (Some("timestamp_field"), Some("1234567890"), "with valid field"),
    ];

    for (create_time_field, field_value, desc) in cases {
        let mut record = DataRecord::default();
        if let Some(value) = field_value {
            record.append(DataField::from_chars("timestamp_field", value));
        }

        let sink = create_test_sink(create_time_field);
        let timestamp = sink.resolve_timestamp_str(&record, NOW);

        assert!(!timestamp.is_empty(), "[{}] timestamp should not be empty", desc);
        assert!(
            timestamp.parse::<i64>().is_ok(),
            "[{}] timestamp should be valid i64",
            desc
        );
    }
}

#[test]
fn timestamp_prefers_the_configured_time_field() {
    let sink = create_test_sink(Some("at"));
    let mut record = DataRecord::default();
    record.append(DataField::from_time("at", 1_234_567_890));
    assert_eq!(sink.resolve_timestamp_str(&record, NOW), "1234567890");

    let empty = DataRecord::default();
    assert_eq!(sink.resolve_timestamp_str(&empty, NOW), NOW.to_string());
}

#[test]
fn jsonline_payload_carries_fields_msg_and_time() {
    let sink = create_test_sink(None);
    let mut record = DataRecord::default();
    record.append(DataField::from_chars("host", "db-1"));
    let payload = sink.sink_record_payload(&record, NOW);
    assert_eq!(
        payload,
        format!(
            "{{\"host\":\"db-1\",\"_msg\":\"{}\",\"_time\":\"{}\"}}",
            "{\\\"host\\\":\\\"db-1\\\"}", NOW
        )
    );
    assert_eq!(sink.insert_url(), "http://127.0.0.1:8428/insert");
}

#[test]
fn stage_dispatch_updates_the_right_counters() {
    let exporter = VictoriaMetricExporter::new("http://127.0.0.1:8428/insert".into(), 1000);
    assert!(exporter.should_schedule_flush());
    assert!(!VictoriaMetricExporter::new("u".into(), 0).should_schedule_flush());

    let mut pick = DataRecord::default();
    pick.append(DataField::from_chars("stage", "Pick"));
    pick.append(DataField::from_chars("target", "pick-target"));
    pick.append(DataField::from_digit("total", 2));
    let updates = exporter.sink_record(&pick, "pid-1");
    assert_eq!(updates.len(), 2);
    assert_eq!(updates[0].kind, StatKind::RecvFromSource);
    assert_eq!(updates[0].labels, vec!["pid-1", "pick-target", "pick-target"]);
    assert_eq!(updates[0].action, StatAction::IncBy(2));
    assert_eq!(updates[1].kind, StatKind::SourceTypes);
    assert_eq!(updates[1].action, StatAction::SetOne);

    let mut parse = DataRecord::default();
    parse.append(DataField::from_chars("stage", "Parse"));
    parse.append(DataField::from_chars("target", "parse-target"));
    parse.append(DataField::from_digit("success", 5));
    parse.append(DataField::from_digit("total", 5));
    let updates = exporter.sink_record(&parse, "pid-1");
    assert_eq!(updates.len(), 2);
    assert_eq!(updates[0].kind, StatKind::ParseSuccess);
    assert_eq!(updates[0].action, StatAction::IncBy(5));
    assert_eq!(updates[1].kind, StatKind::ParseAll);
    assert_eq!(updates[1].labels, vec!["pid-1", "parse", "", ""]);

    let mut sink_rec = DataRecord::default();
    sink_rec.append(DataField::from_chars("stage", "Sink"));
    sink_rec.append(DataField::from_chars("target", "sink-target"));
    sink_rec.append(DataField::from_chars("sink_category", "sink-category"));
    sink_rec.append(DataField::from_chars("sink_business", "sink-business"));
    sink_rec.append(DataField::from_chars("log_business", "log-biz"));
    sink_rec.append(DataField::from_digit("success", 1));
    let updates = exporter.sink_record(&sink_rec, "pid-1");
    assert_eq!(updates.len(), 2);
    assert_eq!(updates[0].kind, StatKind::SendToSink);
    assert_eq!(
        updates[0].labels,
        vec![
            "pid-1",
            "sink-target",
            "",
            "",
            "",
            "",
            "log-biz",
            "sink-target",
            "sink-business",
            "sink-category"
        ]
    );
    assert_eq!(updates[0].action, StatAction::IncBy(1));
    assert_eq!(updates[1].kind, StatKind::SinkTypes);
    assert_eq!(updates[1].labels, vec!["pid-1", "sink-target", "sink-category"]);

    let mut other = DataRecord::default();
    other.append(DataField::from_chars("stage", "Other"));
    assert!(exporter.sink_record(&other, "pid-1").is_empty());
    assert!(exporter.sink_record(&DataRecord::default(), "pid-1").is_empty());
}

#[test]
fn prometheus_patterns_extract_type_labels() {
    let conf = Prometheus::default();
    let mut pick = DataRecord::default();
    pick.append(DataField::from_chars("target", "syslog_udp"));
    pick.append(DataField::from_chars("access_source", "udp"));
    pick.append(DataField::from_digit("total", 4));
    let update = receive_data_stat(&pick, &conf.source_key_format, "pid-1").expect("valid labels");
    assert_eq!(update.labels, vec!["pid-1", "syslog_udp", "syslog", "udp"]);
    assert_eq!(update.action, StatAction::IncBy(4));

    let mut no_match = DataRecord::default();
    no_match.append(DataField::from_chars("target", "plainname"));
    no_match.append(DataField::from_chars("access_source", "udp"));
    assert!(receive_data_stat(&no_match, &conf.source_key_format, "pid-1").is_none());

    let mut sink_rec = DataRecord::default();
    sink_rec.append(DataField::from_chars("target", "audit_kafka_sink"));
    sink_rec.append(DataField::from_chars("access_ip", "10.0.0.1"));
    sink_rec.append(DataField::from_chars("log_type", "t"));
    sink_rec.append(DataField::from_chars("log_desc", "d"));
    sink_rec.append(DataField::from_digit("success", 2));
    let update = sink_stat(&sink_rec, &conf.sink_key_format, "pid-1").expect("valid labels");
    assert_eq!(
        update.labels,
        vec!["pid-1", "audit_kafka_sink", "kafka", "10.0.0.1", "t", "d", ""]
    );
}

#[test]
fn factory_validations_name_the_offending_field() {
    let empty = ParamMap::new();

    let err = VictoriaLogSinkFactory.validate_spec(&sink_spec(ParamMap::new())).unwrap_err();
    assert_eq!(err.message(), "victorialogs.endpoint must not be empty");
    assert_eq!(VictoriaLogSinkFactory.kind(), "victorialogs");

    let err = wp_connectors::victorialog::VictoriaLogSinkFactory
        .validate_spec(&sink_spec(ParamMap::new()))
        .unwrap_err();
    assert_eq!(err.message(), "victorialog.endpoint must not be empty");

    let err = VictoriaMetricFactory.validate_spec(&sink_spec(ParamMap::new())).unwrap_err();
    assert_eq!(err.message(), "victoriametric.endpoint must not be empty");

    let err = PrometheusFactory.validate_spec(&sink_spec(ParamMap::new())).unwrap_err();
    assert_eq!(err.message(), "prometheus.endpoint must not be empty");

    let err = wp_connectors::clickhouse::ClickhouseFactory
        .validate_spec(&sink_spec(ParamMap::new()))
        .unwrap_err();
    assert_eq!(err.message(), "clickhouse.endpoint must not be empty");

    let err = wp_connectors::elasticsearch::ElasticsearchFactory
        .validate_spec(&sink_spec(ParamMap::new()))
        .unwrap_err();
    assert_eq!(err.message(), "elasticsearch.endpoint must not be empty");

    let mut ok = ParamMap::new();
    ok.insert("endpoint", text("http://localhost:9428"));
    assert!(VictoriaLogSinkFactory.validate_spec(&sink_spec(ok)).is_ok());
    drop(empty);
}

#[test]
fn mysql_validations_check_endpoint_database_and_batch() {
    let source_factory = MySQLSourceFactory;
    assert_eq!(source_factory.kind(), "mysql");
    let spec = SourceSpec {
        name: "s".into(),
        kind: "mysql".into(),
        connector_id: "c".into(),
        params: ParamMap::new(),
        tags: vec![],
    };
    let err = source_factory.validate_spec(&spec).unwrap_err();
    assert_eq!(err.message(), "mysql.endpoint must not be empty");

    let mut params = ParamMap::new();
    params.insert("endpoint", text("mysql://h:3306"));
    let spec = SourceSpec {
        name: "s".into(),
        kind: "mysql".into(),
        connector_id: "c".into(),
        params,
        tags: vec![],
    };
    let err = source_factory.validate_spec(&spec).unwrap_err();
    assert_eq!(err.message(), "mysql.database must not be empty");

    let sink_factory = MySQLSinkFactory;
    let mut params = ParamMap::new();
    params.insert("endpoint", text("mysql://h:3306"));
    params.insert("database", text("db"));
    params.insert("batch", ParamValue::Int(0));
    let err = sink_factory.validate_spec(&sink_spec(params)).unwrap_err();
    assert_eq!(err.message(), "mysql.batch must be > 0");

    let mut params = ParamMap::new();
    params.insert("endpoint", text("mysql://h:3306"));
    params.insert("database", text("db"));
    params.insert("batch", ParamValue::Int(100));
    assert!(sink_factory.validate_spec(&sink_spec(params)).is_ok());
}

#[test]
fn spec_tags_split_on_the_first_equals() {
    let raw = vec![
        "env=prod".to_string(),
        " region = eu-1 ".to_string(),
        "flag".to_string(),
        "  ".to_string(),
        "=orphan".to_string(),
        "a=b=c".to_string(),
    ];
    let tags = extract_spec_tags(&raw);
    assert_eq!(
        tags,
        vec![
            ("env".to_string(), "prod".to_string()),
            ("region".to_string(), "eu-1".to_string()),
            ("flag".to_string(), "".to_string()),
            ("a".to_string(), "b=c".to_string()),
        ]
    );
}

#[test]
fn batch_dispatch_concatenates_per_record_updates() {
    let exporter = VictoriaMetricExporter::new("http://127.0.0.1:8428/insert".into(), 1000);
    let mut pick = DataRecord::default();
    pick.append(DataField::from_chars("stage", "Pick"));
    pick.append(DataField::from_chars("target", "t1"));
    pick.append(DataField::from_digit("total", 2));
    let mut parse = DataRecord::default();
    parse.append(DataField::from_chars("stage", "Parse"));
    parse.append(DataField::from_chars("target", "t2"));
    parse.append(DataField::from_digit("success", 1));
    let mut idle = DataRecord::default();
    idle.append(DataField::from_chars("stage", "Other"));

    let updates = exporter.sink_records(&vec![pick, idle, parse], "pid-1");
    assert_eq!(updates.len(), 4);
    assert_eq!(updates[0].kind, StatKind::RecvFromSource);
    assert_eq!(updates[1].kind, StatKind::SourceTypes);
    assert_eq!(updates[2].kind, StatKind::ParseSuccess);
    assert_eq!(updates[3].kind, StatKind::ParseAll);
    assert_eq!(updates[0].labels, vec!["pid-1", "t1", "t1"]);
    assert_eq!(updates[2].labels, vec!["pid-1", "t2", "", "t2", "", "", ""]);
}

#[test]
fn shutdown_pushes_before_stopping_the_flush_task() {
    let exporter = VictoriaMetricExporter::new("u".into(), 1000);
    assert_eq!(
        exporter.stop_plan(),
        vec![ExporterAction::PushMetrics, ExporterAction::StopFlushTask]
    );
}
