use wp_connectors::clickhouse::ClickhouseFactory;
use wp_connectors::connector::ConnectorScope;
use wp_connectors::elasticsearch::ElasticsearchFactory;
use wp_connectors::fmt::TextFmt;
use wp_connectors::kafka::{KafkaSinkFactory, KafkaSourceFactory};
use wp_connectors::mysql::{MySQLSinkFactory, MySQLSourceFactory};
use wp_connectors::params::{ParamMap, ParamValue};
use wp_connectors::prometheus::{build_prometheus_conf, PrometheusFactory};
use wp_connectors::victorialog::VictoriaLogSinkFactory as VictoriaLogOnlyFactory;
use wp_connectors::victorialogs::{build_victorialog_conf, VictoriaLogSinkFactory};
use wp_connectors::victoriametrics::{build_victoriametric_conf, VictoriaMetricFactory};

fn text(v: &str) -> ParamValue {
    ParamValue::Text(v.to_string())
}

#[test]
fn connector_defs_publish_kind_scope_and_id() {
    let d = KafkaSourceFactory.source_def();
    assert_eq!(d.id, "kafka_src");
    assert_eq!(d.kind, "kafka");
    assert_eq!(d.scope, ConnectorScope::Source);
    assert!(d.allow_override.contains(&"group_id".to_string()));

    let d = KafkaSinkFactory.sink_def();
    assert_eq!(d.id, "kafka_sink");
    assert_eq!(d.scope, ConnectorScope::Sink);

    assert_eq!(MySQLSourceFactory.source_def().id, "mysql_src");
    assert_eq!(MySQLSinkFactory.sink_def().id, "mysql_sink");
    assert_eq!(PrometheusFactory.sink_def().id, "prometheus_sink");
    assert_eq!(VictoriaLogOnlyFactory.sink_def().id, "victorialog_sink");
    assert_eq!(VictoriaMetricFactory.sink_def().id, "victoriametric_sink");
    assert_eq!(ClickhouseFactory.sink_def().id, "clickhouse_sink");
    assert_eq!(ElasticsearchFactory.sink_def().id, "elasticsearch_sink");

    assert_eq!(KafkaSourceFactory.kind(), "kafka");
    assert_eq!(KafkaSinkFactory.kind(), "kafka");
    assert_eq!(MySQLSinkFactory.kind(), "mysql");
    assert_eq!(ClickhouseFactory.kind(), "clickhouse");
    assert_eq!(ElasticsearchFactory.kind(), "elasticsearch");
    assert_eq!(VictoriaMetricFactory.kind(), "victoriametrics");
    assert_eq!(VictoriaLogSinkFactory.kind(), "victorialogs");
    assert_eq!(PrometheusFactory.kind(), "prometheus");
}

#[test]
fn victorialog_conf_reads_params_over_defaults() {
    let mut params = ParamMap::new();
    params.insert("endpoint", text("http://logs:9428"));
    params.insert("create_time_field", text("event_time"));
    params.insert("fmt", text("csv"));
    let (conf, fmt) = build_victorialog_conf(&params);
    assert_eq!(conf.endpoint, "http://logs:9428");
    assert_eq!(conf.insert_path, "/insert/jsonline");
    assert_eq!(conf.create_time_field.as_deref(), Some("event_time"));
    assert_eq!(fmt, TextFmt::Csv);

    let (conf, fmt) = build_victorialog_conf(&ParamMap::new());
    assert_eq!(conf.endpoint, "127.0.0.1:9428");
    assert_eq!(conf.create_time_field, None);
    assert_eq!(fmt, TextFmt::Json);
}

#[test]
fn victoriametric_conf_reads_interval_as_number_or_text() {
    let mut params = ParamMap::new();
    params.insert("flush_interval_secs", ParamValue::Int(5));
    params.insert("insert_url", text("http://metrics/import"));
    let conf = build_victoriametric_conf(&params);
    assert_eq!(conf.flush_interval_ms, 5000);
    assert_eq!(conf.insert_url, "http://metrics/import");

    let mut params = ParamMap::new();
    params.insert("flush_interval_secs", text("7"));
    let conf = build_victoriametric_conf(&params);
    assert_eq!(conf.flush_interval_ms, 7000);

    let mut params = ParamMap::new();
    params.insert("flush_interval_secs", ParamValue::Int(-3));
    let conf = build_victoriametric_conf(&params);
    assert_eq!(conf.flush_interval_ms, 100);
}

#[test]
fn prometheus_conf_reads_patterns_over_defaults() {
    let mut params = ParamMap::new();
    params.insert("endpoint", text("0.0.0.0:9999"));
    params.insert("source_key_format", text("(?P<source_type>[a-z]+)"));
    let conf = build_prometheus_conf(&params);
    assert_eq!(conf.endpoint, "0.0.0.0:9999");
    assert_eq!(conf.source_key_format, "(?P<source_type>[a-z]+)");
    assert_eq!(conf.sink_key_format, "(?P<rule>.*)_(?P<sink_type>.*)_sink");
}

#[test]
fn param_map_later_insert_overrides_earlier() {
    let mut params = ParamMap::new();
    params.insert("endpoint", text("first"));
    params.insert("endpoint", text("second"));
    let conf = build_prometheus_conf(&params);
    assert_eq!(conf.endpoint, "second");
}
