use wp_connectors::checkpoint::{checkpoint_file_path, decode_checkpoint, encode_checkpoint};
use wp_connectors::errors::SourceReason;
use wp_connectors::mysql::{MysqlConf, MysqlSource};
use wp_connectors::source::{RawData, SourceCore};
use wp_connectors::connector::{SinkSpec, SourceSpec};
use wp_connectors::mysql::{build_mysql_sink_plan, build_source_tags};
use wp_connectors::params::{ParamMap, ParamValue};

fn rows(names: &[&str]) -> Vec<String> {
    names.iter().map(|n| n.to_string()).collect()
}

fn new_source(checkpoint: u64) -> SourceCore {
    SourceCore::new("src_1".to_string(), vec![("env".to_string(), "test".to_string())], checkpoint)
}

#[test]
fn checkpoint_counts_all_delivered_events_across_receives() {
    let mut core = new_source(0);
    let mut delivered = 0u64;

    for batch in [&["a", "b", "c"][..], &["d"][..], &["e", "f"][..]] {
        core.fill(rows(batch)).expect("nonempty fill");
        let events = core.drain();
        delivered += events.len() as u64;
    }
    assert_eq!(delivered, 6);
    assert_eq!(core.checkpoint, delivered);
    assert_eq!(decode_checkpoint(&encode_checkpoint(core.checkpoint)).unwrap(), 6);
}

#[test]
fn restart_from_persisted_cursor_never_replays_earlier_positions() {
    let mut first = new_source(0);
    first.fill(rows(&["r1", "r2", "r3", "r4", "r5"])).unwrap();
    first.drain();
    let persisted = encode_checkpoint(first.checkpoint);
    assert_eq!(persisted, "5");

    let restored = decode_checkpoint(&persisted).expect("cursor reads back");
    assert_eq!(restored, 5);
    let mut second = new_source(restored);
    second.fill(rows(&["r6", "r7"])).unwrap();
    let events = second.drain();
    assert_eq!(events.len(), 2);
    for e in &events {
        assert!(e.id > 5);
    }
    assert_eq!(events[0].id, 6);
    assert_eq!(events[1].id, 7);
}

#[test]
fn drain_delivers_in_checkpoint_order_with_source_metadata() {
    let mut core = new_source(10);
    core.fill(rows(&["p", "q"])).unwrap();
    let events = core.drain();
    assert_eq!(events.len(), 2);
    assert_eq!(events[0].id, 11);
    assert_eq!(events[1].id, 12);
    assert_eq!(events[0].source, "src_1");
    assert_eq!(events[0].tags, vec![("env".to_string(), "test".to_string())]);
    assert_eq!(events[0].data, RawData::Chars("p".to_string()));
    assert_eq!(events[1].data, RawData::Chars("q".to_string()));
    assert_eq!(core.checkpoint, 12);
    assert_eq!(core.identifier(), "src_1");
}

#[test]
fn empty_fetch_is_end_of_data() {
    let mut core = new_source(3);
    let err = core.fill(Vec::new()).expect_err("empty fetch");
    assert_eq!(err, SourceReason::Eof);
    assert_eq!(core.checkpoint, 3);
}

#[test]
fn checkpoint_codec_reads_blank_as_zero_and_rejects_garbage() {
    assert_eq!(decode_checkpoint("").unwrap(), 0);
    assert_eq!(decode_checkpoint("  \n").unwrap(), 0);
    assert_eq!(decode_checkpoint("42").unwrap(), 42);
    assert_eq!(decode_checkpoint(" 42 \n").unwrap(), 42);
    assert_eq!(decode_checkpoint("18446744073709551615").unwrap(), u64::MAX);
    let err = decode_checkpoint("not-a-number").expect_err("garbage");
    assert!(matches!(err, SourceReason::Data(_)));
    let err = decode_checkpoint("18446744073709551616").expect_err("too wide");
    assert!(matches!(err, SourceReason::Data(_)));
    assert_eq!(checkpoint_file_path("src_1"), "./.run/.checkpoints/src_1.dat");
}

#[test]
fn mysql_source_builds_anchored_poll_statement() {
    let mut conf = MysqlConf::default();
    conf.table = Some("events".to_string());
    conf.batch = Some(50);
    let cols = vec![
        ("id".to_string(), "bigint".to_string()),
        ("payload".to_string(), "LONGBLOB".to_string()),
    ];
    let source = MysqlSource::new("src_1".to_string(), vec![], &conf, &cols, 7).expect("source");
    assert_eq!(source.identifier(), "src_1");
    assert_eq!(
        source.poll_statement(),
        "SELECT CAST(JSON_OBJECT('id', `id`, 'payload', TO_BASE64(`payload`)) \
         AS CHAR CHARACTER SET utf8mb4) FROM `events` LIMIT 50 OFFSET 7;"
    );
}

#[test]
fn mysql_source_requires_a_table() {
    let conf = MysqlConf::default();
    let err = match MysqlSource::new("s".to_string(), vec![], &conf, &vec![], 0) {
        Ok(_) => panic!("no table must fail"),
        Err(e) => e,
    };
    assert_eq!(err.message(), "mysql.table must not be empty");

    let mut conf = MysqlConf::default();
    conf.table = Some("  ".to_string());
    let err = match MysqlSource::new("s".to_string(), vec![], &conf, &vec![], 0) {
        Ok(_) => panic!("blank table must fail"),
        Err(e) => e,
    };
    assert_eq!(err.message(), "mysql.table must not be empty");
}

#[test]
fn mysql_url_appends_database() {
    let conf = MysqlConf::default();
    assert_eq!(conf.get_database_url(), "mysql://localhost:3306/wp_data");
}

#[test]
fn mysql_sink_plan_ensures_the_event_key_column() {
    let mut params = ParamMap::new();
    params.insert("endpoint", ParamValue::Text("mysql://h:3306".to_string()));
    params.insert("database", ParamValue::Text("db".to_string()));
    params.insert(
        "columns",
        ParamValue::List(vec![
            ParamValue::Text("payload".to_string()),
            ParamValue::Text("wp_event_id".to_string()),
        ]),
    );
    let spec = SinkSpec {
        name: "events_sink".into(),
        kind: "mysql".into(),
        connector_id: "c".into(),
        group: "g".into(),
        params,
        filter: None,
    };
    let (conf, columns, table) = build_mysql_sink_plan(&spec).expect("plan");
    assert_eq!(conf.endpoint, "mysql://h:3306");
    assert_eq!(columns, vec!["payload".to_string(), "wp_event_id".to_string()]);
    assert_eq!(table, "events_sink");

    let mut params = ParamMap::new();
    params.insert(
        "columns",
        ParamValue::List(vec![ParamValue::Text("payload".to_string())]),
    );
    params.insert("table", ParamValue::Text("fixed".to_string()));
    let spec = SinkSpec {
        name: "events_sink".into(),
        kind: "mysql".into(),
        connector_id: "c".into(),
        group: "g".into(),
        params,
        filter: None,
    };
    let (_, columns, table) = build_mysql_sink_plan(&spec).expect("plan");
    assert_eq!(columns, vec!["payload".to_string(), "wp_event_id".to_string()]);
    assert_eq!(table, "fixed");

    let mut params = ParamMap::new();
    params.insert("columns", ParamValue::List(vec![ParamValue::Int(3)]));
    let spec = SinkSpec {
        name: "s".into(),
        kind: "mysql".into(),
        connector_id: "c".into(),
        group: "g".into(),
        params,
        filter: None,
    };
    let err = match build_mysql_sink_plan(&spec) {
        Ok(_) => panic!("non-text column entry must fail"),
        Err(e) => e,
    };
    assert_eq!(err.message(), "mysql.columns entries must be string");
}

#[test]
fn source_tags_append_the_access_source() {
    let spec = SourceSpec {
        name: "s".into(),
        kind: "mysql".into(),
        connector_id: "c".into(),
        params: ParamMap::new(),
        tags: vec!["env=prod".to_string()],
    };
    assert_eq!(
        build_source_tags(&spec),
        vec![
            ("env".to_string(), "prod".to_string()),
            ("access_source".to_string(), "mysql".to_string()),
        ]
    );
}

#[test]
fn table_validation_precedes_any_connection() {
    let conf = MysqlConf::default();
    let err = conf.table_name().expect_err("no table configured");
    assert_eq!(err.message(), "mysql.table must not be empty");

    let mut conf = MysqlConf::default();
    conf.table = Some("events".to_string());
    assert_eq!(conf.table_name().unwrap(), "events");
}
