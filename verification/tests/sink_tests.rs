use wp_connectors::doris::{
    create_database_sql, ensure_table_action, load_columns_sql, render_create_table,
    table_exists_sql, DorisSink, DorisSinkConfig,
};
use wp_connectors::errors::SinkReason;
use wp_connectors::mysql::MysqlSink;
use wp_connectors::record::{DataField, DataRecord};
use wp_connectors::schema::TableSchema;

fn demo_config() -> DorisSinkConfig {
    DorisSinkConfig::new(
        "mysql://localhost:9030".into(),
        "demo".into(),
        "root".into(),
        "".into(),
        "events".into(),
        None,
        Some(2),
        Some(1),
    )
}

fn columns(names: &[&str]) -> Vec<String> {
    names.iter().map(|n| n.to_string()).collect()
}

fn row(id: i64, name: &str, score: &str) -> DataRecord {
    let mut r = DataRecord::default();
    r.append(DataField::from_digit("id", id));
    r.append(DataField::from_chars("name", name));
    r.append(DataField::from_chars("score", score));
    r
}

#[test]
fn batch_of_two_records_yields_one_statement_in_order() {
    let sink = DorisSink::new(&demo_config(), columns(&["id", "name", "score"])).expect("schema");
    let batch = vec![row(1, "Alice", "98.5"), row(2, "Bob", "87.0")];
    let stmt = sink.sink_records_statement(&batch).expect("one statement");
    assert_eq!(
        stmt,
        "INSERT INTO `demo`.`events` (`id`, `name`, `score`) VALUES \
         ('1', 'Alice', '98.5'), ('2', 'Bob', '87.0')"
    );
}

#[test]
fn apostrophe_value_is_doubled_in_the_literal() {
    let sink = DorisSink::new(&demo_config(), columns(&["name"])).expect("schema");
    let mut r = DataRecord::default();
    r.append(DataField::from_chars("name", "O'Reilly"));
    let tuple = sink.format_values_tuple(&r).expect("tuple");
    assert_eq!(tuple, "('O''Reilly')");
    let stmt = sink.sink_records_statement(&vec![r]).expect("statement");
    assert_eq!(stmt, "INSERT INTO `demo`.`events` (`name`) VALUES ('O''Reilly')");
    assert_eq!(
        wp_connectors::sql::unescape_sql_string("O''Reilly").as_deref(),
        Some("O'Reilly")
    );
}

#[test]
fn record_with_no_known_columns_is_omitted_without_erroring_the_batch() {
    let sink = DorisSink::new(&demo_config(), columns(&["id", "name", "score"])).expect("schema");
    let mut unknown = DataRecord::default();
    unknown.append(DataField::from_chars("other", "x"));
    assert!(sink.format_values_tuple(&unknown).is_none());

    let batch = vec![row(1, "Alice", "98.5"), unknown.clone(), row(2, "Bob", "87.0")];
    let stmt = sink.sink_records_statement(&batch).expect("statement");
    assert_eq!(
        stmt,
        "INSERT INTO `demo`.`events` (`id`, `name`, `score`) VALUES \
         ('1', 'Alice', '98.5'), ('2', 'Bob', '87.0')"
    );

    let all_unknown = vec![unknown];
    assert!(sink.sink_records_statement(&all_unknown).is_none());
}

#[test]
fn missing_column_becomes_null_and_ignored_fields_are_skipped() {
    let sink = DorisSink::new(&demo_config(), columns(&["id", "name", "score"])).expect("schema");
    let mut r = DataRecord::default();
    r.append(DataField::from_digit("id", 7));
    let mut hidden = DataField::from_chars("name", "secret");
    hidden.meta = wp_connectors::record::DataType::Ignore;
    r.append(hidden);
    let tuple = sink.format_values_tuple(&r).expect("tuple");
    assert_eq!(tuple, "('7', NULL, NULL)");
}

#[test]
fn later_field_with_same_name_overrides_earlier() {
    let sink = DorisSink::new(&demo_config(), columns(&["name"])).expect("schema");
    let mut r = DataRecord::default();
    r.append(DataField::from_chars("name", "first"));
    r.append(DataField::from_chars("name", "second"));
    let tuple = sink.format_values_tuple(&r).expect("tuple");
    assert_eq!(tuple, "('second')");
}

#[test]
fn empty_schema_is_a_schema_error() {
    let err = match DorisSink::new(&demo_config(), Vec::new()) {
        Ok(_) => panic!("no columns must fail"),
        Err(e) => e,
    };
    assert!(matches!(err, SinkReason::Schema(_)));
    let err = TableSchema::new("demo", "events", Vec::new()).expect_err("no columns");
    assert!(matches!(err, SinkReason::Schema(_)));
}

#[test]
fn raw_writes_are_refused_with_unsupported() {
    let sink = DorisSink::new(&demo_config(), columns(&["id"])).expect("schema");
    let e = sink.sink_str("raw");
    assert!(matches!(e, SinkReason::Unsupported(_)));
    assert_eq!(e.message(), "doris sink does not accept raw text input");
    let e = sink.sink_bytes(b"raw");
    assert_eq!(e.message(), "doris sink does not accept raw byte input");
    let e = sink.sink_str_batch(&vec!["raw".to_string()]);
    assert_eq!(e.message(), "doris sink does not accept raw batch input");
    let e = sink.sink_bytes_batch(&vec![b"raw".to_vec()]);
    assert_eq!(e.message(), "doris sink does not accept raw batch byte input");
}

#[test]
fn introspection_sql_escapes_names() {
    assert_eq!(
        table_exists_sql("demo", "eve'nts"),
        "SELECT COUNT(1) AS cnt FROM information_schema.TABLES \
         WHERE TABLE_SCHEMA='demo' AND TABLE_NAME='eve''nts'"
    );
    assert_eq!(
        load_columns_sql("demo", "events"),
        "SELECT COLUMN_NAME FROM information_schema.COLUMNS \
         WHERE TABLE_SCHEMA='demo' AND TABLE_NAME='events' ORDER BY ORDINAL_POSITION"
    );
    assert_eq!(
        create_database_sql("demo"),
        "CREATE DATABASE IF NOT EXISTS `demo`"
    );
}

#[test]
fn create_table_template_substitutes_every_marker() {
    let rendered = render_create_table("CREATE TABLE `{table}` (id INT) COMMENT '{table}'", "t1");
    assert_eq!(rendered, "CREATE TABLE `t1` (id INT) COMMENT 't1'");
    let unchanged = render_create_table("CREATE TABLE fixed (id INT)", "t1");
    assert_eq!(unchanged, "CREATE TABLE fixed (id INT)");
}

#[test]
fn mysql_sink_buffers_until_batch_then_flushes() {
    let mut sink =
        MysqlSink::new("wp_data", "events", columns(&["id", "name"]), Some(2)).expect("sink");
    let mut r1 = DataRecord::default();
    r1.append(DataField::from_digit("id", 1));
    r1.append(DataField::from_chars("name", "a"));
    let mut r2 = DataRecord::default();
    r2.append(DataField::from_digit("id", 2));
    r2.append(DataField::from_chars("name", "b"));

    assert!(sink.sink_record(&r1).is_none());
    let stmt = sink.sink_record(&r2).expect("flush at batch size");
    assert_eq!(
        stmt,
        "INSERT INTO `wp_data`.`events` (`id`, `name`) VALUES ('1', 'a'), ('2', 'b')"
    );
    assert!(sink.stop().is_none());

    assert!(sink.sink_record(&r1).is_none());
    let tail = sink.stop().expect("stop flushes the remainder");
    assert_eq!(
        tail,
        "INSERT INTO `wp_data`.`events` (`id`, `name`) VALUES ('1', 'a')"
    );
    assert_eq!(sink.reconnect_probe(), "SELECT 1");
}

#[test]
fn mysql_sink_rejects_raw_input() {
    let sink = MysqlSink::new("wp_data", "events", columns(&["id"]), None).expect("sink");
    assert_eq!(sink.sink_str("x").message(), "mysql sink does not accept raw input");
    assert_eq!(sink.sink_bytes(b"x").message(), "mysql sink does not accept raw bytes");
}

#[test]
fn mysql_sink_records_folds_the_whole_batch() {
    let mut sink =
        MysqlSink::new("wp_data", "events", columns(&["id"]), Some(2)).expect("sink");
    let mut rs: Vec<DataRecord> = Vec::new();
    for id in 1..=3i64 {
        let mut r = DataRecord::default();
        r.append(DataField::from_digit("id", id));
        rs.push(r);
    }
    let mut unknown = DataRecord::default();
    unknown.append(DataField::from_chars("other", "x"));
    rs.insert(1, unknown);

    let statements = sink.sink_records(&rs);
    assert_eq!(
        statements,
        vec!["INSERT INTO `wp_data`.`events` (`id`) VALUES ('1'), ('2')".to_string()]
    );
    let tail = sink.stop().expect("third tuple still buffered");
    assert_eq!(tail, "INSERT INTO `wp_data`.`events` (`id`) VALUES ('3')");

    let empty: Vec<DataRecord> = Vec::new();
    assert!(sink.sink_records(&empty).is_empty());
    assert!(sink.stop().is_none());
}

#[test]
fn table_probe_decision_creates_only_when_missing() {
    assert_eq!(ensure_table_action(1, "t1", Some("CREATE TABLE `{table}`")).unwrap(), None);
    assert_eq!(
        ensure_table_action(0, "t1", Some("CREATE TABLE `{table}` (id INT)")).unwrap(),
        Some("CREATE TABLE `t1` (id INT)".to_string())
    );
    let err = match ensure_table_action(0, "t1", None) {
        Ok(_) => panic!("missing template must fail"),
        Err(e) => e,
    };
    assert!(matches!(err, SinkReason::Schema(_)));
    assert_eq!(
        err.message(),
        "table `t1` not found and create_table statement not provided"
    );
}
