use wp_connectors::fmt::{format_record, json_escape, json_object, TextFmt};
use wp_connectors::record::{DataField, DataRecord, DataType};

fn sample() -> DataRecord {
    let mut r = DataRecord::default();
    r.append(DataField::from_chars("host", "db-1"));
    r.append(DataField::from_digit("count", 3));
    let mut hidden = DataField::from_chars("secret", "x");
    hidden.meta = DataType::Ignore;
    r.append(hidden);
    r
}

#[test]
fn fmt_tags_cover_the_allowed_set() {
    assert_eq!(TextFmt::from_tag("json"), Some(TextFmt::Json));
    assert_eq!(TextFmt::from_tag("csv"), Some(TextFmt::Csv));
    assert_eq!(TextFmt::from_tag("show"), Some(TextFmt::Show));
    assert_eq!(TextFmt::from_tag("kv"), Some(TextFmt::Kv));
    assert_eq!(TextFmt::from_tag("raw"), Some(TextFmt::Raw));
    assert_eq!(TextFmt::from_tag("proto"), Some(TextFmt::Proto));
    assert_eq!(TextFmt::from_tag("proto-text"), Some(TextFmt::ProtoText));
    assert_eq!(TextFmt::from_tag("xml"), None);
    assert_eq!(TextFmt::from_tag(""), None);
}

#[test]
fn formats_render_visible_fields_only() {
    let r = sample();
    assert_eq!(
        format_record(TextFmt::Json, &r),
        "{\"host\":\"db-1\",\"count\":\"3\"}"
    );
    assert_eq!(format_record(TextFmt::Csv, &r), "db-1,3");
    assert_eq!(format_record(TextFmt::Show, &r), "host: db-1, count: 3");
    assert_eq!(format_record(TextFmt::Kv, &r), "host=db-1 count=3");
    assert_eq!(format_record(TextFmt::Raw, &r), "db-13");
    assert_eq!(
        format_record(TextFmt::ProtoText, &r),
        "host: \"db-1\"\ncount: \"3\""
    );
}

#[test]
fn empty_record_formats_to_empty_shapes() {
    let r = DataRecord::default();
    assert_eq!(format_record(TextFmt::Json, &r), "{}");
    assert_eq!(format_record(TextFmt::Csv, &r), "");
}

#[test]
fn json_escape_covers_metacharacters_and_controls() {
    assert_eq!(json_escape("plain"), "plain");
    assert_eq!(json_escape("say \"hi\""), "say \\\"hi\\\"");
    assert_eq!(json_escape("back\\slash"), "back\\\\slash");
    assert_eq!(json_escape("a\nb\rc\td"), "a\\nb\\rc\\td");
    assert_eq!(json_escape("bell\u{7}"), "bell\\u0007");
    assert_eq!(json_escape("esc\u{1b}"), "esc\\u001b");
}

#[test]
fn json_object_renders_pairs_in_order() {
    let pairs = vec![
        ("a".to_string(), "1".to_string()),
        ("b".to_string(), "two \"quoted\"".to_string()),
    ];
    assert_eq!(json_object(&pairs), "{\"a\":\"1\",\"b\":\"two \\\"quoted\\\"\"}");
    assert_eq!(json_object(&Vec::new()), "{}");
}

#[test]
fn negative_numbers_render_with_sign() {
    let mut r = DataRecord::default();
    r.append(DataField::from_digit("delta", -42));
    r.append(DataField::from_time("at", i64::MIN));
    assert_eq!(
        format_record(TextFmt::Kv, &r),
        "delta=-42 at=-9223372036854775808"
    );
}
