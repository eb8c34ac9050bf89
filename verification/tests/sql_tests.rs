use wp_connectors::sql::{escape_sql_string, quote_identifier, unescape_sql_string};

#[test]
fn quote_identifier_handles_segments() {
    assert_eq!(quote_identifier("events"), "`events`");
    assert_eq!(quote_identifier("demo.events"), "`demo`.`events`");
}

#[test]
fn test_escape_sql_string() {
    assert_eq!(escape_sql_string("O'Reilly"), "O''Reilly");
    assert_eq!(escape_sql_string("C:\\path"), "C:\\\\path");
    assert_eq!(escape_sql_string("line1\nline2"), "line1\\nline2");
    assert_eq!(escape_sql_string("text\rmore"), "text\\rmore");
    assert_eq!(escape_sql_string("text\0null"), "text\\0null");
    assert_eq!(
        escape_sql_string("It's a\\path\nwith'quotes"),
        "It''s a\\\\path\\nwith''quotes"
    );
}

#[test]
fn quote_identifier_doubles_backticks() {
    assert_eq!(quote_identifier("a`b"), "`a``b`");
    assert_eq!(quote_identifier(""), "``");
    assert_eq!(quote_identifier("a.b.c"), "`a`.`b`.`c`");
}

#[test]
fn escape_sql_string_handles_ctrl_z() {
    assert_eq!(escape_sql_string("end\u{1a}here"), "end\\Zhere");
}

#[test]
fn unescape_inverts_escape() {
    let cases = [
        "plain",
        "O'Reilly",
        "C:\\path",
        "line1\nline2",
        "text\rmore",
        "text\0null",
        "end\u{1a}here",
        "all'\\\n\r\0\u{1a}together''\\\\",
        "",
    ];
    for case in cases {
        let escaped = escape_sql_string(case);
        let back = unescape_sql_string(&escaped);
        assert_eq!(back.as_deref(), Some(case));
    }
}

#[test]
fn unescape_rejects_malformed_text() {
    assert_eq!(unescape_sql_string("lone'quote"), None);
    assert_eq!(unescape_sql_string("trailing\\"), None);
    assert_eq!(unescape_sql_string("bad\\qescape"), None);
    assert_eq!(unescape_sql_string("ok''fine"), Some("ok'fine".to_string()));
}
