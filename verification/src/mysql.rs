//! The relational connector: configuration and validation, the batched SQL
//! sink around the shared schema cache, and the incremental source's
//! statement building over the checkpoint cursor.

use vstd::prelude::*;
use crate::connector::{owned_strings, ConnectorDef, ConnectorScope, SinkSpec, SourceSpec};
use crate::errors::{sink_reason_text, source_reason_text, SinkReason, SourceReason};
use crate::params::{entry_is_int, entry_is_text, ParamMap, ParamValue};
use crate::record::DataRecord;
use crate::schema::TableSchema;
use crate::sink::{
    has_known_field, insert_prefix, sink_reason_text_is, tuple_of, unsupported_raw,
};
use crate::source::SourceCore;
use crate::strutil::{push_char, str_eq};
use crate::text::{
    ascii_lower, join_seq, join_with, lower_seq, trim_spec, trim_spaces, u64_dec, u64_to_string,
};
use crate::kafka::{param_of, required_string_of};

verus! {

/// The relational connection configuration: endpoint, database, credentials,
/// an optional poll/batch size and an optional target table.
pub struct MysqlConf {
    pub endpoint: String,
    pub database: String,
    pub username: String,
    pub password: String,
    pub batch: Option<usize>,
    pub table: Option<String>,
}

impl MysqlConf {
    /// The connection URL: the endpoint with the database path appended.
    /// Credentials are applied by the driver when the session is opened.
    pub fn get_database_url(&self) -> (r: String)
        ensures
            r@ == self.endpoint@ + seq!['/'] + self.database@,
    {
        let mut url = self.endpoint.clone();
        push_char(&mut url, '/');
        url.append(self.database.as_str());
        proof {
            assert(url@ =~= self.endpoint@ + seq!['/'] + self.database@);
        }
        url
    }

    /// The configured target table, checked before any connection attempt:
    /// fails exactly when the table is absent or blank, naming the field.
    pub fn table_name(&self) -> (r: Result<String, SourceReason>)
        ensures
            match r {
                Ok(t) => self.table matches Some(s) && trim_spec(s@).len() > 0 && t@ == s@,
                Err(e) => e is Other && (match self.table {
                    Some(s) => trim_spec(s@).len() == 0,
                    None => true,
                }) && source_reason_text(e) == "mysql.table must not be empty"@,
            },
    {
        match &self.table {
            Some(t) => {
                let trimmed = trim_spaces(t.as_str());
                if trimmed.as_str().unicode_len() == 0 {
                    Err(SourceReason::Other("mysql.table must not be empty".to_owned()))
                } else {
                    Ok(t.clone())
                }
            },
            None => Err(SourceReason::Other("mysql.table must not be empty".to_owned())),
        }
    }
}

impl Default for MysqlConf {
    /// The documented defaults: a local server, the standard database and
    /// user, no fixed table and no fixed batch size.
    fn default() -> (r: MysqlConf)
        ensures
            r.endpoint@ == "mysql://localhost:3306"@,
            r.database@ == "wp_data"@,
            r.username@ == "root"@,
            r.password@.len() == 0,
            r.batch is None,
            r.table is None,
    {
        MysqlConf {
            endpoint: "mysql://localhost:3306".to_owned(),
            database: "wp_data".to_owned(),
            username: "root".to_owned(),
            password: String::new(),
            batch: None,
            table: None,
        }
    }
}

/// Whether a spec names a nonblank text parameter under the key.
pub open spec fn nonblank_text(params: ParamMap, key: Seq<char>) -> bool {
    required_string_of(param_of(params, key)) is Some
}

/// Whether the optional `batch` parameter is acceptable: absent, or an
/// integer greater than zero.
pub open spec fn batch_param_ok(params: ParamMap) -> bool {
    match param_of(params, "batch"@) {
        None => true,
        Some(ParamValue::Int(i)) => i > 0,
        Some(_) => true,
    }
}

/// Reads an optional text parameter into a configuration field, keeping the
/// field as it was when the key is absent or not text.
pub fn text_param_or(params: &ParamMap, key: &str, fallback: String) -> (r: String)
    ensures
        match param_of(*params, key@) {
            Some(ParamValue::Text(s)) => r@ == s@,
            _ => r == fallback,
        },
{
    match params.get_text(key) {
        Some(s) => s.clone(),
        None => fallback,
    }
}

/// Builds the relational configuration from a spec's parameters, starting
/// from the defaults: `endpoint`, `database`, `username`, `password` and
/// `table` replace their defaults when present; a nonnegative `batch`
/// becomes the poll size.
pub fn build_mysql_conf(params: &ParamMap) -> (r: MysqlConf)
    ensures
        match param_of(*params, "endpoint"@) {
            Some(ParamValue::Text(s)) => r.endpoint@ == s@,
            _ => r.endpoint@ == "mysql://localhost:3306"@,
        },
        match param_of(*params, "database"@) {
            Some(ParamValue::Text(s)) => r.database@ == s@,
            _ => r.database@ == "wp_data"@,
        },
        match param_of(*params, "username"@) {
            Some(ParamValue::Text(s)) => r.username@ == s@,
            _ => r.username@ == "root"@,
        },
        match param_of(*params, "password"@) {
            Some(ParamValue::Text(s)) => r.password@ == s@,
            _ => r.password@.len() == 0,
        },
        match param_of(*params, "table"@) {
            Some(ParamValue::Text(s)) => r.table matches Some(t) && t@ == s@,
            _ => r.table is None,
        },
        match param_of(*params, "batch"@) {
            Some(ParamValue::Int(i)) => if 0 <= i <= usize::MAX {
                r.batch matches Some(b) && b == i
            } else {
                r.batch is None
            },
            _ => r.batch is None,
        },
{
    let mut conf = MysqlConf::default();
    conf.endpoint = text_param_or(params, "endpoint", conf.endpoint);
    conf.database = text_param_or(params, "database", conf.database);
    conf.username = text_param_or(params, "username", conf.username);
    conf.password = text_param_or(params, "password", conf.password);
    match params.get_text("table") {
        Some(s) => {
            conf.table = Some(s.clone());
        },
        None => {},
    }
    match params.get_int("batch") {
        Some(i) => {
            if 0 <= i && (i as u64) <= (usize::MAX as u64) {
                conf.batch = Some(i as usize);
            }
        },
        None => {},
    }
    conf
}

/// Builds the relational source connectors from validated specs.
pub struct MySQLSourceFactory;

impl MySQLSourceFactory {
    /// The connector kind this factory serves.
    pub fn kind(&self) -> (r: &'static str)
        ensures
            r@ == "mysql"@,
    {
        "mysql"
    }

    /// Validates a source spec: `endpoint` and `database` must be nonblank
    /// text; the failure names the offending field.
    pub fn validate_spec(&self, spec: &SourceSpec) -> (r: Result<(), SourceReason>)
        ensures
            match r {
                Ok(()) => nonblank_text(spec.params, "endpoint"@) && nonblank_text(
                    spec.params,
                    "database"@,
                ),
                Err(e) => e is Other && !(nonblank_text(spec.params, "endpoint"@) && nonblank_text(
                    spec.params,
                    "database"@,
                )) && source_reason_text(e) == (if !nonblank_text(spec.params, "endpoint"@) {
                    "mysql.endpoint must not be empty"@
                } else {
                    "mysql.database must not be empty"@
                }),
            },
    {
        if !nonblank_text_param(&spec.params, "endpoint") {
            return Err(SourceReason::Other("mysql.endpoint must not be empty".to_owned()));
        }
        if !nonblank_text_param(&spec.params, "database") {
            return Err(SourceReason::Other("mysql.database must not be empty".to_owned()));
        }
        Ok(())
    }

    /// The published definition of this source kind.
    pub fn source_def(&self) -> (r: ConnectorDef)
        ensures
            r.scope == ConnectorScope::Source,
            r.id@ == "mysql_src"@,
            r.kind@ == "mysql"@,
            r.allow_override.deep_view() == seq![
                "endpoint"@,
                "database"@,
                "table"@,
                "username"@,
                "batch"@,
            ],
            mysql_source_defaults_spec(r.default_params),
    {
        let allow_override = owned_strings(&["endpoint", "database", "table", "username", "batch"]);
        proof {
            assert(allow_override.deep_view() =~~= seq![
                "endpoint"@,
                "database"@,
                "table"@,
                "username"@,
                "batch"@,
            ]);
        }
        ConnectorDef {
            id: "mysql_src".to_owned(),
            kind: "mysql".to_owned(),
            scope: ConnectorScope::Source,
            allow_override,
            default_params: mysql_source_defaults(),
            origin: Some("wp-connectors:mysql_source".to_owned()),
        }
    }
}

/// Builds the relational sink connectors from validated specs.
pub struct MySQLSinkFactory;

impl MySQLSinkFactory {
    /// The connector kind this factory serves.
    pub fn kind(&self) -> (r: &'static str)
        ensures
            r@ == "mysql"@,
    {
        "mysql"
    }

    /// Validates a sink spec: `endpoint` and `database` must be nonblank
    /// text and a present integer `batch` must be positive.
    pub fn validate_spec(&self, spec: &SinkSpec) -> (r: Result<(), SinkReason>)
        ensures
            match r {
                Ok(()) => nonblank_text(spec.params, "endpoint"@) && nonblank_text(
                    spec.params,
                    "database"@,
                ) && batch_param_ok(spec.params),
                Err(e) => e is Validation && !(nonblank_text(spec.params, "endpoint"@)
                    && nonblank_text(spec.params, "database"@) && batch_param_ok(spec.params))
                    && sink_reason_text(e) == (if !nonblank_text(spec.params, "endpoint"@) {
                    "mysql.endpoint must not be empty"@
                } else if !nonblank_text(spec.params, "database"@) {
                    "mysql.database must not be empty"@
                } else {
                    "mysql.batch must be > 0"@
                }),
            },
    {
        if !nonblank_text_param(&spec.params, "endpoint") {
            return Err(SinkReason::Validation("mysql.endpoint must not be empty".to_owned()));
        }
        if !nonblank_text_param(&spec.params, "database") {
            return Err(SinkReason::Validation("mysql.database must not be empty".to_owned()));
        }
        match spec.params.get_int("batch") {
            Some(i) => {
                if i <= 0 {
                    return Err(SinkReason::Validation("mysql.batch must be > 0".to_owned()));
                }
            },
            None => {},
        }
        Ok(())
    }

    /// The published definition of this sink kind.
    pub fn sink_def(&self) -> (r: ConnectorDef)
        ensures
            r.scope == ConnectorScope::Sink,
            r.id@ == "mysql_sink"@,
            r.kind@ == "mysql"@,
            r.allow_override.deep_view() == seq![
                "endpoint"@,
                "database"@,
                "table"@,
                "username"@,
                "batch"@,
                "columns"@,
            ],
            mysql_sink_defaults_spec(r.default_params),
    {
        let allow_override = owned_strings(
            &["endpoint", "database", "table", "username", "batch", "columns"],
        );
        proof {
            assert(allow_override.deep_view() =~~= seq![
                "endpoint"@,
                "database"@,
                "table"@,
                "username"@,
                "batch"@,
                "columns"@,
            ]);
        }
        ConnectorDef {
            id: "mysql_sink".to_owned(),
            kind: "mysql".to_owned(),
            scope: ConnectorScope::Sink,
            allow_override,
            default_params: mysql_sink_defaults(),
            origin: Some("wp-connectors:mysql_sink".to_owned()),
        }
    }
}

/// Decides [`nonblank_text`] for one key.
fn nonblank_text_param(params: &ParamMap, key: &str) -> (r: bool)
    ensures
        r == nonblank_text(*params, key@),
{
    match params.get_text(key) {
        Some(s) => {
            let t = trim_spaces(s.as_str());
            t.as_str().unicode_len() > 0
        },
        None => false,
    }
}

/// The published defaults of the source kind: a local server, the standard
/// database, table and user, and a kilobyte-scale poll size.
pub open spec fn mysql_source_defaults_spec(p: ParamMap) -> bool {
    &&& p.entries@.len() == 5
    &&& entry_is_text(p.entries@, 0, "endpoint"@, "mysql://localhost:3306"@)
    &&& entry_is_text(p.entries@, 1, "database"@, "wp_data"@)
    &&& entry_is_text(p.entries@, 2, "table"@, "wp_events"@)
    &&& entry_is_text(p.entries@, 3, "username"@, "root"@)
    &&& entry_is_int(p.entries@, 4, "batch"@, 1024)
}

/// The default parameters the source definition publishes.
pub fn mysql_source_defaults() -> (r: ParamMap)
    ensures
        mysql_source_defaults_spec(r),
{
    let mut params = ParamMap::new();
    params.insert("endpoint", ParamValue::Text("mysql://localhost:3306".to_owned()));
    params.insert("database", ParamValue::Text("wp_data".to_owned()));
    params.insert("table", ParamValue::Text("wp_events".to_owned()));
    params.insert("username", ParamValue::Text("root".to_owned()));
    params.insert("batch", ParamValue::Int(1024));
    params
}

/// The published defaults of the sink kind: the source defaults with a
/// write batch size and the standard column pair.
pub open spec fn mysql_sink_defaults_spec(p: ParamMap) -> bool {
    &&& p.entries@.len() == 6
    &&& entry_is_text(p.entries@, 0, "endpoint"@, "mysql://localhost:3306"@)
    &&& entry_is_text(p.entries@, 1, "database"@, "wp_data"@)
    &&& entry_is_text(p.entries@, 2, "table"@, "wp_events"@)
    &&& entry_is_text(p.entries@, 3, "username"@, "root"@)
    &&& entry_is_int(p.entries@, 4, "batch"@, 1000)
    &&& p.entries@[5].0@ == "columns"@
    &&& p.entries@[5].1 matches ParamValue::List(vs) && crate::kafka::all_text(vs@)
        && crate::kafka::text_views(vs@) == seq!["wp_event_id"@, "payload"@]
}

/// The default parameters the sink definition publishes.
pub fn mysql_sink_defaults() -> (r: ParamMap)
    ensures
        mysql_sink_defaults_spec(r),
{
    let mut params = ParamMap::new();
    params.insert("endpoint", ParamValue::Text("mysql://localhost:3306".to_owned()));
    params.insert("database", ParamValue::Text("wp_data".to_owned()));
    params.insert("table", ParamValue::Text("wp_events".to_owned()));
    params.insert("username", ParamValue::Text("root".to_owned()));
    params.insert("batch", ParamValue::Int(1000));
    let mut cols: Vec<ParamValue> = Vec::new();
    cols.push(ParamValue::Text("wp_event_id".to_owned()));
    cols.push(ParamValue::Text("payload".to_owned()));
    proof {
        assert(crate::kafka::text_views(cols@) =~~= seq!["wp_event_id"@, "payload"@]);
    }
    params.insert("columns", ParamValue::List(cols));
    params
}

/// The key of one raw tag: the text before its first `=`, or all of it.
pub open spec fn key_of(s: Seq<char>) -> Seq<char>
    decreases s.len(),
{
    if s.len() == 0 {
        Seq::empty()
    } else if s[0] == '=' {
        Seq::empty()
    } else {
        seq![s[0]] + key_of(s.drop_first())
    }
}

/// The value of one raw tag: the text after its first `=`.
pub open spec fn val_of(s: Seq<char>) -> Seq<char>
    decreases s.len(),
{
    if s.len() == 0 {
        Seq::empty()
    } else if s[0] == '=' {
        s.skip(1)
    } else {
        val_of(s.drop_first())
    }
}

/// Whether a raw tag holds an `=`.
pub open spec fn has_eq(s: Seq<char>) -> bool {
    exists|i: int| 0 <= i < s.len() && s[i] == '='
}

/// The key/value pair one raw tag denotes: the tag is trimmed; a `k=v` form
/// splits at the first `=` with both sides trimmed, a bare form is a key
/// with an empty value; blank tags and tags with a blank key denote nothing.
pub open spec fn tag_of(raw: Seq<char>) -> Option<(Seq<char>, Seq<char>)> {
    let t = trim_spec(raw);
    if t.len() == 0 {
        None
    } else {
        let k = if has_eq(t) {
            trim_spec(key_of(t))
        } else {
            t
        };
        let v = if has_eq(t) {
            trim_spec(val_of(t))
        } else {
            Seq::<char>::empty()
        };
        if k.len() == 0 {
            None
        } else {
            Some((k, v))
        }
    }
}

/// The tag set a list of raw tags denotes, in order, unusable tags dropped.
pub open spec fn tags_of(raws: Seq<Seq<char>>) -> Seq<(Seq<char>, Seq<char>)>
    decreases raws.len(),
{
    if raws.len() == 0 {
        Seq::empty()
    } else {
        tags_of(raws.drop_last()) + (match tag_of(raws.last()) {
            Some(p) => seq![p],
            None => Seq::<(Seq<char>, Seq<char>)>::empty(),
        })
    }
}

proof fn lemma_key_val_at(s: Seq<char>, k: int)
    requires
        0 <= k < s.len(),
        s[k] == '=',
        forall|j: int| 0 <= j < k ==> s[j] != '=',
    ensures
        has_eq(s),
        key_of(s) == s.take(k),
        val_of(s) == s.skip(k + 1),
    decreases k,
{
    if k == 0 {
        assert(key_of(s) =~= s.take(0));
    } else {
        assert(s.drop_first()[k - 1] == '=');
        assert(forall|j: int| 0 <= j < k - 1 ==> s.drop_first()[j] == s[j + 1] && s[j + 1] != '=');
        lemma_key_val_at(s.drop_first(), k - 1);
        assert(key_of(s) == seq![s[0]] + s.drop_first().take(k - 1));
        assert(seq![s[0]] + s.drop_first().take(k - 1) =~= s.take(k));
        assert(s.drop_first().skip(k) =~= s.skip(k + 1));
    }
}

proof fn lemma_no_eq(s: Seq<char>)
    requires
        forall|j: int| 0 <= j < s.len() ==> s[j] != '=',
    ensures
        !has_eq(s),
        key_of(s) == s,
    decreases s.len(),
{
    if s.len() > 0 {
        assert(forall|j: int|
            0 <= j < s.drop_first().len() ==> s.drop_first()[j] == s[j + 1] && s[j + 1] != '=');
        lemma_no_eq(s.drop_first());
        assert(seq![s[0]] + s.drop_first() =~= s);
    }
}

/// Reads one raw tag into its key/value pair, if it denotes one.
fn parse_tag(raw: &str) -> (r: Option<(String, String)>)
    ensures
        match r {
            Some(p) => tag_of(raw@) == Some((p.0@, p.1@)),
            None => tag_of(raw@) is None,
        },
{
    let t = trim_spaces(raw);
    let n = t.as_str().unicode_len();
    if n == 0 {
        return None;
    }
    let mut k: usize = 0;
    while k < n && t.as_str().get_char(k) != '='
        invariant
            n == t@.len(),
            k <= n,
            forall|j: int| 0 <= j < k ==> t@[j] != '=',
        decreases n - k,
    {
        k = k + 1;
    }
    if k < n {
        proof {
            lemma_key_val_at(t@, k as int);
        }
        let key_part = t.as_str().substring_char(0, k);
        let val_part = t.as_str().substring_char(k + 1, n);
        let key = trim_spaces(key_part);
        let value = trim_spaces(val_part);
        proof {
            assert(t@.subrange(0, k as int) =~= t@.take(k as int));
            assert(t@.subrange(k + 1, n as int) =~= t@.skip(k + 1));
        }
        if key.as_str().unicode_len() == 0 {
            None
        } else {
            Some((key, value))
        }
    } else {
        proof {
            lemma_no_eq(t@);
        }
        Some((t, String::new()))
    }
}

/// Reads the spec's raw tags into the tag set stamped onto events: each
/// usable tag in order, `k=v` forms split at the first `=`, both sides
/// trimmed, blank tags and blank keys dropped.
pub fn extract_spec_tags(raw_tags: &Vec<String>) -> (r: Vec<(String, String)>)
    ensures
        r.deep_view() == tags_of(raw_tags.deep_view()),
{
    let mut out: Vec<(String, String)> = Vec::new();
    let mut i: usize = 0;
    proof {
        assert(raw_tags.deep_view().take(0) =~= Seq::<Seq<char>>::empty());
    }
    while i < raw_tags.len()
        invariant
            i <= raw_tags@.len(),
            out.deep_view() == tags_of(raw_tags.deep_view().take(i as int)),
        decreases raw_tags@.len() - i,
    {
        proof {
            assert(raw_tags.deep_view().take(i + 1).drop_last() =~= raw_tags.deep_view().take(
                i as int,
            ));
            assert(raw_tags.deep_view().take(i + 1).last() == raw_tags.deep_view()[i as int]);
            assert(raw_tags.deep_view()[i as int] == raw_tags@[i as int]@);
        }
        match parse_tag(raw_tags[i].as_str()) {
            Some(p) => {
                out.push(p);
                proof {
                    assert(out.deep_view() =~~= tags_of(raw_tags.deep_view().take(i + 1)));
                }
            },
            None => {
                proof {
                    assert(out.deep_view() =~~= tags_of(raw_tags.deep_view().take(i + 1)));
                }
            },
        }
        i = i + 1;
    }
    proof {
        assert(raw_tags.deep_view().take(raw_tags@.len() as int) =~= raw_tags.deep_view());
    }
    out
}

/// The default number of tuples a sink buffers before it flushes.
pub const MYSQL_DEFAULT_BATCH: usize = 100;

/// The batched relational sink: the cached schema of its target table and
/// the value tuples buffered since the last flush. Tuples are buffered until
/// the batch size is reached; `stop` flushes what remains. Statement
/// execution is transport work around this core.
pub struct MysqlSink {
    pub schema: TableSchema,
    pub batch: usize,
    pub pending: Vec<String>,
}

/// The statements and final buffer a batch run leaves behind, from a given
/// buffer: record by record, the value tuple joins the buffer unless the
/// record contributes zero known columns (then it is silently omitted); a
/// buffer that reaches the batch size is flushed as one insert statement,
/// and the run continues with an empty buffer. The first component is every
/// flush statement, in order; the second is what stays buffered.
pub open spec fn run_batch(
    schema: TableSchema,
    batch: nat,
    pending: Seq<Seq<char>>,
    recs: Seq<DataRecord>,
) -> (Seq<Seq<char>>, Seq<Seq<char>>)
    decreases recs.len(),
{
    if recs.len() == 0 {
        (Seq::empty(), pending)
    } else {
        let cols = schema.column_order.deep_view();
        let queued = if has_known_field(cols, recs[0].items@) {
            pending.push(tuple_of(cols, recs[0].items@))
        } else {
            pending
        };
        if queued.len() >= batch {
            let rest = run_batch(schema, batch, Seq::empty(), recs.drop_first());
            (seq![insert_prefix(schema) + join_seq(queued, ", "@)] + rest.0, rest.1)
        } else {
            run_batch(schema, batch, queued, recs.drop_first())
        }
    }
}

impl MysqlSink {
    /// Well-formedness: a usable schema, a positive batch size, and never
    /// more buffered tuples than one batch.
    pub open spec fn wf(&self) -> bool {
        &&& self.schema.wf()
        &&& self.batch >= 1
        &&& self.pending@.len() < self.batch
    }

    /// Builds the sink core for `database`.`table` over the given column
    /// order; the batch size defaults when not configured. Fails with a
    /// `Schema` error exactly when the column list is empty.
    pub fn new(database: &str, table: &str, columns: Vec<String>, batch: Option<usize>) -> (r:
        Result<MysqlSink, SinkReason>)
        ensures
            match r {
                Ok(s) => {
                    &&& columns@.len() > 0
                    &&& s.wf()
                    &&& s.schema.column_order@ == columns@
                    &&& s.batch as int == (match batch {
                        Some(b) => if b >= 1 {
                            b as int
                        } else {
                            MYSQL_DEFAULT_BATCH as int
                        },
                        None => MYSQL_DEFAULT_BATCH as int,
                    })
                    &&& s.pending@.len() == 0
                },
                Err(e) => columns@.len() == 0 && e is Schema,
            },
    {
        let schema = match TableSchema::new(database, table, columns) {
            Ok(s) => s,
            Err(e) => {
                return Err(e);
            },
        };
        let batch = match batch {
            Some(b) => if b >= 1 {
                b
            } else {
                MYSQL_DEFAULT_BATCH
            },
            None => MYSQL_DEFAULT_BATCH,
        };
        Ok(MysqlSink { schema, batch, pending: Vec::new() })
    }

    /// The tuples buffered after a record arrives: the record's tuple is
    /// queued unless the record contributes zero known columns, in which
    /// case it is silently omitted.
    pub open spec fn queued_after(&self, items: Seq<crate::record::DataField>) -> Seq<
        Seq<char>,
    > {
        if has_known_field(self.schema.column_order.deep_view(), items) {
            self.pending.deep_view().push(tuple_of(self.schema.column_order.deep_view(), items))
        } else {
            self.pending.deep_view()
        }
    }

    /// Accepts one record: its value tuple joins the buffer, and once a full
    /// batch is buffered the flush statement for all buffered tuples is
    /// returned (to be executed exactly once) and the buffer empties. A
    /// record with zero known columns is omitted and never errors the batch.
    pub fn sink_record(&mut self, record: &DataRecord) -> (r: Option<String>)
        requires
            old(self).wf(),
        ensures
            final(self).wf(),
            final(self).schema == old(self).schema,
            final(self).batch == old(self).batch,
            match r {
                Some(stmt) => {
                    &&& old(self).queued_after(record.items@).len() >= old(self).batch
                    &&& stmt@ == insert_prefix(old(self).schema) + join_seq(
                        old(self).queued_after(record.items@),
                        ", "@,
                    )
                    &&& final(self).pending@.len() == 0
                },
                None => {
                    &&& old(self).queued_after(record.items@).len() < old(self).batch
                    &&& final(self).pending.deep_view() == old(self).queued_after(record.items@)
                },
            },
    {
        match self.schema.format_values_tuple(record) {
            Some(t) => {
                self.pending.push(t);
            },
            None => {},
        }
        proof {
            assert(self.pending.deep_view() =~~= old(self).queued_after(record.items@));
        }
        if self.pending.len() >= self.batch {
            let prefix = self.schema.base_insert_prefix();
            let joined = join_with(&self.pending, ", ");
            let mut stmt = prefix;
            stmt.append(joined.as_str());
            self.pending.clear();
            Some(stmt)
        } else {
            None
        }
    }

    /// Accepts a batch of records in order, collecting every flush statement
    /// the buffered tuples trigger: exactly the statements and final buffer
    /// of [`run_batch`] over the batch.
    pub fn sink_records(&mut self, records: &Vec<DataRecord>) -> (r: Vec<String>)
        requires
            old(self).wf(),
        ensures
            final(self).wf(),
            final(self).schema == old(self).schema,
            final(self).batch == old(self).batch,
            r.deep_view() == run_batch(
                old(self).schema,
                old(self).batch as nat,
                old(self).pending.deep_view(),
                records@,
            ).0,
            final(self).pending.deep_view() == run_batch(
                old(self).schema,
                old(self).batch as nat,
                old(self).pending.deep_view(),
                records@,
            ).1,
    {
        let ghost schema0 = self.schema;
        let ghost batch0 = self.batch as nat;
        let ghost pending0 = self.pending.deep_view();
        let mut statements: Vec<String> = Vec::new();
        let mut i: usize = 0;
        proof {
            assert(records@.skip(0) =~= records@);
            assert(statements.deep_view() + run_batch(
                schema0,
                batch0,
                self.pending.deep_view(),
                records@.skip(0),
            ).0 =~~= run_batch(schema0, batch0, pending0, records@).0);
        }
        while i < records.len()
            invariant
                self.wf(),
                self.schema == old(self).schema,
                self.batch == old(self).batch,
                schema0 == old(self).schema,
                batch0 == old(self).batch as nat,
                pending0 == old(self).pending.deep_view(),
                i <= records@.len(),
                run_batch(schema0, batch0, pending0, records@).0 == statements.deep_view()
                    + run_batch(schema0, batch0, self.pending.deep_view(), records@.skip(i as int)).0,
                run_batch(schema0, batch0, pending0, records@).1 == run_batch(
                    schema0,
                    batch0,
                    self.pending.deep_view(),
                    records@.skip(i as int),
                ).1,
            decreases records@.len() - i,
        {
            let ghost pre = self.pending.deep_view();
            proof {
                assert(records@.skip(i as int)[0] == records@[i as int]);
                assert(records@.skip(i as int).drop_first() =~= records@.skip(i + 1));
            }
            match self.sink_record(&records[i]) {
                Some(stmt) => {
                    proof {
                        assert(self.pending.deep_view() =~= Seq::<Seq<char>>::empty());
                        assert(run_batch(schema0, batch0, pre, records@.skip(i as int)).0
                            == seq![stmt@] + run_batch(
                            schema0,
                            batch0,
                            Seq::empty(),
                            records@.skip(i + 1),
                        ).0);
                        assert(statements.deep_view().push(stmt@) + run_batch(
                            schema0,
                            batch0,
                            Seq::empty(),
                            records@.skip(i + 1),
                        ).0 =~~= statements.deep_view() + (seq![stmt@] + run_batch(
                            schema0,
                            batch0,
                            Seq::empty(),
                            records@.skip(i + 1),
                        ).0));
                    }
                    statements.push(stmt);
                },
                None => {},
            }
            i = i + 1;
        }
        proof {
            assert(records@.skip(records@.len() as int) =~= Seq::<DataRecord>::empty());
            assert(statements.deep_view() + Seq::<Seq<char>>::empty() =~~= statements.deep_view());
        }
        statements
    }

    /// Flushes synchronously at shutdown: the statement for whatever is
    /// buffered, or nothing when the buffer is empty; afterwards the buffer
    /// is empty either way, so a second stop has nothing left to write.
    pub fn stop(&mut self) -> (r: Option<String>)
        requires
            old(self).wf(),
        ensures
            final(self).wf(),
            final(self).schema == old(self).schema,
            final(self).batch == old(self).batch,
            final(self).pending@.len() == 0,
            match r {
                Some(stmt) => old(self).pending@.len() > 0 && stmt@ == insert_prefix(
                    old(self).schema,
                ) + join_seq(old(self).pending.deep_view(), ", "@),
                None => old(self).pending@.len() == 0,
            },
    {
        if self.pending.len() == 0 {
            return None;
        }
        let prefix = self.schema.base_insert_prefix();
        let joined = join_with(&self.pending, ", ");
        let mut stmt = prefix;
        stmt.append(joined.as_str());
        self.pending.clear();
        Some(stmt)
    }

    /// The liveness probe run to re-validate the session.
    pub fn reconnect_probe(&self) -> (r: String)
        ensures
            r@ == "SELECT 1"@,
    {
        "SELECT 1".to_owned()
    }

    /// This sink is structured-only: raw text is refused, never dropped.
    pub fn sink_str(&self, _data: &str) -> (r: SinkReason)
        ensures
            r is Unsupported,
            sink_reason_text_is(r, "mysql"@ + " sink does not accept "@ + "raw input"@),
    {
        unsupported_raw("mysql", "raw input")
    }

    /// This sink is structured-only: raw bytes are refused, never dropped.
    pub fn sink_bytes(&self, _data: &[u8]) -> (r: SinkReason)
        ensures
            r is Unsupported,
            sink_reason_text_is(r, "mysql"@ + " sink does not accept "@ + "raw bytes"@),
    {
        unsupported_raw("mysql", "raw bytes")
    }
}

/// Whether a column's declared type is carried as binary data, so its
/// values must be read through a text transport encoding.
pub open spec fn is_binary_type(lower_dtype: Seq<char>) -> bool {
    ||| lower_dtype == "binary"@
    ||| lower_dtype == "varbinary"@
    ||| lower_dtype == "blob"@
    ||| lower_dtype == "mediumblob"@
    ||| lower_dtype == "longblob"@
}

/// The JSON-object member a polled column contributes: its name as the key
/// and the column itself as the value, read through a text encoding when
/// the column is binary.
pub open spec fn select_part_of(name: Seq<char>, dtype: Seq<char>) -> Seq<char> {
    if is_binary_type(lower_seq(dtype)) {
        seq!['\''] + name + "', TO_BASE64(`"@ + name + seq!['`', ')']
    } else {
        seq!['\''] + name + "', `"@ + name + seq!['`']
    }
}

/// The members of every introspected column, in ordinal order.
pub open spec fn select_parts_of(cols: Seq<(Seq<char>, Seq<char>)>) -> Seq<Seq<char>>
    decreases cols.len(),
{
    if cols.len() == 0 {
        Seq::empty()
    } else {
        select_parts_of(cols.drop_last()) + seq![
            select_part_of(cols.last().0, cols.last().1),
        ]
    }
}

/// Builds the JSON-object member of each introspected column (name and
/// declared type, in ordinal order).
pub fn build_select_parts(cols: &Vec<(String, String)>) -> (r: Vec<String>)
    ensures
        r.deep_view() == select_parts_of(cols.deep_view()),
{
    let mut out: Vec<String> = Vec::new();
    let mut i: usize = 0;
    proof {
        assert(cols.deep_view().take(0) =~= Seq::<(Seq<char>, Seq<char>)>::empty());
    }
    while i < cols.len()
        invariant
            i <= cols@.len(),
            out.deep_view() == select_parts_of(cols.deep_view().take(i as int)),
        decreases cols@.len() - i,
    {
        proof {
            assert(cols.deep_view().take(i + 1).drop_last() =~= cols.deep_view().take(i as int));
            assert(cols.deep_view().take(i + 1).last() == cols.deep_view()[i as int]);
            assert(cols.deep_view()[i as int] == (cols@[i as int].0@, cols@[i as int].1@));
        }
        let name = &cols[i].0;
        let lowered = ascii_lower(cols[i].1.as_str());
        let binary = str_eq(lowered.as_str(), "binary") || str_eq(lowered.as_str(), "varbinary")
            || str_eq(lowered.as_str(), "blob") || str_eq(lowered.as_str(), "mediumblob")
            || str_eq(lowered.as_str(), "longblob");
        let mut part = String::new();
        push_char(&mut part, '\'');
        part.append(name.as_str());
        if binary {
            part.append("', TO_BASE64(`");
            part.append(name.as_str());
            push_char(&mut part, '`');
            push_char(&mut part, ')');
        } else {
            part.append("', `");
            part.append(name.as_str());
            push_char(&mut part, '`');
        }
        proof {
            assert(part@ =~= select_part_of(cols@[i as int].0@, cols@[i as int].1@));
        }
        out.push(part);
        proof {
            assert(out.deep_view() =~~= select_parts_of(cols.deep_view().take(i + 1)));
        }
        i = i + 1;
    }
    proof {
        assert(cols.deep_view().take(cols@.len() as int) =~= cols.deep_view());
    }
    out
}

/// The incremental poll statement over a table: each row rendered as one
/// JSON object of the selected columns, at most `step_len` rows, anchored
/// at the given offset — the cursor, so that a restart resumes exactly
/// where the persisted checkpoint points.
pub open spec fn poll_statement_of(
    parts: Seq<Seq<char>>,
    table: Seq<char>,
    step_len: nat,
    offset: nat,
) -> Seq<char> {
    "SELECT CAST(JSON_OBJECT("@ + join_seq(parts, ", "@)
        + ") AS CHAR CHARACTER SET utf8mb4) FROM `"@ + table + "` LIMIT "@ + u64_dec(step_len)
        + " OFFSET "@ + u64_dec(offset) + seq![';']
}

/// The incremental relational source: the shared checkpointed core, its
/// target table, the selected column members and the poll size. Running
/// the statement is transport work around this core.
pub struct MysqlSource {
    pub core: SourceCore,
    pub table: String,
    pub select_parts: Vec<String>,
    pub step_len: u64,
}

impl MysqlSource {
    /// Builds the source over an introspected column list, anchored at a
    /// restored cursor. Fails exactly when no target table is configured
    /// (absent or blank).
    pub fn new(
        key: String,
        tags: Vec<(String, String)>,
        config: &MysqlConf,
        columns: &Vec<(String, String)>,
        checkpoint: u64,
    ) -> (r: Result<MysqlSource, SourceReason>)
        ensures
            match r {
                Ok(s) => {
                    &&& match config.table {
                        Some(t) => trim_spec(t@).len() > 0 && s.table@ == t@,
                        None => false,
                    }
                    &&& s.core.key == key
                    &&& s.core.tags == tags
                    &&& s.core.checkpoint == checkpoint
                    &&& !s.core.is_draining()
                    &&& s.select_parts.deep_view() == select_parts_of(columns.deep_view())
                    &&& s.step_len == (match config.batch {
                        Some(b) => b as int,
                        None => 100int,
                    })
                },
                Err(e) => e is Other && (match config.table {
                    Some(t) => trim_spec(t@).len() == 0,
                    None => true,
                }) && source_reason_text(e) == "mysql.table must not be empty"@,
            },
    {
        let table: String = match config.table_name() {
            Ok(t) => t,
            Err(e) => {
                return Err(e);
            },
        };
        let step_len: u64 = match config.batch {
            Some(b) => b as u64,
            None => 100,
        };
        let select_parts = build_select_parts(columns);
        Ok(MysqlSource {
            core: SourceCore::new(key, tags, checkpoint),
            table,
            select_parts,
            step_len,
        })
    }

    /// The stable, caller-supplied name of this source.
    pub fn identifier(&self) -> (r: &str)
        ensures
            r@ == self.core.key@,
    {
        self.core.identifier()
    }

    /// The statement of the next poll, anchored at the current cursor.
    pub fn poll_statement(&self) -> (r: String)
        ensures
            r@ == poll_statement_of(
                self.select_parts.deep_view(),
                self.table@,
                self.step_len as nat,
                self.core.checkpoint as nat,
            ),
    {
        let mut s = "SELECT CAST(JSON_OBJECT(".to_owned();
        let joined = join_with(&self.select_parts, ", ");
        s.append(joined.as_str());
        s.append(") AS CHAR CHARACTER SET utf8mb4) FROM `");
        s.append(self.table.as_str());
        s.append("` LIMIT ");
        let step = u64_to_string(self.step_len);
        s.append(step.as_str());
        s.append(" OFFSET ");
        let off = u64_to_string(self.core.checkpoint);
        s.append(off.as_str());
        push_char(&mut s, ';');
        proof {
            assert(s@ =~= poll_statement_of(
                self.select_parts.deep_view(),
                self.table@,
                self.step_len as nat,
                self.core.checkpoint as nat,
            ));
        }
        s
    }

    /// The non-blocking poll: this connector has no cheap non-blocking path
    /// and always reports nothing available.
    pub fn try_receive(&mut self) -> (r: Option<Vec<crate::source::SourceEvent>>)
        ensures
            r is None,
            *final(self) == *old(self),
    {
        None
    }
}

/// Whether a configuration is exactly what the spec's parameters denote,
/// each field replacing its default when the parameter is present.
pub open spec fn mysql_conf_of(params: ParamMap, r: MysqlConf) -> bool {
    &&& match param_of(params, "endpoint"@) {
        Some(ParamValue::Text(s)) => r.endpoint@ == s@,
        _ => r.endpoint@ == "mysql://localhost:3306"@,
    }
    &&& match param_of(params, "database"@) {
        Some(ParamValue::Text(s)) => r.database@ == s@,
        _ => r.database@ == "wp_data"@,
    }
    &&& match param_of(params, "username"@) {
        Some(ParamValue::Text(s)) => r.username@ == s@,
        _ => r.username@ == "root"@,
    }
    &&& match param_of(params, "password"@) {
        Some(ParamValue::Text(s)) => r.password@ == s@,
        _ => r.password@.len() == 0,
    }
    &&& match param_of(params, "table"@) {
        Some(ParamValue::Text(s)) => r.table matches Some(t) && t@ == s@,
        _ => r.table is None,
    }
    &&& match param_of(params, "batch"@) {
        Some(ParamValue::Int(i)) => if 0 <= i <= usize::MAX {
            r.batch matches Some(b) && b == i
        } else {
            r.batch is None
        },
        _ => r.batch is None,
    }
}

/// The column names a sink spec's `columns` parameter denotes: the entries
/// of a list value, all of which must be text; anything that is not a list
/// counts as no columns. The outer `None` marks a rejected list.
pub open spec fn columns_of(v: Option<ParamValue>) -> Option<Seq<Seq<char>>> {
    match v {
        Some(ParamValue::List(vs)) => if crate::kafka::all_text(vs@) {
            Some(crate::kafka::text_views(vs@))
        } else {
            None
        },
        _ => Some(Seq::empty()),
    }
}

/// The configured columns with the built-in event key ensured: the
/// `wp_event_id` column is appended when the list does not already name it.
pub open spec fn with_event_id(cols: Seq<Seq<char>>) -> Seq<Seq<char>> {
    if cols.contains("wp_event_id"@) {
        cols
    } else {
        cols.push("wp_event_id"@)
    }
}

/// Builds the sink plan from a spec: the configuration, the column order
/// (the `columns` list with `wp_event_id` ensured) and the target table
/// (the configured table, or the spec's name where none is configured).
/// Fails exactly when some `columns` entry is not text.
pub fn build_mysql_sink_plan(spec: &SinkSpec) -> (r: Result<
    (MysqlConf, Vec<String>, String),
    SinkReason,
>)
    ensures
        match r {
            Ok(p) => {
                &&& mysql_conf_of(spec.params, p.0)
                &&& columns_of(param_of(spec.params, "columns"@)) matches Some(cols)
                    && p.1.deep_view() == with_event_id(cols)
                &&& match p.0.table {
                    Some(t) => p.2@ == t@,
                    None => p.2@ == spec.name@,
                }
            },
            Err(e) => columns_of(param_of(spec.params, "columns"@)) is None && e is Validation
                && sink_reason_text(e) == "mysql.columns entries must be string"@,
        },
{
    let conf = build_mysql_conf(&spec.params);
    let mut columns: Vec<String> = match spec.params.get("columns") {
        Some(ParamValue::List(vs)) => {
            match crate::kafka::collect_texts(vs) {
                Some(cols) => cols,
                None => {
                    return Err(
                        SinkReason::Validation("mysql.columns entries must be string".to_owned()),
                    );
                },
            }
        },
        _ => Vec::new(),
    };
    let mut found = false;
    let mut i: usize = 0;
    while i < columns.len()
        invariant
            i <= columns@.len(),
            found == exists|j: int|
                0 <= j < i && (#[trigger] columns.deep_view()[j]) == "wp_event_id"@,
        decreases columns@.len() - i,
    {
        if str_eq(columns[i].as_str(), "wp_event_id") {
            proof {
                assert(columns.deep_view()[i as int] == "wp_event_id"@);
            }
            found = true;
        }
        i = i + 1;
    }
    let ghost before = columns.deep_view();
    if !found {
        proof {
            assert(forall|j: int|
                0 <= j < before.len() ==> (#[trigger] before[j]) != "wp_event_id"@);
            assert(!before.contains("wp_event_id"@));
        }
        columns.push("wp_event_id".to_owned());
        proof {
            assert(columns.deep_view() =~~= before.push("wp_event_id"@));
        }
    } else {
        proof {
            assert(before.contains("wp_event_id"@));
        }
    }
    let table: String = match &conf.table {
        Some(t) => t.clone(),
        None => spec.name.clone(),
    };
    Ok((conf, columns, table))
}

/// The meta tags stamped on a built source: the spec's parsed tags with the
/// connector kind recorded under the access-source key.
pub fn build_source_tags(spec: &SourceSpec) -> (r: Vec<(String, String)>)
    ensures
        r.deep_view() == tags_of(spec.tags.deep_view()).push(("access_source"@, spec.kind@)),
{
    let mut tags = extract_spec_tags(&spec.tags);
    tags.push(("access_source".to_owned(), spec.kind.clone()));
    proof {
        assert(tags.deep_view() =~~= tags_of(spec.tags.deep_view()).push(
            ("access_source"@, spec.kind@),
        ));
    }
    tags
}

} // verus!
