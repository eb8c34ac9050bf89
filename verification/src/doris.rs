//! The analytics-database sink. The backend speaks the relational wire
//! protocol but does not fully support prepared statements, so every write
//! path here builds SQL text through the safety layer: data values through
//! [`crate::sql::escape_sql_string`], identifiers through
//! [`crate::sql::quote_identifier`]; batched inserts keep one statement per
//! batch. Pool and session management are transport work around this core.

use vstd::prelude::*;
use crate::errors::{sink_reason_text, SinkReason};
use crate::record::DataRecord;
use crate::schema::TableSchema;
use crate::sink::{
    batch_tuples, has_known_field, insert_statement, sink_reason_text_is, tuple_of,
    unsupported_raw,
};
use crate::sql::{escape_seq, escape_sql_string, quote_ident, quote_identifier};
use crate::strutil::push_char;
use crate::text::{replace_all, replace_marker};

verus! {

/// The sink's connection and target configuration: endpoint, database,
/// credentials, target table, an optional creation template, and pool and
/// batch sizing. Immutable once the sink is built.
pub struct DorisSinkConfig {
    pub endpoint: String,
    pub database: String,
    pub user: String,
    pub password: String,
    pub table: String,
    pub create_table: Option<String>,
    pub pool_size: u32,
    pub batch: Option<u32>,
}

impl DorisSinkConfig {
    /// Gathers the full configuration; an absent pool size means one
    /// connection.
    pub fn new(
        endpoint: String,
        database: String,
        user: String,
        password: String,
        table: String,
        create_table: Option<String>,
        pool: Option<u32>,
        batch: Option<u32>,
    ) -> (r: DorisSinkConfig)
        ensures
            r.endpoint == endpoint,
            r.database == database,
            r.user == user,
            r.password == password,
            r.table == table,
            r.create_table == create_table,
            r.pool_size == (match pool {
                Some(p) => p as int,
                None => 1int,
            }),
            r.batch == batch,
    {
        DorisSinkConfig {
            endpoint,
            database,
            user,
            password,
            table,
            create_table,
            pool_size: match pool {
                Some(p) => p,
                None => 1,
            },
            batch,
        }
    }

    /// The connection URL of the target database: the endpoint with the
    /// database path appended.
    pub fn database_dsn(&self) -> (r: String)
        ensures
            r@ == self.endpoint@ + seq!['/'] + self.database@,
    {
        let mut url = self.endpoint.clone();
        push_char(&mut url, '/');
        url.append(self.database.as_str());
        proof {
            assert(url@ =~= self.endpoint@ + seq!['/'] + self.database@);
        }
        url
    }

    /// The pool size actually used: at least one connection.
    pub fn effective_pool_size(&self) -> (r: u32)
        ensures
            r == (if self.pool_size >= 1 {
                self.pool_size as int
            } else {
                1int
            }),
    {
        if self.pool_size >= 1 {
            self.pool_size
        } else {
            1
        }
    }
}

/// The statement that creates the target database when it is missing.
pub fn create_database_sql(database: &str) -> (r: String)
    ensures
        r@ == "CREATE DATABASE IF NOT EXISTS "@ + quote_ident(database@),
{
    let mut s = "CREATE DATABASE IF NOT EXISTS ".to_owned();
    let q = quote_identifier(database);
    s.append(q.as_str());
    s
}

/// The existence probe for the target table: a count over the catalog,
/// with both names escaped for their literal positions.
pub fn table_exists_sql(database: &str, table: &str) -> (r: String)
    ensures
        r@ == "SELECT COUNT(1) AS cnt FROM information_schema.TABLES WHERE TABLE_SCHEMA='"@
            + escape_seq(database@) + "' AND TABLE_NAME='"@ + escape_seq(table@) + seq!['\''],
{
    let mut s =
        "SELECT COUNT(1) AS cnt FROM information_schema.TABLES WHERE TABLE_SCHEMA='".to_owned();
    let d = escape_sql_string(database);
    s.append(d.as_str());
    s.append("' AND TABLE_NAME='");
    let t = escape_sql_string(table);
    s.append(t.as_str());
    push_char(&mut s, '\'');
    proof {
        assert(s@ =~= "SELECT COUNT(1) AS cnt FROM information_schema.TABLES WHERE TABLE_SCHEMA='"@
            + escape_seq(database@) + "' AND TABLE_NAME='"@ + escape_seq(table@) + seq!['\'']);
    }
    s
}

/// The introspection query behind the schema cache: the target table's
/// column names by ordinal position, with both names escaped for their
/// literal positions.
pub fn load_columns_sql(database: &str, table: &str) -> (r: String)
    ensures
        r@ == "SELECT COLUMN_NAME FROM information_schema.COLUMNS WHERE TABLE_SCHEMA='"@
            + escape_seq(database@) + "' AND TABLE_NAME='"@ + escape_seq(table@)
            + "' ORDER BY ORDINAL_POSITION"@,
{
    let mut s =
        "SELECT COLUMN_NAME FROM information_schema.COLUMNS WHERE TABLE_SCHEMA='".to_owned();
    let d = escape_sql_string(database);
    s.append(d.as_str());
    s.append("' AND TABLE_NAME='");
    let t = escape_sql_string(table);
    s.append(t.as_str());
    s.append("' ORDER BY ORDINAL_POSITION");
    proof {
        assert(s@ =~= "SELECT COLUMN_NAME FROM information_schema.COLUMNS WHERE TABLE_SCHEMA='"@
            + escape_seq(database@) + "' AND TABLE_NAME='"@ + escape_seq(table@)
            + "' ORDER BY ORDINAL_POSITION"@);
    }
    s
}

/// The creation statement for a missing table: the caller-supplied template
/// with the table's name substituted for every `{table}` marker. The
/// template is trusted operator input and is executed verbatim, not
/// escaped.
pub fn render_create_table(template: &str, table: &str) -> (r: String)
    ensures
        r@ == replace_marker(template@, "{table}"@, table@),
{
    proof {
        reveal_strlit("{table}");
    }
    replace_all(template, "{table}", table)
}

/// What follows the table-existence probe (a count over the catalog): a
/// positive count means the table stands and nothing is to be run; a zero
/// count with a creation template means running the template with the table
/// name substituted; a zero count without one is a `Schema` fault naming
/// the table.
pub fn ensure_table_action(count: i64, table: &str, create_stmt: Option<&str>) -> (r: Result<
    Option<String>,
    SinkReason,
>)
    ensures
        match r {
            Ok(stmt) => match stmt {
                None => count > 0,
                Some(s) => count <= 0 && (create_stmt matches Some(t) && s@ == replace_marker(
                    t@,
                    "{table}"@,
                    table@,
                )),
            },
            Err(e) => count <= 0 && create_stmt is None && e is Schema && sink_reason_text(e)
                == "table `"@ + table@ + "` not found and create_table statement not provided"@,
        },
{
    if count > 0 {
        return Ok(None);
    }
    match create_stmt {
        Some(stmt) => Ok(Some(render_create_table(stmt, table))),
        None => {
            let mut m = "table `".to_owned();
            m.append(table);
            m.append("` not found and create_table statement not provided");
            proof {
                assert(m@ =~= "table `"@ + table@
                    + "` not found and create_table statement not provided"@);
            }
            Err(SinkReason::Schema(m))
        },
    }
}

/// The batched sink over one cached table schema: every write enumerates
/// all cached columns in cached order, escaped literals or `NULL`, one
/// `INSERT` per batch.
pub struct DorisSink {
    pub schema: TableSchema,
}

impl DorisSink {
    /// Builds the sink over the introspected column order of
    /// `database`.`table`. Fails with a `Schema` error exactly when the
    /// column list is empty (the table has no columns or does not exist).
    pub fn new(config: &DorisSinkConfig, columns: Vec<String>) -> (r: Result<DorisSink, SinkReason>)
        ensures
            match r {
                Ok(s) => {
                    &&& columns@.len() > 0
                    &&& s.schema.wf()
                    &&& s.schema.column_order@ == columns@
                    &&& s.schema.quoted_table@ == quote_ident(
                        config.database@ + seq!['.'] + config.table@,
                    )
                },
                Err(e) => columns@.len() == 0 && e is Schema,
            },
    {
        let schema = match TableSchema::new(
            config.database.as_str(),
            config.table.as_str(),
            columns,
        ) {
            Ok(s) => s,
            Err(e) => {
                return Err(e);
            },
        };
        Ok(DorisSink { schema })
    }

    /// The fixed `INSERT INTO <target> (<columns>) VALUES ` prefix.
    pub fn base_insert_prefix(&self) -> (r: String)
        ensures
            r@ == crate::sink::insert_prefix(self.schema),
    {
        self.schema.base_insert_prefix()
    }

    /// The value tuple of one record, or nothing when the record
    /// contributes zero known columns (it is then silently omitted from
    /// the batch, never half-inserted).
    pub fn format_values_tuple(&self, record: &DataRecord) -> (r: Option<String>)
        ensures
            match r {
                Some(t) => has_known_field(self.schema.column_order.deep_view(), record.items@)
                    && t@ == tuple_of(self.schema.column_order.deep_view(), record.items@),
                None => !has_known_field(self.schema.column_order.deep_view(), record.items@),
            },
    {
        self.schema.format_values_tuple(record)
    }

    /// The single statement that flushes a batch: all contributing tuples
    /// joined behind one insert prefix, executed exactly once per batch;
    /// nothing when no record contributes (then the batch succeeds with
    /// nothing to execute).
    pub fn sink_records_statement(&self, records: &Vec<DataRecord>) -> (r: Option<String>)
        ensures
            match r {
                Some(s) => batch_tuples(self.schema.column_order.deep_view(), records@).len() > 0
                    && s@ == insert_statement(self.schema, records@),
                None => batch_tuples(self.schema.column_order.deep_view(), records@).len() == 0,
            },
    {
        self.schema.statement_for_batch(records)
    }

    /// The liveness probe run to re-validate the session.
    pub fn reconnect_probe(&self) -> (r: String)
        ensures
            r@ == "SELECT 1"@,
    {
        "SELECT 1".to_owned()
    }

    /// This sink is structured-only: raw text is refused, never dropped.
    pub fn sink_str(&self, _data: &str) -> (r: SinkReason)
        ensures
            r is Unsupported,
            sink_reason_text_is(r, "doris"@ + " sink does not accept "@ + "raw text input"@),
    {
        unsupported_raw("doris", "raw text input")
    }

    /// This sink is structured-only: raw bytes are refused, never dropped.
    pub fn sink_bytes(&self, _data: &[u8]) -> (r: SinkReason)
        ensures
            r is Unsupported,
            sink_reason_text_is(r, "doris"@ + " sink does not accept "@ + "raw byte input"@),
    {
        unsupported_raw("doris", "raw byte input")
    }

    /// This sink is structured-only: raw text batches are refused.
    pub fn sink_str_batch(&self, _data: &Vec<String>) -> (r: SinkReason)
        ensures
            r is Unsupported,
            sink_reason_text_is(r, "doris"@ + " sink does not accept "@ + "raw batch input"@),
    {
        unsupported_raw("doris", "raw batch input")
    }

    /// This sink is structured-only: raw byte batches are refused.
    pub fn sink_bytes_batch(&self, _data: &Vec<Vec<u8>>) -> (r: SinkReason)
        ensures
            r is Unsupported,
            sink_reason_text_is(r, "doris"@ + " sink does not accept "@ + "raw batch byte input"@),
    {
        unsupported_raw("doris", "raw batch byte input")
    }
}

} // verus!
