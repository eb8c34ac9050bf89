//! The column-store sink's spec validation and configuration reading; the
//! sink itself shares the batched SQL write shape.

use vstd::prelude::*;
use crate::connector::{owned_strings, ConnectorDef, ConnectorScope, SinkSpec};
use crate::errors::{sink_reason_text, SinkReason};
use crate::mysql::{batch_param_ok, nonblank_text};
use crate::params::{ParamMap, ParamValue};

verus! {

/// Builds the column-store sinks from validated specs.
pub struct ClickhouseFactory;

impl ClickhouseFactory {
    /// The connector kind this factory serves.
    pub fn kind(&self) -> (r: &'static str)
        ensures
            r@ == "clickhouse"@,
    {
        "clickhouse"
    }

    /// Validates a sink spec: `endpoint` and `database` must be nonblank
    /// text and a present integer `batch` must be positive.
    pub fn validate_spec(&self, spec: &SinkSpec) -> (r: Result<(), SinkReason>)
        ensures
            match r {
                Ok(()) => nonblank_text(spec.params, "endpoint"@) && nonblank_text(
                    spec.params,
                    "database"@,
                ) && batch_param_ok(spec.params),
                Err(e) => e is Validation && !(nonblank_text(spec.params, "endpoint"@)
                    && nonblank_text(spec.params, "database"@) && batch_param_ok(spec.params))
                    && sink_reason_text(e) == (if !nonblank_text(spec.params, "endpoint"@) {
                    "clickhouse.endpoint must not be empty"@
                } else if !nonblank_text(spec.params, "database"@) {
                    "clickhouse.database must not be empty"@
                } else {
                    "clickhouse.batch must be > 0"@
                }),
            },
    {
        if !nonblank(&spec.params, "endpoint") {
            return Err(SinkReason::Validation("clickhouse.endpoint must not be empty".to_owned()));
        }
        if !nonblank(&spec.params, "database") {
            return Err(SinkReason::Validation("clickhouse.database must not be empty".to_owned()));
        }
        match spec.params.get_int("batch") {
            Some(i) => {
                if i <= 0 {
                    return Err(SinkReason::Validation("clickhouse.batch must be > 0".to_owned()));
                }
            },
            None => {},
        }
        Ok(())
    }

    /// The published definition of this sink kind.
    pub fn sink_def(&self) -> (r: ConnectorDef)
        ensures
            r.scope == ConnectorScope::Sink,
            r.id@ == "clickhouse_sink"@,
            r.kind@ == "clickhouse"@,
            r.allow_override.deep_view() == seq![
                "endpoint"@,
                "database"@,
                "table"@,
                "username"@,
                "batch"@,
            ],
            clickhouse_defaults_spec(r.default_params),
    {
        let allow_override = owned_strings(&["endpoint", "database", "table", "username", "batch"]);
        proof {
            assert(allow_override.deep_view() =~~= seq![
                "endpoint"@,
                "database"@,
                "table"@,
                "username"@,
                "batch"@,
            ]);
        }
        ConnectorDef {
            id: "clickhouse_sink".to_owned(),
            kind: "clickhouse".to_owned(),
            scope: ConnectorScope::Sink,
            allow_override,
            default_params: clickhouse_defaults(),
            origin: Some("wp-connectors:clickhouse_sink".to_owned()),
        }
    }
}

/// Decides [`nonblank_text`] for one key.
fn nonblank(params: &ParamMap, key: &str) -> (r: bool)
    ensures
        r == nonblank_text(*params, key@),
{
    match params.get_text(key) {
        Some(s) => {
            let t = crate::text::trim_spaces(s.as_str());
            t.as_str().unicode_len() > 0
        },
        None => false,
    }
}

/// The published defaults of this sink kind: the local HTTP endpoint, the
/// default database and user, the standard table, and a thousand-row batch.
pub open spec fn clickhouse_defaults_spec(p: ParamMap) -> bool {
    &&& p.entries@.len() == 5
    &&& crate::params::entry_is_text(p.entries@, 0, "endpoint"@, "http://localhost:8123"@)
    &&& crate::params::entry_is_text(p.entries@, 1, "database"@, "default"@)
    &&& crate::params::entry_is_text(p.entries@, 2, "table"@, "wp_events"@)
    &&& crate::params::entry_is_text(p.entries@, 3, "username"@, "default"@)
    &&& crate::params::entry_is_int(p.entries@, 4, "batch"@, 1000)
}

/// The default parameters the definition publishes.
pub fn clickhouse_defaults() -> (r: ParamMap)
    ensures
        clickhouse_defaults_spec(r),
{
    let mut params = ParamMap::new();
    params.insert("endpoint", ParamValue::Text("http://localhost:8123".to_owned()));
    params.insert("database", ParamValue::Text("default".to_owned()));
    params.insert("table", ParamValue::Text("wp_events".to_owned()));
    params.insert("username", ParamValue::Text("default".to_owned()));
    params.insert("batch", ParamValue::Int(1000));
    params
}

} // verus!
