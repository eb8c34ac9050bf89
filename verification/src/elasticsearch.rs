//! The search-index sink's spec validation and configuration reading; the
//! sink itself shares the batched write shape.

use vstd::prelude::*;
use crate::connector::{owned_strings, ConnectorDef, ConnectorScope, SinkSpec};
use crate::errors::{sink_reason_text, SinkReason};
use crate::mysql::{batch_param_ok, nonblank_text};
use crate::params::{ParamMap, ParamValue};

verus! {

/// Builds the search-index sinks from validated specs.
pub struct ElasticsearchFactory;

impl ElasticsearchFactory {
    /// The connector kind this factory serves.
    pub fn kind(&self) -> (r: &'static str)
        ensures
            r@ == "elasticsearch"@,
    {
        "elasticsearch"
    }

    /// Validates a sink spec: `endpoint` must be nonblank text and a
    /// present integer `batch` must be positive.
    pub fn validate_spec(&self, spec: &SinkSpec) -> (r: Result<(), SinkReason>)
        ensures
            match r {
                Ok(()) => nonblank_text(spec.params, "endpoint"@) && batch_param_ok(spec.params),
                Err(e) => e is Validation && !(nonblank_text(spec.params, "endpoint"@)
                    && batch_param_ok(spec.params)) && sink_reason_text(e) == (if !nonblank_text(
                    spec.params,
                    "endpoint"@,
                ) {
                    "elasticsearch.endpoint must not be empty"@
                } else {
                    "elasticsearch.batch must be > 0"@
                }),
            },
    {
        match spec.params.get_text("endpoint") {
            Some(s) => {
                let t = crate::text::trim_spaces(s.as_str());
                if t.as_str().unicode_len() == 0 {
                    return Err(
                        SinkReason::Validation("elasticsearch.endpoint must not be empty".to_owned()),
                    );
                }
            },
            None => {
                return Err(
                    SinkReason::Validation("elasticsearch.endpoint must not be empty".to_owned()),
                );
            },
        }
        match spec.params.get_int("batch") {
            Some(i) => {
                if i <= 0 {
                    return Err(
                        SinkReason::Validation("elasticsearch.batch must be > 0".to_owned()),
                    );
                }
            },
            None => {},
        }
        Ok(())
    }

    /// The published definition of this sink kind.
    pub fn sink_def(&self) -> (r: ConnectorDef)
        ensures
            r.scope == ConnectorScope::Sink,
            r.id@ == "elasticsearch_sink"@,
            r.kind@ == "elasticsearch"@,
            r.allow_override.deep_view() == seq![
                "endpoint"@,
                "username"@,
                "password"@,
                "table"@,
                "batch"@,
            ],
            elasticsearch_defaults_spec(r.default_params),
    {
        let allow_override = owned_strings(&["endpoint", "username", "password", "table", "batch"]);
        proof {
            assert(allow_override.deep_view() =~~= seq![
                "endpoint"@,
                "username"@,
                "password"@,
                "table"@,
                "batch"@,
            ]);
        }
        ConnectorDef {
            id: "elasticsearch_sink".to_owned(),
            kind: "elasticsearch".to_owned(),
            scope: ConnectorScope::Sink,
            allow_override,
            default_params: elasticsearch_defaults(),
            origin: Some("wp-connectors:elasticsearch_sink".to_owned()),
        }
    }
}

/// The published defaults of this sink kind: the local HTTP endpoint, the
/// stock user, the standard index, and a five-hundred-row batch.
pub open spec fn elasticsearch_defaults_spec(p: ParamMap) -> bool {
    &&& p.entries@.len() == 4
    &&& crate::params::entry_is_text(p.entries@, 0, "endpoint"@, "http://localhost:9200"@)
    &&& crate::params::entry_is_text(p.entries@, 1, "username"@, "elastic"@)
    &&& crate::params::entry_is_text(p.entries@, 2, "table"@, "wp_events"@)
    &&& crate::params::entry_is_int(p.entries@, 3, "batch"@, 500)
}

/// The default parameters the definition publishes.
pub fn elasticsearch_defaults() -> (r: ParamMap)
    ensures
        elasticsearch_defaults_spec(r),
{
    let mut params = ParamMap::new();
    params.insert("endpoint", ParamValue::Text("http://localhost:9200".to_owned()));
    params.insert("username", ParamValue::Text("elastic".to_owned()));
    params.insert("table", ParamValue::Text("wp_events".to_owned()));
    params.insert("batch", ParamValue::Int(500));
    params
}

} // verus!
