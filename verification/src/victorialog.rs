//! The single-line log-store sink variant: the same backend family as the
//! JSON-line sink, configured without a time field, registered under its
//! own connector kind.

use vstd::prelude::*;
use crate::connector::{owned_strings, ConnectorDef, ConnectorScope, SinkSpec};
use crate::errors::{sink_reason_text, SinkReason};
use crate::mysql::nonblank_text;
use crate::params::{ParamMap, ParamValue};

verus! {

/// Builds the single-line log-store sinks from validated specs.
pub struct VictoriaLogSinkFactory;

impl VictoriaLogSinkFactory {
    /// The connector kind this factory serves.
    pub fn kind(&self) -> (r: &'static str)
        ensures
            r@ == "victorialog"@,
    {
        "victorialog"
    }

    /// Validates a sink spec: `endpoint` must be nonblank text.
    pub fn validate_spec(&self, spec: &SinkSpec) -> (r: Result<(), SinkReason>)
        ensures
            match r {
                Ok(()) => nonblank_text(spec.params, "endpoint"@),
                Err(e) => !nonblank_text(spec.params, "endpoint"@) && e is Validation
                    && sink_reason_text(e) == "victorialog.endpoint must not be empty"@,
            },
    {
        match spec.params.get_text("endpoint") {
            Some(s) => {
                let t = crate::text::trim_spaces(s.as_str());
                if t.as_str().unicode_len() > 0 {
                    return Ok(());
                }
            },
            None => {},
        }
        Err(SinkReason::Validation("victorialog.endpoint must not be empty".to_owned()))
    }

    /// The published definition of this sink kind.
    pub fn sink_def(&self) -> (r: ConnectorDef)
        ensures
            r.scope == ConnectorScope::Sink,
            r.id@ == "victorialog_sink"@,
            r.kind@ == "victorialog"@,
            r.allow_override.deep_view() == seq!["endpoint"@, "insert_path"@, "fmt"@],
            victorialog_defaults_spec(r.default_params),
    {
        let allow_override = owned_strings(&["endpoint", "insert_path", "fmt"]);
        proof {
            assert(allow_override.deep_view() =~~= seq!["endpoint"@, "insert_path"@, "fmt"@]);
        }
        ConnectorDef {
            id: "victorialog_sink".to_owned(),
            kind: "victorialog".to_owned(),
            scope: ConnectorScope::Sink,
            allow_override,
            default_params: victorialog_defaults(),
            origin: Some("wp-connectors:victorialog_sink".to_owned()),
        }
    }
}

/// The published defaults of this sink kind: a local ingestion endpoint,
/// its JSON insert path, and the JSON format.
pub open spec fn victorialog_defaults_spec(p: ParamMap) -> bool {
    &&& p.entries@.len() == 3
    &&& crate::params::entry_is_text(p.entries@, 0, "endpoint"@, "http://localhost:8481"@)
    &&& crate::params::entry_is_text(p.entries@, 1, "insert_path"@, "/insert/json"@)
    &&& crate::params::entry_is_text(p.entries@, 2, "fmt"@, "json"@)
}

/// The default parameters the definition publishes.
pub fn victorialog_defaults() -> (r: ParamMap)
    ensures
        victorialog_defaults_spec(r),
{
    let mut params = ParamMap::new();
    params.insert("endpoint", ParamValue::Text("http://localhost:8481".to_owned()));
    params.insert("insert_path", ParamValue::Text("/insert/json".to_owned()));
    params.insert("fmt", ParamValue::Text("json".to_owned()));
    params
}

} // verus!
