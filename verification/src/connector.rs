//! The connector API surface: the specs a factory validates and builds from,
//! and the definition a factory publishes (its identifier, kind, scope,
//! overridable keys and default parameters).

use vstd::prelude::*;
use crate::params::ParamMap;

verus! {

/// Whether a connector definition describes a source or a sink.
#[derive(Debug, Clone, Copy, PartialEq, Eq, Structural)]
pub enum ConnectorScope {
    Source,
    Sink,
}

/// The build-time description of one source instance.
pub struct SourceSpec {
    pub name: String,
    pub kind: String,
    pub connector_id: String,
    pub params: ParamMap,
    pub tags: Vec<String>,
}

/// The build-time description of one sink instance.
pub struct SinkSpec {
    pub name: String,
    pub kind: String,
    pub connector_id: String,
    pub group: String,
    pub params: ParamMap,
    pub filter: Option<String>,
}

/// What a factory publishes about the connector kind it builds.
pub struct ConnectorDef {
    pub id: String,
    pub kind: String,
    pub scope: ConnectorScope,
    pub allow_override: Vec<String>,
    pub default_params: ParamMap,
    pub origin: Option<String>,
}

/// Copies a list of borrowed names into owned strings.
pub fn owned_strings(names: &[&str]) -> (r: Vec<String>)
    ensures
        r.deep_view().len() == names@.len(),
        forall|j: int| 0 <= j < names@.len() ==> (#[trigger] r.deep_view()[j]) == names@[j]@,
{
    let mut out: Vec<String> = Vec::new();
    let mut i: usize = 0;
    while i < names.len()
        invariant
            i <= names@.len(),
            out@.len() == i,
            forall|j: int| 0 <= j < i ==> (#[trigger] out@[j])@ == names@[j]@,
        decreases names@.len() - i,
    {
        let s: &str = names[i];
        out.push(s.to_owned());
        i = i + 1;
    }
    proof {
        assert forall|j: int| 0 <= j < names@.len() implies (#[trigger] out.deep_view()[j])
            == names@[j]@ by {
            assert(out.deep_view()[j] == out@[j]@);
        }
    }
    out
}

} // verus!
