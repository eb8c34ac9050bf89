//! Error taxonomy of the connector runtime.
//!
//! Source-side failures distinguish end-of-data, an idle poll and a real
//! upstream fault; sink-side failures distinguish bad configuration, broken
//! sessions, unusable schemas, retryable and terminal I/O, and operations a
//! connector does not support.

use vstd::prelude::*;

verus! {

/// Why a source call failed.
///
/// `Eof` means no more data is available right now (the caller may retry
/// later); `NotData` means the upstream explicitly reported "no message this
/// poll", which is not a failure; `Supplier` is an upstream I/O or protocol
/// fault; `Data` is malformed upstream data; `Other` covers validation-style
/// faults, with the offending field named in the message.
#[derive(Debug, Clone, PartialEq, Eq)]
pub enum SourceReason {
    Eof,
    NotData,
    Supplier(String),
    Data(String),
    Other(String),
}

/// The operator-visible text of a source failure.
pub open spec fn source_reason_text(r: SourceReason) -> Seq<char> {
    match r {
        SourceReason::Eof => "end of data"@,
        SourceReason::NotData => "no data this poll"@,
        SourceReason::Supplier(m) => m@,
        SourceReason::Data(m) => m@,
        SourceReason::Other(m) => m@,
    }
}

impl SourceReason {
    /// Renders the failure for an operator.
    pub fn message(&self) -> (r: String)
        ensures
            r@ == source_reason_text(*self),
    {
        match self {
            SourceReason::Eof => "end of data".to_owned(),
            SourceReason::NotData => "no data this poll".to_owned(),
            SourceReason::Supplier(m) => m.clone(),
            SourceReason::Data(m) => m.clone(),
            SourceReason::Other(m) => m.clone(),
        }
    }
}

/// Why a sink call failed.
///
/// `Validation` is bad or missing configuration, caught before any
/// connection attempt; `Connection` means no session to the external system
/// could be established or re-established; `Schema` means introspection gave
/// no usable column list; `Transient` is an I/O fault eligible for retry;
/// `Terminal` is a rejected request or malformed data, not eligible for
/// retry; `Unsupported` marks a capability the connector does not implement.
#[derive(Debug, Clone, PartialEq, Eq)]
pub enum SinkReason {
    Validation(String),
    Connection(String),
    Schema(String),
    Transient(String),
    Terminal(String),
    Unsupported(String),
}

/// The operator-visible text of a sink failure.
pub open spec fn sink_reason_text(r: SinkReason) -> Seq<char> {
    match r {
        SinkReason::Validation(m) => m@,
        SinkReason::Connection(m) => m@,
        SinkReason::Schema(m) => m@,
        SinkReason::Transient(m) => m@,
        SinkReason::Terminal(m) => m@,
        SinkReason::Unsupported(m) => m@,
    }
}

impl SinkReason {
    /// Renders the failure for an operator.
    pub fn message(&self) -> (r: String)
        ensures
            r@ == sink_reason_text(*self),
    {
        match self {
            SinkReason::Validation(m) => m.clone(),
            SinkReason::Connection(m) => m.clone(),
            SinkReason::Schema(m) => m.clone(),
            SinkReason::Transient(m) => m.clone(),
            SinkReason::Terminal(m) => m.clone(),
            SinkReason::Unsupported(m) => m.clone(),
        }
    }
}

} // verus!
