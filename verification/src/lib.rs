//! Connector runtime building blocks: a record model, SQL-safety primitives,
//! a cached table schema, checkpointed incremental sources, batched SQL sinks,
//! and a bounded retry policy for network sinks.

pub mod strutil;
pub mod sql;
pub mod text;
pub mod errors;
pub mod record;
pub mod schema;
pub mod sink;
pub mod checkpoint;
pub mod source;
pub mod retry;
pub mod params;
pub mod fmt;
pub mod connector;
pub mod kafka;
pub mod mysql;
pub mod doris;
pub mod victoriametrics;
pub mod victorialogs;
pub mod prometheus;
pub mod elasticsearch;
pub mod clickhouse;
pub mod victorialog;
