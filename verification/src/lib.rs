//! Verified core of RediSQL: the parsing of the `REDISQL.*` commands, the
//! decisions of the worker that owns a database, the bookkeeping of
//! prepared statements, the parameter rules of multi statements, the
//! answers to clients, the virtual table over Redis hashes, the statistics
//! counters and the error vocabulary.
use vstd::prelude::*;

pub mod commands_v1;
pub mod names;
pub mod parser;
pub mod redis;
pub mod redis_type;
pub mod redisql_error;
pub mod sqlite;
pub mod statistics;
pub mod sync_engine;
pub mod telemetrics;
pub mod virtual_tables;
pub mod text;

verus! {
} // verus!
