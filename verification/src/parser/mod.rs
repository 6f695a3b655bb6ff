//! Parsers of the second generation of RediSQL commands
//! (`REDISQL.CREATE_DB`, `REDISQL.EXEC`, `REDISQL.STATEMENT`).
pub mod common;
pub mod create_db;
pub mod exec;
pub mod statement;
