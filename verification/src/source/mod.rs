//! The PostgreSQL side: the bytes of logical replication and what they say.

pub mod encode;
pub mod parser;
pub mod postgres;
pub mod wire;
