//! Change-data-capture relay from PostgreSQL logical replication to
//! StarRocks Stream Load: the rules by which the pipeline decodes, batches,
//! builds rows and is controlled, with their contracts.

pub mod text;
pub mod sink;
pub mod grpc;
pub mod config;
pub mod setup;
pub mod source;
pub mod replication;
pub mod pipeline;
pub mod engine;
pub mod state_store;
