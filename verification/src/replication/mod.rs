//! The replication connection: its frames and what each one leads to.

pub mod wal_handler;

pub use wal_handler::{handle_keepalive, handle_xlog_data, parse_replication_message, WalMessage};
