//! The StarRocks side: what is loaded, how a load is asked for, and how its
//! answer is read.

pub mod curl_loader;
pub mod starrocks;
