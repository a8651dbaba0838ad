//! The control plane: the state that the pipeline shares with it and the
//! answers of its four services.

pub mod cpu_metrics;
pub mod services;
pub mod state;

pub use state::{CdcConfig, CdcState, Stage};

use crate::text::{decimal, decimal_text};
use vstd::prelude::*;

verus! {

/// The address that the control plane listens on: every interface, at the
/// configured port.
pub fn start_grpc_server(port: u16) -> (r: String)
    ensures
        r@ == "0.0.0.0:"@ + decimal(port as nat),
{
    let mut address = String::from_str("0.0.0.0:");
    address.append(decimal_text(port as u64).as_str());
    address
}

} // verus!
