//! Preparing the source and the target before replication starts.

pub mod error;
pub mod postgres;
pub mod starrocks;

pub use error::SetupError;

use crate::config::Config;
use vstd::prelude::*;

verus! {

/// Runs the set-up of both sides from one configuration.
#[derive(Debug, Clone, PartialEq, Eq)]
pub struct SetupManager {
    config: Config,
}

/// The two sides of set-up, in the order in which they are prepared.
#[derive(Debug, Clone, Copy, PartialEq, Eq, Structural)]
pub enum SetupSide {
    Postgres,
    StarRocks,
}

impl SetupManager {
    /// The configuration that the manager holds.
    pub closed spec fn config(&self) -> Config {
        self.config
    }

    /// A manager for `config`.
    pub fn new(config: Config) -> (r: Self)
        ensures
            r.config() == config,
    {
        SetupManager { config }
    }

    /// The configuration that both sides are prepared from.
    pub fn configuration(&self) -> (r: &Config)
        ensures
            *r == self.config(),
    {
        &self.config
    }

    /// What follows the outcome of one side of set-up: PostgreSQL is
    /// prepared first and StarRocks after it; the first failure ends set-up
    /// with its error, and set-up is complete when both have succeeded.
    pub fn run(side: SetupSide, outcome: Result<(), SetupError>) -> (r: Result<
        Option<SetupSide>,
        SetupError,
    >)
        ensures
            match outcome {
                Err(e) => r matches Err(x) && x@ == e@,
                Ok(_) => r matches Ok(next) && next == match side {
                    SetupSide::Postgres => Some(SetupSide::StarRocks),
                    SetupSide::StarRocks => None,
                },
            },
    {
        match outcome {
            Err(e) => Err(e),
            Ok(_) => match side {
                SetupSide::Postgres => Ok(Some(SetupSide::StarRocks)),
                SetupSide::StarRocks => Ok(None),
            },
        }
    }
}

} // verus!
