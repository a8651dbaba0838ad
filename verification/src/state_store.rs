//! The checkpoint of a slot: the LSN up to which the sink has taken the
//! stream, kept in a table of the source database. Here are the statements
//! and the values that go in and come out of them.

use crate::sink::starrocks::{cdc_version, cdc_version_of};
use crate::text::{copy_str, replace, replace_text};
use vstd::prelude::*;

verus! {

/// Creates the table of checkpoints.
pub const CREATE_CHECKPOINTS_TABLE: &'static str =
    "CREATE TABLE IF NOT EXISTS dbmazz_checkpoints (slot_name TEXT PRIMARY KEY, lsn BIGINT NOT NULL, updated_at TIMESTAMP WITH TIME ZONE DEFAULT NOW())";

/// Writes the checkpoint of a slot, over the one that is there; its
/// parameters are the slot and the LSN.
pub const SAVE_CHECKPOINT: &'static str =
    "INSERT INTO dbmazz_checkpoints (slot_name, lsn) VALUES ($1, $2) ON CONFLICT (slot_name) DO UPDATE SET lsn = EXCLUDED.lsn, updated_at = NOW()";

/// Reads the checkpoint of a slot; its parameter is the slot.
pub const LOAD_CHECKPOINT: &'static str =
    "SELECT lsn FROM dbmazz_checkpoints WHERE slot_name = $1";

/// A connection string without the parameter that asks for a replication
/// connection, wherever among the parameters it stands.
pub open spec fn checkpoint_url(database_url: Seq<char>) -> Seq<char> {
    replace(
        replace(
            replace(database_url, "?replication=database"@, Seq::empty()),
            "&replication=database"@,
            Seq::empty(),
        ),
        "replication=database&"@,
        Seq::empty(),
    )
}

/// The LSN that a stored number stands for: the unsigned number that
/// carries the same bits.
pub open spec fn stored_lsn(stored: i64) -> u64 {
    if stored >= 0 {
        stored as u64
    } else {
        (stored + 0x1_0000_0000_0000_0000) as u64
    }
}

/// A checkpoint that is saved and loaded again is the same LSN.
pub proof fn lemma_checkpoint_round_trip(lsn: u64)
    ensures
        stored_lsn(cdc_version(lsn)) == lsn,
{
}

/// The store of checkpoints.
#[derive(Debug, Clone, PartialEq, Eq)]
pub struct StateStore {
    /// The connection string of an ordinary connection to the source.
    pub url: String,
}

impl StateStore {
    /// The store in the database that `database_url` names.
    pub fn new(database_url: &str) -> (r: Self)
        ensures
            r.url@ == checkpoint_url(database_url@),
    {
        proof {
            reveal_strlit("");
            assert(""@ =~= Seq::<char>::empty());
        }
        let a = replace_text(database_url, "?replication=database", "");
        let b = replace_text(a.as_str(), "&replication=database", "");
        let c = replace_text(b.as_str(), "replication=database&", "");
        StateStore { url: c }
    }

    /// The parameters with which the checkpoint of `slot` is saved: the slot
    /// and the LSN as the signed number that the table holds.
    pub fn save_checkpoint(slot: &str, lsn: u64) -> (r: (String, i64))
        ensures
            r.0@ == slot@,
            r.1 == cdc_version(lsn),
            stored_lsn(r.1) == lsn,
    {
        (copy_str(slot), cdc_version_of(lsn))
    }

    /// The checkpoint that the row of a slot holds; `None` where the slot
    /// has no row.
    pub fn load_checkpoint(row: Option<i64>) -> (r: Option<u64>)
        ensures
            r == match row {
                Some(stored) => Some(stored_lsn(stored)),
                None => None,
            },
    {
        match row {
            Some(stored) => {
                if stored >= 0 {
                    Some(stored as u64)
                } else {
                    let low: u64 = (stored - i64::MIN) as u64;
                    Some(low + 0x8000_0000_0000_0000)
                }
            },
            None => None,
        }
    }
}

} // verus!
