//! What can go wrong while the source and the target are prepared.

use vstd::prelude::*;

verus! {

/// A failure of set-up, with the object it concerns and, where there is
/// one, the underlying error text.
#[derive(Debug, Clone, PartialEq, Eq)]
pub enum SetupError {
    PgConnectionFailed { host: String, error: String },
    PgTableNotFound { table: String },
    PgReplicaIdentityFailed { table: String, error: String },
    PgPublicationFailed { name: String, error: String },
    PgSlotFailed { name: String, error: String },
    SrConnectionFailed { host: String, error: String },
    SrTableNotFound { table: String },
    SrAuditColumnsFailed { table: String, error: String },
    CheckpointFailed { error: String },
}

/// A `SetupError` as plain values.
pub enum SetupErrorView {
    PgConnectionFailed { host: Seq<char>, error: Seq<char> },
    PgTableNotFound { table: Seq<char> },
    PgReplicaIdentityFailed { table: Seq<char>, error: Seq<char> },
    PgPublicationFailed { name: Seq<char>, error: Seq<char> },
    PgSlotFailed { name: Seq<char>, error: Seq<char> },
    SrConnectionFailed { host: Seq<char>, error: Seq<char> },
    SrTableNotFound { table: Seq<char> },
    SrAuditColumnsFailed { table: Seq<char>, error: Seq<char> },
    CheckpointFailed { error: Seq<char> },
}

impl View for SetupError {
    type V = SetupErrorView;

    open spec fn view(&self) -> SetupErrorView {
        match self {
            SetupError::PgConnectionFailed { host, error } => SetupErrorView::PgConnectionFailed {
                host: host@,
                error: error@,
            },
            SetupError::PgTableNotFound { table } => SetupErrorView::PgTableNotFound {
                table: table@,
            },
            SetupError::PgReplicaIdentityFailed {
                table,
                error,
            } => SetupErrorView::PgReplicaIdentityFailed { table: table@, error: error@ },
            SetupError::PgPublicationFailed {
                name,
                error,
            } => SetupErrorView::PgPublicationFailed { name: name@, error: error@ },
            SetupError::PgSlotFailed { name, error } => SetupErrorView::PgSlotFailed {
                name: name@,
                error: error@,
            },
            SetupError::SrConnectionFailed { host, error } => SetupErrorView::SrConnectionFailed {
                host: host@,
                error: error@,
            },
            SetupError::SrTableNotFound { table } => SetupErrorView::SrTableNotFound {
                table: table@,
            },
            SetupError::SrAuditColumnsFailed {
                table,
                error,
            } => SetupErrorView::SrAuditColumnsFailed { table: table@, error: error@ },
            SetupError::CheckpointFailed { error } => SetupErrorView::CheckpointFailed {
                error: error@,
            },
        }
    }
}

/// The sentence that describes a set-up error to the health check.
pub open spec fn grpc_message(e: SetupErrorView) -> Seq<char> {
    match e {
        SetupErrorView::PgConnectionFailed { host, error } => "PostgreSQL connection failed to '"@
            + host + "': "@ + error,
        SetupErrorView::PgTableNotFound { table } => "Table '"@ + table
            + "' not found in PostgreSQL. Verify the table exists and is accessible."@,
        SetupErrorView::PgReplicaIdentityFailed { table, error } =>
            "Failed to set REPLICA IDENTITY FULL on '"@ + table + "': "@ + error,
        SetupErrorView::PgPublicationFailed { name, error } => "Failed to setup publication '"@
            + name + "': "@ + error,
        SetupErrorView::PgSlotFailed { name, error } => "Failed to setup replication slot '"@
            + name + "': "@ + error,
        SetupErrorView::SrConnectionFailed { host, error } => "StarRocks connection failed to '"@
            + host + "': "@ + error,
        SetupErrorView::SrTableNotFound { table } => "Table '"@ + table
            + "' not found in StarRocks. Create the table before starting CDC."@,
        SetupErrorView::SrAuditColumnsFailed { table, error } =>
            "Failed to add audit columns to StarRocks table '"@ + table + "': "@ + error,
        SetupErrorView::CheckpointFailed { error } => "Checkpoint load failed: "@ + error,
    }
}

/// `before`, `subject`, `between` and `detail` in one text.
fn sentence(before: &str, subject: &str, between: &str, detail: &str) -> (r: String)
    ensures
        r@ == before@ + subject@ + between@ + detail@,
{
    let mut out = String::from_str(before);
    out.append(subject);
    out.append(between);
    out.append(detail);
    out
}

impl SetupError {
    /// The sentence that the health check shows for this error.
    pub fn to_grpc_message(&self) -> (r: String)
        ensures
            r@ == grpc_message(self@),
    {
        match self {
            SetupError::PgConnectionFailed { host, error } => sentence(
                "PostgreSQL connection failed to '",
                host.as_str(),
                "': ",
                error.as_str(),
            ),
            SetupError::PgTableNotFound { table } => {
                let r = sentence(
                    "Table '",
                    table.as_str(),
                    "' not found in PostgreSQL. Verify the table exists and is accessible.",
                    "",
                );
                proof {
                    reveal_strlit("");
                }
                r
            },
            SetupError::PgReplicaIdentityFailed { table, error } => sentence(
                "Failed to set REPLICA IDENTITY FULL on '",
                table.as_str(),
                "': ",
                error.as_str(),
            ),
            SetupError::PgPublicationFailed { name, error } => sentence(
                "Failed to setup publication '",
                name.as_str(),
                "': ",
                error.as_str(),
            ),
            SetupError::PgSlotFailed { name, error } => sentence(
                "Failed to setup replication slot '",
                name.as_str(),
                "': ",
                error.as_str(),
            ),
            SetupError::SrConnectionFailed { host, error } => sentence(
                "StarRocks connection failed to '",
                host.as_str(),
                "': ",
                error.as_str(),
            ),
            SetupError::SrTableNotFound { table } => {
                let r = sentence(
                    "Table '",
                    table.as_str(),
                    "' not found in StarRocks. Create the table before starting CDC.",
                    "",
                );
                proof {
                    reveal_strlit("");
                }
                r
            },
            SetupError::SrAuditColumnsFailed { table, error } => sentence(
                "Failed to add audit columns to StarRocks table '",
                table.as_str(),
                "': ",
                error.as_str(),
            ),
            SetupError::CheckpointFailed { error } => {
                let mut out = String::from_str("Checkpoint load failed: ");
                out.append(error.as_str());
                out
            },
        }
    }
}

} // verus!
