//! Preparing StarRocks: it must answer, the tables must exist, and each must
//! have the four audit columns.

use crate::config::Config;
use crate::setup::error::{SetupError, SetupErrorView};
use crate::setup::postgres::{answer_view, list_answer_view, setup_view, statements_view};
use crate::sink::starrocks::{MysqlTarget, MysqlTargetView, STARROCKS_MYSQL_PORT};
use crate::text::{copy_str, list_contains, split, split_text, trim_start, trim_start_text};
use vstd::prelude::*;

verus! {

/// Asks StarRocks for a sign of life.
pub const PING_QUERY: &'static str = "SELECT 1";

/// Asks whether a table exists; its parameters are the database and the
/// table.
pub const TABLE_EXISTS_QUERY: &'static str =
    "SELECT 1 FROM information_schema.tables WHERE table_schema = ? AND table_name = ?";

/// Asks for the columns of a table; its parameters are the database and the
/// table.
pub const TABLE_COLUMNS_QUERY: &'static str =
    "SELECT COLUMN_NAME FROM information_schema.columns WHERE table_schema = ? AND table_name = ?";

/// The definition of an audit column, by its place in the list of four.
pub open spec fn audit_column(i: int) -> (Seq<char>, Seq<char>) {
    if i == 0 {
        ("dbmazz_op_type"@, "TINYINT COMMENT '0=INSERT, 1=UPDATE, 2=DELETE'"@)
    } else if i == 1 {
        ("dbmazz_is_deleted"@, "BOOLEAN COMMENT 'Soft delete flag'"@)
    } else if i == 2 {
        ("dbmazz_synced_at"@, "DATETIME COMMENT 'Timestamp CDC'"@)
    } else {
        ("dbmazz_cdc_version"@, "BIGINT COMMENT 'LSN PostgreSQL'"@)
    }
}

/// The name of a table in StarRocks, which has no schemas: what stands
/// after the last `.` of the configured name.
pub open spec fn starrocks_table(table: Seq<char>) -> Seq<char> {
    split(table, '.').last()
}

/// The statements that add the audit columns among the first `n` that
/// `existing` lacks.
pub open spec fn audit_statements(
    database: Seq<char>,
    table: Seq<char>,
    existing: Seq<Seq<char>>,
    n: int,
) -> Seq<Seq<char>>
    decreases n,
{
    if n <= 0 {
        Seq::empty()
    } else {
        let before = audit_statements(database, table, existing, n - 1);
        if existing.contains(audit_column(n - 1).0) {
            before
        } else {
            before.push(
                "ALTER TABLE "@ + database + "."@ + table + " ADD COLUMN "@ + audit_column(n - 1).0
                    + " "@ + audit_column(n - 1).1,
            )
        }
    }
}

/// The host of the front end: its URL without `http://` and `https://` at
/// the start, up to the first `:`.
pub open spec fn pool_host(url: Seq<char>) -> Seq<char> {
    split(trim_start(trim_start(url, "http://"@), "https://"@), ':')[0]
}

/// The steps of preparing StarRocks, in order.
#[derive(Debug, Clone, Copy, PartialEq, Eq, Structural)]
pub enum StarRocksStep {
    VerifyConnection,
    VerifyTables,
    AuditColumns,
}

/// Prepares StarRocks for one configuration.
#[derive(Debug, Clone, PartialEq, Eq)]
pub struct StarRocksSetup {
    pub config: Config,
}

fn audit_column_of(i: usize) -> (r: (&'static str, &'static str))
    requires
        i < 4,
    ensures
        r.0@ == audit_column(i as int).0,
        r.1@ == audit_column(i as int).1,
{
    if i == 0 {
        ("dbmazz_op_type", "TINYINT COMMENT '0=INSERT, 1=UPDATE, 2=DELETE'")
    } else if i == 1 {
        ("dbmazz_is_deleted", "BOOLEAN COMMENT 'Soft delete flag'")
    } else if i == 2 {
        ("dbmazz_synced_at", "DATETIME COMMENT 'Timestamp CDC'")
    } else {
        ("dbmazz_cdc_version", "BIGINT COMMENT 'LSN PostgreSQL'")
    }
}

/// The name of a table in StarRocks.
pub fn table_without_schema(table: &str) -> (r: String)
    ensures
        r@ == starrocks_table(table@),
{
    let mut parts = split_text(table, '.');
    match parts.pop() {
        Some(last) => {
            last
        },
        None => copy_str(table),
    }
}

/// Where the set-up connects: the host of the front end's URL, at the MySQL
/// port, with the configured user and database.
pub fn create_starrocks_pool(config: &Config) -> (r: MysqlTarget)
    ensures
        r@ == (MysqlTargetView {
            host: pool_host(config.starrocks_url@),
            port: STARROCKS_MYSQL_PORT,
            user: config.starrocks_user@,
            pass: config.starrocks_pass@,
            database: config.starrocks_db@,
        }),
{
    let without_http = trim_start_text(config.starrocks_url.as_str(), "http://");
    let without_scheme = trim_start_text(without_http.as_str(), "https://");
    let mut pieces = split_text(without_scheme.as_str(), ':');
    MysqlTarget {
        host: pieces.swap_remove(0),
        port: STARROCKS_MYSQL_PORT,
        user: config.starrocks_user.clone(),
        pass: config.starrocks_pass.clone(),
        database: config.starrocks_db.clone(),
    }
}

impl StarRocksSetup {
    pub fn new(config: Config) -> (r: Self)
        ensures
            r.config == config,
    {
        StarRocksSetup { config }
    }

    /// The step after a step, or `None` after the last.
    pub fn run(step: StarRocksStep) -> (r: Option<StarRocksStep>)
        ensures
            r == match step {
                StarRocksStep::VerifyConnection => Some(StarRocksStep::VerifyTables),
                StarRocksStep::VerifyTables => Some(StarRocksStep::AuditColumns),
                StarRocksStep::AuditColumns => None,
            },
    {
        match step {
            StarRocksStep::VerifyConnection => Some(StarRocksStep::VerifyTables),
            StarRocksStep::VerifyTables => Some(StarRocksStep::AuditColumns),
            StarRocksStep::AuditColumns => None,
        }
    }

    /// The error of a connection or query that failed.
    pub fn verify_connection(&self, error: String) -> (r: SetupError)
        ensures
            r@ == (SetupErrorView::SrConnectionFailed {
                host: self.config.starrocks_url@,
                error: error@,
            }),
    {
        SetupError::SrConnectionFailed { host: self.config.starrocks_url.clone(), error }
    }

    /// Judges the answer to whether `table` exists in StarRocks: a failed
    /// query is a failed connection, no row is a table that is not found.
    pub fn verify_tables_exist(&self, table: &str, answer: Result<bool, String>) -> (r: Result<
        (),
        SetupError,
    >)
        ensures
            setup_view(r) == match answer_view(answer) {
                Err(error) => Err(
                    SetupErrorView::SrConnectionFailed { host: self.config.starrocks_url@, error },
                ),
                Ok(false) => Err(SetupErrorView::SrTableNotFound { table: table@ }),
                Ok(true) => Ok(()),
            },
    {
        match answer {
            Err(error) => Err(self.verify_connection(error)),
            Ok(exists) => if exists {
                Ok(())
            } else {
                Err(SetupError::SrTableNotFound { table: copy_str(table) })
            },
        }
    }

    /// The tables whose audit columns are to be looked at: the configured
    /// tables, each without its schema.
    pub fn ensure_audit_columns(&self) -> (r: Vec<String>)
        ensures
            r.deep_view() == self.config.tables.deep_view().map_values(
                |t: Seq<char>| starrocks_table(t),
            ),
    {
        let tables = &self.config.tables;
        let ghost wanted = tables.deep_view().map_values(|t: Seq<char>| starrocks_table(t));
        let mut out: Vec<String> = Vec::new();
        let mut i: usize = 0;
        while i < tables.len()
            invariant
                i <= tables.len(),
                wanted == tables.deep_view().map_values(|t: Seq<char>| starrocks_table(t)),
                out.deep_view() == wanted.take(i as int),
            decreases tables.len() - i,
        {
            let name = table_without_schema(tables[i].as_str());
            let ghost before = out.deep_view();
            out.push(name);
            assert(out.deep_view() == before.push(name@));
            i += 1;
        }
        out
    }

    /// The statements that give `table` the audit columns that it lacks,
    /// given the answer to which columns it has.
    pub fn ensure_audit_columns_for_table(&self, table: &str, columns: Result<Vec<String>, String>) -> (r:
        Result<Vec<String>, SetupError>)
        ensures
            statements_view(r) == match list_answer_view(columns) {
                Err(error) => Err(
                    SetupErrorView::SrConnectionFailed { host: self.config.starrocks_url@, error },
                ),
                Ok(existing) => Ok(audit_statements(self.config.starrocks_db@, table@, existing, 4)),
            },
    {
        match columns {
            Err(error) => Err(self.verify_connection(error)),
            Ok(existing) => {
                let mut out: Vec<String> = Vec::new();
                let mut i: usize = 0;
                while i < 4
                    invariant
                        i <= 4,
                        out.deep_view() == audit_statements(
                            self.config.starrocks_db@,
                            table@,
                            existing.deep_view(),
                            i as int,
                        ),
                    decreases 4 - i,
                {
                    let (name, definition) = audit_column_of(i);
                    if !list_contains(&existing, name) {
                        let mut sql = String::from_str("ALTER TABLE ");
                        sql.append(self.config.starrocks_db.as_str());
                        sql.append(".");
                        sql.append(table);
                        sql.append(" ADD COLUMN ");
                        sql.append(name);
                        sql.append(" ");
                        sql.append(definition);
                        out.push(sql);
                    }
                    i += 1;
                }
                Ok(out)
            },
        }
    }

    /// The error of an audit column that could not be added.
    pub fn audit_columns_failed(table: &str, error: String) -> (r: SetupError)
        ensures
            r@ == (SetupErrorView::SrAuditColumnsFailed { table: table@, error: error@ }),
    {
        SetupError::SrAuditColumnsFailed { table: copy_str(table), error }
    }
}

} // verus!
