//! Preparing PostgreSQL: the tables must exist and have replica identity
//! `FULL`, the publication must hold them, and the slot must exist. Each
//! function here says which statement a step runs or what its result
//! means; running the statements is the caller's.

use crate::config::Config;
use crate::setup::error::{SetupError, SetupErrorView};
use crate::text::{
    copy_str, join, join_texts, list_contains, replace, replace_text, split, split_text,
};
use vstd::prelude::*;

verus! {

/// Asks whether a table exists; its parameters are the schema and the name.
pub const TABLE_EXISTS_QUERY: &'static str =
    "SELECT EXISTS (SELECT FROM information_schema.tables WHERE table_schema = $1 AND table_name = $2)";

/// Asks for the replica identity of a table; its parameters are the name
/// and the schema.
pub const REPLICA_IDENTITY_QUERY: &'static str =
    "SELECT c.relreplident FROM pg_class c JOIN pg_namespace n ON c.relnamespace = n.oid WHERE c.relname = $1 AND n.nspname = $2";

/// Asks whether a publication exists; its parameter is the name.
pub const PUBLICATION_EXISTS_QUERY: &'static str =
    "SELECT EXISTS (SELECT 1 FROM pg_publication WHERE pubname = $1)";

/// Asks for the tables of a publication, each as `schema.table`; its
/// parameter is the name of the publication.
pub const PUBLICATION_TABLES_QUERY: &'static str =
    "SELECT schemaname || '.' || tablename as full_name FROM pg_publication_tables WHERE pubname = $1";

/// Asks whether a replication slot exists; its parameter is the name.
pub const SLOT_EXISTS_QUERY: &'static str =
    "SELECT EXISTS (SELECT 1 FROM pg_replication_slots WHERE slot_name = $1)";

/// Creates a logical replication slot for `pgoutput`; its parameter is the
/// name.
pub const CREATE_SLOT_QUERY: &'static str =
    "SELECT pg_create_logical_replication_slot($1, 'pgoutput')";

/// The replica identity `f`, which ships every column of the old image.
pub const REPLICA_IDENTITY_FULL: i8 = 102;

/// The schema of a configured table: what stands before the first `.`, or
/// `public` for a name without one.
pub open spec fn table_schema(table: Seq<char>) -> Seq<char> {
    let parts = split(table, '.');
    if parts.len() > 1 {
        parts[0]
    } else {
        "public"@
    }
}

/// The name of a configured table without its schema: what stands between
/// the first and the second `.`, or the whole name where it has none.
pub open spec fn table_name(table: Seq<char>) -> Seq<char> {
    let parts = split(table, '.');
    if parts.len() > 1 {
        parts[1]
    } else {
        parts[0]
    }
}

/// A connection string without the parameter that asks for a replication
/// connection.
pub open spec fn plain_url(database_url: Seq<char>) -> Seq<char> {
    replace(database_url, "?replication=database"@, Seq::empty())
}

/// A table name with its schema: the name itself where it holds a `.`, else
/// the name in `public`.
pub open spec fn qualified(table: Seq<char>) -> Seq<char> {
    if table.contains('.') {
        table
    } else {
        "public."@ + table
    }
}

/// Whether a table is missing from the tables of a publication: neither its
/// qualified name nor its name as configured is among them.
pub open spec fn is_missing(existing: Seq<Seq<char>>, table: Seq<char>) -> bool {
    !existing.contains(qualified(table)) && !existing.contains(table)
}

/// The configured tables that are missing from a publication, in order.
pub open spec fn missing_tables(existing: Seq<Seq<char>>, tables: Seq<Seq<char>>) -> Seq<
    Seq<char>,
>
    decreases tables.len(),
{
    if tables.len() == 0 {
        Seq::empty()
    } else {
        let before = missing_tables(existing, tables.drop_last());
        if is_missing(existing, tables.last()) {
            before.push(tables.last())
        } else {
            before
        }
    }
}

/// The statement that adds a table to a publication.
pub open spec fn add_table_statement(publication: Seq<char>, table: Seq<char>) -> Seq<char> {
    "ALTER PUBLICATION "@ + publication + " ADD TABLE "@ + table
}

/// The statements that add tables to a publication, one for each table.
pub open spec fn add_table_statements(publication: Seq<char>, tables: Seq<Seq<char>>) -> Seq<
    Seq<char>,
> {
    tables.map_values(|t: Seq<char>| add_table_statement(publication, t))
}

/// The statement that creates a publication for tables.
pub open spec fn create_publication_statement(
    publication: Seq<char>,
    tables: Seq<Seq<char>>,
) -> Seq<char> {
    "CREATE PUBLICATION "@ + publication + " FOR TABLE "@ + join(tables, ", "@)
}

/// The statements that bring a publication to hold the tables: where it
/// exists, one statement for each table that it lacks, given the answer to
/// which tables it holds; where it does not, one statement that creates it
/// for all the tables.
pub open spec fn publication_statements(
    publication: Seq<char>,
    tables: Seq<Seq<char>>,
    exists: bool,
    published: Result<Seq<Seq<char>>, Seq<char>>,
) -> Result<Seq<Seq<char>>, SetupErrorView> {
    if exists {
        match published {
            Err(error) => Err(SetupErrorView::PgPublicationFailed { name: publication, error }),
            Ok(existing) => Ok(add_table_statements(publication, missing_tables(existing, tables))),
        }
    } else {
        Ok(seq![create_publication_statement(publication, tables)])
    }
}

/// The plain values of a set-up outcome.
pub open spec fn setup_view(r: Result<(), SetupError>) -> Result<(), SetupErrorView> {
    match r {
        Ok(_) => Ok(()),
        Err(e) => Err(e@),
    }
}

/// The plain values of a statement or the error in its place.
pub open spec fn statement_view(r: Result<Option<String>, SetupError>) -> Result<
    Option<Seq<char>>,
    SetupErrorView,
> {
    match r {
        Ok(Some(s)) => Ok(Some(s@)),
        Ok(None) => Ok(None),
        Err(e) => Err(e@),
    }
}

/// The plain values of statements or the error in their place.
pub open spec fn statements_view(r: Result<Vec<String>, SetupError>) -> Result<
    Seq<Seq<char>>,
    SetupErrorView,
> {
    match r {
        Ok(s) => Ok(s.deep_view()),
        Err(e) => Err(e@),
    }
}

/// The plain values of a query's answer.
pub open spec fn answer_view<T>(r: Result<T, String>) -> Result<T, Seq<char>> {
    match r {
        Ok(v) => Ok(v),
        Err(e) => Err(e@),
    }
}

/// The plain values of a query's answer that is a list of texts.
pub open spec fn list_answer_view(r: Result<Vec<String>, String>) -> Result<
    Seq<Seq<char>>,
    Seq<char>,
> {
    match r {
        Ok(v) => Ok(v.deep_view()),
        Err(e) => Err(e@),
    }
}

/// The steps of preparing PostgreSQL, in order.
#[derive(Debug, Clone, Copy, PartialEq, Eq, Structural)]
pub enum PostgresStep {
    VerifyTables,
    ReplicaIdentity,
    Publication,
    ReplicationSlot,
}

/// Prepares PostgreSQL for one configuration.
#[derive(Debug, Clone, PartialEq, Eq)]
pub struct PostgresSetup {
    pub config: Config,
}

/// The schema and the name of a configured table.
pub fn split_table(table: &str) -> (r: (String, String))
    ensures
        r.0@ == table_schema(table@),
        r.1@ == table_name(table@),
{
    let mut parts = split_text(table, '.');
    if parts.len() > 1 {
        let name = parts.swap_remove(1);
        let schema = parts.swap_remove(0);
        (schema, name)
    } else {
        (copy_str("public"), parts.swap_remove(0))
    }
}

/// Whether the text holds the character.
pub fn has_char(s: &str, c: char) -> (r: bool)
    ensures
        r == s@.contains(c),
{
    let v = crate::text::chars_of(s);
    let mut i: usize = 0;
    while i < v.len()
        invariant
            i <= v.len(),
            v@ == s@,
            forall|j: int| 0 <= j < i ==> v@[j] != c,
        decreases v.len() - i,
    {
        if v[i] == c {
            return true;
        }
        i += 1;
    }
    false
}

/// Opens a connection for set-up: the connection string without the
/// parameter that asks for a replication connection.
pub fn create_postgres_client(database_url: &str) -> (r: String)
    ensures
        r@ == plain_url(database_url@),
{
    proof {
        reveal_strlit("");
        assert(""@ =~= Seq::<char>::empty());
    }
    replace_text(database_url, "?replication=database", "")
}

/// The error of a connection for set-up that could not be opened.
pub fn connection_failed(clean_url: &str, error: String) -> (r: SetupError)
    ensures
        r@ == (SetupErrorView::PgConnectionFailed { host: clean_url@, error: error@ }),
{
    SetupError::PgConnectionFailed { host: copy_str(clean_url), error }
}

impl PostgresSetup {
    pub fn new(config: Config) -> (r: Self)
        ensures
            r.config == config,
    {
        PostgresSetup { config }
    }

    /// The step after a step, or `None` after the last.
    pub fn run(step: PostgresStep) -> (r: Option<PostgresStep>)
        ensures
            r == match step {
                PostgresStep::VerifyTables => Some(PostgresStep::ReplicaIdentity),
                PostgresStep::ReplicaIdentity => Some(PostgresStep::Publication),
                PostgresStep::Publication => Some(PostgresStep::ReplicationSlot),
                PostgresStep::ReplicationSlot => None,
            },
    {
        match step {
            PostgresStep::VerifyTables => Some(PostgresStep::ReplicaIdentity),
            PostgresStep::ReplicaIdentity => Some(PostgresStep::Publication),
            PostgresStep::Publication => Some(PostgresStep::ReplicationSlot),
            PostgresStep::ReplicationSlot => None,
        }
    }

    /// Judges the answer to whether `table` exists: a failed query is a
    /// failed connection, a table that does not exist is not found.
    pub fn verify_tables_exist(table: &str, answer: Result<bool, String>) -> (r: Result<
        (),
        SetupError,
    >)
        ensures
            setup_view(r) == match answer_view(answer) {
                Err(error) => Err(
                    SetupErrorView::PgConnectionFailed { host: "PostgreSQL"@, error },
                ),
                Ok(false) => Err(SetupErrorView::PgTableNotFound { table: table@ }),
                Ok(true) => Ok(()),
            },
    {
        match answer {
            Err(error) => Err(
                SetupError::PgConnectionFailed { host: copy_str("PostgreSQL"), error },
            ),
            Ok(exists) => if exists {
                Ok(())
            } else {
                Err(SetupError::PgTableNotFound { table: copy_str(table) })
            },
        }
    }

    /// The statement that gives `table` replica identity `FULL`, where its
    /// identity is another one; a failed query is a failed connection.
    pub fn ensure_replica_identity(table: &str, identity: Result<i8, String>) -> (r: Result<
        Option<String>,
        SetupError,
    >)
        ensures
            statement_view(r) == match answer_view(identity) {
                Err(error) => Err(
                    SetupErrorView::PgConnectionFailed { host: "PostgreSQL"@, error },
                ),
                Ok(current) => if current == REPLICA_IDENTITY_FULL {
                    Ok(None)
                } else {
                    Ok(Some("ALTER TABLE "@ + table@ + " REPLICA IDENTITY FULL"@))
                },
            },
    {
        match identity {
            Err(error) => Err(
                SetupError::PgConnectionFailed { host: copy_str("PostgreSQL"), error },
            ),
            Ok(current) => if current == REPLICA_IDENTITY_FULL {
                Ok(None)
            } else {
                let mut sql = String::from_str("ALTER TABLE ");
                sql.append(table);
                sql.append(" REPLICA IDENTITY FULL");
                Ok(Some(sql))
            },
        }
    }

    /// The error of a replica identity that could not be set.
    pub fn replica_identity_failed(table: &str, error: String) -> (r: SetupError)
        ensures
            r@ == (SetupErrorView::PgReplicaIdentityFailed { table: table@, error: error@ }),
    {
        SetupError::PgReplicaIdentityFailed { table: copy_str(table), error }
    }

    /// The error of a step on the publication that failed.
    pub fn publication_failed(&self, error: String) -> (r: SetupError)
        ensures
            r@ == (SetupErrorView::PgPublicationFailed {
                name: self.config.publication_name@,
                error: error@,
            }),
    {
        SetupError::PgPublicationFailed { name: self.config.publication_name.clone(), error }
    }

    /// The statements that bring the publication to hold the configured
    /// tables. `published` is the answer to which tables it holds, and is
    /// looked at only where the publication exists.
    pub fn ensure_publication(&self, exists: bool, published: Result<Vec<String>, String>) -> (r:
        Result<Vec<String>, SetupError>)
        ensures
            statements_view(r) == publication_statements(
                self.config.publication_name@,
                self.config.tables.deep_view(),
                exists,
                list_answer_view(published),
            ),
    {
        if exists {
            match published {
                Err(error) => Err(self.publication_failed(error)),
                Ok(existing) => {
                    let missing = self.get_missing_tables_in_publication(&existing);
                    let mut out: Vec<String> = Vec::new();
                    let mut i: usize = 0;
                    let ghost wanted = add_table_statements(
                        self.config.publication_name@,
                        missing.deep_view(),
                    );
                    while i < missing.len()
                        invariant
                            i <= missing.len(),
                            wanted == add_table_statements(
                                self.config.publication_name@,
                                missing.deep_view(),
                            ),
                            out.deep_view() == wanted.take(i as int),
                        decreases missing.len() - i,
                    {
                        let mut sql = String::from_str("ALTER PUBLICATION ");
                        sql.append(self.config.publication_name.as_str());
                        sql.append(" ADD TABLE ");
                        sql.append(missing[i].as_str());
                        let ghost before = out.deep_view();
                        out.push(sql);
                        assert(out.deep_view() == before.push(sql@));
                        i += 1;
                    }
                    assert(wanted.take(missing.len() as int) == wanted);
                    Ok(out)
                },
            }
        } else {
            let mut sql = String::from_str("CREATE PUBLICATION ");
            sql.append(self.config.publication_name.as_str());
            sql.append(" FOR TABLE ");
            sql.append(join_texts(&self.config.tables, ", ").as_str());
            let mut out: Vec<String> = Vec::new();
            out.push(sql);
            assert(out.deep_view() =~= seq![sql@]);
            Ok(out)
        }
    }

    /// The configured tables that the publication does not hold, given the
    /// tables that it holds, each as `schema.table`.
    pub fn get_missing_tables_in_publication(&self, existing: &Vec<String>) -> (r: Vec<String>)
        ensures
            r.deep_view() == missing_tables(existing.deep_view(), self.config.tables.deep_view()),
    {
        let tables = &self.config.tables;
        let mut out: Vec<String> = Vec::new();
        let mut i: usize = 0;
        let ghost all = tables.deep_view();
        while i < tables.len()
            invariant
                i <= tables.len(),
                all == tables.deep_view(),
                out.deep_view() == missing_tables(existing.deep_view(), all.take(i as int)),
            decreases tables.len() - i,
        {
            assert(all.take(i + 1).drop_last() == all.take(i as int));
            let table = &tables[i];
            let normalized = if has_char(table.as_str(), '.') {
                table.clone()
            } else {
                let mut q = String::from_str("public.");
                q.append(table.as_str());
                q
            };
            if !list_contains(existing, normalized.as_str()) && !list_contains(
                existing,
                table.as_str(),
            ) {
                out.push(table.clone());
            }
            i += 1;
        }
        assert(all.take(tables.len() as int) == all);
        out
    }

    /// Whether the replication slot is to be created: it is where it does
    /// not exist; a failed query is a failure of the slot.
    pub fn ensure_replication_slot(&self, exists: Result<bool, String>) -> (r: Result<
        bool,
        SetupError,
    >)
        ensures
            match answer_view(exists) {
                Err(error) => r matches Err(e) && e@ == (SetupErrorView::PgSlotFailed {
                    name: self.config.slot_name@,
                    error,
                }),
                Ok(found) => r matches Ok(create) && create == !found,
            },
    {
        match exists {
            Err(error) => Err(
                SetupError::PgSlotFailed { name: self.config.slot_name.clone(), error },
            ),
            Ok(found) => Ok(!found),
        }
    }
}

} // verus!
