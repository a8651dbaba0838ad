//! The configuration of the process, as its environment gives it.

use crate::text::{
    bounded, copy_str, debug_of_list, debug_text, decimal, decimal_text, opt_text, parse_bounded,
    parse_unsigned, split, split_text, trim_text, trim_ws,
};
use vstd::prelude::*;

verus! {

/// The configuration of the relay.
#[derive(Debug, Clone, PartialEq, Eq)]
pub struct Config {
    pub database_url: String,
    pub slot_name: String,
    pub publication_name: String,
    pub tables: Vec<String>,
    pub starrocks_url: String,
    pub starrocks_port: u16,
    pub starrocks_db: String,
    pub starrocks_user: String,
    pub starrocks_pass: String,
    pub flush_size: usize,
    pub flush_interval_ms: u64,
    pub grpc_port: u16,
}

/// A `Config` as plain values.
pub struct ConfigView {
    pub database_url: Seq<char>,
    pub slot_name: Seq<char>,
    pub publication_name: Seq<char>,
    pub tables: Seq<Seq<char>>,
    pub starrocks_url: Seq<char>,
    pub starrocks_port: u16,
    pub starrocks_db: Seq<char>,
    pub starrocks_user: Seq<char>,
    pub starrocks_pass: Seq<char>,
    pub flush_size: usize,
    pub flush_interval_ms: u64,
    pub grpc_port: u16,
}

impl View for Config {
    type V = ConfigView;

    open spec fn view(&self) -> ConfigView {
        ConfigView {
            database_url: self.database_url@,
            slot_name: self.slot_name@,
            publication_name: self.publication_name@,
            tables: self.tables.deep_view(),
            starrocks_url: self.starrocks_url@,
            starrocks_port: self.starrocks_port,
            starrocks_db: self.starrocks_db@,
            starrocks_user: self.starrocks_user@,
            starrocks_pass: self.starrocks_pass@,
            flush_size: self.flush_size,
            flush_interval_ms: self.flush_interval_ms,
            grpc_port: self.grpc_port,
        }
    }
}

/// The values of the environment variables that the configuration reads,
/// each `None` where the variable is not set or is not text.
#[derive(Debug, Clone, PartialEq, Eq)]
pub struct EnvVars {
    pub database_url: Option<String>,
    pub slot_name: Option<String>,
    pub publication_name: Option<String>,
    pub tables: Option<String>,
    pub starrocks_url: Option<String>,
    pub starrocks_port: Option<String>,
    pub starrocks_db: Option<String>,
    pub starrocks_user: Option<String>,
    pub starrocks_pass: Option<String>,
    pub flush_size: Option<String>,
    pub flush_interval_ms: Option<String>,
    pub grpc_port: Option<String>,
}

/// `EnvVars` as plain values.
pub struct EnvVarsView {
    pub database_url: Option<Seq<char>>,
    pub slot_name: Option<Seq<char>>,
    pub publication_name: Option<Seq<char>>,
    pub tables: Option<Seq<char>>,
    pub starrocks_url: Option<Seq<char>>,
    pub starrocks_port: Option<Seq<char>>,
    pub starrocks_db: Option<Seq<char>>,
    pub starrocks_user: Option<Seq<char>>,
    pub starrocks_pass: Option<Seq<char>>,
    pub flush_size: Option<Seq<char>>,
    pub flush_interval_ms: Option<Seq<char>>,
    pub grpc_port: Option<Seq<char>>,
}

impl View for EnvVars {
    type V = EnvVarsView;

    open spec fn view(&self) -> EnvVarsView {
        EnvVarsView {
            database_url: opt_text(self.database_url),
            slot_name: opt_text(self.slot_name),
            publication_name: opt_text(self.publication_name),
            tables: opt_text(self.tables),
            starrocks_url: opt_text(self.starrocks_url),
            starrocks_port: opt_text(self.starrocks_port),
            starrocks_db: opt_text(self.starrocks_db),
            starrocks_user: opt_text(self.starrocks_user),
            starrocks_pass: opt_text(self.starrocks_pass),
            flush_size: opt_text(self.flush_size),
            flush_interval_ms: opt_text(self.flush_interval_ms),
            grpc_port: opt_text(self.grpc_port),
        }
    }
}

/// A variable without which the relay cannot run is not set.
#[derive(Debug, Clone, Copy, PartialEq, Eq, Structural)]
pub enum ConfigError {
    MissingDatabaseUrl,
    MissingStarrocksUrl,
    MissingStarrocksDb,
}

impl ConfigError {
    /// The text of the error.
    pub open spec fn spec_message(self) -> Seq<char> {
        match self {
            ConfigError::MissingDatabaseUrl => "DATABASE_URL must be set"@,
            ConfigError::MissingStarrocksUrl => "STARROCKS_URL must be set"@,
            ConfigError::MissingStarrocksDb => "STARROCKS_DB must be set"@,
        }
    }

    /// The text of the error.
    pub fn message(self) -> (r: &'static str)
        ensures
            r@ == self.spec_message(),
    {
        match self {
            ConfigError::MissingDatabaseUrl => "DATABASE_URL must be set",
            ConfigError::MissingStarrocksUrl => "STARROCKS_URL must be set",
            ConfigError::MissingStarrocksDb => "STARROCKS_DB must be set",
        }
    }
}

/// The value of a variable, or `default` where it is not set.
pub open spec fn text_or(value: Option<Seq<char>>, default: Seq<char>) -> Seq<char> {
    match value {
        Some(v) => v,
        None => default,
    }
}

/// The number that a variable spells, or `default` where it is not set, is
/// not an unsigned decimal numeral, or is above `max`.
pub open spec fn number_or(value: Option<Seq<char>>, default: u64, max: u64) -> u64 {
    match value {
        Some(v) => match bounded(parse_unsigned(v), max) {
            Some(n) => n,
            None => default,
        },
        None => default,
    }
}

/// The table names of a comma-separated list, each without the white space
/// around it.
pub open spec fn table_list(text: Seq<char>) -> Seq<Seq<char>> {
    split(text, ',').map_values(|t: Seq<char>| trim_ws(t))
}

/// The configuration that the variables give. The three variables without a
/// default are asked for in the order database URL, StarRocks URL, StarRocks
/// database, and the first that is missing is the error.
pub open spec fn config_from(vars: EnvVarsView) -> Result<ConfigView, ConfigError> {
    if vars.database_url is None {
        Err(ConfigError::MissingDatabaseUrl)
    } else if vars.starrocks_url is None {
        Err(ConfigError::MissingStarrocksUrl)
    } else if vars.starrocks_db is None {
        Err(ConfigError::MissingStarrocksDb)
    } else {
        Ok(
            ConfigView {
                database_url: vars.database_url->0,
                slot_name: text_or(vars.slot_name, "dbmazz_slot"@),
                publication_name: text_or(vars.publication_name, "dbmazz_pub"@),
                tables: table_list(text_or(vars.tables, "orders,order_items"@)),
                starrocks_url: vars.starrocks_url->0,
                starrocks_port: number_or(vars.starrocks_port, 9030, u16::MAX as u64) as u16,
                starrocks_db: vars.starrocks_db->0,
                starrocks_user: text_or(vars.starrocks_user, "root"@),
                starrocks_pass: text_or(vars.starrocks_pass, Seq::empty()),
                flush_size: number_or(vars.flush_size, 10000, usize::MAX as u64) as usize,
                flush_interval_ms: number_or(vars.flush_interval_ms, 5000, u64::MAX),
                grpc_port: number_or(vars.grpc_port, 50051, u16::MAX as u64) as u16,
            },
        )
    }
}

/// The plain values of a configuration or the error in its place.
pub open spec fn config_result_view(r: Result<Config, ConfigError>) -> Result<
    ConfigView,
    ConfigError,
> {
    match r {
        Ok(c) => Ok(c@),
        Err(e) => Err(e),
    }
}

fn value_or(value: &Option<String>, default: &str) -> (r: String)
    ensures
        r@ == text_or(opt_text(*value), default@),
{
    match value {
        Some(v) => v.clone(),
        None => copy_str(default),
    }
}

fn parsed_or(value: &Option<String>, default: u64, max: u64) -> (r: u64)
    requires
        default <= max,
    ensures
        r == number_or(opt_text(*value), default, max),
        r <= max,
{
    match value {
        Some(v) => match parse_bounded(v.as_str(), max) {
            Some(n) => n,
            None => default,
        },
        None => default,
    }
}

fn tables_of(text: &str) -> (r: Vec<String>)
    ensures
        r.deep_view() == table_list(text@),
{
    let pieces = split_text(text, ',');
    let mut out: Vec<String> = Vec::new();
    let mut i: usize = 0;
    while i < pieces.len()
        invariant
            i <= pieces.len(),
            pieces.deep_view() == split(text@, ','),
            out.deep_view() == table_list(text@).take(i as int),
        decreases pieces.len() - i,
    {
        let name = trim_text(pieces[i].as_str());
        let ghost before = out.deep_view();
        out.push(name);
        assert(out.deep_view() == before.push(name@));
        i += 1;
    }
    out
}

/// The lines that announce a configuration at start-up.
pub open spec fn banner_lines(config: ConfigView) -> Seq<Seq<char>> {
    seq![
        "Starting dbmazz (High Performance Mode)..."@,
        "Source: Postgres ("@ + config.slot_name + ")"@,
        "Target: StarRocks ("@ + config.starrocks_db + ")"@,
        "Flush: "@ + decimal(config.flush_size as nat) + " msgs or "@ + decimal(
            config.flush_interval_ms as nat,
        ) + "ms interval"@,
        "gRPC: port "@ + decimal(config.grpc_port as nat),
        "Tables: "@ + debug_text(config.tables),
    ]
}

impl Config {
    /// The lines that announce the configuration at start-up.
    pub fn print_banner(&self) -> (r: Vec<String>)
        ensures
            r.deep_view() == banner_lines(self@),
    {
        let mut out: Vec<String> = Vec::new();
        out.push(copy_str("Starting dbmazz (High Performance Mode)..."));
        let mut source = String::from_str("Source: Postgres (");
        source.append(self.slot_name.as_str());
        source.append(")");
        out.push(source);
        let mut target = String::from_str("Target: StarRocks (");
        target.append(self.starrocks_db.as_str());
        target.append(")");
        out.push(target);
        let mut flush = String::from_str("Flush: ");
        flush.append(decimal_text(self.flush_size as u64).as_str());
        flush.append(" msgs or ");
        flush.append(decimal_text(self.flush_interval_ms).as_str());
        flush.append("ms interval");
        out.push(flush);
        let mut grpc = String::from_str("gRPC: port ");
        grpc.append(decimal_text(self.grpc_port as u64).as_str());
        out.push(grpc);
        let mut tables = String::from_str("Tables: ");
        tables.append(debug_of_list(&self.tables).as_str());
        out.push(tables);
        out
    }

    /// The configuration that the environment gives: the three required
    /// variables, and for each other one its value or its default. A number
    /// that does not parse or does not fit its field counts as not set.
    pub fn from_env(vars: &EnvVars) -> (r: Result<Config, ConfigError>)
        ensures
            config_result_view(r) == config_from(vars@),
    {
        let database_url = match &vars.database_url {
            Some(v) => v.clone(),
            None => {
                return Err(ConfigError::MissingDatabaseUrl);
            },
        };
        let starrocks_url = match &vars.starrocks_url {
            Some(v) => v.clone(),
            None => {
                return Err(ConfigError::MissingStarrocksUrl);
            },
        };
        let starrocks_db = match &vars.starrocks_db {
            Some(v) => v.clone(),
            None => {
                return Err(ConfigError::MissingStarrocksDb);
            },
        };
        let tables_text = value_or(&vars.tables, "orders,order_items");
        let starrocks_pass = value_or(&vars.starrocks_pass, "");
        proof {
            reveal_strlit("");
            assert(""@ =~= Seq::<char>::empty());
        }
        let config = Config {
            database_url,
            slot_name: value_or(&vars.slot_name, "dbmazz_slot"),
            publication_name: value_or(&vars.publication_name, "dbmazz_pub"),
            tables: tables_of(tables_text.as_str()),
            starrocks_url,
            starrocks_port: parsed_or(&vars.starrocks_port, 9030, u16::MAX as u64) as u16,
            starrocks_db,
            starrocks_user: value_or(&vars.starrocks_user, "root"),
            starrocks_pass,
            flush_size: parsed_or(&vars.flush_size, 10000, usize::MAX as u64) as usize,
            flush_interval_ms: parsed_or(&vars.flush_interval_ms, 5000, u64::MAX),
            grpc_port: parsed_or(&vars.grpc_port, 50051, u16::MAX as u64) as u16,
        };
        Ok(config)
    }
}

} // verus!
