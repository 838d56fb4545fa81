//! The service's settings, and the rules that a loaded set must meet.

use vstd::prelude::*;
use crate::text::joined;

verus! {

/// The settings of one process.
#[derive(Debug, Clone, PartialEq, Eq)]
pub struct Config {
    pub rust_log: String,
    pub rust_backtrace: String,
    pub http_port: u16,
    pub pg_dsn: Option<String>,
    pub pg_user: Option<String>,
    pub pg_pass: Option<String>,
    pub pg_db: Option<String>,
    pub pg_host: Option<String>,
    pub keyfile_path: String,
}

/// Why a set of settings is refused.
#[derive(Debug, Clone, Copy, PartialEq, Eq, Structural)]
pub enum ConfigErr {
    /// The port is 0.
    PortZero,
    /// Some of the four database settings are there and some are not.
    PartialPgEnvVars,
    /// The database address and the four database settings disagree.
    DsnMismatch,
    /// Neither the database address nor the four settings are there.
    NoPgDsn,
}

/// The address of the database `db` on `host` for `user` with `pass`.
pub open spec fn postgres_url(user: Seq<char>, pass: Seq<char>, host: Seq<char>, db: Seq<char>) -> Seq<char> {
    "postgres://"@ + user + ":"@ + pass + "@"@ + host + "/"@ + db
}

/// Writes a database address: the scheme, then user and password with a
/// colon between them, an at sign, the host, a slash and the database.
fn format_postgres_url(user: &str, pass: &str, host: &str, db: &str) -> (url: String)
    ensures
        url@ == postgres_url(user@, pass@, host@, db@),
{
    let url = joined("postgres://", user);
    let url = joined(url.as_str(), ":");
    let url = joined(url.as_str(), pass);
    let url = joined(url.as_str(), "@");
    let url = joined(url.as_str(), host);
    let url = joined(url.as_str(), "/");
    let url = joined(url.as_str(), db);
    assert(url@ =~= postgres_url(user@, pass@, host@, db@));
    url
}

impl Config {
    /// All four database settings are there.
    pub open spec fn all_pg_vars(&self) -> bool {
        self.pg_user is Some && self.pg_pass is Some && self.pg_host is Some && self.pg_db is Some
    }

    /// None of the four database settings is there.
    pub open spec fn no_pg_vars(&self) -> bool {
        self.pg_user is None && self.pg_pass is None && self.pg_host is None && self.pg_db is None
    }

    /// The address that the four database settings give.
    pub open spec fn env_dsn(&self) -> Option<Seq<char>> {
        if self.all_pg_vars() {
            Some(
                postgres_url(
                    self.pg_user->Some_0@,
                    self.pg_pass->Some_0@,
                    self.pg_host->Some_0@,
                    self.pg_db->Some_0@,
                ),
            )
        } else {
            None
        }
    }

    /// The database address in force: the one set outright, else the one
    /// that the four settings give.
    pub open spec fn dsn(&self) -> Option<Seq<char>> {
        match self.pg_dsn {
            Some(url) => Some(url@),
            None => self.env_dsn(),
        }
    }

    /// The first rule that the settings break, if any: the port, then the
    /// four database settings, then their agreement with the address.
    pub open spec fn fault(&self) -> Option<ConfigErr> {
        if self.http_port == 0 {
            Some(ConfigErr::PortZero)
        } else if !self.all_pg_vars() && !self.no_pg_vars() {
            Some(ConfigErr::PartialPgEnvVars)
        } else if self.pg_dsn is Some && self.all_pg_vars() && self.env_dsn() != Some(self.pg_dsn->Some_0@) {
            Some(ConfigErr::DsnMismatch)
        } else {
            None
        }
    }

    /// The four database settings as user, password, host and database: all
    /// of them or none.
    pub fn pg_env_vars(&self) -> (res: Result<Option<(&str, &str, &str, &str)>, ConfigErr>)
        ensures
            self.all_pg_vars() ==> res is Ok && res->Ok_0 is Some && {
                let vars = res->Ok_0->Some_0;
                &&& vars.0@ == self.pg_user->Some_0@
                &&& vars.1@ == self.pg_pass->Some_0@
                &&& vars.2@ == self.pg_host->Some_0@
                &&& vars.3@ == self.pg_db->Some_0@
            },
            self.no_pg_vars() ==> res is Ok && res->Ok_0 is None,
            !self.all_pg_vars() && !self.no_pg_vars() ==> res is Err && res->Err_0 == ConfigErr::PartialPgEnvVars,
    {
        match (&self.pg_user, &self.pg_pass, &self.pg_host, &self.pg_db) {
            (Some(u), Some(p), Some(h), Some(db)) => Ok(Some((u.as_str(), p.as_str(), h.as_str(), db.as_str()))),
            (None, None, None, None) => Ok(None),
            _ => Err(ConfigErr::PartialPgEnvVars),
        }
    }

    /// The database address that the four settings give, where all are
    /// there.
    pub fn pg_dsn_from_env_vars(&self) -> (res: Option<String>)
        ensures
            res is Some == self.env_dsn() is Some,
            res matches Some(url) ==> Some(url@) == self.env_dsn(),
    {
        match (&self.pg_host, &self.pg_user, &self.pg_pass, &self.pg_db) {
            (Some(h), Some(u), Some(p), Some(db)) => Some(
                format_postgres_url(u.as_str(), p.as_str(), h.as_str(), db.as_str()),
            ),
            _ => None,
        }
    }

    /// The database address in force.
    pub fn pg_dsn(&self) -> (res: Result<String, ConfigErr>)
        ensures
            match self.dsn() {
                Some(url) => res is Ok && res->Ok_0@ == url,
                None => res is Err && res->Err_0 == ConfigErr::NoPgDsn,
            },
    {
        match &self.pg_dsn {
            Some(url) => Ok(url.clone()),
            None => match self.pg_dsn_from_env_vars() {
                Some(url) => Ok(url),
                None => Err(ConfigErr::NoPgDsn),
            },
        }
    }

    /// Holds the settings to their rules and names the first one broken.
    pub fn validate(&self) -> (res: Result<(), ConfigErr>)
        ensures
            match self.fault() {
                Some(e) => res is Err && res->Err_0 == e,
                None => res is Ok,
            },
    {
        if self.http_port == 0 {
            return Err(ConfigErr::PortZero);
        }
        let vars = self.pg_env_vars()?;
        match (&self.pg_dsn, vars) {
            (Some(dsn), Some(_)) => {
                match self.pg_dsn_from_env_vars() {
                    Some(url) => {
                        if url != *dsn {
                            return Err(ConfigErr::DsnMismatch);
                        }
                    },
                    None => {},
                }
            },
            _ => {},
        }
        Ok(())
    }
}

/// The database address of settings that give one.
pub fn pg_dsn(config: &Config) -> (url: String)
    requires
        config.dsn() is Some,
    ensures
        Some(url@) == config.dsn(),
{
    match config.pg_dsn() {
        Ok(url) => url,
        Err(_) => String::new(),
    }
}

/// The port to listen on.
pub fn port(config: &Config) -> (p: u16)
    ensures
        p == config.http_port,
{
    config.http_port
}

} // verus!
