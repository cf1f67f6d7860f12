//! Assembly of the process configuration from command-line defaults and
//! environment overrides.
//!
//! The two secrets — the moderation API key and the token key — must be
//! present at startup; their absence is reported as a failure that the
//! caller treats as fatal, never as a runtime condition.  Reading the
//! environment happens outside this crate; the values read are handed in
//! as plain optional strings.

use vstd::prelude::*;
use crate::errors::Error;
use crate::parse::parse_u16;
use crate::parse::spec_parse_u16;

verus! {

/// The assembled process configuration.
#[derive(Debug, Clone, PartialEq, Eq)]
pub struct Config {
    /// Which errors are logged (info, warn or error).
    pub log_level: String,
    /// The port the server listens on.
    pub port: u16,
    /// Database user.
    pub db_user: String,
    /// Database password.
    pub db_password: String,
    /// Host of the database.
    pub db_host: String,
    /// Port of the database.
    pub db_port: u16,
    /// Name of the database.
    pub db_name: String,
}

/// The environment values the configuration reads, each absent when the
/// variable is unset.
#[derive(Debug, Clone, PartialEq, Eq)]
pub struct ProcessEnv {
    /// Key for the moderation provider; required.
    pub bad_words_api_key: Option<String>,
    /// Key the token codec encrypts with; required.
    pub token_key: Option<String>,
    /// Server port override.
    pub port: Option<String>,
    /// Database user override.
    pub db_user: Option<String>,
    /// Database password; required.
    pub db_password: Option<String>,
    /// Database host override.
    pub db_host: Option<String>,
    /// Database port override.
    pub db_port: Option<String>,
    /// Database name override.
    pub db_name: Option<String>,
}

/// Which string stands: the environment override when present, else the
/// command-line value.
pub open spec fn spec_override(env: Option<String>, cli: String) -> String {
    match env {
        Some(v) => v,
        None => cli,
    }
}

/// What configuration assembly yields.  Absent secrets or database
/// password are the missing-parameter failure; an unparseable port is the
/// parse failure; the server port defaults to 8080 when the environment
/// does not name one, and every database value falls back to the
/// command-line value.
pub open spec fn spec_config_new(cli: Config, env: ProcessEnv) -> Result<Config, Error> {
    if env.bad_words_api_key is None || env.token_key is None || env.db_password is None {
        Err(Error::MissingParameters)
    } else {
        let port = match env.port {
            Some(s) => spec_parse_u16(s@),
            None => Some(8080u16),
        };
        let db_port = match env.db_port {
            Some(s) => spec_parse_u16(s@),
            None => Some(cli.db_port),
        };
        match (port, db_port) {
            (Some(p), Some(dbp)) => Ok(
                Config {
                    log_level: cli.log_level,
                    port: p,
                    db_user: spec_override(env.db_user, cli.db_user),
                    db_password: env.db_password->Some_0,
                    db_host: spec_override(env.db_host, cli.db_host),
                    db_port: dbp,
                    db_name: spec_override(env.db_name, cli.db_name),
                },
            ),
            _ => Err(Error::ParseError),
        }
    }
}

impl Config {
    /// Assembles the configuration from the command-line values (with
    /// their defaults already applied) and the environment.
    pub fn new(cli: Config, env: ProcessEnv) -> (r: Result<Config, Error>)
        ensures
            r == spec_config_new(cli, env),
    {
        if env.bad_words_api_key.is_none() || env.token_key.is_none() || env.db_password.is_none()
        {
            return Err(Error::MissingParameters);
        }
        let port: u16 = match env.port {
            Some(s) => match parse_u16(s.as_str()) {
                Some(p) => p,
                None => return Err(Error::ParseError),
            },
            None => 8080,
        };
        let db_port: u16 = match env.db_port {
            Some(s) => match parse_u16(s.as_str()) {
                Some(p) => p,
                None => return Err(Error::ParseError),
            },
            None => cli.db_port,
        };
        let db_password: String = match env.db_password {
            Some(p) => p,
            None => vstd::pervasive::unreached(),
        };
        Ok(
            Config {
                log_level: cli.log_level,
                port,
                db_user: match env.db_user {
                    Some(v) => v,
                    None => cli.db_user,
                },
                db_password,
                db_host: match env.db_host {
                    Some(v) => v,
                    None => cli.db_host,
                },
                db_port,
                db_name: match env.db_name {
                    Some(v) => v,
                    None => cli.db_name,
                },
            },
        )
    }
}

} // verus!
