//! Validated run parameters: the connection settings for the result store,
//! read from a key/value configuration section, and the panel size taken
//! from the second process argument. The caller reads the raw text; this
//! module decides what it means.

use vstd::prelude::*;

use crate::decimal::all_dec_digits;
use crate::decimal::dec_value;
use crate::decimal::parse_dec_u32;
use crate::error::ConfigError;

verus! {

/// How the result store authenticates the client.
#[derive(Debug, Clone, Copy, PartialEq, Eq, Structural)]
pub enum AuthMode {
    /// Username and password carried in the configuration.
    Credential,
    /// Integrated (trusted) authentication as the running user.
    Integrated,
}

/// Everything needed to open one connection to the result store. Loaded
/// once per invocation and cloned for every fresh connection attempt.
#[derive(Debug, Clone, PartialEq)]
pub struct StoreConnectionParams {
    pub server: String,
    pub port: Option<u16>,
    pub database: Option<String>,
    pub username: String,
    pub password: String,
    pub auth: AuthMode,
}

/// A configuration field that is there and not blank.
pub open spec fn field_present(f: Option<String>) -> bool {
    match f {
        Some(s) => s@.len() > 0,
        None => false,
    }
}

/// A usable PORT value: a short run of digits below 65536.
pub open spec fn valid_port_text(s: Seq<char>) -> bool {
    1 <= s.len() <= 9 && all_dec_digits(s) && dec_value(s) < 65536
}

/// The authentication mode an AUTH value selects: exactly `WIN` means
/// integrated authentication, anything else (or no value) means credentials.
pub open spec fn spec_auth_mode(auth: Option<String>) -> AuthMode {
    match auth {
        Some(a) => if a@ == "WIN"@ {
            AuthMode::Integrated
        } else {
            AuthMode::Credential
        },
        None => AuthMode::Credential,
    }
}

/// Builds the connection parameters from the raw configuration fields.
/// SERVER, USERNAME and PASSWORD are mandatory (absent or blank is a fatal
/// configuration error, checked in that order); DATABASE, PORT and AUTH are
/// optional, with a blank DATABASE meaning the server's default database.
pub fn build_params(
    server: Option<String>,
    username: Option<String>,
    password: Option<String>,
    database: Option<String>,
    port: Option<String>,
    auth: Option<String>,
) -> (r: Result<StoreConnectionParams, ConfigError>)
    ensures
        match r {
            Err(ConfigError::Unreadable) => false,
            Err(ConfigError::MissingSection) => false,
            Err(ConfigError::MissingServer) => !field_present(server),
            Err(ConfigError::MissingUsername) => field_present(server) && !field_present(username),
            Err(ConfigError::MissingPassword) => field_present(server) && field_present(username)
                && !field_present(password),
            Err(ConfigError::InvalidPort) => field_present(server) && field_present(username)
                && field_present(password) && (match port {
                Some(p) => !valid_port_text(p@),
                None => false,
            }),
            Ok(params) => {
                &&& field_present(server)
                &&& field_present(username)
                &&& field_present(password)
                &&& params.server == server->0
                &&& params.username == username->0
                &&& params.password == password->0
                &&& params.database == (if field_present(database) {
                    database
                } else {
                    None::<String>
                })
                &&& (match (port, params.port) {
                    (None, None) => true,
                    (Some(p), Some(v)) => valid_port_text(p@) && v as nat == dec_value(p@),
                    _ => false,
                })
                &&& params.auth == spec_auth_mode(auth)
            },
        },
{
    let server = match server {
        Some(s) => if s.as_str().is_empty() {
            return Err(ConfigError::MissingServer);
        } else {
            s
        },
        None => {
            return Err(ConfigError::MissingServer);
        },
    };
    let username = match username {
        Some(s) => if s.as_str().is_empty() {
            return Err(ConfigError::MissingUsername);
        } else {
            s
        },
        None => {
            return Err(ConfigError::MissingUsername);
        },
    };
    let password = match password {
        Some(s) => if s.as_str().is_empty() {
            return Err(ConfigError::MissingPassword);
        } else {
            s
        },
        None => {
            return Err(ConfigError::MissingPassword);
        },
    };
    let port_value: Option<u16> = match &port {
        Some(p) => match parse_dec_u32(p.as_str()) {
            Some(v) => if v < 65536 {
                Some(v as u16)
            } else {
                return Err(ConfigError::InvalidPort);
            },
            None => {
                return Err(ConfigError::InvalidPort);
            },
        },
        None => None,
    };
    let database = match database {
        Some(d) => if d.as_str().is_empty() {
            None
        } else {
            Some(d)
        },
        None => None,
    };
    let auth_mode = match &auth {
        Some(a) => {
            let win = String::from_str("WIN");
            if *a == win {
                AuthMode::Integrated
            } else {
                AuthMode::Credential
            }
        },
        None => AuthMode::Credential,
    };
    Ok(StoreConnectionParams {
        server,
        port: port_value,
        database,
        username,
        password,
        auth: auth_mode,
    })
}

/// The panel size a second argument selects: a plain decimal number from
/// one to 255 counts; no argument, anything unreadable, zero, or a value
/// out of range falls back to a single board.
pub open spec fn spec_panel_size(arg: Option<Seq<char>>) -> nat {
    match arg {
        None => 1,
        Some(s) => if 1 <= s.len() <= 9 && all_dec_digits(s) && 1 <= dec_value(s) <= 255 {
            dec_value(s)
        } else {
            1
        },
    }
}

/// Reads the optional panel-size argument, falling back to one board.
pub fn parse_panel_size(arg: Option<&str>) -> (n: u8)
    ensures
        n >= 1,
        n as nat == spec_panel_size(
            match arg {
                Some(s) => Some(s@),
                None => None,
            },
        ),
{
    match arg {
        None => 1,
        Some(s) => match parse_dec_u32(s) {
            Some(v) => if 1 <= v && v <= 255 {
                v as u8
            } else {
                1
            },
            None => 1,
        },
    }
}

} // verus!
