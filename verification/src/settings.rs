//! The configuration that the relay recognizes, parsed from plain key/value
//! pairs: the listen port, the two removal flags, the store connection
//! string, the delivery destination and scheme, and the tick period.
//! Missing or malformed settings are fatal at startup only.

use vstd::prelude::*;
use crate::text::{bool_value, numeral_val, parse_bool, parse_u16, parse_u64, parses_as_u16,
    parses_as_u64, str_eq};

verus! {

/// The recognized options, already parsed.
#[derive(Debug)]
pub struct Settings {
    pub reque_service_port: u16,
    pub require_success: bool,
    pub remove_from_queue_on_failure: bool,
    pub database_url: String,
    pub http_dest: String,
    pub http_proto: String,
    pub reque_interval: u64,
}

/// Why a configuration was rejected.
#[derive(Debug, PartialEq, Eq, Structural, Clone, Copy)]
pub enum ConfigError {
    /// A recognized option is absent.
    MissingSetting,
    /// A recognized option is present but does not parse.
    MalformedSetting,
}

/// The value of the first pair carrying `key`, if any.
pub open spec fn lookup(pairs: Seq<(String, String)>, key: Seq<char>) -> Option<Seq<char>>
    decreases pairs.len(),
{
    if pairs.len() == 0 {
        None
    } else if pairs[0].0@ == key {
        Some(pairs[0].1@)
    } else {
        lookup(pairs.drop_first(), key)
    }
}

/// Every recognized option is present.
pub open spec fn all_present(pairs: Seq<(String, String)>) -> bool {
    &&& lookup(pairs, "reque_service_port"@) is Some
    &&& lookup(pairs, "require_success"@) is Some
    &&& lookup(pairs, "remove_from_queue_on_failure"@) is Some
    &&& lookup(pairs, "database_url"@) is Some
    &&& lookup(pairs, "http_dest"@) is Some
    &&& lookup(pairs, "http_proto"@) is Some
    &&& lookup(pairs, "reque_interval"@) is Some
}

/// Every recognized option that needs parsing parses.
pub open spec fn all_parse(pairs: Seq<(String, String)>) -> bool {
    &&& parses_as_u16(lookup(pairs, "reque_service_port"@)->Some_0)
    &&& bool_value(lookup(pairs, "require_success"@)->Some_0) is Some
    &&& bool_value(lookup(pairs, "remove_from_queue_on_failure"@)->Some_0) is Some
    &&& parses_as_u64(lookup(pairs, "reque_interval"@)->Some_0)
}

/// What a well-formed configuration denotes.
pub open spec fn settings_denoted(pairs: Seq<(String, String)>, s: Settings) -> bool {
    &&& s.reque_service_port == numeral_val(lookup(pairs, "reque_service_port"@)->Some_0)
    &&& Some(s.require_success) == bool_value(lookup(pairs, "require_success"@)->Some_0)
    &&& Some(s.remove_from_queue_on_failure) == bool_value(
        lookup(pairs, "remove_from_queue_on_failure"@)->Some_0,
    )
    &&& s.database_url@ == lookup(pairs, "database_url"@)->Some_0
    &&& s.http_dest@ == lookup(pairs, "http_dest"@)->Some_0
    &&& s.http_proto@ == lookup(pairs, "http_proto"@)->Some_0
    &&& s.reque_interval == numeral_val(lookup(pairs, "reque_interval"@)->Some_0)
}

/// The value stored under `key`, if any pair carries it.
fn find_value<'a>(pairs: &'a Vec<(String, String)>, key: &str) -> (r: Option<&'a String>)
    ensures
        match r {
            None => lookup(pairs@, key@) is None,
            Some(v) => lookup(pairs@, key@) == Some(v@),
        },
{
    let n = pairs.len();
    let mut i: usize = 0;
    proof {
        assert(pairs@.skip(0) =~= pairs@);
    }
    while i < n
        invariant
            i <= n,
            n == pairs@.len(),
            lookup(pairs@, key@) == lookup(pairs@.skip(i as int), key@),
        decreases n - i,
    {
        proof {
            assert(pairs@.skip(i as int)[0] == pairs@[i as int]);
            assert(pairs@.skip(i as int).drop_first() =~= pairs@.skip(i + 1));
        }
        if str_eq(pairs[i].0.as_str(), key) {
            return Some(&pairs[i].1);
        }
        i = i + 1;
    }
    proof {
        assert(pairs@.skip(n as int) =~= Seq::<(String, String)>::empty());
    }
    None
}

/// Parse a whole configuration. Returns the denoted settings exactly when
/// every recognized option is present and parses; reports an absent option
/// before a malformed one.
pub fn parse_settings(pairs: &Vec<(String, String)>) -> (r: Result<Settings, ConfigError>)
    ensures
        r is Ok <==> all_present(pairs@) && all_parse(pairs@),
        r == Err::<Settings, ConfigError>(ConfigError::MissingSetting) <==> !all_present(pairs@),
        r == Err::<Settings, ConfigError>(ConfigError::MalformedSetting) <==> all_present(pairs@)
            && !all_parse(pairs@),
        r matches Ok(s) ==> settings_denoted(pairs@, s),
{
    let port_raw = match find_value(pairs, "reque_service_port") {
        Some(v) => v,
        None => {
            return Err(ConfigError::MissingSetting);
        },
    };
    let require_raw = match find_value(pairs, "require_success") {
        Some(v) => v,
        None => {
            return Err(ConfigError::MissingSetting);
        },
    };
    let remove_raw = match find_value(pairs, "remove_from_queue_on_failure") {
        Some(v) => v,
        None => {
            return Err(ConfigError::MissingSetting);
        },
    };
    let database_url = match find_value(pairs, "database_url") {
        Some(v) => v,
        None => {
            return Err(ConfigError::MissingSetting);
        },
    };
    let http_dest = match find_value(pairs, "http_dest") {
        Some(v) => v,
        None => {
            return Err(ConfigError::MissingSetting);
        },
    };
    let http_proto = match find_value(pairs, "http_proto") {
        Some(v) => v,
        None => {
            return Err(ConfigError::MissingSetting);
        },
    };
    let interval_raw = match find_value(pairs, "reque_interval") {
        Some(v) => v,
        None => {
            return Err(ConfigError::MissingSetting);
        },
    };
    let reque_service_port = match parse_u16(port_raw.as_str()) {
        Some(v) => v,
        None => {
            return Err(ConfigError::MalformedSetting);
        },
    };
    let require_success = match parse_bool(require_raw.as_str()) {
        Some(v) => v,
        None => {
            return Err(ConfigError::MalformedSetting);
        },
    };
    let remove_from_queue_on_failure = match parse_bool(remove_raw.as_str()) {
        Some(v) => v,
        None => {
            return Err(ConfigError::MalformedSetting);
        },
    };
    let reque_interval = match parse_u64(interval_raw.as_str()) {
        Some(v) => v,
        None => {
            return Err(ConfigError::MalformedSetting);
        },
    };
    Ok(
        Settings {
            reque_service_port,
            require_success,
            remove_from_queue_on_failure,
            database_url: database_url.clone(),
            http_dest: http_dest.clone(),
            http_proto: http_proto.clone(),
            reque_interval,
        },
    )
}

} // verus!
