//! Configuration resolution: built-in defaults overridden field by field
//! by whatever override values the caller hands in (taken from the
//! process environment by the surrounding program).

use vstd::prelude::*;
use vstd::string::StringExecFns;
use vstd::string::StrSliceExecFns;

verus! {

pub struct ServerConfig {
    pub host: String,
    pub port: u16,
}

pub struct DatabaseConfig {
    pub url: String,
}

pub struct AppConfig {
    pub server: ServerConfig,
    pub database: DatabaseConfig,
}

/// The configuration could not be resolved: an override value could not
/// be parsed into the expected type. Carries the offending value.
#[derive(Debug)]
pub enum ConfigError {
    InvalidPort(String),
}

impl Default for AppConfig {
    /// The built-in defaults, established before any override is applied.
    fn default() -> (config: AppConfig)
        ensures
            config.server.host@ == "0.0.0.0"@,
            config.server.port == 4567,
            config.database.url@ == "sqlite::memory:"@,
    {
        AppConfig {
            server: ServerConfig { host: String::from_str("0.0.0.0"), port: 4567 },
            database: DatabaseConfig { url: String::from_str("sqlite::memory:") },
        }
    }
}

/// True when `c` is a decimal digit.
pub open spec fn is_dec_digit(c: char) -> bool {
    48 <= c as u32 && c as u32 <= 57
}

/// True when every character of `s` is a decimal digit.
pub open spec fn all_dec_digits(s: Seq<char>) -> bool {
    forall|i: int| 0 <= i < s.len() ==> is_dec_digit(#[trigger] s[i])
}

/// The value of `s` read as a decimal numeral.
pub open spec fn dec_val(s: Seq<char>) -> int
    decreases s.len(),
{
    if s.len() == 0 {
        0
    } else {
        dec_val(s.drop_last()) * 10 + (s.last() as u32 - 48)
    }
}

/// The digits of a port override: the text behind an optional leading
/// `+` sign.
pub open spec fn port_digits(s: Seq<char>) -> Seq<char> {
    if s.len() > 0 && s[0] == '+' {
        s.subrange(1, s.len() as int)
    } else {
        s
    }
}

/// What parsing a port override yields: the decimal value of the text,
/// provided the text — behind an optional leading `+` — is one or more
/// digits and the value fits in a 16-bit unsigned integer; nothing
/// otherwise.
pub open spec fn parse_port_spec(s: Seq<char>) -> Option<u16> {
    if port_digits(s).len() > 0 && all_dec_digits(port_digits(s)) && dec_val(port_digits(s))
        <= 65535 {
        Some(dec_val(port_digits(s)) as u16)
    } else {
        None
    }
}

/// Parses a port override. Returns the port exactly when the text is a
/// digit string, behind an optional leading `+`, whose value fits in
/// 16 bits.
pub fn parse_port(s: &str) -> (result: Option<u16>)
    ensures
        result == parse_port_spec(s@),
{
    let n = s.unicode_len();
    let start: usize = if n > 0 && s.get_char(0) == '+' {
        1
    } else {
        0
    };
    proof {
        assert(port_digits(s@) =~= s@.subrange(start as int, n as int));
    }
    if n == start {
        return None;
    }
    // `value` follows the decimal value of the digits read so far, but
    // saturates at 65536 so that it stays within `u32`.
    let mut value: u32 = 0;
    let mut i: usize = start;
    while i < n
        invariant
            start <= i <= n,
            n == s@.len(),
            port_digits(s@) == s@.subrange(start as int, n as int),
            forall|j: int| start <= j < i ==> is_dec_digit(#[trigger] s@[j]),
            value <= 65536,
            dec_val(s@.subrange(start as int, i as int)) <= 65535 ==> value == dec_val(
                s@.subrange(start as int, i as int),
            ),
            dec_val(s@.subrange(start as int, i as int)) > 65535 ==> value == 65536,
        decreases n - i,
    {
        let c = s.get_char(i);
        let v = c as u32;
        if v < 48 || v > 57 {
            proof {
                assert(port_digits(s@)[i - start as int] == s@[i as int]);
            }
            return None;
        }
        let d = v - 48;
        proof {
            assert(s@.subrange(start as int, i as int + 1).drop_last() =~= s@.subrange(
                start as int,
                i as int,
            ));
            assert(s@.subrange(start as int, i as int + 1).last() == s@[i as int]);
        }
        if value <= 65535 {
            let next = value * 10 + d;
            value = if next > 65535 { 65536 } else { next };
        }
        i += 1;
    }
    proof {
        assert forall|j: int| 0 <= j < port_digits(s@).len() implies is_dec_digit(
            #[trigger] port_digits(s@)[j],
        ) by {
            assert(port_digits(s@)[j] == s@[j + start as int]);
        }
    }
    if value <= 65535 {
        Some(value as u16)
    } else {
        None
    }
}

/// Resolves the configuration: each field starts at its built-in
/// default and is replaced by its override when one is present. Fails
/// exactly when a port override is present that is not a 16-bit decimal
/// numeral, and then carries the offending text.
pub fn load_config(
    host: Option<String>,
    port: Option<String>,
    url: Option<String>,
) -> (result: Result<AppConfig, ConfigError>)
    ensures
        match result {
            Ok(config) => {
                &&& config.server.host@ == (if host is Some {
                    host.unwrap()@
                } else {
                    "0.0.0.0"@
                })
                &&& config.database.url@ == (if url is Some {
                    url.unwrap()@
                } else {
                    "sqlite::memory:"@
                })
                &&& match port {
                    Some(p) => parse_port_spec(p@) == Some(config.server.port),
                    None => config.server.port == 4567,
                }
            },
            Err(e) => {
                &&& port is Some
                &&& parse_port_spec(port.unwrap()@) is None
                &&& (e matches ConfigError::InvalidPort(v) && v@ == port.unwrap()@)
            },
        },
{
    let resolved_port: u16 = match port {
        Some(p) => {
            match parse_port(p.as_str()) {
                Some(v) => v,
                None => {
                    return Err(ConfigError::InvalidPort(p));
                },
            }
        },
        None => 4567,
    };
    let resolved_host: String = match host {
        Some(h) => h,
        None => String::from_str("0.0.0.0"),
    };
    let resolved_url: String = match url {
        Some(u) => u,
        None => String::from_str("sqlite::memory:"),
    };
    Ok(
        AppConfig {
            server: ServerConfig { host: resolved_host, port: resolved_port },
            database: DatabaseConfig { url: resolved_url },
        },
    )
}

} // verus!
