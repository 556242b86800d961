//! Service configuration: defaults, validation, and the log level.
use vstd::prelude::*;
use std::sync::OnceLock;
use crate::text::{lower_of, lowercase, same_text};

verus! {

#[verifier::external_type_specification]
#[verifier::external_body]
#[verifier::reject_recursive_types(T)]
pub struct ExOnceLock<T>(OnceLock<T>);

#[derive(Clone, Copy, Debug, PartialEq, Eq, Structural)]
pub enum LogLevel {
    Error,
    Warn,
    Info,
    Debug,
    Trace,
}

/// The level a lowercase name selects; an unknown name selects `Info`.
pub open spec fn level_named(name: Seq<char>) -> LogLevel {
    if name == "error"@ {
        LogLevel::Error
    } else if name == "warn"@ {
        LogLevel::Warn
    } else if name == "debug"@ {
        LogLevel::Debug
    } else if name == "trace"@ {
        LogLevel::Trace
    } else {
        LogLevel::Info
    }
}

/// The level a name selects.
pub fn level_of(name: &str) -> (r: LogLevel)
    ensures
        r == level_named(name@),
{
    if same_text(name, "error") {
        LogLevel::Error
    } else if same_text(name, "warn") {
        LogLevel::Warn
    } else if same_text(name, "debug") {
        LogLevel::Debug
    } else if same_text(name, "trace") {
        LogLevel::Trace
    } else {
        LogLevel::Info
    }
}

pub open spec fn is_digit(c: char) -> bool {
    '0' <= c && c <= '9'
}

/// The number a string of decimal digits spells.
pub open spec fn digits_value(s: Seq<char>) -> int
    decreases s.len(),
{
    if s.len() == 0 {
        0
    } else {
        digits_value(s.drop_last()) * 10 + (s.last() as int - '0' as int)
    }
}

/// The digits of a decimal text, without its optional leading `+`.
pub open spec fn unsigned_digits(s: Seq<char>) -> Seq<char> {
    if s.len() > 0 && s[0] == '+' {
        s.drop_first()
    } else {
        s
    }
}

/// A port number written in decimal: an optional `+`, then at least one
/// digit, with a value that fits in 16 bits.
pub open spec fn port_value(s: Seq<char>) -> Option<u16> {
    let d = unsigned_digits(s);
    if d.len() > 0 && (forall|i: int| 0 <= i < d.len() ==> is_digit(#[trigger] d[i]))
        && digits_value(d) < 0x1_0000 {
        Some(digits_value(d) as u16)
    } else {
        None
    }
}

proof fn lemma_digits_value_nonneg(s: Seq<char>)
    requires
        forall|i: int| 0 <= i < s.len() ==> is_digit(#[trigger] s[i]),
    ensures
        digits_value(s) >= 0,
    decreases s.len(),
{
    if s.len() > 0 {
        lemma_digits_value_nonneg(s.drop_last());
    }
}

proof fn lemma_prefix_value_le(s: Seq<char>, j: int)
    requires
        forall|i: int| 0 <= i < s.len() ==> is_digit(#[trigger] s[i]),
        0 <= j <= s.len(),
    ensures
        digits_value(s.subrange(0, j)) <= digits_value(s),
    decreases s.len() - j,
{
    if j < s.len() {
        lemma_prefix_value_le(s, j + 1);
        let p = s.subrange(0, j + 1);
        let q = s.subrange(0, j);
        assert(p.drop_last() =~= q);
        assert(is_digit(s[j]));
        assert forall|i: int| 0 <= i < q.len() implies is_digit(#[trigger] q[i]) by {
            assert(q[i] == s[i]);
        }
        lemma_digits_value_nonneg(q);
    } else {
        assert(s.subrange(0, j) =~= s);
    }
}

/// Reads a port number, as `u16`'s `FromStr` reads one.
pub fn parse_port(text: &str) -> (r: Option<u16>)
    ensures
        r == port_value(text@),
{
    let n = text.unicode_len();
    if n == 0 {
        return None;
    }
    let start: usize = if text.get_char(0) == '+' { 1 } else { 0 };
    let ghost d = unsigned_digits(text@);
    assert(d =~= text@.subrange(start as int, n as int));
    if start == n {
        return None;
    }
    let mut value: u32 = 0;
    let mut i: usize = start;
    while i < n
        invariant
            n == text@.len(),
            start <= i <= n,
            d == unsigned_digits(text@),
            d =~= text@.subrange(start as int, n as int),
            forall|k: int| 0 <= k < i - start ==> is_digit(#[trigger] d[k]),
            value as int == digits_value(d.subrange(0, i - start)),
            value < 0x1_0000,
        decreases n - i,
    {
        let c = text.get_char(i);
        if !('0' <= c && c <= '9') {
            assert(!is_digit(d[i - start]));
            return None;
        }
        let next: u32 = value * 10 + (c as u32 - '0' as u32);
        assert(d.subrange(0, i + 1 - start).drop_last() =~= d.subrange(0, i - start));
        if next >= 0x1_0000 {
            proof {
                assert forall|k: int| 0 <= k < i + 1 - start implies is_digit(#[trigger] d.subrange(0, i + 1 - start)[k]) by {}
                if forall|k: int| 0 <= k < d.len() ==> is_digit(#[trigger] d[k]) {
                    lemma_prefix_value_le(d, i + 1 - start);
                }
            }
            return None;
        }
        value = next;
        i = i + 1;
    }
    assert(d.subrange(0, n - start) =~= d);
    Some(value as u16)
}

/// Whether the URL validator accepts a string.
pub uninterp spec fn url_accepted(s: Seq<char>) -> bool;

/// Relies on validator's ValidateUrl::validate_url for `&str`, which asks
/// the url crate's parser.
#[verifier::external_body]
fn check_url(s: &str) -> (r: bool)
    ensures
        r == url_accepted(s@),
{
    validator::ValidateUrl::validate_url(&s)
}

/// Raw settings, as read from the environment; `None` where unset.
#[derive(Debug)]
pub struct Settings {
    pub database_url: Option<String>,
    pub host: Option<String>,
    pub port: Option<String>,
    pub log_level: Option<String>,
    pub dockerfile_path: Option<String>,
}

#[derive(Clone, Copy, Debug, PartialEq, Eq, Structural)]
pub enum ConfigError {
    MissingDatabaseUrl,
    PortNotANumber,
    InvalidDatabaseUrl,
    EmptyHost,
    PortOutOfRange,
}

pub const DEFAULT_PORT: u16 = 3000;

/// The validated configuration of the service.
#[derive(Debug)]
pub struct Config {
    pub database_url: String,
    pub host: String,
    pub port: u16,
    pub log_level: LogLevel,
    pub dockerfile_path: String,
}

pub open spec fn host_of(settings: &Settings) -> Seq<char> {
    match settings.host {
        Some(h) => h@,
        None => "0.0.0.0"@,
    }
}

pub open spec fn port_of(settings: &Settings) -> Option<u16> {
    match settings.port {
        Some(p) => port_value(p@),
        None => Some(DEFAULT_PORT),
    }
}

pub open spec fn level_of_settings(settings: &Settings) -> LogLevel {
    match settings.log_level {
        Some(l) => level_named(lower_of(l@)),
        None => LogLevel::Info,
    }
}

/// The first problem with some settings, in field order, or none.
pub open spec fn settings_error(settings: &Settings) -> Option<ConfigError> {
    match settings.database_url {
        None => Some(ConfigError::MissingDatabaseUrl),
        Some(url) => if port_of(settings) is None {
            Some(ConfigError::PortNotANumber)
        } else if !url_accepted(url@) {
            Some(ConfigError::InvalidDatabaseUrl)
        } else if host_of(settings).len() == 0 {
            Some(ConfigError::EmptyHost)
        } else if port_of(settings)->Some_0 < 1 {
            Some(ConfigError::PortOutOfRange)
        } else {
            None
        },
    }
}

impl Config {
    /// The level for a configured name, read case-insensitively; `Info` when none
    /// is configured.
    pub fn get_log_level(name: Option<&str>) -> (r: LogLevel)
        ensures
            name is None ==> r == LogLevel::Info,
            name matches Some(s) ==> r == level_named(lower_of(s@)),
    {
        match name {
            None => LogLevel::Info,
            Some(s) => {
                let lowered = lowercase(s);
                level_of(lowered.as_str())
            },
        }
    }

    /// Builds the configuration from raw settings, with the defaults for what
    /// is unset: host `0.0.0.0`, port 3000, level `info`, Dockerfiles under
    /// `./dockerfiles/`.
    pub fn new(settings: &Settings) -> (r: Result<Config, ConfigError>)
        ensures
            settings_error(settings) matches Some(e) ==> r == Err::<Config, ConfigError>(e),
            settings_error(settings) is None ==> (r matches Ok(c)
                && c.database_url@ == settings.database_url->Some_0@
                && c.host@ == host_of(settings)
                && Some(c.port) == port_of(settings)
                && c.log_level == level_of_settings(settings)
                && (settings.dockerfile_path matches Some(p) ==> c.dockerfile_path@ == p@)
                && (settings.dockerfile_path is None ==> c.dockerfile_path@ == "./dockerfiles/"@)),
    {
        let database_url = match &settings.database_url {
            None => return Err(ConfigError::MissingDatabaseUrl),
            Some(url) => url.clone(),
        };
        let port = match &settings.port {
            None => DEFAULT_PORT,
            Some(p) => match parse_port(p.as_str()) {
                Some(v) => v,
                None => return Err(ConfigError::PortNotANumber),
            },
        };
        if !check_url(database_url.as_str()) {
            return Err(ConfigError::InvalidDatabaseUrl);
        }
        let host = match &settings.host {
            Some(h) => h.clone(),
            None => "0.0.0.0".to_owned(),
        };
        if host.as_str().unicode_len() == 0 {
            return Err(ConfigError::EmptyHost);
        }
        if port < 1 {
            return Err(ConfigError::PortOutOfRange);
        }
        let log_level = match &settings.log_level {
            Some(l) => Config::get_log_level(Some(l.as_str())),
            None => Config::get_log_level(None),
        };
        let dockerfile_path = match &settings.dockerfile_path {
            Some(p) => p.clone(),
            None => "./dockerfiles/".to_owned(),
        };
        Ok(Config { database_url, host, port, log_level, dockerfile_path })
    }

    /// The configuration held in `cell`, loaded from `settings` by the first
    /// call; later calls return what that first call loaded.
    pub fn instance<'a>(cell: &'a OnceLock<Result<Config, ConfigError>>, settings: &Settings) -> (r: Result<
        &'a Config,
        ConfigError,
    >) {
        match load_once(cell, settings) {
            Ok(c) => Ok(c),
            Err(e) => Err(*e),
        }
    }
}

/// Relies on std::sync::OnceLock::get_or_init: the first call runs the loader
/// and stores its outcome, and every call returns the stored outcome. Which
/// call stored it is not known here, so nothing is stated of the value.
#[verifier::external_body]
fn load_once<'a>(cell: &'a OnceLock<Result<Config, ConfigError>>, settings: &Settings) -> (r: &'a Result<
    Config,
    ConfigError,
>) {
    cell.get_or_init(|| Config::new(settings))
}

} // verus!
