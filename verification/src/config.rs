//! The process configuration, read from the positional arguments
//! `[PORT [MAX_UPLOAD]]`.
use vstd::prelude::*;
use vstd::string::*;
use crate::decimal::{numeral, parse, read, render};

verus! {

/// The port that is listened on when none is given.
pub const DEFAULT_PORT: u16 = 8000;

/// The ceiling on upload sizes, in bytes, when none is given: 500 MiB.
pub const DEFAULT_MAX_UPLOAD_SIZE: u64 = 1024 * 1024 * 500;

/// The largest port number.
pub const MAX_PORT: u64 = 65535;

/// Which argument could not be read.
#[derive(Clone, Copy, Debug, PartialEq, Eq, Structural)]
pub enum ConfigError {
    /// The first argument is no port number.
    InvalidPort,
    /// The second argument is no byte count.
    InvalidMaxUpload,
}

/// What the service runs with.
#[derive(Clone, Copy, Debug, PartialEq, Eq, Structural)]
pub struct Config {
    /// The port to listen on.
    pub port: u16,
    /// The ceiling on declared upload sizes in bytes; zero for none.
    pub max_upload_size: u64,
}

/// The value of an optional argument: the default where it is absent, the
/// number it spells where it spells one no greater than `max`, and nothing
/// otherwise.
pub open spec fn arg_value(arg: Option<Seq<char>>, default: nat, max: nat) -> Option<nat> {
    match arg {
        None => Some(default),
        Some(text) => parse(text, max),
    }
}

/// The characters of an optional argument.
pub open spec fn arg_text(arg: Option<&str>) -> Option<Seq<char>> {
    match arg {
        Some(text) => Some(text@),
        None => None,
    }
}

/// The configuration that the two optional arguments denote. The port is
/// looked at first: if it is bad, the second argument is not read.
pub open spec fn config_of(port: Option<Seq<char>>, max_upload: Option<Seq<char>>) -> Result<
    Config,
    ConfigError,
> {
    match arg_value(port, DEFAULT_PORT as nat, MAX_PORT as nat) {
        None => Err(ConfigError::InvalidPort),
        Some(p) => match arg_value(max_upload, DEFAULT_MAX_UPLOAD_SIZE as nat, u64::MAX as nat) {
            None => Err(ConfigError::InvalidMaxUpload),
            Some(m) => Ok(Config { port: p as u16, max_upload_size: m as u64 }),
        },
    }
}

/// The usage text for the program called `program`.
pub open spec fn usage_text(program: Seq<char>) -> Seq<char> {
    "USAGE\n  "@ + program
        + " [PORT [MAX_UPLOAD]]\n\nDESCRIPTION\n  Simple HTTP-based file upload service.\n\nOPTIONS\n  PORT\n    Port to listen on. Defaults to "@
        + numeral(DEFAULT_PORT as nat)
        + "\n\n  MAX_UPLOAD\n    Maximum file upload size in bytes. Defaults to "@ + numeral(
        (DEFAULT_MAX_UPLOAD_SIZE / 1024 / 1024) as nat,
    )
        + "MB. Set\n    to zero to disable size requirements.\n\nHelp: You might have provided MAX_UPLOAD before PORT\n"@
}

/// Reads one optional numeric argument.
pub fn get_arg(arg_raw: Option<&str>, default: u64, max: u64) -> (value: Option<u64>)
    ensures
        match value {
            Some(v) => arg_value(arg_text(arg_raw), default as nat, max as nat) == Some(v as nat),
            None => arg_value(arg_text(arg_raw), default as nat, max as nat) is None,
        },
{
    match arg_raw {
        Some(text) => read(text, max),
        None => Some(default),
    }
}

impl Config {
    /// Reads the configuration from the two optional arguments.
    pub fn from_args(port: Option<&str>, max_upload: Option<&str>) -> (config: Result<
        Config,
        ConfigError,
    >)
        ensures
            config == config_of(arg_text(port), arg_text(max_upload)),
    {
        let port = match get_arg(port, DEFAULT_PORT as u64, MAX_PORT) {
            Some(p) => p as u16,
            None => {
                return Err(ConfigError::InvalidPort);
            },
        };
        match get_arg(max_upload, DEFAULT_MAX_UPLOAD_SIZE, u64::MAX) {
            Some(max_upload_size) => Ok(Config { port, max_upload_size }),
            None => Err(ConfigError::InvalidMaxUpload),
        }
    }

    /// The configured ceiling as the text that clients are told: its decimal
    /// numeral, `0` standing for no limit.
    pub fn max_size_text(&self) -> (text: String)
        ensures
            text@ == numeral(self.max_upload_size as nat),
    {
        render(self.max_upload_size)
    }
}

/// Builds the usage text that is shown when an argument cannot be read.
pub fn usage(program: &str) -> (text: String)
    ensures
        text@ == usage_text(program@),
{
    let mut text = String::from_str("USAGE\n  ");
    text.append(program);
    text.append(
        " [PORT [MAX_UPLOAD]]\n\nDESCRIPTION\n  Simple HTTP-based file upload service.\n\nOPTIONS\n  PORT\n    Port to listen on. Defaults to ",
    );
    text.append(render(DEFAULT_PORT as u64).as_str());
    text.append("\n\n  MAX_UPLOAD\n    Maximum file upload size in bytes. Defaults to ");
    text.append(render(DEFAULT_MAX_UPLOAD_SIZE / 1024 / 1024).as_str());
    text.append(
        "MB. Set\n    to zero to disable size requirements.\n\nHelp: You might have provided MAX_UPLOAD before PORT\n",
    );
    assert(text@ =~= usage_text(program@));
    text
}

} // verus!
