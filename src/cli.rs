//! Command-line options.
use vstd::prelude::*;

use crate::text::str_eq;

verus! {

/// The output format of logging messages to stdout.
#[derive(Debug, Clone, Copy, PartialEq, Eq)]
pub enum Format {
    /// Output events as JSON.
    Json,
    /// Output events in an excessively human-readable format.
    Pretty,
    /// Output events in a human-readable format.
    Compact,
}

/// The error text for a name that is not a format.
pub const UNSUPPORTED_FORMAT: &'static str =
    "unsupported format, must be one of json, pretty, compact, full";

pub open spec fn unsupported_format_message() -> Seq<char> {
    UNSUPPORTED_FORMAT@
}

/// The text that names each format.
pub open spec fn format_name(f: Format) -> Seq<char> {
    match f {
        Format::Json => "json"@,
        Format::Pretty => "pretty"@,
        Format::Compact => "compact"@,
    }
}

impl Default for Format {
    fn default() -> (r: Format)
        ensures
            r == Format::Compact,
    {
        Format::Compact
    }
}

impl Format {
    /// The name of the format.
    pub fn as_str(&self) -> (r: &'static str)
        ensures
            r@ == format_name(*self),
    {
        match self {
            Format::Json => "json",
            Format::Pretty => "pretty",
            Format::Compact => "compact",
        }
    }

    /// Reads a format from its name.
    pub fn parse(s: &str) -> (r: Result<Format, String>)
        ensures
            r matches Ok(f) ==> format_name(f) == s@,
            r is Err <==> (forall|f: Format| format_name(f) != s@),
            r matches Err(e) ==> e@ == unsupported_format_message(),
    {
        if str_eq(s, "json") {
            assert(format_name(Format::Json) == s@);
            Ok(Format::Json)
        } else if str_eq(s, "pretty") {
            assert(format_name(Format::Pretty) == s@);
            Ok(Format::Pretty)
        } else if str_eq(s, "compact") {
            assert(format_name(Format::Compact) == s@);
            Ok(Format::Compact)
        } else {
            proof {
                assert forall|f: Format| format_name(f) != s@ by {
                    match f {
                        Format::Json => {},
                        Format::Pretty => {},
                        Format::Compact => {},
                    }
                }
            }
            Err(UNSUPPORTED_FORMAT.to_string())
        }
    }
}

impl std::str::FromStr for Format {
    type Err = String;

    fn from_str(s: &str) -> (r: Result<Format, String>)
        ensures
            r matches Ok(f) ==> format_name(f) == s@,
            r is Err <==> (forall|f: Format| format_name(f) != s@),
            r matches Err(e) ==> e@ == unsupported_format_message(),
    {
        Format::parse(s)
    }
}

/// Command-line options of the server.
pub struct Opts {
    /// The path to the config file.
    pub config_path: String,
    /// Logging output format to stdout.
    pub format: Format,
}

} // verus!
