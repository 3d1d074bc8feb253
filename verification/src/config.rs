use std::path::PathBuf;
use vstd::prelude::*;
use vstd::string::StrSliceExecFns;

verus! {

/// `std::path::PathBuf`, which is carried through and never looked into.
#[verifier::external_type_specification]
#[verifier::external_body]
pub struct ExPathBuf(PathBuf);

/// The port of the web server where none is configured.
pub const DEFAULT_PORT: u16 = 3000;

/// The environment variable that names the file of the database.
pub const DATABASE_VARIABLE: &'static str = "DOCKET_DB_PATH";

/// The environment variable that names the port of the web server.
pub const PORT_VARIABLE: &'static str = "DOCKET_PORT";

/// The name of the database file in the configuration directory.
pub const DATABASE_FILE: &'static str = "docket.db";

/// The settings of the program.
#[derive(Debug)]
pub struct Config {
    pub database_path: PathBuf,
    pub server_port: u16,
}

/// What the program is started as.
#[derive(Clone, Copy, Debug, PartialEq, Eq, Structural)]
pub enum Launch {
    /// The web server on the given port.
    Server(u16),
    /// The terminal interface.
    Terminal,
}

/// The value of a decimal digit.
pub open spec fn digit_value(c: char) -> Option<nat> {
    if '0' as u32 <= c as u32 <= '9' as u32 {
        Some((c as u32 - '0' as u32) as nat)
    } else {
        None
    }
}

/// The number that a run of decimal digits writes, 0 for the empty run, and
/// none where something else than a digit stands in it.
pub open spec fn decimal_value(digits: Seq<char>) -> Option<nat>
    decreases digits.len(),
{
    if digits.len() == 0 {
        Some(0)
    } else {
        match (decimal_value(digits.drop_last()), digit_value(digits.last())) {
            (Some(front), Some(digit)) => Some(10 * front + digit),
            _ => None,
        }
    }
}

/// The port that a text writes: digits, with `+` before them or not, that make
/// a number of at most 65535. Anything else, white space too, writes none.
pub open spec fn port_written(text: Seq<char>) -> Option<u16> {
    let digits = if text.len() > 0 && text[0] == '+' {
        text.drop_first()
    } else {
        text
    };
    if digits.len() == 0 {
        None
    } else {
        port_of_digits(digits)
    }
}

/// The port that a run of digits writes: their number, if it is at most 65535.
pub open spec fn port_of_digits(digits: Seq<char>) -> Option<u16> {
    match decimal_value(digits) {
        Some(value) => if value <= u16::MAX {
            Some(value as u16)
        } else {
            None
        },
        None => None,
    }
}

/// The port for the web server: the one that `text` writes, else the default.
pub open spec fn port_or_default(text: Option<Seq<char>>) -> u16 {
    match text {
        Some(text) => match port_written(text) {
            Some(port) => port,
            None => DEFAULT_PORT,
        },
        None => DEFAULT_PORT,
    }
}

/// A run of digits writes a number that is no less than the number that any
/// of its beginnings writes; and where a beginning writes none, neither does
/// the run.
pub proof fn lemma_decimal_value_grows(digits: Seq<char>, n: int)
    requires
        0 <= n <= digits.len(),
    ensures
        decimal_value(digits) matches Some(value) ==> decimal_value(digits.take(n)) matches Some(front)
            && front <= value,
    decreases digits.len(),
{
    if n == digits.len() {
        assert(digits.take(n) =~= digits);
    } else {
        lemma_decimal_value_grows(digits.drop_last(), n);
        assert(digits.drop_last().take(n) =~= digits.take(n));
    }
}

/// The value of a decimal digit.
fn digit_of(c: char) -> (r: Option<u32>)
    ensures
        r is Some == digit_value(c) is Some,
        r matches Some(d) ==> digit_value(c) == Some(d as nat) && d <= 9,
{
    let code = c as u32;
    if 48 <= code && code <= 57 {
        Some(code - 48)
    } else {
        None
    }
}

/// Reads a port as `u16::from_str` does.
pub fn parse_port(text: &str) -> (r: Option<u16>)
    ensures
        r == port_written(text@),
{
    let len = text.unicode_len();
    let start: usize = if len > 0 && text.get_char(0) == '+' {
        1
    } else {
        0
    };
    if start == len {
        return None;
    }
    let ghost digits = text@.skip(start as int);
    proof {
        if start == 1 {
            assert(digits =~= text@.drop_first());
        } else {
            assert(digits =~= text@);
        }
        assert(digits.take(0) =~= Seq::<char>::empty());
    }
    let mut value: u32 = 0;
    let mut n: usize = start;
    while n < len
        invariant
            start <= n <= len,
            len == text@.len(),
            digits == text@.skip(start as int),
            port_written(text@) == port_of_digits(digits),
            decimal_value(digits.take(n - start)) == Some(value as nat),
            value <= u16::MAX,
        decreases len - n,
    {
        let c = text.get_char(n);
        proof {
            let longer = digits.take(n - start + 1);
            assert(longer.drop_last() =~= digits.take(n - start));
            assert(longer.last() == c);
            lemma_decimal_value_grows(digits, n - start + 1);
        }
        match digit_of(c) {
            Some(digit) => {
                let next = value * 10 + digit;
                if next > 65535 {
                    return None;
                }
                value = next;
            },
            None => {
                return None;
            },
        }
        n += 1;
    }
    proof {
        assert(digits.take(n - start) =~= digits);
    }
    Some(value as u16)
}

impl Config {
    /// The settings from what the environment gives: the path of the database
    /// is `database_override` where that is set, else `default_path`; the port
    /// is the one that `port_text` writes, else 3000. Without any path there
    /// are no settings.
    pub fn resolve(database_override: Option<PathBuf>, default_path: Option<PathBuf>, port_text: Option<&str>) -> (r:
        Option<Config>)
        ensures
            match r {
                Some(config) => {
                    &&& config.database_path == match database_override {
                        Some(path) => path,
                        None => default_path->0,
                    }
                    &&& config.server_port == port_or_default(crate::text::str_view(port_text))
                    &&& database_override is Some || default_path is Some
                },
                None => database_override is None && default_path is None,
            },
    {
        let server_port = match port_text {
            Some(text) => match parse_port(text) {
                Some(port) => port,
                None => DEFAULT_PORT,
            },
            None => DEFAULT_PORT,
        };
        match database_override {
            Some(database_path) => Some(Config { database_path, server_port }),
            None => match default_path {
                Some(database_path) => Some(Config { database_path, server_port }),
                None => None,
            },
        }
    }
}

/// The port that the web server takes: the one given with the command, else
/// the one that `port_text` writes, else the configured one.
pub fn server_port(given: Option<u16>, port_text: Option<&str>, configured: u16) -> (port: u16)
    ensures
        port == match given {
            Some(port) => port,
            None => match crate::text::str_view(port_text) {
                Some(text) => match port_written(text) {
                    Some(port) => port,
                    None => configured,
                },
                None => configured,
            },
        },
{
    match given {
        Some(port) => port,
        None => match port_text {
            Some(text) => match parse_port(text) {
                Some(port) => port,
                None => configured,
            },
            None => configured,
        },
    }
}

/// What the program is started as: with the server command, the web server on
/// the port of `server_port`; without a command but with a port, the web
/// server on that port; else the terminal interface.
pub fn launch(server_command: Option<Option<u16>>, port: Option<u16>, port_text: Option<&str>, configured: u16) -> (r:
    Launch)
    ensures
        r == match server_command {
            Some(given) => Launch::Server(
                match given {
                    Some(port) => port,
                    None => match crate::text::str_view(port_text) {
                        Some(text) => match port_written(text) {
                            Some(port) => port,
                            None => configured,
                        },
                        None => configured,
                    },
                },
            ),
            None => match port {
                Some(port) => Launch::Server(port),
                None => Launch::Terminal,
            },
        },
{
    match server_command {
        Some(given) => Launch::Server(server_port(given, port_text, configured)),
        None => match port {
            Some(port) => Launch::Server(port),
            None => Launch::Terminal,
        },
    }
}

} // verus!
