//! The service's settings: where it listens.

use vstd::prelude::*;

use crate::text::{chars_of, push_str, string_of};

verus! {

/// Where the service listens.
pub struct Config {
    pub host: String,
    pub port: u16,
}

pub const DEFAULT_HOST: &'static str = "127.0.0.1";

pub const DEFAULT_PORT: u16 = 3000;

pub const INVALID_PORT: &'static str = "invalid CELEBRIMBOR_PORT: ";

pub const EMPTY_NUMBER: &'static str = "cannot parse integer from empty string";

pub const INVALID_DIGIT: &'static str = "invalid digit found in string";

pub const NUMBER_TOO_LARGE: &'static str = "number too large to fit in target type";

/// Why a text is not a port number, as `u16::from_str` reports it.
#[derive(Debug, Clone, Copy, PartialEq, Eq)]
pub enum PortError {
    Empty,
    InvalidDigit,
    PosOverflow,
}

/// The value of a decimal digit character.
pub open spec fn digit_value(c: char) -> int {
    (c as int) - ('0' as int)
}

/// Whether `c` is an ASCII decimal digit.
pub open spec fn is_digit(c: char) -> bool {
    '0' <= c && c <= '9'
}

/// Reads the digits of `s` from `i` on, after the value `acc` of those before:
/// the first character that is not a digit makes it `InvalidDigit`, the first
/// digit that takes the value past 65535 makes it `PosOverflow`.
pub open spec fn parse_digits(s: Seq<char>, i: int, acc: int) -> Result<u16, PortError>
    decreases s.len() - i,
{
    if i < 0 || i >= s.len() {
        Ok(acc as u16)
    } else if !is_digit(s[i]) {
        Err(PortError::InvalidDigit)
    } else if acc * 10 + digit_value(s[i]) > 65535 {
        Err(PortError::PosOverflow)
    } else {
        parse_digits(s, i + 1, acc * 10 + digit_value(s[i]))
    }
}

/// `s` read as a decimal `u16`, as `str::parse::<u16>` reads it: not empty, an
/// optional leading `+`, then at least one digit and nothing else.
pub open spec fn parse_u16(s: Seq<char>) -> Result<u16, PortError> {
    if s.len() == 0 {
        Err(PortError::Empty)
    } else if s.len() == 1 && (s[0] == '+' || s[0] == '-') {
        Err(PortError::InvalidDigit)
    } else if s[0] == '+' {
        parse_digits(s, 1, 0)
    } else {
        parse_digits(s, 0, 0)
    }
}

/// Reads a port number.
pub fn parse_port(text: &str) -> (r: Result<u16, PortError>)
    ensures
        r == parse_u16(text@),
{
    let s = chars_of(text);
    if s.len() == 0 {
        return Err(PortError::Empty);
    }
    if s.len() == 1 && (s[0] == '+' || s[0] == '-') {
        return Err(PortError::InvalidDigit);
    }
    let mut i: usize = if s[0] == '+' {
        1
    } else {
        0
    };
    let mut acc: u32 = 0;
    while i < s.len()
        invariant
            i <= s.len(),
            acc <= 65535,
            parse_u16(text@) == parse_digits(s@, i as int, acc as int),
            s@ == text@,
        decreases s.len() - i,
    {
        let c = s[i];
        if !('0' <= c && c <= '9') {
            return Err(PortError::InvalidDigit);
        }
        let d = (c as u32) - ('0' as u32);
        if acc * 10 + d > 65535 {
            return Err(PortError::PosOverflow);
        }
        acc = acc * 10 + d;
        i = i + 1;
    }
    Ok(acc as u16)
}

/// What `ParseIntError` says for each reason.
pub open spec fn port_error_text(e: PortError) -> Seq<char> {
    match e {
        PortError::Empty => EMPTY_NUMBER@,
        PortError::InvalidDigit => INVALID_DIGIT@,
        PortError::PosOverflow => NUMBER_TOO_LARGE@,
    }
}

impl Config {
    /// The settings from the values of `CELEBRIMBOR_HOST` and `CELEBRIMBOR_PORT`,
    /// `None` where a variable is unset or not unicode: the host defaults to
    /// `127.0.0.1` and the port to 3000; a port that is not a `u16` is refused.
    pub fn from_values(host: Option<String>, port: Option<String>) -> (r: Result<Config, String>)
        ensures
            port is None ==> (r matches Ok(c) && c.port == DEFAULT_PORT),
            port matches Some(p) ==> match parse_u16(p@) {
                Ok(n) => r matches Ok(c) && c.port == n,
                Err(e) => r matches Err(m) && m@ == INVALID_PORT@ + port_error_text(e),
            },
            r matches Ok(c) ==> c.host@ == match host {
                Some(h) => h@,
                None => DEFAULT_HOST@,
            },
    {
        let host = match host {
            Some(h) => h,
            None => String::from_str(DEFAULT_HOST),
        };
        let port = match port {
            None => DEFAULT_PORT,
            Some(p) => match parse_port(p.as_str()) {
                Ok(n) => n,
                Err(e) => {
                    let mut out: Vec<char> = Vec::new();
                    push_str(&mut out, INVALID_PORT);
                    match e {
                        PortError::Empty => push_str(&mut out, EMPTY_NUMBER),
                        PortError::InvalidDigit => push_str(&mut out, INVALID_DIGIT),
                        PortError::PosOverflow => push_str(&mut out, NUMBER_TOO_LARGE),
                    }
                    return Err(string_of(&out));
                },
            },
        };
        Ok(Config { host, port })
    }
}

} // verus!
