//! The server's settings, read from environment variables.

use vstd::prelude::*;
use crate::text::{all_digits, chars_of, decimal, digits_value, is_digit, parse_digits, push_decimal, push_str, tail_of};

verus! {

/// The port served on when `PORT` is not set.
pub const DEFAULT_PORT: u16 = 3000;

/// Where the server runs and where its project config file is.
pub struct Config {
    pub port: u16,
    pub base_url: String,
    pub config_path: String,
}

/// The digits of a port: the text without one leading `+`.
pub open spec fn port_digits(s: Seq<char>) -> Seq<char> {
    if s.len() > 0 && s[0] == '+' {
        s.skip(1)
    } else {
        s
    }
}

/// `u16::from_str`: an optional `+` and one or more decimal digits, of value at most 65535.
pub open spec fn parse_port(s: Seq<char>) -> Option<u16> {
    let d = port_digits(s);
    if d.len() > 0 && all_digits(d) && digits_value(d) <= 65535 {
        Some(digits_value(d) as u16)
    } else {
        None
    }
}

/// The settings the environment gives: `PORT` (3000 when unset), `BASE_URL`
/// (`http://localhost:<port>` when unset) and `TINYCMS_CONFIG` (`./tinycms.config.ts` when
/// unset); a `PORT` that is not a number is refused.
pub open spec fn config_from(port: Option<Seq<char>>, base_url: Option<Seq<char>>, config_path: Option<Seq<char>>) -> Result<
    (u16, Seq<char>, Seq<char>),
    Seq<char>,
> {
    let p = match port {
        Some(s) => parse_port(s),
        None => Some(DEFAULT_PORT),
    };
    match p {
        None => Err("PORT must be a number"@),
        Some(n) => Ok(
            (
                n,
                match base_url {
                    Some(b) => b,
                    None => "http://localhost:"@ + decimal(n as nat),
                },
                match config_path {
                    Some(c) => c,
                    None => "./tinycms.config.ts"@,
                },
            ),
        ),
    }
}

/// An optional text with its characters.
pub open spec fn opt_chars(v: Option<&str>) -> Option<Seq<char>> {
    match v {
        Some(s) => Some(s@),
        None => None,
    }
}

impl Config {
    /// Builds the settings from the values of `PORT`, `BASE_URL` and `TINYCMS_CONFIG`
    /// (each absent when the variable is unset or not valid Unicode).
    pub fn from_env(port: Option<&str>, base_url: Option<&str>, config_path: Option<&str>) -> (r: Result<Config, String>)
        ensures
            match (r, config_from(opt_chars(port), opt_chars(base_url), opt_chars(config_path))) {
                (Ok(c), Ok((p, b, path))) => c.port == p && c.base_url@ == b && c.config_path@ == path,
                (Err(e), Err(m)) => e@ == m,
                _ => false,
            },
    {
        let port = match Self::port_from_env(port) {
            Ok(p) => p,
            Err(e) => {
                return Err(e);
            },
        };
        let base_url = Self::base_url_from_env(base_url, port);
        let config_path = Self::config_path_from_env(config_path);
        Ok(Config { port, base_url, config_path })
    }

    /// The port: `PORT` read as a number, 3000 when it is unset.
    fn port_from_env(port: Option<&str>) -> (r: Result<u16, String>)
        ensures
            match (
                r,
                match opt_chars(port) {
                    Some(s) => parse_port(s),
                    None => Some(DEFAULT_PORT),
                },
            ) {
                (Ok(p), Some(q)) => p == q,
                (Err(e), None) => e@ == "PORT must be a number"@,
                _ => false,
            },
    {
        let text = match port {
            None => {
                return Ok(DEFAULT_PORT);
            },
            Some(t) => t,
        };
        let s = chars_of(text);
        let d = if s.len() > 0 && s[0] == '+' {
            tail_of(s.as_slice(), 1)
        } else {
            s
        };
        assert(d@ == port_digits(text@)) by {
            if !(text@.len() > 0 && text@[0] == '+') {
                assert(d@ == text@);
            }
        }
        let mut k: usize = 0;
        while k < d.len()
            invariant
                port == Some(text),
                d@ == port_digits(text@),
                k <= d@.len(),
                forall|i: int| 0 <= i < k ==> is_digit(#[trigger] d@[i]),
            decreases d@.len() - k,
        {
            if !('0' <= d[k] && d[k] <= '9') {
                assert(!all_digits(d@));
                return Err("PORT must be a number".to_string());
            }
            k = k + 1;
        }
        match parse_digits(d.as_slice(), 65535) {
            Some(v) => Ok(v as u16),
            None => Err("PORT must be a number".to_string()),
        }
    }

    /// The public address: `BASE_URL`, or `http://localhost:<port>` when it is unset.
    fn base_url_from_env(base_url: Option<&str>, port: u16) -> (r: String)
        ensures
            r@ == match opt_chars(base_url) {
                Some(b) => b,
                None => "http://localhost:"@ + decimal(port as nat),
            },
    {
        match base_url {
            Some(b) => b.to_string(),
            None => {
                let mut r = String::new();
                push_str(&mut r, "http://localhost:");
                push_decimal(&mut r, port as u64);
                r
            },
        }
    }

    /// The project config file: `TINYCMS_CONFIG`, or `./tinycms.config.ts` when it is unset.
    fn config_path_from_env(config_path: Option<&str>) -> (r: String)
        ensures
            r@ == match opt_chars(config_path) {
                Some(c) => c,
                None => "./tinycms.config.ts"@,
            },
    {
        match config_path {
            Some(c) => c.to_string(),
            None => "./tinycms.config.ts".to_string(),
        }
    }
}

} // verus!
