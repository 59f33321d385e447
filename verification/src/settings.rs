//! What the settings of the process give: the address to listen on, the size
//! of the connection pool, and the secret that goes into every token.

use crate::flexible::slice_chars;
use crate::text::{
    chars_of, chars_start_with, option_text, parse_i64_chars, parse_int, starts_with, string_of,
};
use vstd::prelude::*;
use vstd::string::*;

verus! {

/// The size of the pool where none is set.
pub const DEFAULT_MAX_CONNECTIONS: u32 = 5;

/// The number that a setting gives for the size of the pool: what it holds
/// when it is an unsigned decimal integer of 32 bits, which may begin with a
/// plus sign but not with a minus sign; else five.
pub open spec fn pool_size(setting: Option<Seq<char>>) -> u32 {
    match setting {
        Some(text) => match parse_int(text) {
            Some(value) => if text[0] != '-' && 0 <= value <= u32::MAX {
                value as u32
            } else {
                5
            },
            None => 5,
        },
        None => 5,
    }
}

/// Reads the size of the connection pool.
pub fn max_connections(setting: Option<&str>) -> (size: u32)
    ensures
        size == pool_size(option_text(setting)),
{
    match setting {
        Some(text) => {
            let chars = chars_of(text);
            match parse_i64_chars(&chars) {
                Some(value) => {
                    if chars[0] != '-' && 0 <= value && value <= 0xffff_ffff {
                        value as u32
                    } else {
                        DEFAULT_MAX_CONNECTIONS
                    }
                },
                None => DEFAULT_MAX_CONNECTIONS,
            }
        },
        None => DEFAULT_MAX_CONNECTIONS,
    }
}

/// A text without the beginning `prefix`, where it begins with it.
pub open spec fn without_prefix(text: Seq<char>, prefix: Seq<char>) -> Option<Seq<char>> {
    if starts_with(text, prefix) {
        Some(text.skip(prefix.len() as int))
    } else {
        None
    }
}

/// The address to listen on: the configured URL without its scheme; where
/// none is configured, the local address under the configured port; and where
/// that is missing too, the local address under port 7878.
pub open spec fn listen_address(url: Option<Seq<char>>, port: Option<Seq<char>>) -> Seq<char> {
    match url {
        Some(text) => match without_prefix(text, "http://"@) {
            Some(rest) => rest,
            None => match without_prefix(text, "https://"@) {
                Some(rest) => rest,
                None => text,
            },
        },
        None => match port {
            Some(number) => "127.0.0.1:"@ + number,
            None => "127.0.0.1:7878"@,
        },
    }
}

fn strip(text: &Vec<char>, prefix: &str) -> (r: Option<String>)
    ensures
        r.deep_view() == without_prefix(text@, prefix@),
{
    let start = chars_of(prefix);
    if chars_start_with(text, &start) {
        let rest = slice_chars(text, start.len(), text.len());
        Some(string_of(&rest))
    } else {
        None
    }
}

/// The address to listen on.
pub fn server_address(url: Option<&str>, port: Option<&str>) -> (address: String)
    ensures
        address@ == listen_address(option_text(url), option_text(port)),
{
    match url {
        Some(text) => {
            let chars = chars_of(text);
            match strip(&chars, "http://") {
                Some(rest) => rest,
                None => match strip(&chars, "https://") {
                    Some(rest) => rest,
                    None => text.to_owned(),
                },
            }
        },
        None => match port {
            Some(number) => {
                let mut address = "127.0.0.1:".to_owned();
                address.append(number);
                address
            },
            None => "127.0.0.1:7878".to_owned(),
        },
    }
}

/// The secret that goes into every token: the configured one, else `local_secret`.
pub open spec fn token_secret(setting: Option<Seq<char>>) -> Seq<char> {
    match setting {
        Some(text) => text,
        None => "local_secret"@,
    }
}

/// Reads the secret that goes into every token.
pub fn secret(setting: Option<&str>) -> (r: String)
    ensures
        r@ == token_secret(option_text(setting)),
{
    match setting {
        Some(text) => text.to_owned(),
        None => "local_secret".to_owned(),
    }
}

} // verus!
