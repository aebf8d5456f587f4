use vstd::prelude::*;

use crate::numbers::{decimal, format_u64};
use crate::signing::{decode_token_data, jwt_claims, User};
use crate::text::{clip, clippable, clipped_bytes};
use vstd::utf8::encode_utf8;
use chrono::{Datelike, Timelike};

verus! {

/// A row of the request log as it is read back.
#[allow(non_snake_case)]
#[derive(Debug)]
pub struct LogData {
    pub LOG_ID: i32,
    pub USERNAME: Option<String>,
    pub ROUTE: String,
    pub PARAMETERS: Option<String>,
    pub RESULT: String,
    pub TIMESTAMP: String,
    pub TOKEN_USED: String,
    pub IP_ADDRESS: Option<String>,
    pub METHOD: Option<String>,
}

/// The fields of a request to be written to the log.
#[derive(Debug)]
pub struct LogEntry {
    pub username: String,
    pub ip_addr: String,
    pub route: String,
    pub parameters: Option<String>,
    pub token: String,
    pub result: String,
    pub method: String,
}

/// The local date and time at which a request is logged.
#[derive(Debug, Clone, Copy)]
pub struct LogTimestamp {
    pub year: i32,
    pub month: u32,
    pub day: u32,
    pub hour: u32,
    pub minute: u32,
    pub second: u32,
    pub nanosecond: u32,
}

/// The most bytes that the log keeps of each field.
pub const USERNAME_LIMIT: usize = 64;
pub const IP_ADDR_LIMIT: usize = 60;
pub const ROUTE_LIMIT: usize = 64;
pub const TOKEN_LIMIT: usize = 255;
pub const RESULT_LIMIT: usize = 200;
pub const METHOD_LIMIT: usize = 64;
pub const PARAMETERS_LIMIT: usize = 2000;

/// Whether every field of the entry can be cut to its limit without
/// splitting a character.
pub open spec fn entry_clippable(e: LogEntry) -> bool {
    &&& clippable(e.username@, USERNAME_LIMIT as nat)
    &&& clippable(e.ip_addr@, IP_ADDR_LIMIT as nat)
    &&& clippable(e.route@, ROUTE_LIMIT as nat)
    &&& clippable(e.token@, TOKEN_LIMIT as nat)
    &&& clippable(e.result@, RESULT_LIMIT as nat)
    &&& clippable(e.method@, METHOD_LIMIT as nat)
    &&& e.parameters matches Some(p) ==> clippable(p@, PARAMETERS_LIMIT as nat)
}

/// Whether `r` holds the UTF-8 bytes of `s` cut to `max`.
pub open spec fn clipped_to(r: Seq<char>, s: Seq<char>, max: usize) -> bool {
    encode_utf8(r) == clipped_bytes(encode_utf8(s), max as nat)
}

fn clip_text(s: &Option<String>, max: usize) -> (r: Option<String>)
    requires
        s matches Some(p) ==> clippable(p@, max as nat),
    ensures
        r is Some == s is Some,
        r matches Some(q) ==> clipped_to(q@, s->Some_0@, max),
{
    match s {
        Some(p) => Some(clip(p.as_str(), max)),
        None => None,
    }
}

/// The entry as the log stores it: each field cut to its limit in bytes
/// (username 64, address 60, route 64, token 255, result 200, method 64,
/// parameters 2000).
pub fn clip_entry(e: &LogEntry) -> (r: LogEntry)
    requires
        entry_clippable(*e),
    ensures
        clipped_to(r.username@, e.username@, USERNAME_LIMIT),
        clipped_to(r.ip_addr@, e.ip_addr@, IP_ADDR_LIMIT),
        clipped_to(r.route@, e.route@, ROUTE_LIMIT),
        clipped_to(r.token@, e.token@, TOKEN_LIMIT),
        clipped_to(r.result@, e.result@, RESULT_LIMIT),
        clipped_to(r.method@, e.method@, METHOD_LIMIT),
        r.parameters is Some == e.parameters is Some,
        r.parameters matches Some(q) ==> clipped_to(q@, e.parameters->Some_0@, PARAMETERS_LIMIT),
{
    LogEntry {
        username: clip(e.username.as_str(), USERNAME_LIMIT),
        ip_addr: clip(e.ip_addr.as_str(), IP_ADDR_LIMIT),
        route: clip(e.route.as_str(), ROUTE_LIMIT),
        parameters: clip_text(&e.parameters, PARAMETERS_LIMIT),
        token: clip(e.token.as_str(), TOKEN_LIMIT),
        result: clip(e.result.as_str(), RESULT_LIMIT),
        method: clip(e.method.as_str(), METHOD_LIMIT),
    }
}

/// The name under which a request is logged: with no token "No User"; with a
/// token that does not decode, or whose user has no id, "Unknown"; otherwise
/// the id that the token carries.
pub open spec fn log_username_spec(has_token: bool, decoded: Option<User>) -> Seq<char> {
    if !has_token {
        "No User"@
    } else {
        match decoded {
            Some(u) => match u.USER_ID {
                Some(id) => id@,
                None => "Unknown"@,
            },
            None => "Unknown"@,
        }
    }
}

/// The name under which a request is logged, from whether it carried a
/// token and what the token decoded to.
pub fn username_for_log(has_token: bool, decoded: &Option<User>) -> (r: String)
    ensures
        r@ == log_username_spec(has_token, *decoded),
{
    if !has_token {
        String::from_str("No User")
    } else {
        match decoded {
            Some(u) => match &u.USER_ID {
                Some(id) => id.clone(),
                None => String::from_str("Unknown"),
            },
            None => String::from_str("Unknown"),
        }
    }
}

/// The name under which a request with the authorization header `token` is
/// logged, decoding the token with `secret`.
pub fn log_username(token: &Option<String>, secret: &str) -> (r: String)
    ensures
        token is None ==> r@ == "No User"@,
        token matches Some(t) ==> (r@ == "Unknown"@ || (jwt_claims(t@, secret@) matches Some(c) && r@
            == c.0)),
        token matches Some(t) ==> (jwt_claims(t@, secret@) is None ==> r@ == "Unknown"@),
{
    match token {
        None => username_for_log(false, &None),
        Some(t) => {
            let decoded = decode_token_data(t.as_str(), secret);
            username_for_log(true, &decoded)
        },
    }
}

/// The text that the log keeps of the token used: the token, or "No Token".
pub fn token_for_log(token: &Option<String>) -> (r: String)
    ensures
        token matches Some(t) ==> r@ == t@,
        token is None ==> r@ == "No Token"@,
{
    match token {
        Some(t) => t.clone(),
        None => String::from_str("No Token"),
    }
}

/// The result that the log keeps of a response: its status code, a space,
/// and its reason phrase, or "No Reason" when the status has none.
pub fn status_line(code: u16, reason: Option<&str>) -> (r: String)
    ensures
        r@ == decimal(code as nat) + " "@ + (match reason {
            Some(x) => x@,
            None => "No Reason"@,
        }),
{
    let mut r = format_u64(code as u64);
    r.append(" ");
    match reason {
        Some(x) => r.append(x),
        None => r.append("No Reason"),
    }
    r
}

/// `chrono::Local::now()`, read as year, month, day, hour, minute, second and
/// nanosecond, which chrono keeps in these ranges (the nanosecond goes past
/// a whole second only in a leap second).
#[verifier::external_body]
pub fn get_timestamp() -> (r: LogTimestamp)
    ensures
        1 <= r.month <= 12,
        1 <= r.day <= 31,
        r.hour <= 23,
        r.minute <= 59,
        r.second <= 59,
        r.nanosecond < 2_000_000_000,
{
    let now = chrono::Local::now();
    LogTimestamp {
        year: now.year(),
        month: now.month(),
        day: now.day(),
        hour: now.hour(),
        minute: now.minute(),
        second: now.second(),
        nanosecond: now.nanosecond(),
    }
}

} // verus!

verus! {

/// How many log rows are read when the request sets no limit.
pub const DEFAULT_LOG_LIMIT: i32 = 100;

/// The number of log rows to read: the request's limit, or 100.
pub fn log_limit(limit: Option<i32>) -> (r: i32)
    ensures
        r == match limit {
            Some(l) => l,
            None => DEFAULT_LOG_LIMIT,
        },
{
    match limit {
        Some(l) => l,
        None => DEFAULT_LOG_LIMIT,
    }
}

/// The text kept for a column that could not be read.
pub open spec fn text_or_null(col: Option<String>) -> Seq<char> {
    match col {
        Some(t) => t@,
        None => "NULL"@,
    }
}

fn text_or_null_value(col: Option<String>) -> (r: String)
    ensures
        r@ == text_or_null(col),
{
    match col {
        Some(t) => t,
        None => String::from_str("NULL"),
    }
}

fn optional_or_none(col: Option<Option<String>>) -> (r: Option<String>)
    ensures
        r == match col {
            Some(v) => v,
            None => None,
        },
{
    match col {
        Some(v) => v,
        None => None,
    }
}

impl LogData {
    /// A log row from its columns, each `None` when it could not be read: an
    /// unreadable id becomes -1, an unreadable text "NULL", and an unreadable
    /// optional text no text.
    #[allow(non_snake_case)]
    pub fn from_columns(
        LOG_ID: Option<i32>,
        USERNAME: Option<Option<String>>,
        ROUTE: Option<String>,
        PARAMETERS: Option<Option<String>>,
        RESULT: Option<String>,
        TIMESTAMP: Option<String>,
        TOKEN_USED: Option<String>,
        IP_ADDRESS: Option<Option<String>>,
        METHOD: Option<Option<String>>,
    ) -> (r: LogData)
        ensures
            r.LOG_ID == match LOG_ID {
                Some(i) => i,
                None => -1i32,
            },
            r.USERNAME == match USERNAME {
                Some(v) => v,
                None => None,
            },
            r.ROUTE@ == text_or_null(ROUTE),
            r.PARAMETERS == match PARAMETERS {
                Some(v) => v,
                None => None,
            },
            r.RESULT@ == text_or_null(RESULT),
            r.TIMESTAMP@ == text_or_null(TIMESTAMP),
            r.TOKEN_USED@ == text_or_null(TOKEN_USED),
            r.IP_ADDRESS == match IP_ADDRESS {
                Some(v) => v,
                None => None,
            },
            r.METHOD == match METHOD {
                Some(v) => v,
                None => None,
            },
    {
        LogData {
            LOG_ID: match LOG_ID {
                Some(i) => i,
                None => -1,
            },
            USERNAME: optional_or_none(USERNAME),
            ROUTE: text_or_null_value(ROUTE),
            PARAMETERS: optional_or_none(PARAMETERS),
            RESULT: text_or_null_value(RESULT),
            TIMESTAMP: text_or_null_value(TIMESTAMP),
            TOKEN_USED: text_or_null_value(TOKEN_USED),
            IP_ADDRESS: optional_or_none(IP_ADDRESS),
            METHOD: optional_or_none(METHOD),
        }
    }
}

/// The statement that deletes a user's log rows: all of them, or only as
/// many as the limit says.
pub fn user_log_deletion(limit: Option<i32>) -> (r: &'static str)
    ensures
        r@ == if limit is Some {
            "delete_user_logs_limit"@
        } else {
            "delete_user_logs"@
        },
{
    match limit {
        Some(_) => "delete_user_logs_limit",
        None => "delete_user_logs",
    }
}

} // verus!

verus! {

/// The fairing that writes a log row for every response.
#[derive(Debug, Clone, Copy)]
pub struct Logger;

impl Logger {
    /// The log entry of a response to a request from `ip_addr` for `route`
    /// with `method`, carrying the authorization header `token`: the user
    /// that the token names, the token, and the response's status line; a
    /// response is logged without parameters.
    pub fn entry(
        token: &Option<String>,
        secret: &str,
        ip_addr: String,
        route: String,
        method: String,
        code: u16,
        reason: Option<&str>,
    ) -> (r: LogEntry)
        ensures
            token is None ==> r.username@ == "No User"@,
            token matches Some(t) ==> (r.username@ == "Unknown"@ || (jwt_claims(t@, secret@) matches Some(c)
                && r.username@ == c.0)),
            token matches Some(t) ==> (jwt_claims(t@, secret@) is None ==> r.username@ == "Unknown"@),
            token matches Some(t) ==> r.token@ == t@,
            token is None ==> r.token@ == "No Token"@,
            r.ip_addr == ip_addr,
            r.route == route,
            r.method == method,
            r.parameters is None,
            r.result@ == decimal(code as nat) + " "@ + (match reason {
                Some(x) => x@,
                None => "No Reason"@,
            }),
    {
        LogEntry {
            username: log_username(token, secret),
            ip_addr,
            route,
            parameters: None,
            token: token_for_log(token),
            result: status_line(code, reason),
            method,
        }
    }
}

} // verus!
