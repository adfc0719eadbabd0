use vstd::prelude::*;

use crate::models::{ConfGetRawResult, ConfGetResult};

verus! {

/// A span of time as whole seconds and the nanoseconds past them.
#[derive(Debug, Clone, Copy, PartialEq, Eq, Structural)]
pub struct ConfDuration {
    pub secs: u64,
    pub nanos: u32,
}

impl ConfGetRawResult {
    /// The typed result that a raw read forwards when it holds no text to parse.
    pub open spec fn failure_of<T>(self) -> Option<ConfGetResult<T>> {
        match self {
            ConfGetRawResult::Exist(_) => None,
            ConfGetRawResult::NotExist { key } => Some(ConfGetResult::NotExist { key }),
            ConfGetRawResult::GetFail { key, err_info } => Some(
                ConfGetResult::GetFail { key, err_info },
            ),
        }
    }
}

impl<T> ConfGetResult<T> {
    /// The result for `key` once its text was parsed into `parsed`.
    pub open spec fn parsed_result(key: String, parsed: Result<T, String>) -> ConfGetResult<T> {
        match parsed {
            Ok(v) => ConfGetResult::Exist(v),
            Err(e) => ConfGetResult::ParseFail { key, err_info: e },
        }
    }

    /// The result for `key` once its text was parsed into `parsed`: the value, or a
    /// parse failure that carries the parser's message.
    pub fn from_parsed(key: String, parsed: Result<T, String>) -> (r: ConfGetResult<T>)
        ensures
            r == Self::parsed_result(key, parsed),
    {
        match parsed {
            Ok(v) => ConfGetResult::Exist(v),
            Err(e) => ConfGetResult::ParseFail { key, err_info: e },
        }
    }

    /// Turns the raw read of `key` into a typed result: existing text goes through
    /// `parse`; a missing key and a failed read are forwarded as they came.
    pub fn from_raw<F>(key: String, raw: ConfGetRawResult, parse: F) -> (r: ConfGetResult<T>) where
        F: FnOnce(String) -> Result<T, String>,

        requires
            raw matches ConfGetRawResult::Exist(s) ==> parse.requires((s,)),
        ensures
            match raw {
                ConfGetRawResult::Exist(s) => exists|p: Result<T, String>|
                    #![trigger parse.ensures((s,), p)]
                    parse.ensures((s,), p) && r == Self::parsed_result(key, p),
                _ => Some(r) == raw.failure_of::<T>(),
            },
    {
        match raw {
            ConfGetRawResult::Exist(s) => {
                let parsed = parse(s);
                Self::from_parsed(key, parsed)
            },
            ConfGetRawResult::NotExist { key } => ConfGetResult::NotExist { key },
            ConfGetRawResult::GetFail { key, err_info } => ConfGetResult::GetFail { key, err_info },
        }
    }
}

/// What `bool`'s `FromStr` accepts: exactly the texts `true` and `false`.
pub open spec fn bool_text(s: Seq<char>) -> Option<bool> {
    if s == "true"@ {
        Some(true)
    } else if s == "false"@ {
        Some(false)
    } else {
        None
    }
}

/// The `Display` text of the error that `str::parse::<bool>` returns on `text`.
pub uninterp spec fn bool_parse_error(text: Seq<char>) -> Seq<char>;

/// Calls `str::parse::<bool>`, whose documentation accepts exactly `"true"` and
/// `"false"` and returns an error for any other text. The error is rendered with its
/// `Display`, whose text is named by `bool_parse_error`; what that text is, std's
/// documentation does not say.
#[verifier::external_body]
fn parse_bool_text(text: &str) -> (res: Result<bool, String>)
    ensures
        match bool_text(text@) {
            Some(b) => res == Ok::<bool, String>(b),
            None => res matches Err(e) && e@ == bool_parse_error(text@),
        },
{
    match text.parse::<bool>() {
        Ok(b) => Ok(b),
        Err(e) => Err(format!("{}", e)),
    }
}

/// The outcome of `parse_duration::parse` on a text: the whole seconds and the
/// nanoseconds of the span, or the `Display` text of the error.
pub uninterp spec fn systemd_duration(text: Seq<char>) -> Result<(u64, u32), Seq<char>>;

/// Calls `parse_duration::parse`, which reads a text such as `1h30m` as a span of time.
/// The result is named by `systemd_duration`; what it is on a given text is not stated,
/// beyond the nanoseconds of a `Duration` being under one second. A text with a huge
/// exponent (such as `1e999999999999 s`) makes the crate build a power of ten of that size,
/// which may exhaust memory; that is left unsaid.
#[verifier::external_body]
fn parse_systemd_duration(text: &str) -> (res: Result<ConfDuration, String>)
    ensures
        match res {
            Ok(d) => systemd_duration(text@) == Ok::<(u64, u32), Seq<char>>((d.secs, d.nanos))
                && d.nanos < 1_000_000_000,
            Err(e) => systemd_duration(text@) == Err::<(u64, u32), Seq<char>>(e@),
        },
{
    match parse_duration::parse(text) {
        Ok(d) => Ok(ConfDuration { secs: d.as_secs(), nanos: d.subsec_nanos() }),
        Err(e) => Err(format!("{}", e)),
    }
}

/// Reads `key` as a `bool`: only the texts `true` and `false` parse; any other text is
/// a parse failure that carries the text of std's bool parse error.
pub fn get_bool_from_raw(key: String, raw: ConfGetRawResult) -> (r: ConfGetResult<bool>)
    ensures
        match raw {
            ConfGetRawResult::Exist(s) => match bool_text(s@) {
                Some(b) => r == ConfGetResult::<bool>::Exist(b),
                None => r matches ConfGetResult::ParseFail { key: k, err_info: m } && k == key
                    && m@ == bool_parse_error(s@),
            },
            _ => Some(r) == raw.failure_of::<bool>(),
        },
{
    let parse = |s: String| -> (p: Result<bool, String>)
        ensures
            match bool_text(s@) {
                Some(b) => p == Ok::<bool, String>(b),
                None => p matches Err(e) && e@ == bool_parse_error(s@),
            },
        { parse_bool_text(s.as_str()) };
    ConfGetResult::from_raw(key, raw, parse)
}

/// Reads `key` as a span of time in the systemd notation that `parse_duration` accepts.
pub fn get_systemd_duration_from_raw(key: String, raw: ConfGetRawResult) -> (r: ConfGetResult<
    ConfDuration,
>)
    ensures
        match raw {
            ConfGetRawResult::Exist(s) => match systemd_duration(s@) {
                Ok((secs, nanos)) => r == ConfGetResult::Exist(ConfDuration { secs, nanos }),
                Err(e) => r matches ConfGetResult::ParseFail { key: k, err_info: m } && k == key
                    && m@ == e,
            },
            _ => Some(r) == raw.failure_of::<ConfDuration>(),
        },
{
    let parse = |s: String| -> (p: Result<ConfDuration, String>)
        ensures
            match p {
                Ok(d) => systemd_duration(s@) == Ok::<(u64, u32), Seq<char>>((d.secs, d.nanos)),
                Err(e) => systemd_duration(s@) == Err::<(u64, u32), Seq<char>>(e@),
            },
        { parse_systemd_duration(s.as_str()) };
    ConfGetResult::from_raw(key, raw, parse)
}

/// A missing key and a failed read keep their key and message from the raw read to the
/// typed result, and the standard handling reports the same failure for both.
pub proof fn law_failures_forwarded<T>(raw: ConfGetRawResult)
    requires
        !(raw is Exist),
    ensures
        raw.failure_of::<T>() matches Some(r) && (match (r.std_result(), raw.std_result()) {
            (Err(e1), Err(e2)) => e1 == e2,
            _ => false,
        }),
{
}

} // verus!
