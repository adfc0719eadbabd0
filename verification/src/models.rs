use vstd::prelude::*;

verus! {

/// The outcome of reading a configuration key and parsing its value.
#[derive(Debug, Clone)]
pub enum ConfGetResult<T> {
    Exist(T),
    NotExist { key: String },
    GetFail { key: String, err_info: String },
    ParseFail { key: String, err_info: String },
}

/// The outcome of reading a configuration key as raw text.
#[derive(Debug, Clone)]
pub enum ConfGetRawResult {
    Exist(String),
    NotExist { key: String },
    GetFail { key: String, err_info: String },
}

/// The errors of a configuration read once it is handled the standard way.
#[derive(Debug, Clone)]
pub enum ConfGetStdError {
    NotExist { key: String },
    GetFail { key: String, err_info: String },
    ParseFail { key: String, err_info: String },
}

impl ConfGetRawResult {
    /// The standard handling: a missing key counts as a failure.
    pub open spec fn std_result(self) -> Result<String, ConfGetStdError> {
        match self {
            ConfGetRawResult::Exist(v) => Ok(v),
            ConfGetRawResult::NotExist { key } => Err(ConfGetStdError::NotExist { key }),
            ConfGetRawResult::GetFail { key, err_info } => Err(
                ConfGetStdError::GetFail { key, err_info },
            ),
        }
    }

    /// The standard handling where a missing key is a success without a value.
    pub open spec fn std_result_option(self) -> Result<Option<String>, ConfGetStdError> {
        match self {
            ConfGetRawResult::Exist(v) => Ok(Some(v)),
            ConfGetRawResult::NotExist { .. } => Ok(None),
            ConfGetRawResult::GetFail { key, err_info } => Err(
                ConfGetStdError::GetFail { key, err_info },
            ),
        }
    }

    /// Handles the error the standard way: a missing key is a failure too.
    pub fn into_std_result(self) -> (r: Result<String, ConfGetStdError>)
        ensures
            r == self.std_result(),
    {
        match self {
            ConfGetRawResult::Exist(v) => Ok(v),
            ConfGetRawResult::NotExist { key } => Err(ConfGetStdError::NotExist { key }),
            ConfGetRawResult::GetFail { key, err_info } => Err(
                ConfGetStdError::GetFail { key, err_info },
            ),
        }
    }

    /// Handles the error the standard way, where a missing key is one kind of success.
    pub fn into_std_result_option(self) -> (r: Result<Option<String>, ConfGetStdError>)
        ensures
            r == self.std_result_option(),
    {
        match self {
            ConfGetRawResult::Exist(v) => Ok(Some(v)),
            ConfGetRawResult::NotExist { .. } => Ok(None),
            ConfGetRawResult::GetFail { key, err_info } => Err(
                ConfGetStdError::GetFail { key, err_info },
            ),
        }
    }

    /// The value of an existing entry, else `default_v`.
    pub open spec fn value_or(self, default_v: String) -> String {
        match self {
            ConfGetRawResult::Exist(v) => v,
            _ => default_v,
        }
    }

    /// The value of an existing entry, `default_v` for a missing one, else the failure.
    pub open spec fn optional_value_or(self, default_v: String) -> Result<String, ConfGetStdError> {
        match self {
            ConfGetRawResult::Exist(v) => Ok(v),
            ConfGetRawResult::NotExist { .. } => Ok(default_v),
            ConfGetRawResult::GetFail { key, err_info } => Err(
                ConfGetStdError::GetFail { key, err_info },
            ),
        }
    }

    /// Every failure and a missing key give the default value.
    pub fn unwrap_or(self, default_v: String) -> (r: String)
        ensures
            r == self.value_or(default_v),
    {
        match self {
            ConfGetRawResult::Exist(v) => v,
            ConfGetRawResult::NotExist { .. } | ConfGetRawResult::GetFail { .. } => default_v,
        }
    }

    /// Only a missing key gives the default value; a failure stays an error.
    pub fn unwrap_optional_or(self, default_v: String) -> (r: Result<String, ConfGetStdError>)
        ensures
            r == self.optional_value_or(default_v),
    {
        match self {
            ConfGetRawResult::Exist(v) => Ok(v),
            ConfGetRawResult::NotExist { .. } => Ok(default_v),
            ConfGetRawResult::GetFail { key, err_info } => Err(
                ConfGetStdError::GetFail { key, err_info },
            ),
        }
    }

    /// Hands the key of a missing entry to `f` (so that what `f` ensures holds of that
    /// key), and gives back the result unchanged.
    pub fn inspect_not_exist<F>(self, f: F) -> (r: Self) where F: FnOnce(String)
        requires
            self matches ConfGetRawResult::NotExist { key } ==> f.requires((key,)),
        ensures
            r == self,
            self matches ConfGetRawResult::NotExist { key } ==> f.ensures((key,), ()),
    {
        if let ConfGetRawResult::NotExist { key } = &self {
            f(key.clone());
        }
        self
    }

    /// Whether the key is missing.
    pub fn is_not_exist(&self) -> (r: bool)
        ensures
            r == (*self is NotExist),
    {
        matches!(self, ConfGetRawResult::NotExist { .. })
    }
}

impl<T> ConfGetResult<T> {
    /// The standard handling: a missing key counts as a failure.
    pub open spec fn std_result(self) -> Result<T, ConfGetStdError> {
        match self {
            ConfGetResult::Exist(v) => Ok(v),
            ConfGetResult::NotExist { key } => Err(ConfGetStdError::NotExist { key }),
            ConfGetResult::GetFail { key, err_info } => Err(
                ConfGetStdError::GetFail { key, err_info },
            ),
            ConfGetResult::ParseFail { key, err_info } => Err(
                ConfGetStdError::ParseFail { key, err_info },
            ),
        }
    }

    /// The standard handling where a missing key is a success without a value.
    pub open spec fn std_result_option(self) -> Result<Option<T>, ConfGetStdError> {
        match self {
            ConfGetResult::Exist(v) => Ok(Some(v)),
            ConfGetResult::NotExist { .. } => Ok(None),
            ConfGetResult::GetFail { key, err_info } => Err(
                ConfGetStdError::GetFail { key, err_info },
            ),
            ConfGetResult::ParseFail { key, err_info } => Err(
                ConfGetStdError::ParseFail { key, err_info },
            ),
        }
    }

    /// Handles the error the standard way: a missing key is a failure too.
    pub fn into_std_result(self) -> (r: Result<T, ConfGetStdError>)
        ensures
            r == self.std_result(),
    {
        match self {
            ConfGetResult::Exist(v) => Ok(v),
            ConfGetResult::NotExist { key } => Err(ConfGetStdError::NotExist { key }),
            ConfGetResult::GetFail { key, err_info } => Err(
                ConfGetStdError::GetFail { key, err_info },
            ),
            ConfGetResult::ParseFail { key, err_info } => Err(
                ConfGetStdError::ParseFail { key, err_info },
            ),
        }
    }

    /// Handles the error the standard way, where a missing key is one kind of success.
    pub fn into_std_result_option(self) -> (r: Result<Option<T>, ConfGetStdError>)
        ensures
            r == self.std_result_option(),
    {
        match self {
            ConfGetResult::Exist(v) => Ok(Some(v)),
            ConfGetResult::NotExist { .. } => Ok(None),
            ConfGetResult::GetFail { key, err_info } => Err(
                ConfGetStdError::GetFail { key, err_info },
            ),
            ConfGetResult::ParseFail { key, err_info } => Err(
                ConfGetStdError::ParseFail { key, err_info },
            ),
        }
    }

    /// The value of an existing entry, else `default_v`.
    pub open spec fn value_or(self, default_v: T) -> T {
        match self {
            ConfGetResult::Exist(v) => v,
            _ => default_v,
        }
    }

    /// The value of an existing entry, `default_v` for a missing one, else the failure.
    pub open spec fn optional_value_or(self, default_v: T) -> Result<T, ConfGetStdError> {
        match self {
            ConfGetResult::Exist(v) => Ok(v),
            ConfGetResult::NotExist { .. } => Ok(default_v),
            ConfGetResult::GetFail { key, err_info } => Err(
                ConfGetStdError::GetFail { key, err_info },
            ),
            ConfGetResult::ParseFail { key, err_info } => Err(
                ConfGetStdError::ParseFail { key, err_info },
            ),
        }
    }

    /// Every failure and a missing key give the default value.
    pub fn unwrap_or(self, default_v: T) -> (r: T)
        ensures
            r == self.value_or(default_v),
    {
        match self {
            ConfGetResult::Exist(v) => v,
            ConfGetResult::NotExist { .. }
            | ConfGetResult::GetFail { .. }
            | ConfGetResult::ParseFail { .. } => default_v,
        }
    }

    /// Only a missing key gives the default value; a failure stays an error.
    pub fn unwrap_optional_or(self, default_v: T) -> (r: Result<T, ConfGetStdError>)
        ensures
            r == self.optional_value_or(default_v),
    {
        match self {
            ConfGetResult::Exist(v) => Ok(v),
            ConfGetResult::NotExist { .. } => Ok(default_v),
            ConfGetResult::GetFail { key, err_info } => Err(
                ConfGetStdError::GetFail { key, err_info },
            ),
            ConfGetResult::ParseFail { key, err_info } => Err(
                ConfGetStdError::ParseFail { key, err_info },
            ),
        }
    }

    /// Hands the key of a missing entry to `f` (so that what `f` ensures holds of that
    /// key), and gives back the result unchanged.
    pub fn inspect_not_exist<F>(self, f: F) -> (r: Self) where F: FnOnce(String)
        requires
            self matches ConfGetResult::NotExist { key } ==> f.requires((key,)),
        ensures
            r == self,
            self matches ConfGetResult::NotExist { key } ==> f.ensures((key,), ()),
    {
        if let ConfGetResult::NotExist { key } = &self {
            f(key.clone());
        }
        self
    }

    /// Whether the key is missing.
    pub fn is_not_exist(&self) -> (r: bool)
        ensures
            r == (*self is NotExist),
    {
        matches!(self, ConfGetResult::NotExist { .. })
    }
}

impl ConfGetStdError {
    /// The text that the error displays.
    pub open spec fn message(self) -> Seq<char> {
        match self {
            ConfGetStdError::NotExist { key } => "conf key not_exist: "@ + key@,
            ConfGetStdError::GetFail { key, err_info } => "get conf fail, key: "@ + key@
                + ", err_info: "@ + err_info@,
            ConfGetStdError::ParseFail { key, err_info } => "parse conf fail, key: "@ + key@
                + ", err_info: "@ + err_info@,
        }
    }

    /// Renders the error as text.
    pub fn to_string(&self) -> (r: String)
        ensures
            r@ == self.message(),
    {
        match self {
            ConfGetStdError::NotExist { key } => {
                let r = String::from_str("conf key not_exist: ");
                r.concat(key.as_str())
            },
            ConfGetStdError::GetFail { key, err_info } => {
                let r = String::from_str("get conf fail, key: ");
                let r = r.concat(key.as_str());
                let r = r.concat(", err_info: ");
                r.concat(err_info.as_str())
            },
            ConfGetStdError::ParseFail { key, err_info } => {
                let r = String::from_str("parse conf fail, key: ");
                let r = r.concat(key.as_str());
                let r = r.concat(", err_info: ");
                r.concat(err_info.as_str())
            },
        }
    }
}

impl From<&'static str> for ConfGetRawResult {
    /// A literal is read as the text of an existing entry.
    fn from(value: &'static str) -> (r: Self)
        ensures
            r matches ConfGetRawResult::Exist(v) && v@ == value@,
    {
        ConfGetRawResult::Exist(String::from_str(value))
    }
}

impl vstd::std_specs::convert::FromSpecImpl<&'static str> for ConfGetRawResult {
    /// The text of the entry is a fresh `String`, which no spec value names, so the
    /// conversion is described by the `ensures` of `from` above and not by `from_spec`.
    open spec fn obeys_from_spec() -> bool {
        false
    }

    open spec fn from_spec(v: &'static str) -> Self {
        arbitrary()
    }
}

/// `unwrap_or` gives what the standard handling gives when it succeeds, and the
/// default whenever it fails; `unwrap_optional_or` gives what the option handling gives,
/// with the default in place of a missing value; the two standard handlings agree on
/// every value and on every failure but a missing key, which only the first reports.
pub proof fn law_raw_handlings_agree(r: ConfGetRawResult, default_v: String)
    ensures
        r.value_or(default_v) == (match r.std_result() {
            Ok(v) => v,
            Err(_) => default_v,
        }),
        r.optional_value_or(default_v) == (match r.std_result_option() {
            Ok(Some(v)) => Ok(v),
            Ok(None) => Ok(default_v),
            Err(e) => Err(e),
        }),
        forall|v: String| r.std_result() == Ok::<String, ConfGetStdError>(v)
            <==> r.std_result_option() == Ok::<Option<String>, ConfGetStdError>(Some(v)),
        r.std_result_option() == Ok::<Option<String>, ConfGetStdError>(None)
            <==> r is NotExist,
        r is NotExist <==> r.std_result() matches Err(ConfGetStdError::NotExist { .. }),
        forall|e: ConfGetStdError| r.std_result_option() == Err::<Option<String>, ConfGetStdError>(e)
            ==> r.std_result() == Err::<String, ConfGetStdError>(e),
{
}

/// The same agreement for a parsed result: `unwrap_or` falls back on every failure,
/// `unwrap_optional_or` only on a missing key, and the two standard handlings report
/// the same failures except for a missing key.
pub proof fn law_handlings_agree<T>(r: ConfGetResult<T>, default_v: T)
    ensures
        r.value_or(default_v) == (match r.std_result() {
            Ok(v) => v,
            Err(_) => default_v,
        }),
        r.optional_value_or(default_v) == (match r.std_result_option() {
            Ok(Some(v)) => Ok(v),
            Ok(None) => Ok(default_v),
            Err(e) => Err(e),
        }),
        forall|v: T| r.std_result() == Ok::<T, ConfGetStdError>(v)
            <==> r.std_result_option() == Ok::<Option<T>, ConfGetStdError>(Some(v)),
        r.std_result_option() == Ok::<Option<T>, ConfGetStdError>(None) <==> r is NotExist,
        r is NotExist <==> r.std_result() matches Err(ConfGetStdError::NotExist { .. }),
        forall|e: ConfGetStdError| r.std_result_option() == Err::<Option<T>, ConfGetStdError>(e)
            ==> r.std_result() == Err::<T, ConfGetStdError>(e),
{
}

} // verus!
