use vstd::prelude::*;

use crate::error::WatchInitError;
use crate::models::ConfGetRawResult;

verus! {

/// What a watcher does with one update of its key.
#[derive(Debug, Clone)]
pub enum WatchStep<T> {
    /// The new text parsed: the watched value becomes this one.
    Refresh(T),
    /// The new text did not parse; the cached value stays.
    KeepOnParseFail { err_info: String, raw_value: String },
    /// The key was deleted, which is not allowed; the cached value stays.
    KeepOnDelete,
    /// The update could not be read; the cached value stays.
    KeepOnGetFail { err_info: String },
}

impl<T> WatchStep<T> {
    /// The watched value after this step, where it was `current` before.
    pub open spec fn next_value(self, current: T) -> T {
        match self {
            WatchStep::Refresh(v) => v,
            _ => current,
        }
    }
}

/// The first value of a watched key: the parsed text where it exists, the default
/// where the key is missing and has one, and an error otherwise. The default is made
/// by calling `default_value`, only where the key is missing.
pub fn init_watched_value<C, T, F, D>(
    cli: C,
    key: String,
    raw: ConfGetRawResult,
    parse: F,
    default_value: Option<D>,
) -> (r: Result<T, WatchInitError<C>>) where
    F: FnOnce(String) -> Result<T, String>,
    D: FnOnce() -> T,

    requires
        raw matches ConfGetRawResult::Exist(s) ==> parse.requires((s,)),
        raw is NotExist ==> (default_value matches Some(d) ==> d.requires(())),
    ensures
        match raw {
            ConfGetRawResult::Exist(s) => match r {
                Ok(v) => parse.ensures((s,), Ok::<T, String>(v)),
                Err(WatchInitError::CannotParse { cli: c, key: k, err_info: e }) => c == cli && k
                    == key && parse.ensures((s,), Err::<T, String>(e)),
                _ => false,
            },
            ConfGetRawResult::NotExist { .. } => match default_value {
                Some(d) => r matches Ok(v) && d.ensures((), v),
                None => r == Err::<T, WatchInitError<C>>(
                    WatchInitError::RequiredKeyNotExist { cli, key },
                ),
            },
            ConfGetRawResult::GetFail { err_info, .. } => r == Err::<T, WatchInitError<C>>(
                WatchInitError::GetFail { cli, key, err_info },
            ),
        },
{
    match raw {
        ConfGetRawResult::Exist(s) => match parse(s) {
            Ok(v) => Ok(v),
            Err(e) => Err(WatchInitError::CannotParse { cli, key, err_info: e }),
        },
        ConfGetRawResult::NotExist { .. } => match default_value {
            Some(d) => Ok(d()),
            None => Err(WatchInitError::RequiredKeyNotExist { cli, key }),
        },
        ConfGetRawResult::GetFail { err_info, .. } => Err(
            WatchInitError::GetFail { cli, key, err_info },
        ),
    }
}

/// What to do with one update of a watched key: only text that parses replaces the
/// cached value; a parse failure, a deletion and a failed read keep it.
pub fn watch_step<T, F>(raw: ConfGetRawResult, parse: F) -> (r: WatchStep<T>) where
    F: FnOnce(String) -> Result<T, String>,

    requires
        raw matches ConfGetRawResult::Exist(s) ==> parse.requires((s,)),
    ensures
        match raw {
            ConfGetRawResult::Exist(s) => match r {
                WatchStep::Refresh(v) => parse.ensures((s,), Ok::<T, String>(v)),
                WatchStep::KeepOnParseFail { err_info, raw_value } => raw_value == s
                    && parse.ensures((s,), Err::<T, String>(err_info)),
                _ => false,
            },
            ConfGetRawResult::NotExist { .. } => r is KeepOnDelete,
            ConfGetRawResult::GetFail { err_info, .. } => r == WatchStep::<T>::KeepOnGetFail {
                err_info,
            },
        },
{
    match raw {
        ConfGetRawResult::Exist(s) => {
            let raw_value = s.clone();
            match parse(s) {
                Ok(v) => WatchStep::Refresh(v),
                Err(e) => WatchStep::KeepOnParseFail { err_info: e, raw_value },
            }
        },
        ConfGetRawResult::NotExist { .. } => WatchStep::KeepOnDelete,
        ConfGetRawResult::GetFail { err_info, .. } => WatchStep::KeepOnGetFail { err_info },
    }
}

/// The watched value after a run of steps, applied in order from `first`.
pub open spec fn value_after<T>(first: T, steps: Seq<WatchStep<T>>) -> T
    decreases steps.len(),
{
    if steps.len() == 0 {
        first
    } else {
        steps.last().next_value(value_after(first, steps.drop_last()))
    }
}

/// After a run of updates, the watched value is the one from the last update whose text
/// parsed, or the first value where no update parsed.
pub proof fn law_value_is_last_refresh<T>(first: T, steps: Seq<WatchStep<T>>)
    ensures
        (forall|i: int| 0 <= i < steps.len() ==> !(#[trigger] steps[i] is Refresh)) ==> value_after(
            first,
            steps,
        ) == first,
        forall|i: int|
            0 <= i < steps.len() && #[trigger] steps[i] is Refresh && (forall|j: int|
                i < j < steps.len() ==> !(#[trigger] steps[j] is Refresh)) ==> value_after(first, steps)
                == steps[i]->Refresh_0,
    decreases steps.len(),
{
    if steps.len() > 0 {
        let pre = steps.drop_last();
        law_value_is_last_refresh(first, pre);
        assert forall|i: int| 0 <= i < pre.len() implies #[trigger] pre[i] == steps[i] by {}
        let n = steps.len() - 1;
        if steps[n] is Refresh {
            assert forall|i: int|
                0 <= i < steps.len() && #[trigger] steps[i] is Refresh && (forall|j: int|
                    i < j < steps.len() ==> !(#[trigger] steps[j] is Refresh)) implies value_after(
                first,
                steps,
            ) == steps[i]->Refresh_0 by {
                if i < n {
                    assert(!(steps[n] is Refresh));
                }
            }
        } else {
            assert forall|i: int|
                0 <= i < steps.len() && #[trigger] steps[i] is Refresh && (forall|j: int|
                    i < j < steps.len() ==> !(#[trigger] steps[j] is Refresh)) implies value_after(
                first,
                steps,
            ) == steps[i]->Refresh_0 by {
                assert(i < n);
                assert(pre[i] is Refresh);
                assert forall|j: int| i < j < pre.len() implies !(#[trigger] pre[j] is Refresh) by {
                    assert(pre[j] == steps[j]);
                }
            }
            if forall|i: int| 0 <= i < steps.len() ==> !(#[trigger] steps[i] is Refresh) {
                assert forall|i: int| 0 <= i < pre.len() implies !(#[trigger] pre[i] is Refresh) by {
                    assert(pre[i] == steps[i]);
                }
            }
        }
    }
}

} // verus!
