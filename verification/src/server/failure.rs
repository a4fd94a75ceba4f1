//! The error answer of an HTTP endpoint: a status, a machine-readable code and
//! an English message that is shown when no translation exists.

use vstd::prelude::*;

verus! {

#[derive(Clone, Copy, Debug, PartialEq, Eq)]
pub struct HttpFailure {
    pub status: u16,
    pub code: &'static str,
    pub fallback: &'static str,
}

pub fn failure(status: u16, code: &'static str, fallback: &'static str) -> (f: HttpFailure)
    ensures
        f.status == status,
        f.code@ == code@,
        f.fallback@ == fallback@,
{
    HttpFailure { status, code, fallback }
}

/// The JSON error body of the sign-in endpoints: a code and a message.
#[derive(Clone, Copy, Debug, PartialEq, Eq)]
pub struct ErrorBody {
    pub code: &'static str,
    pub message: &'static str,
}

pub fn error_body(code: &'static str, message: &'static str) -> (e: ErrorBody)
    ensures
        e.code@ == code@,
        e.message@ == message@,
{
    ErrorBody { code, message }
}

/// The answer of an endpoint that looks one record up: the record when the
/// store found it, `not_found` when it found none, `failed` when the store
/// failed (`None`).
pub fn lookup_answer<T>(found: Option<Option<T>>, not_found: HttpFailure, failed: HttpFailure) -> (r:
    Result<T, HttpFailure>)
    ensures
        match found {
            Some(Some(v)) => r == Ok::<T, HttpFailure>(v),
            Some(None) => r == Err::<T, HttpFailure>(not_found),
            None => r == Err::<T, HttpFailure>(failed),
        },
{
    match found {
        Some(Some(v)) => Ok(v),
        Some(None) => Err(not_found),
        None => Err(failed),
    }
}

/// The answer of an endpoint that changes one record: done when the store
/// changed it, `not_found` when nothing matched, `failed` when the store
/// failed (`None`).
pub fn update_answer(changed: Option<bool>, not_found: HttpFailure, failed: HttpFailure) -> (r: Result<
    (),
    HttpFailure,
>)
    ensures
        match changed {
            Some(true) => r is Ok,
            Some(false) => r == Err::<(), HttpFailure>(not_found),
            None => r == Err::<(), HttpFailure>(failed),
        },
{
    match changed {
        Some(true) => Ok(()),
        Some(false) => Err(not_found),
        None => Err(failed),
    }
}

} // verus!
