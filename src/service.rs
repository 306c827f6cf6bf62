use vstd::prelude::*;
use crate::user::{ErrorResponse, valid_input, blank, is_blank, age_in_range};

verus! {

/// Lifetime of a cache entry, in seconds.
pub const CACHE_TTL_SECS: u64 = 86400;

/// The cache key of the record `id`: `"user:"` followed by the identifier.
pub open spec fn cache_key_of(id: Seq<char>) -> Seq<char> {
    seq!['u', 's', 'e', 'r', ':'] + id
}

/// The cache key under which the record `id` is kept.
pub fn cache_key(id: &str) -> (r: String)
    ensures
        r@ == cache_key_of(id@),
{
    let mut key = String::from_str("user:");
    proof {
        reveal_strlit("user:");
    }
    key.append(id);
    key
}

/// Why a write was refused before it reached the store.
#[derive(PartialEq, Eq, Structural, Clone, Copy, Debug)]
pub enum InvalidInput {
    BlankName,
    AgeOutOfRange,
}

/// The errors a caller of the service can see. Cache failures never appear
/// here: the service absorbs them.
#[derive(Clone, Debug)]
pub enum ServiceError {
    Validation(InvalidInput),
    NotFound,
    Store(String),
}

/// How the store answered a request that did not succeed.
#[derive(Clone, Debug)]
pub enum StoreFault {
    NotFound,
    Failed(String),
}

/// The reason given for refusing `name` and `age`; the name is checked first.
pub open spec fn invalid_reason(name: Seq<char>, age: i32) -> InvalidInput {
    if blank(name) {
        InvalidInput::BlankName
    } else {
        InvalidInput::AgeOutOfRange
    }
}

/// Checks the fields of a create or update.
pub fn validate(name: &str, age: i32) -> (r: Result<(), InvalidInput>)
    ensures
        r is Ok <==> valid_input(name@, age),
        r is Err ==> r->Err_0 == invalid_reason(name@, age),
{
    if is_blank(name) {
        Err(InvalidInput::BlankName)
    } else if !age_in_range(age) {
        Err(InvalidInput::AgeOutOfRange)
    } else {
        Ok(())
    }
}

/// The service error that a store fault becomes.
pub open spec fn store_error(f: StoreFault) -> ServiceError {
    match f {
        StoreFault::NotFound => ServiceError::NotFound,
        StoreFault::Failed(m) => ServiceError::Store(m),
    }
}

/// A store result with its fault turned into a service error.
pub open spec fn lift<T>(r: Result<T, StoreFault>) -> Result<T, ServiceError> {
    match r {
        Ok(v) => Ok(v),
        Err(f) => Err(store_error(f)),
    }
}

/// Turns a store fault into the error the caller sees.
pub fn from_store_fault(f: StoreFault) -> (r: ServiceError)
    ensures
        r == store_error(f),
{
    match f {
        StoreFault::NotFound => ServiceError::NotFound,
        StoreFault::Failed(m) => ServiceError::Store(m),
    }
}

pub(crate) fn lift_result<T>(r: Result<T, StoreFault>) -> (out: Result<T, ServiceError>)
    ensures
        out == lift(r),
{
    match r {
        Ok(v) => Ok(v),
        Err(f) => Err(from_store_fault(f)),
    }
}

/// The text that reports an error to the caller.
pub open spec fn error_text(e: ServiceError) -> Seq<char> {
    match e {
        ServiceError::Validation(InvalidInput::BlankName) => "name must not be blank"@,
        ServiceError::Validation(InvalidInput::AgeOutOfRange) => "age must be between 1 and 149"@,
        ServiceError::NotFound => "User not found"@,
        ServiceError::Store(m) => m@,
    }
}

impl ServiceError {
    /// The HTTP status that reports this error.
    pub fn status_code(&self) -> (r: u16)
        ensures
            self is Validation ==> r == 400,
            self is NotFound ==> r == 404,
            self is Store ==> r == 500,
    {
        match self {
            ServiceError::Validation(_) => 400,
            ServiceError::NotFound => 404,
            ServiceError::Store(_) => 500,
        }
    }

    /// The text shown to the caller for this error.
    pub fn message(&self) -> (r: String)
        ensures
            r@ == error_text(*self),
    {
        match self {
            ServiceError::Validation(InvalidInput::BlankName) => String::from_str(
                "name must not be blank",
            ),
            ServiceError::Validation(InvalidInput::AgeOutOfRange) => String::from_str(
                "age must be between 1 and 149",
            ),
            ServiceError::NotFound => String::from_str("User not found"),
            ServiceError::Store(m) => m.clone(),
        }
    }

    /// The reply body that reports this error.
    pub fn to_response(&self) -> (r: ErrorResponse)
        ensures
            r.error@ == error_text(*self),
    {
        ErrorResponse { error: self.message() }
    }
}

} // verus!
