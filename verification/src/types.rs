//! The result type of every operation, and the two kinds of failure.
use vstd::prelude::*;

verus! {

/// The value of an operation, or the status code and message of its failure.
pub type DBResult<T> = Result<T, (u16, String)>;

/// A record as the driver hands it over.
pub type DBRow = tokio_postgres::Row;

/// The parameters of a statement, where it has any. The adapter's callers
/// pass references to values that the driver can encode.
pub type QueryParams<'a, A> = Option<&'a [A]>;

/// Status code of a statement that matched no row.
pub const NOT_FOUND: u16 = 404;

/// Status code of a failure in the driver or the connection.
pub const INTERNAL_ERROR: u16 = 500;

/// Message that goes with [`NOT_FOUND`].
pub open spec fn no_results_message() -> Seq<char> {
    "No results were found"@
}

/// Message of an operation attempted before a pool was set up.
pub open spec fn no_connection_message() -> Seq<char> {
    "A DB Connection has not been setup"@
}

/// `r` is a failure with exactly this status code and this message.
pub open spec fn is_failure<T>(r: DBResult<T>, code: u16, message: Seq<char>) -> bool {
    r matches Err(f) && f.0 == code && f.1@ == message
}

/// The failure of a statement that matched no row.
pub fn not_found<T>() -> (r: DBResult<T>)
    ensures
        is_failure(r, NOT_FOUND, no_results_message()),
{
    Err((NOT_FOUND, "No results were found".to_string()))
}

/// The failure that carries a message of the driver or the pool.
pub fn internal_error<T>(message: String) -> (r: DBResult<T>)
    ensures
        r == Err::<T, (u16, String)>((INTERNAL_ERROR, message)),
        is_failure(r, INTERNAL_ERROR, message@),
{
    Err((INTERNAL_ERROR, message))
}

/// The parameters to send: those given, or none at all.
pub fn params_or_empty<'a, A>(params: QueryParams<'a, A>) -> (r: &'a [A])
    ensures
        params matches Some(given) ==> r == given,
        params is None ==> r@.len() == 0,
{
    match params {
        Some(given) => given,
        None => &[],
    }
}

} // verus!
