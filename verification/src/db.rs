//! The adapter: a pool handle, and the rule for each reply of the driver.
use vstd::prelude::*;
use vstd::std_specs::convert::FromSpec;
use tokio_postgres::Error;
use tokio_postgres::Row;
use crate::driver::{handle_db_error, is_driver_message};
use crate::rows::{
    collect_rows, first_row, is_all_rows, is_first_row, lemma_first_row_is_head_of_all,
};
use crate::types::{
    internal_error, is_failure, no_connection_message, DBResult, INTERNAL_ERROR, NOT_FOUND,
};

verus! {

/// ## PostgresDB
/// An object that provides generic access to query, query_single, and
/// execute commands. `P` is the pool of connections; nothing is asked of it
/// here but to be kept and handed out.
#[derive(Clone)]
pub struct PostgresDB<P> {
    /// The connection string that the pool was built from.
    pub connection_string: Option<String>,
    /// The pool to borrow connections from, once set up.
    pub pool: Option<P>,
}

/// What an adapter holds, with the connection string as a sequence of
/// characters.
pub struct PostgresDBView<P> {
    pub connection_string: Option<Seq<char>>,
    pub pool: Option<P>,
}

impl<P> View for PostgresDB<P> {
    type V = PostgresDBView<P>;

    open spec fn view(&self) -> PostgresDBView<P> {
        PostgresDBView {
            connection_string: match self.connection_string {
                Some(s) => Some(s@),
                None => None,
            },
            pool: self.pool,
        }
    }
}

/// `r` reports the failure `e` of the driver: an internal error with the
/// driver's message.
pub open spec fn is_driver_failure<T>(e: Error, r: DBResult<T>) -> bool {
    r matches Err(f) && f.0 == INTERNAL_ERROR && is_driver_message(e, f.1)
}

/// What is owed for the driver's reply to a query when every row is asked
/// for.
pub open spec fn is_query_result<T: From<Row>>(
    reply: Result<Vec<Row>, Error>,
    r: DBResult<Vec<T>>,
) -> bool {
    match reply {
        Ok(rows) => is_all_rows(rows@, r),
        Err(e) => is_driver_failure(e, r),
    }
}

/// What is owed for the driver's reply to a query when one item is asked
/// for.
pub open spec fn is_query_single_result<T: From<Row>>(
    reply: Result<Vec<Row>, Error>,
    r: DBResult<T>,
) -> bool {
    match reply {
        Ok(rows) => is_first_row(rows@, r),
        Err(e) => is_driver_failure(e, r),
    }
}

/// What is owed for the driver's reply to a statement that changes rows.
pub open spec fn is_execute_result(reply: Result<u64, Error>, r: DBResult<u64>) -> bool {
    match reply {
        Ok(rows) => r == Ok::<u64, (u16, String)>(rows),
        Err(e) => is_driver_failure(e, r),
    }
}

impl<P> PostgresDB<P> {
    /// Create a new PostgresDB instance, with no pool yet.
    pub fn new() -> (db: Self)
        ensures
            db@ == (PostgresDBView::<P> { connection_string: None, pool: None }),
    {
        Self { connection_string: None, pool: None }
    }

    /// ## setup
    /// The adapter once `pool` has been built from `connection_string`.
    /// Nothing of `self` is kept.
    pub fn setup(&self, connection_string: String, pool: P) -> (db: Self)
        ensures
            db@ == (PostgresDBView { connection_string: Some(connection_string@), pool: Some(pool) }),
    {
        Self { connection_string: Some(connection_string), pool: Some(pool) }
    }

    /// The pool to borrow a connection from, or the internal error of an
    /// adapter that was never set up.
    pub fn get_pool(&self) -> (r: DBResult<&P>)
        ensures
            self@.pool matches Some(p) ==> r == Ok::<&P, (u16, String)>(&p),
            self@.pool is None ==> is_failure(r, INTERNAL_ERROR, no_connection_message()),
    {
        match &self.pool {
            Some(pool) => Ok(pool),
            None => internal_error("A DB Connection has not been setup".to_string()),
        }
    }

    /// ## query
    /// The results of the given type for the driver's reply to a query:
    /// every row converted, a not-found failure for an empty row set, an
    /// internal error with the driver's message for a failed statement.
    pub fn query<T: From<Row>>(reply: Result<Vec<Row>, Error>) -> (r: DBResult<Vec<T>>)
        ensures
            is_query_result(reply, r),
    {
        match reply {
            Ok(rows) => collect_rows(rows),
            Err(e) => internal_error(handle_db_error(e)),
        }
    }

    /// ## query_single
    /// The single result of the given type for the driver's reply to a
    /// query: the first row converted, a not-found failure for an empty row
    /// set, an internal error with the driver's message for a failed
    /// statement.
    pub fn query_single<T: From<Row>>(reply: Result<Vec<Row>, Error>) -> (r: DBResult<T>)
        ensures
            is_query_single_result(reply, r),
    {
        match reply {
            Ok(rows) => first_row(rows),
            Err(e) => internal_error(handle_db_error(e)),
        }
    }

    /// ## execute
    /// The number of rows that a statement changed, or an internal error
    /// with the driver's message where it failed.
    pub fn execute(reply: Result<u64, Error>) -> (r: DBResult<u64>)
        ensures
            is_execute_result(reply, r),
    {
        match reply {
            Ok(rows) => Ok(rows),
            Err(e) => internal_error(handle_db_error(e)),
        }
    }
}

/// A query for every row succeeds exactly on a reply with rows, is not
/// found exactly on a reply without any, and is an internal error exactly
/// on a failed statement.
pub proof fn lemma_query_outcome<T: From<Row>>(reply: Result<Vec<Row>, Error>, r: DBResult<Vec<T>>)
    requires
        is_query_result(reply, r),
    ensures
        r is Ok <==> (reply matches Ok(rows) && rows@.len() > 0),
        (r matches Err(f) && f.0 == NOT_FOUND) <==> (reply matches Ok(rows) && rows@.len() == 0),
        (r matches Err(f) && f.0 == INTERNAL_ERROR) <==> reply is Err,
        r matches Ok(items) ==> items@.len() == reply->Ok_0@.len(),
{
}

/// A query for one item succeeds and fails on the same replies as a query
/// for every row, and with the same status code.
pub proof fn lemma_query_single_outcome<T: From<Row>>(
    reply: Result<Vec<Row>, Error>,
    r: DBResult<T>,
)
    requires
        is_query_single_result(reply, r),
    ensures
        r is Ok <==> (reply matches Ok(rows) && rows@.len() > 0),
        (r matches Err(f) && f.0 == NOT_FOUND) <==> (reply matches Ok(rows) && rows@.len() == 0),
        (r matches Err(f) && f.0 == INTERNAL_ERROR) <==> reply is Err,
{
}

/// On one reply, a query for one item gives the head of what a query for
/// every row gives, wherever the conversion keeps to its own model; and the
/// two fail together, with the same status code.
pub proof fn lemma_query_single_is_head_of_query<T: From<Row>>(
    reply: Result<Vec<Row>, Error>,
    all: DBResult<Vec<T>>,
    single: DBResult<T>,
)
    requires
        is_query_result(reply, all),
        is_query_single_result(reply, single),
    ensures
        all is Ok <==> single is Ok,
        all matches Err(f) ==> (single matches Err(g) && g.0 == f.0),
        T::obeys_from_spec() ==> (all matches Ok(items) ==> single == Ok::<T, (u16, String)>(
            items@[0],
        )),
{
    if T::obeys_from_spec() {
        if let Ok(rows) = reply {
            lemma_first_row_is_head_of_all(rows@, all, single);
        }
    }
}

/// A statement that changes rows fails exactly where the driver failed, as
/// an internal error, and else reports the driver's count unchanged.
pub proof fn lemma_execute_outcome(reply: Result<u64, Error>, r: DBResult<u64>)
    requires
        is_execute_result(reply, r),
    ensures
        r is Ok <==> reply is Ok,
        r matches Ok(rows) ==> reply == Ok::<u64, Error>(rows),
        r matches Err(f) ==> f.0 == INTERNAL_ERROR,
{
}

} // verus!
