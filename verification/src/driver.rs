//! The driver's types, and what is taken on trust about its error type.
//!
//! Verus sees nothing inside a value of the driver. The two functions that
//! read an error are therefore given names, and the contracts of this crate
//! speak of a failure's message through those names.
use vstd::prelude::*;
use vstd::string::to_string_from_display_ensures;
use tokio_postgres::error::DbError;
use tokio_postgres::Error;
use tokio_postgres::Row;

verus! {

/// `tokio_postgres::Error`, a failure of the driver. Nothing is known of its
/// inside.
#[verifier::external_type_specification]
#[verifier::external_body]
pub struct ExError(Error);

/// `tokio_postgres::error::DbError`, an error report of the server. Nothing
/// is known of its inside.
#[verifier::external_type_specification]
#[verifier::external_body]
pub struct ExDbError(DbError);

/// `tokio_postgres::Row`, a record of a reply. Nothing is known of its
/// inside; only the caller's conversion reads it.
#[verifier::external_type_specification]
#[verifier::external_body]
pub struct ExRow(Row);

/// The server's error report inside `e`, if `e` carries one.
pub uninterp spec fn db_error_of(e: Error) -> Option<DbError>;

/// The primary message of the server's error report `d`.
pub uninterp spec fn db_message_of(d: DbError) -> Seq<char>;

/// `tokio_postgres::Error::as_db_error` reads `e` and changes nothing: it
/// returns the error report that caused `e`, or `None` where the cause is of
/// another kind or absent. The contract only ties the result to its name.
pub assume_specification[ tokio_postgres::Error::as_db_error ](e: &Error) -> (r: Option<&DbError>)
    ensures
        r matches Some(d) ==> db_error_of(*e) == Some(*d),
        r is None ==> db_error_of(*e) is None,
;

/// `tokio_postgres::error::DbError::message` returns the report's message
/// field as it stands. The contract only ties the result to its name.
pub assume_specification<'a>[ tokio_postgres::error::DbError::message ](d: &'a DbError) -> (r: &'a str)
    ensures
        r@ == db_message_of(*d),
;

/// `message` is what a caller is told about `e`: the server's own message
/// where `e` carries an error report, else the text that `e` displays as.
pub open spec fn is_driver_message(e: Error, message: String) -> bool {
    match db_error_of(e) {
        Some(d) => message@ == db_message_of(d),
        None => to_string_from_display_ensures::<Error>(&e, message),
    }
}

/// The message of a failed statement, from what was read out of the error:
/// the server's own message where there is one, else the error's text.
pub fn choose_message(db_message: Option<String>, text: String) -> (message: String)
    ensures
        db_message matches Some(m) ==> message == m,
        db_message is None ==> message == text,
{
    match db_message {
        Some(m) => m,
        None => text,
    }
}

/// The message under which a failure of the driver is reported.
pub fn handle_db_error(e: Error) -> (message: String)
    ensures
        is_driver_message(e, message),
{
    let db_message = match e.as_db_error() {
        Some(err) => Some(err.message().to_string()),
        None => None,
    };
    let text = e.to_string();
    choose_message(db_message, text)
}

} // verus!
