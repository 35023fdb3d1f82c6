//! What a query against the database came to, and how that reads to the
//! rest of the service.

use crate::application::Error;
use vstd::prelude::*;

verus! {

/// The outcome of a query for one row.
#[derive(Debug, Clone, PartialEq, Eq)]
pub enum QueryOutcome<T> {
    /// The row.
    Found(T),
    /// The database reports that no row matches.
    NotFound,
    /// Any other failure, with the text the database gives for it.
    Failed(String),
}

/// Reads the outcome of a query for one row.  That no row matches is no
/// error: it is the absence of the row.  Every other failure is one.
pub fn diesel_result_to_option<T>(value: QueryOutcome<T>) -> (result: Result<Option<T>, Error>)
    ensures
        match value {
            QueryOutcome::Found(row) => result == Ok::<Option<T>, Error>(Some(row)),
            QueryOutcome::NotFound => result == Ok::<Option<T>, Error>(None),
            QueryOutcome::Failed(detail) => result == Err::<Option<T>, Error>(
                Error::FailedOnADatabaseQuery(detail),
            ),
        },
{
    match value {
        QueryOutcome::Found(row) => Ok(Some(row)),
        QueryOutcome::NotFound => Ok(None),
        QueryOutcome::Failed(detail) => Err(Error::FailedOnADatabaseQuery(detail)),
    }
}

/// Reads the outcome of a statement or of a query for many rows: what came
/// back, or the failure with the text the database gives for it.
pub fn diesel_result<T>(value: Result<T, String>) -> (result: Result<T, Error>)
    ensures
        match value {
            Ok(rows) => result == Ok::<T, Error>(rows),
            Err(detail) => result == Err::<T, Error>(Error::FailedOnADatabaseQuery(detail)),
        },
{
    match value {
        Ok(rows) => Ok(rows),
        Err(detail) => Err(Error::FailedOnADatabaseQuery(detail)),
    }
}

} // verus!
