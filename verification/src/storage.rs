//! The language spoken with the repository: the operation asked of it, what
//! came back, and how an attempt can fail.
//!
//! The repository itself runs against a database and lives with the caller.

use vstd::prelude::*;
use crate::models::{views_of, NewRustacean, NewRustaceanView, Rustacean, RustaceanView};

verus! {

/// How a repository operation failed. `message` is the driver's own text.
#[derive(Clone, Debug, PartialEq, Eq)]
pub enum StorageError {
    /// A lookup by id matched no row.
    NotFound { message: String },
    /// Anything else: a broken connection, a violated constraint.
    Other { message: String },
}

/// What a `StorageError` holds, as mathematical values.
pub enum StorageErrorView {
    NotFound { message: Seq<char> },
    Other { message: Seq<char> },
}

impl View for StorageError {
    type V = StorageErrorView;

    open spec fn view(&self) -> StorageErrorView {
        match *self {
            StorageError::NotFound { message } => StorageErrorView::NotFound { message: message@ },
            StorageError::Other { message } => StorageErrorView::Other { message: message@ },
        }
    }
}

impl StorageErrorView {
    /// The driver's text, whichever the kind.
    pub open spec fn message(self) -> Seq<char> {
        match self {
            StorageErrorView::NotFound { message } => message,
            StorageErrorView::Other { message } => message,
        }
    }
}

impl StorageError {
    /// The driver's text, whichever the kind.
    pub fn into_message(self) -> (message: String)
        ensures
            message@ == self@.message(),
    {
        match self {
            StorageError::NotFound { message } => message,
            StorageError::Other { message } => message,
        }
    }
}

/// One operation of the repository, with its arguments.
#[derive(Clone, Debug, PartialEq, Eq)]
pub enum Query {
    /// Up to `limit` records, in the order storage keeps them.
    FindMultiple { limit: i64 },
    /// The record whose id is `id`.
    Find { id: i32 },
    /// Insert a row; storage assigns its id and timestamp.
    Create { new_rustacean: NewRustacean },
    /// Set the name and email of the row whose id is `id`.
    Save { id: i32, name: String, email: String },
    /// Remove the row whose id is `id`.
    Delete { id: i32 },
}

/// What a `Query` holds, as mathematical values.
pub enum QueryView {
    FindMultiple { limit: int },
    Find { id: int },
    Create { new_rustacean: NewRustaceanView },
    Save { id: int, name: Seq<char>, email: Seq<char> },
    Delete { id: int },
}

impl View for Query {
    type V = QueryView;

    open spec fn view(&self) -> QueryView {
        match *self {
            Query::FindMultiple { limit } => QueryView::FindMultiple { limit: limit as int },
            Query::Find { id } => QueryView::Find { id: id as int },
            Query::Create { new_rustacean } => QueryView::Create { new_rustacean: new_rustacean@ },
            Query::Save { id, name, email } => QueryView::Save {
                id: id as int,
                name: name@,
                email: email@,
            },
            Query::Delete { id } => QueryView::Delete { id: id as int },
        }
    }
}

/// What the repository answered, by operation. `Deleted` counts the rows
/// removed.
#[derive(Debug, PartialEq, Eq)]
pub enum Outcome {
    Listed(Result<Vec<Rustacean>, StorageError>),
    Found(Result<Rustacean, StorageError>),
    Created(Result<Rustacean, StorageError>),
    Saved(Result<Rustacean, StorageError>),
    Deleted(Result<usize, StorageError>),
}

/// What an `Outcome` holds, as mathematical values.
pub enum OutcomeView {
    Listed(Result<Seq<RustaceanView>, StorageErrorView>),
    Found(Result<RustaceanView, StorageErrorView>),
    Created(Result<RustaceanView, StorageErrorView>),
    Saved(Result<RustaceanView, StorageErrorView>),
    Deleted(Result<nat, StorageErrorView>),
}

/// The view of an attempt to read a list of records.
pub open spec fn records_result(result: Result<Vec<Rustacean>, StorageError>) -> Result<
    Seq<RustaceanView>,
    StorageErrorView,
> {
    match result {
        Ok(records) => Ok(views_of(records@)),
        Err(error) => Err(error@),
    }
}

/// The view of an attempt to read or write one record.
pub open spec fn record_result(result: Result<Rustacean, StorageError>) -> Result<
    RustaceanView,
    StorageErrorView,
> {
    match result {
        Ok(record) => Ok(record@),
        Err(error) => Err(error@),
    }
}

/// The view of an attempt to remove rows.
pub open spec fn count_result(result: Result<usize, StorageError>) -> Result<
    nat,
    StorageErrorView,
> {
    match result {
        Ok(count) => Ok(count as nat),
        Err(error) => Err(error@),
    }
}

impl View for Outcome {
    type V = OutcomeView;

    open spec fn view(&self) -> OutcomeView {
        match *self {
            Outcome::Listed(result) => OutcomeView::Listed(records_result(result)),
            Outcome::Found(result) => OutcomeView::Found(record_result(result)),
            Outcome::Created(result) => OutcomeView::Created(record_result(result)),
            Outcome::Saved(result) => OutcomeView::Saved(record_result(result)),
            Outcome::Deleted(result) => OutcomeView::Deleted(count_result(result)),
        }
    }
}

/// `diesel::result::Error`, the driver's error, carried as an opaque value.
#[verifier::external_type_specification]
#[verifier::external_body]
pub struct ExDriverError(diesel::result::Error);

/// The text that the `Display` impl of `diesel::result::Error` writes for
/// `error`.
pub uninterp spec fn driver_text(error: diesel::result::Error) -> Seq<char>;

/// Whether `error` is the variant `NotFound` of `diesel::result::Error`: a
/// query that had to return a row returned none.
pub uninterp spec fn driver_row_missing(error: diesel::result::Error) -> bool;

/// What a driver's error is read as: not found where the driver says that no
/// row matched, anything else otherwise, with the driver's text either way.
pub open spec fn driver_failure(error: diesel::result::Error) -> StorageErrorView {
    if driver_row_missing(error) {
        StorageErrorView::NotFound { message: driver_text(error) }
    } else {
        StorageErrorView::Other { message: driver_text(error) }
    }
}

/// Reads a `diesel::result::Error`: tells its variant `NotFound` from all the
/// others and takes the text that its `Display` impl writes (`to_string`).
/// The contract names both, as `driver_row_missing` and `driver_text`, and
/// claims of the text only that for `NotFound` it is `Record not found`.
#[verifier::external_body]
fn read_driver_error(error: diesel::result::Error) -> (read: StorageError)
    ensures
        read@.message() == driver_text(error),
        (read is NotFound) == driver_row_missing(error),
        read matches StorageError::NotFound { message } ==> message@ == "Record not found"@,
{
    let message = error.to_string();
    match error {
        diesel::result::Error::NotFound => StorageError::NotFound { message },
        _ => StorageError::Other { message },
    }
}

/// Turns what the driver returned into what the handlers read. A success is
/// handed on untouched; a failure keeps its kind and its text.
pub fn storage_result<T>(result: Result<T, diesel::result::Error>) -> (read: Result<
    T,
    StorageError,
>)
    ensures
        result matches Ok(value) ==> read == Ok::<T, StorageError>(value),
        result matches Err(error) ==> (read matches Err(failure) && failure@ == driver_failure(
            error,
        )),
        read matches Err(StorageError::NotFound { message }) ==> message@
            == "Record not found"@,
{
    match result {
        Ok(value) => Ok(value),
        Err(error) => Err(read_driver_error(error)),
    }
}

} // verus!
