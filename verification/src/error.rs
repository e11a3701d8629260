//! The errors of the repositories, and how errors of the MongoDB driver map to them.
use vstd::prelude::*;

use crate::document::FieldAccessError;
use mongodb::error::{Error as MongoError, ErrorKind, WriteFailure};
use vstd::std_specs::convert::FromSpecImpl;

verus! {

#[verifier::external_type_specification]
#[verifier::external_body]
pub struct ExMongoError(mongodb::error::Error);

#[verifier::external_type_specification]
#[verifier::external_body]
pub struct ExJsonError(serde_json::Error);

/// The code with which the server refuses a write that would give a unique
/// index a second entry with the same key.
pub const DUPLICATE_KEY_CODE: i32 = 11000;

/// The error that caused a repository error.
#[derive(Debug)]
pub enum ErrorSource {
    /// An error of the MongoDB driver.
    Mongo(MongoError),
    /// An error of `serde_json`.
    Json(serde_json::Error),
    /// A field of a stored document was missing or had another type.
    FieldAccess(FieldAccessError),
}

/// The errors of the event and view repositories.
#[derive(Debug)]
pub enum MongoAggregateError {
    /// A write conflicted with one that was made before it.
    OptimisticLock,
    /// The database could not be reached.
    ConnectionError(ErrorSource),
    /// Stored data could not be read back.
    DeserializationError(ErrorSource),
    /// Any other failure.
    UnknownError(ErrorSource),
}

/// What the classification of a driver error reads of it: the kind of the
/// error, and for write failures the codes that the server sent.
#[derive(Debug)]
pub enum MongoErrorKind {
    /// The driver could not deserialize a BSON document.
    BsonDeserialization,
    /// An `insert_many` failed; the codes of its write errors, if it had any.
    InsertMany { write_error_codes: Option<Vec<i32>> },
    /// A single write failed with a write error of this code.
    WriteError { code: i32 },
    /// Any other kind, write concern failures among them.
    Other,
}

/// The kind of a driver error, as `mongo_error_kind` reads it.
pub uninterp spec fn mongo_error_kind_of(error: MongoError) -> MongoErrorKind;

/// Reads the kind of a driver error: the variant of `error.kind`, and for
/// `InsertMany` and `Write(WriteError(..))` the codes of the write errors.
#[verifier::external_body]
fn mongo_error_kind(error: &MongoError) -> (kind: MongoErrorKind)
    ensures
        kind == mongo_error_kind_of(*error),
{
    match error.kind.as_ref() {
        ErrorKind::BsonDeserialization(_) => MongoErrorKind::BsonDeserialization,
        ErrorKind::InsertMany(e) => MongoErrorKind::InsertMany {
            write_error_codes: e.write_errors.as_ref().map(|errs| errs.iter().map(|w| w.code).collect()),
        },
        ErrorKind::Write(WriteFailure::WriteError(w)) => MongoErrorKind::WriteError { code: w.code },
        _ => MongoErrorKind::Other,
    }
}

/// Whether a driver error of this kind reports a duplicate key: a write that
/// conflicts with an event or snapshot that is already stored.
pub open spec fn is_duplicate_key(kind: MongoErrorKind) -> bool {
    match kind {
        MongoErrorKind::InsertMany { write_error_codes } => match write_error_codes {
            Some(codes) => codes@.contains(DUPLICATE_KEY_CODE),
            None => false,
        },
        MongoErrorKind::WriteError { code } => code == DUPLICATE_KEY_CODE,
        _ => false,
    }
}

/// The repository error for a driver error of the given kind.
pub open spec fn spec_from_mongo_error(kind: MongoErrorKind, error: MongoError) -> MongoAggregateError {
    if is_duplicate_key(kind) {
        MongoAggregateError::OptimisticLock
    } else if kind is BsonDeserialization {
        MongoAggregateError::DeserializationError(ErrorSource::Mongo(error))
    } else {
        MongoAggregateError::UnknownError(ErrorSource::Mongo(error))
    }
}

/// A driver error is an optimistic lock conflict exactly when it reports the
/// duplicate key code: for an `insert_many` failure, among its write errors at
/// any position; for a single write, as its code. A BSON deserialization
/// failure is a deserialization error, and every other error is unknown, each
/// keeping the driver error as its source.
pub proof fn lemma_duplicate_key_is_optimistic_lock(kind: MongoErrorKind, error: MongoError)
    ensures
        kind matches MongoErrorKind::InsertMany { write_error_codes: Some(codes) } ==> (
        spec_from_mongo_error(kind, error) is OptimisticLock <==> codes@.contains(
            DUPLICATE_KEY_CODE,
        )),
        kind matches MongoErrorKind::WriteError { code } ==> (spec_from_mongo_error(
            kind,
            error,
        ) is OptimisticLock <==> code == DUPLICATE_KEY_CODE),
        kind matches MongoErrorKind::InsertMany { write_error_codes: None } ==> spec_from_mongo_error(
            kind,
            error,
        ) == MongoAggregateError::UnknownError(ErrorSource::Mongo(error)),
        kind is BsonDeserialization ==> spec_from_mongo_error(kind, error)
            == MongoAggregateError::DeserializationError(ErrorSource::Mongo(error)),
        kind is Other ==> spec_from_mongo_error(kind, error) == MongoAggregateError::UnknownError(
            ErrorSource::Mongo(error),
        ),
        !(spec_from_mongo_error(kind, error) is OptimisticLock) ==> (spec_from_mongo_error(
            kind,
            error,
        ) matches MongoAggregateError::UnknownError(ErrorSource::Mongo(source)) && source == error)
            || (spec_from_mongo_error(kind, error) matches MongoAggregateError::DeserializationError(
            ErrorSource::Mongo(source),
        ) && source == error),
{
}

fn contains_duplicate_key_code(codes: &Vec<i32>) -> (found: bool)
    ensures
        found == codes@.contains(DUPLICATE_KEY_CODE),
{
    let mut i: usize = 0;
    while i < codes.len()
        invariant
            i <= codes.len(),
            forall|j: int| 0 <= j < i ==> codes@[j] != DUPLICATE_KEY_CODE,
        decreases codes.len() - i,
    {
        if codes[i] == DUPLICATE_KEY_CODE {
            return true;
        }
        i = i + 1;
    }
    false
}

impl MongoAggregateError {
    /// The repository error for the driver error `error`, whose kind is `kind`:
    /// a duplicate key is an optimistic lock conflict, a BSON deserialization
    /// failure a deserialization error, and anything else an unknown error.
    pub fn from_mongo_error_kind(kind: &MongoErrorKind, error: MongoError) -> (result: Self)
        ensures
            result == spec_from_mongo_error(*kind, error),
            kind matches MongoErrorKind::InsertMany { write_error_codes: Some(codes) } ==> (
            result is OptimisticLock <==> codes@.contains(DUPLICATE_KEY_CODE)),
            kind matches MongoErrorKind::WriteError { code } ==> (result is OptimisticLock <==> code
                == DUPLICATE_KEY_CODE),
            (kind is Other || kind is BsonDeserialization || (kind matches MongoErrorKind::InsertMany {
                write_error_codes: None,
            })) ==> !(result is OptimisticLock),
    {
        proof {
            lemma_duplicate_key_is_optimistic_lock(*kind, error);
        }
        let duplicate = match kind {
            MongoErrorKind::InsertMany { write_error_codes } => match write_error_codes {
                Some(codes) => contains_duplicate_key_code(codes),
                None => false,
            },
            MongoErrorKind::WriteError { code } => *code == DUPLICATE_KEY_CODE,
            _ => false,
        };
        if duplicate {
            MongoAggregateError::OptimisticLock
        } else {
            match kind {
                MongoErrorKind::BsonDeserialization => MongoAggregateError::DeserializationError(
                    ErrorSource::Mongo(error),
                ),
                _ => MongoAggregateError::UnknownError(ErrorSource::Mongo(error)),
            }
        }
    }
}

impl From<MongoError> for MongoAggregateError {
    fn from(error: MongoError) -> (result: Self) {
        let kind = mongo_error_kind(&error);
        MongoAggregateError::from_mongo_error_kind(&kind, error)
    }
}

impl FromSpecImpl<MongoError> for MongoAggregateError {
    open spec fn obeys_from_spec() -> bool {
        true
    }

    open spec fn from_spec(error: MongoError) -> Self {
        spec_from_mongo_error(mongo_error_kind_of(error), error)
    }
}

impl From<serde_json::Error> for MongoAggregateError {
    fn from(error: serde_json::Error) -> (result: Self) {
        MongoAggregateError::UnknownError(ErrorSource::Json(error))
    }
}

impl FromSpecImpl<serde_json::Error> for MongoAggregateError {
    open spec fn obeys_from_spec() -> bool {
        true
    }

    open spec fn from_spec(error: serde_json::Error) -> Self {
        MongoAggregateError::UnknownError(ErrorSource::Json(error))
    }
}

impl From<FieldAccessError> for MongoAggregateError {
    fn from(error: FieldAccessError) -> (result: Self) {
        MongoAggregateError::UnknownError(ErrorSource::FieldAccess(error))
    }
}

impl FromSpecImpl<FieldAccessError> for MongoAggregateError {
    open spec fn obeys_from_spec() -> bool {
        true
    }

    open spec fn from_spec(error: FieldAccessError) -> Self {
        MongoAggregateError::UnknownError(ErrorSource::FieldAccess(error))
    }
}

} // verus!
