use mongo_es::document::FieldAccessError;
use mongo_es::error::{ErrorSource, MongoAggregateError, MongoErrorKind, DUPLICATE_KEY_CODE};
use mongodb::error::{Error as MongoError, ErrorKind, InsertManyError, WriteError, WriteFailure};
use serde_json::Value;

fn write_error_json(index: usize, code: i32) -> Value {
    let mut object = serde_json::Map::new();
    object.insert("index".to_string(), Value::from(index));
    object.insert("code".to_string(), Value::from(code));
    object.insert("errmsg".to_string(), Value::from("write failed"));
    Value::Object(object)
}

fn insert_many_error(codes: Option<&[i32]>) -> MongoError {
    let mut object = serde_json::Map::new();
    if let Some(codes) = codes {
        let errors: Vec<Value> = codes
            .iter()
            .enumerate()
            .map(|(index, code)| write_error_json(index, *code))
            .collect();
        object.insert("writeErrors".to_string(), Value::Array(errors));
    }
    let error: InsertManyError = serde_json::from_value(Value::Object(object)).unwrap();
    MongoError::from(ErrorKind::InsertMany(error))
}

fn write_error(code: i32) -> MongoError {
    let error: WriteError = serde_json::from_value(write_error_json(0, code)).unwrap();
    MongoError::from(ErrorKind::Write(WriteFailure::WriteError(error)))
}

fn bson_deserialization_error() -> MongoError {
    let error = mongodb::bson::from_bson::<i32>(mongodb::bson::Bson::String("x".to_string()))
        .unwrap_err();
    MongoError::from(ErrorKind::BsonDeserialization(error))
}

#[test]
fn duplicate_key_in_insert_many_is_optimistic_lock() {
    let error = insert_many_error(Some(&[1, DUPLICATE_KEY_CODE]));
    assert!(matches!(
        MongoAggregateError::from(error),
        MongoAggregateError::OptimisticLock
    ));
}

#[test]
fn insert_many_without_duplicate_key_is_unknown() {
    let error = insert_many_error(Some(&[1, 2]));
    assert!(matches!(
        MongoAggregateError::from(error),
        MongoAggregateError::UnknownError(ErrorSource::Mongo(_))
    ));
    let error = insert_many_error(None);
    assert!(matches!(
        MongoAggregateError::from(error),
        MongoAggregateError::UnknownError(ErrorSource::Mongo(_))
    ));
}

#[test]
fn duplicate_key_write_error_is_optimistic_lock() {
    assert!(matches!(
        MongoAggregateError::from(write_error(11000)),
        MongoAggregateError::OptimisticLock
    ));
    assert!(matches!(
        MongoAggregateError::from(write_error(11001)),
        MongoAggregateError::UnknownError(ErrorSource::Mongo(_))
    ));
}

#[test]
fn bson_deserialization_is_deserialization_error() {
    assert!(matches!(
        MongoAggregateError::from(bson_deserialization_error()),
        MongoAggregateError::DeserializationError(ErrorSource::Mongo(_))
    ));
}

#[test]
fn other_driver_errors_are_unknown() {
    assert!(matches!(
        MongoAggregateError::from(MongoError::custom(7u8)),
        MongoAggregateError::UnknownError(ErrorSource::Mongo(_))
    ));
}

#[test]
fn classification_from_kind() {
    let kind = MongoErrorKind::InsertMany {
        write_error_codes: Some(vec![5, 11000, 7]),
    };
    assert!(matches!(
        MongoAggregateError::from_mongo_error_kind(&kind, MongoError::custom(1u8)),
        MongoAggregateError::OptimisticLock
    ));
    let kind = MongoErrorKind::WriteError { code: 42 };
    assert!(matches!(
        MongoAggregateError::from_mongo_error_kind(&kind, MongoError::custom(1u8)),
        MongoAggregateError::UnknownError(ErrorSource::Mongo(_))
    ));
    let kind = MongoErrorKind::BsonDeserialization;
    assert!(matches!(
        MongoAggregateError::from_mongo_error_kind(&kind, MongoError::custom(1u8)),
        MongoAggregateError::DeserializationError(ErrorSource::Mongo(_))
    ));
    let kind = MongoErrorKind::Other;
    assert!(matches!(
        MongoAggregateError::from_mongo_error_kind(&kind, MongoError::custom(1u8)),
        MongoAggregateError::UnknownError(ErrorSource::Mongo(_))
    ));
    let kind = MongoErrorKind::InsertMany {
        write_error_codes: None,
    };
    assert!(matches!(
        MongoAggregateError::from_mongo_error_kind(&kind, MongoError::custom(1u8)),
        MongoAggregateError::UnknownError(ErrorSource::Mongo(_))
    ));
}

#[test]
fn json_and_field_errors_are_unknown() {
    let json_error = serde_json::from_str::<Value>("{").unwrap_err();
    assert!(matches!(
        MongoAggregateError::from(json_error),
        MongoAggregateError::UnknownError(ErrorSource::Json(_))
    ));
    assert!(matches!(
        MongoAggregateError::from(FieldAccessError::NotPresent),
        MongoAggregateError::UnknownError(ErrorSource::FieldAccess(FieldAccessError::NotPresent))
    ));
}
