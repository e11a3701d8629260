use mongo_es::document::FieldAccessError;
use mongo_es::error::{ErrorSource, MongoAggregateError};
use mongo_es::event_repository::{
    aggregate_type_filter, build_event_upsert_documents, collect_event, event_document, event_index,
    event_index_keys, event_is_readable, latest_snapshot_first, plan_event_insert, read_event,
    read_snapshot, read_stream_item, sequence_ascending, serialized_event, snapshot_from_document,
    snapshot_index, snapshot_index_keys, snapshot_replacement, snapshot_update_outcome,
    stream_item, EventInsertPlan, EventRecord, StreamItem,
};
use mongodb::bson::{Bson, Document};
use serde_json::Value;

fn name_added(name: &str) -> Value {
    let mut inner = serde_json::Map::new();
    inner.insert("name".to_string(), Value::from(name));
    let mut outer = serde_json::Map::new();
    outer.insert("NameAdded".to_string(), Value::Object(inner));
    Value::Object(outer)
}

fn test_event(id: &str, sequence: usize, payload: Value) -> EventRecord {
    EventRecord {
        aggregate_id: id.to_string(),
        sequence,
        aggregate_type: "Customer".to_string(),
        event_type: "NameAdded".to_string(),
        event_version: "1".to_string(),
        payload,
        metadata: Value::Object(serde_json::Map::new()),
    }
}

fn to_bson(value: &Value) -> Bson {
    mongodb::bson::to_bson(value).unwrap()
}

#[test]
fn event_document_stores_typed_fields() {
    let event = test_event("agg-1", 3, name_added("Ferris"));
    let document = event_document(&event, to_bson(&event.payload), to_bson(&event.metadata));
    assert_eq!(7, document.len());
    assert_eq!("agg-1", document.get_str("aggregate_id").unwrap());
    assert_eq!("Customer", document.get_str("aggregate_type").unwrap());
    assert_eq!(3, document.get_i64("sequence").unwrap());
    assert_eq!("NameAdded", document.get_str("event_type").unwrap());
    assert_eq!("1", document.get_str("event_version").unwrap());
    assert!(document.get_document("payload").is_ok());
    assert!(document.get_document("metadata").is_ok());
}

#[test]
fn event_round_trip() {
    let event = test_event("agg-2", 42, name_added("Ferris"));
    let document = event_document(&event, to_bson(&event.payload), to_bson(&event.metadata));
    let read = serialized_event(&document).unwrap();
    assert_eq!(event.aggregate_id, read.aggregate_id);
    assert_eq!(event.sequence, read.sequence);
    assert_eq!(event.aggregate_type, read.aggregate_type);
    assert_eq!(event.event_type, read.event_type);
    assert_eq!(event.event_version, read.event_version);
    assert_eq!(event.payload, read.payload);
    assert_eq!(event.metadata, read.metadata);
}

#[test]
fn event_with_missing_field_is_unknown_error() {
    let event = test_event("agg-3", 1, name_added("Ferris"));
    let mut document = event_document(&event, to_bson(&event.payload), to_bson(&event.metadata));
    document.remove("event_type");
    assert!(matches!(
        serialized_event(&document),
        Err(MongoAggregateError::UnknownError(ErrorSource::FieldAccess(
            FieldAccessError::NotPresent
        )))
    ));
}

#[test]
fn event_with_mistyped_sequence_is_unknown_error() {
    let event = test_event("agg-4", 1, name_added("Ferris"));
    let mut document = event_document(&event, to_bson(&event.payload), to_bson(&event.metadata));
    document.insert("sequence", "one");
    assert!(matches!(
        serialized_event(&document),
        Err(MongoAggregateError::UnknownError(ErrorSource::FieldAccess(
            FieldAccessError::UnexpectedType
        )))
    ));
}

#[test]
fn event_without_payload_is_not_read() {
    let event = test_event("agg-5", 1, name_added("Ferris"));
    let mut document = event_document(&event, to_bson(&event.payload), to_bson(&event.metadata));
    document.remove("payload");
    assert!(!event_is_readable(&document));
    assert!(read_event(&document).is_none());
}

#[test]
fn upsert_documents_and_last_sequence() {
    let events = vec![
        test_event("agg-6", 1, name_added("Ferris")),
        test_event("agg-6", 3, name_added("F3rr1s")),
        test_event("agg-6", 2, name_added("Ferris")),
    ];
    let (documents, current_sequence) = build_event_upsert_documents(&events).unwrap();
    assert_eq!(3, documents.len());
    assert_eq!(2, current_sequence);
    assert_eq!(3, documents[1].get_i64("sequence").unwrap());
    let (documents, current_sequence) = build_event_upsert_documents(&[]).unwrap();
    assert!(documents.is_empty());
    assert_eq!(0, current_sequence);
}

#[test]
fn unconvertible_payload_is_reported() {
    let events = vec![test_event("agg-7", 1, Value::from(u64::MAX))];
    assert!(build_event_upsert_documents(&events).is_none());
    assert!(matches!(plan_event_insert(&events), EventInsertPlan::Unconvertible));
}

#[test]
fn insert_plan() {
    assert!(matches!(plan_event_insert(&[]), EventInsertPlan::NothingToInsert));
    let events = vec![
        test_event("agg-8", 1, name_added("Ferris")),
        test_event("agg-8", 2, name_added("Ferris")),
    ];
    match plan_event_insert(&events) {
        EventInsertPlan::InsertMany(documents) => {
            assert_eq!(2, documents.len());
            assert_eq!(2, documents[1].get_i64("sequence").unwrap());
        }
        _ => panic!("expected documents to insert"),
    }
}

#[test]
fn sort_orders_and_index_keys() {
    let sort = latest_snapshot_first();
    assert_eq!(1, sort.len());
    assert_eq!(-1, sort.get_i32("current_snapshot").unwrap());
    let sort = sequence_ascending();
    assert_eq!(1, sort.len());
    assert_eq!(1, sort.get_i32("sequence").unwrap());
    let keys = event_index_keys();
    assert_eq!(vec!["aggregate_id", "sequence"], keys.keys().collect::<Vec<_>>());
    assert_eq!(1, keys.get_i32("aggregate_id").unwrap());
    assert_eq!(1, keys.get_i32("sequence").unwrap());
    let keys = snapshot_index_keys();
    assert_eq!(vec!["aggregate_id", "current_snapshot"], keys.keys().collect::<Vec<_>>());
    assert_eq!(-1, keys.get_i32("current_snapshot").unwrap());
    let filter = aggregate_type_filter("Customer");
    assert_eq!(1, filter.len());
    assert_eq!("Customer", filter.get_str("aggregate_type").unwrap());
}

fn customer(email: &str) -> Value {
    let mut object = serde_json::Map::new();
    object.insert("customer_id".to_string(), Value::from("123"));
    object.insert("name".to_string(), Value::from("Ferris"));
    object.insert("email".to_string(), Value::from(email));
    Value::Object(object)
}

#[test]
fn snapshot_replacement_documents() {
    let update = snapshot_replacement("Customer", "agg-9", &customer("email@example.test"), 4, 2)
        .unwrap();
    assert_eq!(3, update.filter.len());
    assert_eq!("agg-9", update.filter.get_str("aggregate_id").unwrap());
    assert_eq!("Customer", update.filter.get_str("aggregate_type").unwrap());
    assert_eq!(1, update.filter.get_i64("current_snapshot").unwrap());
    assert_eq!(5, update.replacement.len());
    assert_eq!("Customer", update.replacement.get_str("aggregate_type").unwrap());
    assert_eq!("agg-9", update.replacement.get_str("aggregate_id").unwrap());
    assert_eq!(4, update.replacement.get_i64("current_sequence").unwrap());
    assert_eq!(2, update.replacement.get_i64("current_snapshot").unwrap());
    assert!(update.replacement.get_document("payload").is_ok());
}

#[test]
fn first_snapshot_replaces_version_zero() {
    let update = snapshot_replacement("Customer", "agg-10", &customer("first@example.test"), 0, 1)
        .unwrap();
    assert_eq!(0, update.filter.get_i64("current_snapshot").unwrap());
    assert_eq!(0, update.replacement.get_i64("current_sequence").unwrap());
}

#[test]
fn snapshot_round_trip() {
    let state = customer("second@example.test");
    let update = snapshot_replacement("Customer", "agg-11", &state, 7, 2).unwrap();
    let snapshot = snapshot_from_document("agg-11", &update.replacement).unwrap();
    assert_eq!("agg-11", snapshot.aggregate_id);
    assert_eq!(state, snapshot.aggregate);
    assert_eq!(7, snapshot.current_sequence);
    assert_eq!(2, snapshot.current_snapshot);
}

#[test]
fn snapshot_with_missing_counter_is_unknown_error() {
    let update = snapshot_replacement("Customer", "agg-12", &customer("x@example.test"), 7, 2)
        .unwrap();
    let mut document = update.replacement;
    document.remove("current_snapshot");
    assert!(matches!(
        snapshot_from_document("agg-12", &document),
        Err(MongoAggregateError::UnknownError(ErrorSource::FieldAccess(
            FieldAccessError::NotPresent
        )))
    ));
    document.remove("payload");
    assert!(read_snapshot("agg-12", &document).is_none());
}

#[test]
fn snapshot_outcomes() {
    assert!(snapshot_update_outcome(1, false).is_ok());
    assert!(snapshot_update_outcome(0, true).is_ok());
    assert!(snapshot_update_outcome(1, true).is_ok());
    assert!(matches!(
        snapshot_update_outcome(0, false),
        Err(MongoAggregateError::OptimisticLock)
    ));
}

#[test]
fn stream_items() {
    let event = test_event("agg-13", 5, name_added("Ferris"));
    let document = event_document(&event, to_bson(&event.payload), to_bson(&event.metadata));
    match stream_item(Ok(document)) {
        StreamItem::Forward(Ok(read)) => {
            assert_eq!(5, read.sequence);
            assert_eq!(event.payload, read.payload);
        }
        _ => panic!("expected an event"),
    }
    let mut broken = Document::new();
    broken.insert("aggregate_id", 1);
    match stream_item(Ok(broken)) {
        StreamItem::Skip(document) => assert_eq!(1, document.get_i32("aggregate_id").unwrap()),
        _ => panic!("expected the document to be skipped"),
    }
    let error = mongodb::error::Error::custom(1u8);
    assert!(matches!(
        stream_item(Err(error)),
        StreamItem::Forward(Err(MongoAggregateError::UnknownError(ErrorSource::Mongo(_))))
    ));
}

#[test]
fn unconvertible_snapshot_state_is_reported() {
    assert!(snapshot_replacement("Customer", "agg-14", &Value::from(u64::MAX), 1, 1).is_none());
}

fn binary() -> Bson {
    Bson::Binary(mongodb::bson::Binary {
        subtype: mongodb::bson::spec::BinarySubtype::Generic,
        bytes: vec![1, 2, 3],
    })
}

#[test]
fn event_with_unreadable_metadata_is_not_read() {
    let event = test_event("agg-15", 1, name_added("Ferris"));
    let document = event_document(&event, to_bson(&event.payload), binary());
    assert!(mongodb::bson::from_bson::<Value>(binary()).is_err());
    assert!(!event_is_readable(&document));
    assert!(read_event(&document).is_none());
    assert!(read_stream_item(Ok(document)).is_none());
}

#[test]
fn sequence_beyond_i64_round_trips() {
    let event = test_event("agg-16", usize::MAX, name_added("Ferris"));
    let document = event_document(&event, to_bson(&event.payload), to_bson(&event.metadata));
    assert_eq!(-1, document.get_i64("sequence").unwrap());
    let read = serialized_event(&document).unwrap();
    assert_eq!(usize::MAX, read.sequence);
}

#[test]
fn stored_payload_and_metadata_are_their_bson() {
    let event = test_event("agg-17", 2, name_added("Ferris"));
    let (documents, _) = build_event_upsert_documents(&[event]).unwrap();
    let event = test_event("agg-17", 2, name_added("Ferris"));
    assert_eq!(Some(&to_bson(&event.payload)), documents[0].get("payload"));
    assert_eq!(Some(&to_bson(&event.metadata)), documents[0].get("metadata"));
    let read = read_event(&documents[0]).unwrap().unwrap();
    assert_eq!(event.payload, read.payload);
}

#[test]
fn snapshot_stores_state_as_bson() {
    let state = customer("email@example.test");
    let update = snapshot_replacement("Customer", "agg-18", &state, 0, 1).unwrap();
    assert_eq!(Some(&to_bson(&state)), update.replacement.get("payload"));
    let snapshot = read_snapshot("agg-18", &update.replacement).unwrap().unwrap();
    assert_eq!(state, snapshot.aggregate);
    assert_eq!(0, snapshot.current_sequence);
    assert_eq!(1, snapshot.current_snapshot);
}

#[test]
fn unique_indexes() {
    let index = event_index();
    assert_eq!(Some(true), index.options.as_ref().and_then(|o| o.unique));
    assert_eq!(vec!["aggregate_id", "sequence"], index.keys.keys().collect::<Vec<_>>());
    let index = snapshot_index();
    assert_eq!(Some(true), index.options.as_ref().and_then(|o| o.unique));
    assert_eq!(vec!["aggregate_id", "current_snapshot"], index.keys.keys().collect::<Vec<_>>());
    assert_eq!(-1, index.keys.get_i32("current_snapshot").unwrap());
}

#[test]
fn readable_stream_item() {
    let event = test_event("agg-19", 9, name_added("Ferris"));
    let document = event_document(&event, to_bson(&event.payload), to_bson(&event.metadata));
    match read_stream_item(Ok(document)) {
        Some(StreamItem::Forward(Ok(read))) => assert_eq!(9, read.sequence),
        _ => panic!("expected an event"),
    }
}

#[test]
fn collecting_events_stops_at_an_unreadable_one() {
    let first = test_event("agg-20", 1, name_added("Ferris"));
    let second = test_event("agg-20", 2, name_added("F3rr1s"));
    let (documents, _) = build_event_upsert_documents(&[first, second]).unwrap();
    let mut events = Vec::new();
    assert!(collect_event(&mut events, &documents[0]).is_ok());
    assert!(collect_event(&mut events, &documents[1]).is_ok());
    assert_eq!(2, events.len());
    assert_eq!(2, events[1].sequence);
    assert_eq!(name_added("F3rr1s"), events[1].payload);
    let mut broken = documents[0].clone();
    broken.remove("aggregate_type");
    assert!(matches!(
        collect_event(&mut events, &broken),
        Err(MongoAggregateError::UnknownError(ErrorSource::FieldAccess(
            FieldAccessError::NotPresent
        )))
    ));
    assert_eq!(2, events.len());
}

#[test]
fn stored_layouts_keep_field_order() {
    let event = test_event("agg-21", 1, name_added("Ferris"));
    let document = event_document(&event, to_bson(&event.payload), to_bson(&event.metadata));
    assert_eq!(
        vec!["aggregate_id", "aggregate_type", "sequence", "event_type", "event_version", "payload", "metadata"],
        document.keys().collect::<Vec<_>>()
    );
    let update = snapshot_replacement("Customer", "agg-21", &customer("x@example.test"), 1, 1).unwrap();
    assert_eq!(
        vec!["aggregate_type", "aggregate_id", "payload", "current_sequence", "current_snapshot"],
        update.replacement.keys().collect::<Vec<_>>()
    );
    let set = mongo_es::view_repository::view_set_document(Bson::Int32(1), 0);
    assert_eq!(vec!["payload", "version"], set.keys().collect::<Vec<_>>());
}
