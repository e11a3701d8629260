//! The event repository: how events and snapshots are laid out as MongoDB
//! documents, how stored documents are read back, and the decisions that the
//! repository's operations take between their calls to the database.
use vstd::prelude::*;

use crate::document::{
    lemma_new_name_goes_last, bson_of_json, converts_to_bson, document_fields, document_order, document_value, get_i64,
    get_str, index_model, index_model_of, insert_bson, insert_document, insert_i32, insert_i64,
    insert_str, json_to_bson, new_document, read_stored_json, spec_read_i64, spec_read_str,
    stored_json, stored_json_readable, FieldAccessError, FieldValue,
};
use crate::error::{mongo_error_kind_of, spec_from_mongo_error, ErrorSource, MongoAggregateError};
use mongodb::bson::{Bson, Document};
use mongodb::{Client, IndexModel};
use serde_json::Value;

verus! {

#[verifier::external_type_specification]
#[verifier::external_body]
pub struct ExClient(mongodb::Client);

/// The collection that events go to unless configured otherwise.
pub const DEFAULT_EVENT_COLLECTION: &'static str = "events";

/// The collection that snapshots go to unless configured otherwise.
pub const DEFAULT_SNAPSHOT_COLLECTION: &'static str = "snapshots";

/// The size of the channel that streams replayed events, unless configured otherwise.
pub const DEFAULT_STREAMING_CHANNEL_SIZE: usize = 200;

/// A serialized event: the values that are stored for one event of an aggregate instance.
pub struct EventRecord {
    /// The id of the aggregate instance.
    pub aggregate_id: String,
    /// The sequence number of the event for this aggregate instance.
    pub sequence: usize,
    /// The type of aggregate the event applies to.
    pub aggregate_type: String,
    /// The type of the event.
    pub event_type: String,
    /// The version of the event.
    pub event_version: String,
    /// The serialized domain event.
    pub payload: Value,
    /// Additional metadata.
    pub metadata: Value,
}

/// The values of an event that are stored as typed fields.
pub struct EventHeader {
    pub aggregate_id: Seq<char>,
    pub sequence: usize,
    pub aggregate_type: Seq<char>,
    pub event_type: Seq<char>,
    pub event_version: Seq<char>,
}

impl EventRecord {
    /// The values of this event that are stored as typed fields.
    pub open spec fn header(self) -> EventHeader {
        EventHeader {
            aggregate_id: self.aggregate_id@,
            sequence: self.sequence,
            aggregate_type: self.aggregate_type@,
            event_type: self.event_type@,
            event_version: self.event_version@,
        }
    }
}

/// A serialized snapshot of an aggregate instance.
pub struct SnapshotRecord {
    /// The id of the aggregate instance.
    pub aggregate_id: String,
    /// The state of the aggregate instance.
    pub aggregate: Value,
    /// The last committed event sequence number for this aggregate instance.
    pub current_sequence: usize,
    /// The version of this snapshot.
    pub current_snapshot: usize,
}

/// The names of the fields of a stored event.
pub open spec fn event_field_names() -> Set<Seq<char>> {
    set![
        "aggregate_id"@,
        "aggregate_type"@,
        "sequence"@,
        "event_type"@,
        "event_version"@,
        "payload"@,
        "metadata"@,
    ]
}

/// The order of the fields of a stored event.
pub open spec fn event_field_order() -> Seq<Seq<char>> {
    seq![
        "aggregate_id"@,
        "aggregate_type"@,
        "sequence"@,
        "event_type"@,
        "event_version"@,
        "payload"@,
        "metadata"@,
    ]
}

/// The fields `f` are those of the stored event `e`: its typed values under
/// their names, and some value under "payload" and under "metadata".
pub open spec fn is_event_document(f: Map<Seq<char>, FieldValue>, e: EventRecord) -> bool {
    &&& f.dom() =~= event_field_names()
    &&& f["aggregate_id"@] == FieldValue::Str(e.aggregate_id@)
    &&& f["aggregate_type"@] == FieldValue::Str(e.aggregate_type@)
    &&& f["sequence"@] == FieldValue::Int64(e.sequence as i64)
    &&& f["event_type"@] == FieldValue::Str(e.event_type@)
    &&& f["event_version"@] == FieldValue::Str(e.event_version@)
}

/// The typed values of an event as they are read back from the fields `f`,
/// in the order in which they are read, or the first failure.
pub open spec fn spec_read_event_header(f: Map<Seq<char>, FieldValue>) -> Result<
    EventHeader,
    FieldAccessError,
> {
    match spec_read_str(f, "aggregate_id"@) {
        Err(e) => Err(e),
        Ok(aggregate_id) => match spec_read_i64(f, "sequence"@) {
            Err(e) => Err(e),
            Ok(sequence) => match spec_read_str(f, "aggregate_type"@) {
                Err(e) => Err(e),
                Ok(aggregate_type) => match spec_read_str(f, "event_type"@) {
                    Err(e) => Err(e),
                    Ok(event_type) => match spec_read_str(f, "event_version"@) {
                        Err(e) => Err(e),
                        Ok(event_version) => Ok(
                            EventHeader {
                                aggregate_id,
                                sequence: sequence as usize,
                                aggregate_type,
                                event_type,
                                event_version,
                            },
                        ),
                    },
                },
            },
        },
    }
}

/// Whether the payload and the metadata of `event` convert to BSON.
pub open spec fn event_converts(event: EventRecord) -> bool {
    converts_to_bson(event.payload) && converts_to_bson(event.metadata)
}

/// The document `d` stores the event `e`: its typed values under their names,
/// and its payload and metadata converted to BSON.
pub open spec fn is_stored_event(d: Document, e: EventRecord) -> bool {
    &&& is_event_document(document_fields(d), e)
    &&& document_order(d) == event_field_order()
    &&& document_value(d, "payload"@) == Some(bson_of_json(e.payload))
    &&& document_value(d, "metadata"@) == Some(bson_of_json(e.metadata))
}

/// Reading an event from `d` does not stop on its payload or metadata: where
/// its typed fields are read, both are there and convert to JSON.
pub open spec fn event_readable(d: Document) -> bool {
    spec_read_event_header(document_fields(d)) is Ok ==> stored_json_readable(d, "payload"@)
        && stored_json_readable(d, "metadata"@)
}

/// `r` is what reading an event from `d` gives: the first typed field that is
/// missing or has another type as an unknown error, else the event with the
/// typed values read and the payload and metadata converted to JSON.
pub open spec fn is_event_read_from(r: Result<EventRecord, MongoAggregateError>, d: Document) -> bool {
    match spec_read_event_header(document_fields(d)) {
        Err(e) => r == Err::<EventRecord, MongoAggregateError>(
            MongoAggregateError::UnknownError(ErrorSource::FieldAccess(e)),
        ),
        Ok(header) => r matches Ok(event) && {
            &&& event.header() == header
            &&& event.payload == stored_json(d, "payload"@)
            &&& event.metadata == stored_json(d, "metadata"@)
        },
    }
}

/// The sequence number of the last of `events`, or 0 where there are none.
pub open spec fn spec_last_sequence(events: Seq<EventRecord>) -> usize {
    if events.len() == 0 {
        0
    } else {
        events.last().sequence
    }
}

/// An event repository that keeps events and snapshots in MongoDB.
pub struct MongoEventRepository {
    client: Client,
    event_collection: String,
    snapshot_collection: String,
    stream_channel_size: usize,
}

/// The configuration of an event repository.
pub struct EventRepositoryConfig {
    pub event_collection: Seq<char>,
    pub snapshot_collection: Seq<char>,
    pub stream_channel_size: usize,
}

impl EventRepositoryConfig {
    /// This configuration with other collection names.
    pub open spec fn with_collection_names(
        self,
        event_collection: Seq<char>,
        snapshot_collection: Seq<char>,
    ) -> Self {
        EventRepositoryConfig { event_collection, snapshot_collection, ..self }
    }

    /// This configuration with another streaming channel size.
    pub open spec fn with_streaming_channel_size(self, stream_channel_size: usize) -> Self {
        EventRepositoryConfig { stream_channel_size, ..self }
    }
}

/// Configuring the collection names and the streaming channel size are
/// independent: in either order they give the same configuration.
pub proof fn lemma_configuration_order_irrelevant(
    config: EventRepositoryConfig,
    event_collection: Seq<char>,
    snapshot_collection: Seq<char>,
    stream_channel_size: usize,
)
    ensures
        config.with_collection_names(event_collection, snapshot_collection).with_streaming_channel_size(
            stream_channel_size,
        ) == config.with_streaming_channel_size(stream_channel_size).with_collection_names(
            event_collection,
            snapshot_collection,
        ),
{
}

/// Configuring again overrides what was configured before.
pub proof fn lemma_last_configuration_wins(
    config: EventRepositoryConfig,
    first_names: (Seq<char>, Seq<char>),
    second_names: (Seq<char>, Seq<char>),
    first_size: usize,
    second_size: usize,
)
    ensures
        config.with_collection_names(first_names.0, first_names.1).with_collection_names(
            second_names.0,
            second_names.1,
        ) == config.with_collection_names(second_names.0, second_names.1),
        config.with_streaming_channel_size(first_size).with_streaming_channel_size(second_size)
            == config.with_streaming_channel_size(second_size),
{
}

impl View for MongoEventRepository {
    type V = EventRepositoryConfig;

    closed spec fn view(&self) -> EventRepositoryConfig {
        EventRepositoryConfig {
            event_collection: self.event_collection@,
            snapshot_collection: self.snapshot_collection@,
            stream_channel_size: self.stream_channel_size,
        }
    }
}

impl MongoEventRepository {
    /// The client through which the repository reaches the database.
    pub closed spec fn spec_client(&self) -> Client {
        self.client
    }

    /// Creates a repository with the default collection names ("events",
    /// "snapshots") and the default streaming channel size (200).
    pub fn new(client: Client) -> (repository: Self)
        ensures
            repository.spec_client() == client,
            repository@.event_collection == DEFAULT_EVENT_COLLECTION@,
            repository@.snapshot_collection == DEFAULT_SNAPSHOT_COLLECTION@,
            repository@.stream_channel_size == DEFAULT_STREAMING_CHANNEL_SIZE,
    {
        MongoEventRepository {
            client,
            event_collection: DEFAULT_EVENT_COLLECTION.to_owned(),
            snapshot_collection: DEFAULT_SNAPSHOT_COLLECTION.to_owned(),
            stream_channel_size: DEFAULT_STREAMING_CHANNEL_SIZE,
        }
    }

    /// Configures the repository to use custom collection names.
    pub fn with_collection_names(self, event_collection: &str, snapshot_collection: &str) -> (repository: Self)
        ensures
            repository.spec_client() == self.spec_client(),
            repository@ == self@.with_collection_names(event_collection@, snapshot_collection@),
    {
        MongoEventRepository {
            client: self.client,
            event_collection: event_collection.to_owned(),
            snapshot_collection: snapshot_collection.to_owned(),
            stream_channel_size: self.stream_channel_size,
        }
    }

    /// Configures the repository to use a custom streaming channel size.
    pub fn with_streaming_channel_size(self, stream_channel_size: usize) -> (repository: Self)
        ensures
            repository.spec_client() == self.spec_client(),
            repository@ == self@.with_streaming_channel_size(stream_channel_size),
    {
        MongoEventRepository {
            client: self.client,
            event_collection: self.event_collection,
            snapshot_collection: self.snapshot_collection,
            stream_channel_size,
        }
    }

    /// The client through which the repository reaches the database.
    pub fn client(&self) -> (client: &Client)
        ensures
            *client == self.spec_client(),
    {
        &self.client
    }

    /// The name of the collection that holds the events.
    pub fn event_collection(&self) -> (name: &str)
        ensures
            name@ == self@.event_collection,
    {
        self.event_collection.as_str()
    }

    /// The name of the collection that holds the snapshots.
    pub fn snapshot_collection(&self) -> (name: &str)
        ensures
            name@ == self@.snapshot_collection,
    {
        self.snapshot_collection.as_str()
    }

    /// The size of the channel that streams replayed events.
    pub fn stream_channel_size(&self) -> (size: usize)
        ensures
            size == self@.stream_channel_size,
    {
        self.stream_channel_size
    }
}

/// The document that stores the event `event`, with the already converted
/// payload and metadata.
pub fn event_document(event: &EventRecord, payload: Bson, metadata: Bson) -> (document: Document)
    ensures
        is_event_document(document_fields(document), *event),
        document_order(document) == event_field_order(),
        document_value(document, "payload"@) == Some(payload),
        document_value(document, "metadata"@) == Some(metadata),
{
    proof {
        lemma_event_field_names_distinct();
    }
    let mut document = new_document();
    proof { lemma_new_name_goes_last(document_order(document), "aggregate_id"@); }
    insert_str(&mut document, "aggregate_id", event.aggregate_id.as_str());
    proof { lemma_new_name_goes_last(document_order(document), "aggregate_type"@); }
    insert_str(&mut document, "aggregate_type", event.aggregate_type.as_str());
    proof { lemma_new_name_goes_last(document_order(document), "sequence"@); }
    insert_i64(&mut document, "sequence", #[verifier::truncate] (event.sequence as i64));
    proof { lemma_new_name_goes_last(document_order(document), "event_type"@); }
    insert_str(&mut document, "event_type", event.event_type.as_str());
    proof { lemma_new_name_goes_last(document_order(document), "event_version"@); }
    insert_str(&mut document, "event_version", event.event_version.as_str());
    let ghost typed = document_fields(document);
    proof { lemma_new_name_goes_last(document_order(document), "payload"@); }
    insert_bson(&mut document, "payload", payload);
    let ghost with_payload = document_fields(document);
    proof { lemma_new_name_goes_last(document_order(document), "metadata"@); }
    insert_bson(&mut document, "metadata", metadata);
    proof {
        assert(document_order(document) =~= event_field_order());
        let f = document_fields(document);
        assert(typed["aggregate_id"@] == FieldValue::Str(event.aggregate_id@));
        assert(typed.contains_key("aggregate_type"@));
        assert(typed.contains_key("sequence"@));
        assert(typed.contains_key("event_type"@));
        assert(typed.contains_key("event_version"@));
        lemma_other_fields_kept(typed, with_payload, "payload"@);
        assert(with_payload.contains_key("aggregate_id"@));
        assert(with_payload.contains_key("aggregate_type"@));
        assert(with_payload.contains_key("sequence"@));
        assert(with_payload.contains_key("event_type"@));
        assert(with_payload.contains_key("event_version"@));
        lemma_other_fields_kept(with_payload, f, "metadata"@);
        assert(f.dom() =~= event_field_names());
    }
    document
}

/// The field names of a stored event are pairwise distinct.
proof fn lemma_event_field_names_distinct()
    ensures
        "aggregate_id"@ != "aggregate_type"@,
        "aggregate_id"@ != "sequence"@,
        "aggregate_id"@ != "event_type"@,
        "aggregate_id"@ != "event_version"@,
        "aggregate_id"@ != "payload"@,
        "aggregate_id"@ != "metadata"@,
        "aggregate_type"@ != "sequence"@,
        "aggregate_type"@ != "event_type"@,
        "aggregate_type"@ != "event_version"@,
        "aggregate_type"@ != "payload"@,
        "aggregate_type"@ != "metadata"@,
        "sequence"@ != "event_type"@,
        "sequence"@ != "event_version"@,
        "sequence"@ != "payload"@,
        "sequence"@ != "metadata"@,
        "event_type"@ != "event_version"@,
        "event_type"@ != "payload"@,
        "event_type"@ != "metadata"@,
        "event_version"@ != "payload"@,
        "event_version"@ != "metadata"@,
        "payload"@ != "metadata"@,
{
    reveal_strlit("aggregate_id");
    reveal_strlit("aggregate_type");
    reveal_strlit("sequence");
    reveal_strlit("event_type");
    reveal_strlit("event_version");
    reveal_strlit("payload");
    reveal_strlit("metadata");
    assert("aggregate_id"@.len() == 12);
    assert("aggregate_type"@.len() == 14);
    assert("sequence"@.len() == 8);
    assert("event_type"@.len() == 10);
    assert("event_version"@.len() == 13);
    assert("payload"@.len() == 7);
    assert("metadata"@.len() == 8);
    assert("sequence"@[0] != "metadata"@[0]);
}

/// Where `after` differs from `before` at most in the field `key`, every other
/// field holds the same value in both.
proof fn lemma_other_fields_kept(
    before: Map<Seq<char>, FieldValue>,
    after: Map<Seq<char>, FieldValue>,
    key: Seq<char>,
)
    requires
        after.remove(key) == before.remove(key),
    ensures
        forall|k: Seq<char>|
            k != key && #[trigger] before.contains_key(k) ==> after.contains_key(k) && after[k]
                == before[k],
{
    assert forall|k: Seq<char>| k != key && #[trigger] before.contains_key(k) implies after.contains_key(
        k,
    ) && after[k] == before[k] by {
        assert(before.remove(key).contains_key(k));
        assert(after.remove(key).contains_key(k));
        vstd::map::axiom_map_remove_different(after, k, key);
        vstd::map::axiom_map_remove_different(before, k, key);
    }
}

/// A sequence number or counter stored as an `i64` is read back as the
/// `usize` that was stored (numbers beyond `i64::MAX` are stored negative).
proof fn lemma_usize_through_i64(value: usize)
    ensures
        (value as i64) as usize == value,
{
    assert((value as i64) as usize == value) by (bit_vector);
}

/// Reading back the stored typed values of an event gives them as they were written.
pub proof fn lemma_event_header_round_trip(f: Map<Seq<char>, FieldValue>, event: EventRecord)
    requires
        is_event_document(f, event),
    ensures
        spec_read_event_header(f) == Ok::<EventHeader, FieldAccessError>(event.header()),
{
    assert(f.contains_key("aggregate_id"@));
    assert(f.contains_key("aggregate_type"@));
    assert(f.contains_key("sequence"@));
    assert(f.contains_key("event_type"@));
    assert(f.contains_key("event_version"@));
    lemma_usize_through_i64(event.sequence);
}

/// The documents that store `events`, in their order, and the sequence number
/// of the last of them (0 where there are none). `None` where the payload or
/// the metadata of an event could not be converted to BSON.
pub fn build_event_upsert_documents(events: &[EventRecord]) -> (result: Option<(Vec<Document>, usize)>)
    ensures
        match result {
            Some((documents, current_sequence)) => {
                &&& documents@.len() == events@.len()
                &&& forall|i: int|
                    0 <= i < events@.len() ==> #[trigger] is_stored_event(documents@[i], events@[i])
                &&& current_sequence == spec_last_sequence(events@)
                &&& events@.len() == 0 ==> current_sequence == 0
                &&& events@.len() > 0 ==> current_sequence == events@[events@.len() - 1].sequence
            },
            None => exists|i: int| 0 <= i < events@.len() && !event_converts(#[trigger] events@[i]),
        },
        result is Some <==> forall|i: int| 0 <= i < events@.len() ==> event_converts(#[trigger] events@[i]),
{
    let mut current_sequence: usize = 0;
    let mut documents: Vec<Document> = Vec::new();
    let mut i: usize = 0;
    while i < events.len()
        invariant
            i <= events@.len(),
            documents@.len() == i,
            forall|j: int| 0 <= j < i ==> #[trigger] is_stored_event(documents@[j], events@[j]),
            current_sequence == spec_last_sequence(events@.take(i as int)),
            forall|j: int| 0 <= j < i ==> event_converts(#[trigger] events@[j]),
        decreases events@.len() - i,
    {
        let event = &events[i];
        current_sequence = event.sequence;
        let payload = match json_to_bson(&event.payload) {
            Ok(payload) => payload,
            Err(_) => return None,
        };
        let metadata = match json_to_bson(&event.metadata) {
            Ok(metadata) => metadata,
            Err(_) => return None,
        };
        documents.push(event_document(event, payload, metadata));
        i = i + 1;
        assert(events@.take(i as int).last() == events@[i - 1]);
    }
    assert(events@.take(i as int) =~= events@);
    Some((documents, current_sequence))
}

/// What inserting events into the event collection does.
pub enum EventInsertPlan {
    /// There are no events: nothing is written.
    NothingToInsert,
    /// The documents to insert, in one transaction.
    InsertMany(Vec<Document>),
    /// The payload or metadata of an event could not be converted to BSON.
    Unconvertible,
}

/// Plans the insertion of `events`: nothing where there are none, else the
/// documents that store them.
pub fn plan_event_insert(events: &[EventRecord]) -> (plan: EventInsertPlan)
    ensures
        plan is NothingToInsert <==> events@.len() == 0,
        plan is Unconvertible <==> exists|i: int|
            0 <= i < events@.len() && !event_converts(#[trigger] events@[i]),
        plan matches EventInsertPlan::InsertMany(documents) ==> {
            &&& documents@.len() == events@.len()
            &&& forall|i: int|
                0 <= i < events@.len() ==> #[trigger] is_stored_event(documents@[i], events@[i])
        },
{
    if events.len() == 0 {
        return EventInsertPlan::NothingToInsert;
    }
    match build_event_upsert_documents(events) {
        Some((documents, _)) => EventInsertPlan::InsertMany(documents),
        None => EventInsertPlan::Unconvertible,
    }
}

/// Whether reading an event from `document` gets past its payload and
/// metadata (see `event_readable`).
pub fn event_is_readable(document: &Document) -> (readable: bool)
    ensures
        readable == event_readable(*document),
{
    let header_read = get_str(document, "aggregate_id").is_ok() && get_i64(document, "sequence").is_ok()
        && get_str(document, "aggregate_type").is_ok() && get_str(document, "event_type").is_ok()
        && get_str(document, "event_version").is_ok();
    if !header_read {
        return true;
    }
    read_stored_json(document, "payload").is_some() && read_stored_json(document, "metadata").is_some()
}

/// Reads an event back from a stored document. The typed fields are read in
/// order and the first that is missing or has another type gives an unknown
/// error; then the payload and the metadata are converted to JSON.
pub fn serialized_event(document: &Document) -> (result: Result<EventRecord, MongoAggregateError>)
    requires
        event_readable(*document),
    ensures
        is_event_read_from(result, *document),
{
    let aggregate_id = match get_str(document, "aggregate_id") {
        Ok(value) => value.to_owned(),
        Err(e) => return Err(MongoAggregateError::from(e)),
    };
    let sequence = match get_i64(document, "sequence") {
        Ok(value) => #[verifier::truncate] (value as usize),
        Err(e) => return Err(MongoAggregateError::from(e)),
    };
    let aggregate_type = match get_str(document, "aggregate_type") {
        Ok(value) => value.to_owned(),
        Err(e) => return Err(MongoAggregateError::from(e)),
    };
    let event_type = match get_str(document, "event_type") {
        Ok(value) => value.to_owned(),
        Err(e) => return Err(MongoAggregateError::from(e)),
    };
    let event_version = match get_str(document, "event_version") {
        Ok(value) => value.to_owned(),
        Err(e) => return Err(MongoAggregateError::from(e)),
    };
    // The typed fields were read, so the precondition makes the payload and
    // the metadata readable.
    let payload = read_stored_json(document, "payload").unwrap();
    let metadata = read_stored_json(document, "metadata").unwrap();
    Ok(
        EventRecord {
            aggregate_id,
            sequence,
            aggregate_type,
            event_type,
            event_version,
            payload,
            metadata,
        },
    )
}

/// Reads an event back from a stored document where that gets past its
/// payload and metadata, as `serialized_event` does; `None` exactly where it
/// would not.
pub fn read_event(document: &Document) -> (result: Option<Result<EventRecord, MongoAggregateError>>)
    ensures
        result is Some <==> event_readable(*document),
        result matches Some(read) ==> is_event_read_from(read, *document),
{
    if event_is_readable(document) {
        Some(serialized_event(document))
    } else {
        None
    }
}

/// One step of reading the events that a query yields: the event read from
/// `document` is appended to `events`; where a typed field cannot be read, the
/// error is returned, `events` is left as it is, and reading stops there.
pub fn collect_event(events: &mut Vec<EventRecord>, document: &Document) -> (result: Result<
    (),
    MongoAggregateError,
>)
    requires
        event_readable(*document),
    ensures
        match result {
            Ok(()) => {
                &&& final(events)@ == old(events)@.push(final(events)@.last())
                &&& is_event_read_from(Ok(final(events)@.last()), *document)
            },
            Err(e) => {
                &&& final(events)@ == old(events)@
                &&& is_event_read_from(Err(e), *document)
            },
        },
{
    match serialized_event(document) {
        Ok(event) => {
            events.push(event);
            Ok(())
        },
        Err(e) => Err(e),
    }
}

/// The filter that selects the documents of one aggregate instance, from the
/// sequence number `min_sequence` on where it is not 0.
pub open spec fn spec_event_filter(aggregate_type: Seq<char>, aggregate_id: Seq<char>, min_sequence: i64) -> Map<
    Seq<char>,
    FieldValue,
> {
    let instance = Map::empty().insert("aggregate_type"@, FieldValue::Str(aggregate_type)).insert(
        "aggregate_id"@,
        FieldValue::Str(aggregate_id),
    );
    if min_sequence == 0 {
        instance
    } else {
        instance.insert(
            "sequence"@,
            FieldValue::Doc(Map::empty().insert("$gte"@, FieldValue::Int64(min_sequence))),
        )
    }
}

/// The sort order of snapshots, the latest first.
pub open spec fn spec_latest_snapshot_first() -> Map<Seq<char>, FieldValue> {
    Map::empty().insert("current_snapshot"@, FieldValue::Int32(-1i32))
}

/// The sort order of events by sequence number, ascending.
pub open spec fn spec_sequence_ascending() -> Map<Seq<char>, FieldValue> {
    Map::empty().insert("sequence"@, FieldValue::Int32(1))
}

/// The filter that selects all events of an aggregate type.
pub open spec fn spec_aggregate_type_filter(aggregate_type: Seq<char>) -> Map<Seq<char>, FieldValue> {
    Map::empty().insert("aggregate_type"@, FieldValue::Str(aggregate_type))
}

/// The keys of the unique index on events: one event per aggregate instance
/// and sequence number.
pub open spec fn spec_event_index_keys() -> Map<Seq<char>, FieldValue> {
    Map::empty().insert("aggregate_id"@, FieldValue::Int32(1)).insert(
        "sequence"@,
        FieldValue::Int32(1),
    )
}

/// The keys of the unique index on snapshots: one snapshot per aggregate
/// instance and snapshot version.
pub open spec fn spec_snapshot_index_keys() -> Map<Seq<char>, FieldValue> {
    Map::empty().insert("aggregate_id"@, FieldValue::Int32(1)).insert(
        "current_snapshot"@,
        FieldValue::Int32(-1i32),
    )
}

/// The sequence number of the last events is the `sequence` of the last of
/// them, and 0 only where there are none.
pub proof fn lemma_last_sequence_is_last_event(events: Seq<EventRecord>)
    ensures
        events.len() == 0 ==> spec_last_sequence(events) == 0,
        events.len() > 0 ==> spec_last_sequence(events) == events[events.len() - 1].sequence,
        forall|extra: EventRecord| #[trigger] spec_last_sequence(events.push(extra)) == extra.sequence,
{
}

/// The filter of an aggregate instance holds its type under "aggregate_type"
/// and its id under "aggregate_id", for every `min_sequence`; it has a
/// "sequence" condition exactly when `min_sequence` is not 0, and that
/// condition is `{"$gte": min_sequence}`: the filter from a sequence number is
/// the filter for all events with that condition added.
pub proof fn lemma_event_filter_fields(aggregate_type: Seq<char>, aggregate_id: Seq<char>, min_sequence: i64)
    ensures
        spec_event_filter(aggregate_type, aggregate_id, min_sequence).dom() == (if min_sequence == 0 {
            set!["aggregate_type"@, "aggregate_id"@]
        } else {
            set!["aggregate_type"@, "aggregate_id"@, "sequence"@]
        }),
        spec_event_filter(aggregate_type, aggregate_id, min_sequence)["aggregate_type"@]
            == FieldValue::Str(aggregate_type),
        spec_event_filter(aggregate_type, aggregate_id, min_sequence)["aggregate_id"@]
            == FieldValue::Str(aggregate_id),
        spec_event_filter(aggregate_type, aggregate_id, min_sequence).contains_key("sequence"@)
            <==> min_sequence != 0,
        min_sequence != 0 ==> spec_event_filter(aggregate_type, aggregate_id, min_sequence)
            == spec_event_filter(aggregate_type, aggregate_id, 0).insert(
            "sequence"@,
            FieldValue::Doc(Map::empty().insert("$gte"@, FieldValue::Int64(min_sequence))),
        ),
{
    lemma_event_field_names_distinct();
    let f = spec_event_filter(aggregate_type, aggregate_id, min_sequence);
    let expected: Set<Seq<char>> = if min_sequence == 0 {
        set!["aggregate_type"@, "aggregate_id"@]
    } else {
        set!["aggregate_type"@, "aggregate_id"@, "sequence"@]
    };
    assert(f.dom() =~= expected);
}

impl MongoEventRepository {
    /// The filter for the documents of one aggregate instance; where
    /// `min_sequence` is not 0, only those with a sequence number of at least
    /// `min_sequence`.
    pub fn build_filter(&self, aggregate_type: &str, aggregate_id: &str, min_sequence: i64) -> (filter: Document)
        ensures
            document_fields(filter) == spec_event_filter(aggregate_type@, aggregate_id@, min_sequence),
            document_fields(filter)["aggregate_type"@] == FieldValue::Str(aggregate_type@),
            document_fields(filter)["aggregate_id"@] == FieldValue::Str(aggregate_id@),
            document_fields(filter).contains_key("sequence"@) <==> min_sequence != 0,
            min_sequence != 0 ==> document_fields(filter)["sequence"@] == FieldValue::Doc(
                Map::empty().insert("$gte"@, FieldValue::Int64(min_sequence)),
            ),
    {
        proof {
            lemma_event_filter_fields(aggregate_type@, aggregate_id@, min_sequence);
        }
        let mut filter = new_document();
        insert_str(&mut filter, "aggregate_type", aggregate_type);
        insert_str(&mut filter, "aggregate_id", aggregate_id);
        if min_sequence != 0 {
            let mut from_sequence = new_document();
            insert_i64(&mut from_sequence, "$gte", min_sequence);
            insert_document(&mut filter, "sequence", from_sequence);
        }
        filter
    }
}

/// The sort order of snapshots, the latest first.
pub fn latest_snapshot_first() -> (sort: Document)
    ensures
        document_fields(sort) == spec_latest_snapshot_first(),
{
    let mut sort = new_document();
    insert_i32(&mut sort, "current_snapshot", -1);
    sort
}

/// The sort order of events by sequence number, ascending.
pub fn sequence_ascending() -> (sort: Document)
    ensures
        document_fields(sort) == spec_sequence_ascending(),
{
    let mut sort = new_document();
    insert_i32(&mut sort, "sequence", 1);
    sort
}

/// The filter that selects all events of an aggregate type.
pub fn aggregate_type_filter(aggregate_type: &str) -> (filter: Document)
    ensures
        document_fields(filter) == spec_aggregate_type_filter(aggregate_type@),
{
    let mut filter = new_document();
    insert_str(&mut filter, "aggregate_type", aggregate_type);
    filter
}

/// The keys of the unique index on the event collection, in this order.
pub fn event_index_keys() -> (keys: Document)
    ensures
        document_fields(keys) == spec_event_index_keys(),
        document_order(keys) == seq!["aggregate_id"@, "sequence"@],
{
    let mut keys = new_document();
    insert_i32(&mut keys, "aggregate_id", 1);
    insert_i32(&mut keys, "sequence", 1);
    proof {
        lemma_event_field_names_distinct();
        assert(!Seq::<Seq<char>>::empty().contains("aggregate_id"@));
        assert(!seq!["aggregate_id"@].contains("sequence"@));
    }
    keys
}

/// The keys of the unique index on the snapshot collection, in this order.
pub fn snapshot_index_keys() -> (keys: Document)
    ensures
        document_fields(keys) == spec_snapshot_index_keys(),
        document_order(keys) == seq!["aggregate_id"@, "current_snapshot"@],
{
    let mut keys = new_document();
    insert_i32(&mut keys, "aggregate_id", 1);
    insert_i32(&mut keys, "current_snapshot", -1);
    proof {
        lemma_snapshot_field_names_distinct();
        assert(!Seq::<Seq<char>>::empty().contains("aggregate_id"@));
        assert(!seq!["aggregate_id"@].contains("current_snapshot"@));
    }
    keys
}

/// The unique index on the event collection: at most one event per
/// aggregate instance and sequence number.
pub fn event_index() -> (index: IndexModel)
    ensures
        exists|keys: Document|
            {
                &&& document_fields(keys) == spec_event_index_keys()
                &&& document_order(keys) == seq!["aggregate_id"@, "sequence"@]
                &&& index == #[trigger] index_model_of(keys, true)
            },
{
    let keys = event_index_keys();
    let ghost index_keys = keys;
    let index = index_model(keys, true);
    assert(index == index_model_of(index_keys, true));
    index
}

/// The unique index on the snapshot collection: at most one snapshot per
/// aggregate instance and snapshot version.
pub fn snapshot_index() -> (index: IndexModel)
    ensures
        exists|keys: Document|
            {
                &&& document_fields(keys) == spec_snapshot_index_keys()
                &&& document_order(keys) == seq!["aggregate_id"@, "current_snapshot"@]
                &&& index == #[trigger] index_model_of(keys, true)
            },
{
    let keys = snapshot_index_keys();
    let ghost index_keys = keys;
    let index = index_model(keys, true);
    assert(index == index_model_of(index_keys, true));
    index
}

/// The order of the fields of a stored snapshot.
pub open spec fn snapshot_field_order() -> Seq<Seq<char>> {
    seq!["aggregate_type"@, "aggregate_id"@, "payload"@, "current_sequence"@, "current_snapshot"@]
}

/// The names of the fields of a stored snapshot.
pub open spec fn snapshot_field_names() -> Set<Seq<char>> {
    set!["aggregate_type"@, "aggregate_id"@, "payload"@, "current_sequence"@, "current_snapshot"@]
}

/// The fields `f` are those of the snapshot with the given values: the typed
/// values under their names, and some value under "payload".
pub open spec fn is_snapshot_document(
    f: Map<Seq<char>, FieldValue>,
    aggregate_type: Seq<char>,
    aggregate_id: Seq<char>,
    current_sequence: usize,
    current_snapshot: usize,
) -> bool {
    &&& f.dom() =~= snapshot_field_names()
    &&& f["aggregate_type"@] == FieldValue::Str(aggregate_type)
    &&& f["aggregate_id"@] == FieldValue::Str(aggregate_id)
    &&& f["current_sequence"@] == FieldValue::Int64(current_sequence as i64)
    &&& f["current_snapshot"@] == FieldValue::Int64(current_snapshot as i64)
}

/// The filter that matches the snapshot that a new snapshot of version
/// `current_snapshot` replaces: the one of the version before it.
pub open spec fn spec_snapshot_filter(
    aggregate_type: Seq<char>,
    aggregate_id: Seq<char>,
    current_snapshot: usize,
) -> Map<Seq<char>, FieldValue> {
    Map::empty().insert("aggregate_id"@, FieldValue::Str(aggregate_id)).insert(
        "aggregate_type"@,
        FieldValue::Str(aggregate_type),
    ).insert("current_snapshot"@, FieldValue::Int64((current_snapshot - 1) as i64))
}

/// The counters of a snapshot as they are read back from the fields `f`,
/// in the order in which they are read, or the first failure.
pub open spec fn spec_read_snapshot_counters(f: Map<Seq<char>, FieldValue>) -> Result<
    (usize, usize),
    FieldAccessError,
> {
    match spec_read_i64(f, "current_sequence"@) {
        Err(e) => Err(e),
        Ok(current_sequence) => match spec_read_i64(f, "current_snapshot"@) {
            Err(e) => Err(e),
            Ok(current_snapshot) => Ok((current_sequence as usize, current_snapshot as usize)),
        },
    }
}

/// The field names of a stored snapshot are pairwise distinct.
proof fn lemma_snapshot_field_names_distinct()
    ensures
        "aggregate_type"@ != "aggregate_id"@,
        "aggregate_type"@ != "payload"@,
        "aggregate_type"@ != "current_sequence"@,
        "aggregate_type"@ != "current_snapshot"@,
        "aggregate_id"@ != "payload"@,
        "aggregate_id"@ != "current_sequence"@,
        "aggregate_id"@ != "current_snapshot"@,
        "payload"@ != "current_sequence"@,
        "payload"@ != "current_snapshot"@,
        "current_sequence"@ != "current_snapshot"@,
{
    reveal_strlit("aggregate_type");
    reveal_strlit("aggregate_id");
    reveal_strlit("payload");
    reveal_strlit("current_sequence");
    reveal_strlit("current_snapshot");
    assert("aggregate_type"@.len() == 14);
    assert("aggregate_id"@.len() == 12);
    assert("payload"@.len() == 7);
    assert("current_sequence"@.len() == 16);
    assert("current_snapshot"@.len() == 16);
    assert("current_sequence"@[9] != "current_snapshot"@[9]);
}

/// The two documents of a snapshot update: the filter for the snapshot that
/// is replaced, and the snapshot that replaces it (or is inserted where none matches).
pub struct SnapshotReplacement {
    pub filter: Document,
    pub replacement: Document,
}

/// The filter and the replacement document for storing the snapshot of
/// version `current_snapshot` of an aggregate instance, whose last event has the
/// sequence number `current_sequence`. `None` where the aggregate's state
/// could not be converted to BSON.
pub fn snapshot_replacement(
    aggregate_type: &str,
    aggregate_id: &str,
    aggregate_payload: &Value,
    current_sequence: usize,
    current_snapshot: usize,
) -> (result: Option<SnapshotReplacement>)
    requires
        current_snapshot >= 1,
    ensures
        result is Some <==> converts_to_bson(*aggregate_payload),
        result matches Some(update) ==> {
            &&& document_value(update.replacement, "payload"@) == Some(bson_of_json(*aggregate_payload))
            &&& document_order(update.replacement) == snapshot_field_order()
            &&& is_snapshot_document(
                document_fields(update.replacement),
                aggregate_type@,
                aggregate_id@,
                current_sequence,
                current_snapshot,
            )
            &&& document_fields(update.filter) == spec_snapshot_filter(
                aggregate_type@,
                aggregate_id@,
                current_snapshot,
            )
            &&& document_fields(update.filter).dom() =~= set![
                "aggregate_id"@,
                "aggregate_type"@,
                "current_snapshot"@,
            ]
            &&& document_fields(update.filter)["aggregate_id"@] == FieldValue::Str(aggregate_id@)
            &&& document_fields(update.filter)["aggregate_type"@] == FieldValue::Str(aggregate_type@)
            &&& document_fields(update.filter)["current_snapshot"@] == FieldValue::Int64(
                (current_snapshot - 1) as i64,
            )
            &&& document_fields(update.replacement)["current_snapshot"@] == FieldValue::Int64(
                current_snapshot as i64,
            )
        },
{
    let expected_snapshot = current_snapshot - 1;
    let payload = match json_to_bson(aggregate_payload) {
        Ok(payload) => payload,
        Err(_) => return None,
    };
    proof {
        lemma_snapshot_field_names_distinct();
    }
    let mut replacement = new_document();
    proof { lemma_new_name_goes_last(document_order(replacement), "aggregate_type"@); }
    insert_str(&mut replacement, "aggregate_type", aggregate_type);
    proof { lemma_new_name_goes_last(document_order(replacement), "aggregate_id"@); }
    insert_str(&mut replacement, "aggregate_id", aggregate_id);
    let ghost named = document_fields(replacement);
    proof { lemma_new_name_goes_last(document_order(replacement), "payload"@); }
    insert_bson(&mut replacement, "payload", payload);
    let ghost with_payload = document_fields(replacement);
    proof { lemma_new_name_goes_last(document_order(replacement), "current_sequence"@); }
    insert_i64(&mut replacement, "current_sequence", #[verifier::truncate] (current_sequence as i64));
    proof { lemma_new_name_goes_last(document_order(replacement), "current_snapshot"@); }
    insert_i64(&mut replacement, "current_snapshot", #[verifier::truncate] (current_snapshot as i64));
    proof {
        assert(document_order(replacement) =~= snapshot_field_order());
        assert(named.contains_key("aggregate_type"@));
        assert(named.contains_key("aggregate_id"@));
        lemma_other_fields_kept(named, with_payload, "payload"@);
        assert(document_fields(replacement).dom() =~= snapshot_field_names());
    }
    let mut filter = new_document();
    insert_str(&mut filter, "aggregate_id", aggregate_id);
    insert_str(&mut filter, "aggregate_type", aggregate_type);
    insert_i64(&mut filter, "current_snapshot", #[verifier::truncate] (expected_snapshot as i64));
    Some(SnapshotReplacement { filter, replacement })
}

/// Reading back the counters of a stored snapshot gives them as they were written.
pub proof fn lemma_snapshot_counters_round_trip(
    f: Map<Seq<char>, FieldValue>,
    aggregate_type: Seq<char>,
    aggregate_id: Seq<char>,
    current_sequence: usize,
    current_snapshot: usize,
)
    requires
        is_snapshot_document(f, aggregate_type, aggregate_id, current_sequence, current_snapshot),
    ensures
        spec_read_snapshot_counters(f) == Ok::<(usize, usize), FieldAccessError>(
            (current_sequence, current_snapshot),
        ),
{
    lemma_snapshot_field_names_distinct();
    assert(f.contains_key("current_sequence"@));
    assert(f.contains_key("current_snapshot"@));
    lemma_usize_through_i64(current_sequence);
    lemma_usize_through_i64(current_snapshot);
}

/// The outcome of replacing a snapshot: where no snapshot matched the filter
/// and none was inserted, another snapshot of that version was stored first.
pub fn snapshot_update_outcome(matched_count: u64, upserted: bool) -> (result: Result<(), MongoAggregateError>)
    ensures
        result is Err <==> matched_count == 0 && !upserted,
        result matches Err(e) ==> e is OptimisticLock,
{
    if matched_count == 0 && !upserted {
        Err(MongoAggregateError::OptimisticLock)
    } else {
        Ok(())
    }
}

/// `r` is what reading the snapshot of the aggregate instance `aggregate_id`
/// from `d` gives: its state converted to JSON and its counters, or the first
/// counter that is missing or has another type as an unknown error.
pub open spec fn is_snapshot_read_from(
    r: Result<SnapshotRecord, MongoAggregateError>,
    aggregate_id: Seq<char>,
    d: Document,
) -> bool {
    match spec_read_snapshot_counters(document_fields(d)) {
        Ok((current_sequence, current_snapshot)) => r matches Ok(snapshot) && {
            &&& snapshot.aggregate_id@ == aggregate_id
            &&& snapshot.aggregate == stored_json(d, "payload"@)
            &&& snapshot.current_sequence == current_sequence
            &&& snapshot.current_snapshot == current_snapshot
        },
        Err(e) => r == Err::<SnapshotRecord, MongoAggregateError>(
            MongoAggregateError::UnknownError(ErrorSource::FieldAccess(e)),
        ),
    }
}

/// Reads the latest snapshot of the aggregate instance `aggregate_id` back
/// from a stored document: first its state, converted to JSON, then its
/// counters.
pub fn snapshot_from_document(aggregate_id: &str, document: &Document) -> (result: Result<
    SnapshotRecord,
    MongoAggregateError,
>)
    requires
        stored_json_readable(*document, "payload"@),
    ensures
        is_snapshot_read_from(result, aggregate_id@, *document),
{
    let aggregate = read_stored_json(document, "payload").unwrap();
    let current_sequence = match get_i64(document, "current_sequence") {
        Ok(value) => #[verifier::truncate] (value as usize),
        Err(e) => return Err(MongoAggregateError::from(e)),
    };
    let current_snapshot = match get_i64(document, "current_snapshot") {
        Ok(value) => #[verifier::truncate] (value as usize),
        Err(e) => return Err(MongoAggregateError::from(e)),
    };
    Ok(
        SnapshotRecord {
            aggregate_id: aggregate_id.to_owned(),
            aggregate,
            current_sequence,
            current_snapshot,
        },
    )
}

/// Reads a snapshot back as `snapshot_from_document` does where its state is
/// readable; `None` exactly where it is not.
pub fn read_snapshot(aggregate_id: &str, document: &Document) -> (result: Option<
    Result<SnapshotRecord, MongoAggregateError>,
>)
    ensures
        result is Some <==> stored_json_readable(*document, "payload"@),
        result matches Some(read) ==> is_snapshot_read_from(read, aggregate_id@, *document),
{
    match read_stored_json(document, "payload") {
        Some(_) => Some(snapshot_from_document(aggregate_id, document)),
        None => None,
    }
}

/// What the event stream does with one item that the cursor yields.
pub enum StreamItem {
    /// Send this to the stream.
    Forward(Result<EventRecord, MongoAggregateError>),
    /// The document is not a readable event: it is logged and left out.
    Skip(Document),
}

/// `result` is what the event stream does with `item`: an event read from a
/// document is sent on, a document whose typed fields cannot be read is
/// skipped, and a driver error is sent on as a repository error.
pub open spec fn is_stream_step(item: Result<Document, mongodb::error::Error>, result: StreamItem) -> bool {
    match item {
        Err(e) => result == StreamItem::Forward(
            Err(spec_from_mongo_error(mongo_error_kind_of(e), e)),
        ),
        Ok(document) => match spec_read_event_header(document_fields(document)) {
            Err(_) => result == StreamItem::Skip(document),
            Ok(_) => result matches StreamItem::Forward(read) && is_event_read_from(read, document),
        },
    }
}

/// Decides what the event stream does with one item of the cursor.
pub fn stream_item(item: Result<Document, mongodb::error::Error>) -> (result: StreamItem)
    requires
        item matches Ok(document) ==> event_readable(document),
    ensures
        is_stream_step(item, result),
{
    match item {
        Ok(document) => match serialized_event(&document) {
            Ok(event) => StreamItem::Forward(Ok(event)),
            Err(_) => StreamItem::Skip(document),
        },
        Err(e) => StreamItem::Forward(Err(MongoAggregateError::from(e))),
    }
}

/// Decides as `stream_item` does where a document in `item` is readable as an
/// event; `None` exactly where it is not.
pub fn read_stream_item(item: Result<Document, mongodb::error::Error>) -> (result: Option<StreamItem>)
    ensures
        result is Some <==> !(item matches Ok(document) && !event_readable(document)),
        result matches Some(step) ==> is_stream_step(item, step),
{
    match item {
        Ok(document) => {
            if event_is_readable(&document) {
                Some(stream_item(Ok(document)))
            } else {
                None
            }
        },
        Err(e) => Some(stream_item(Err(e))),
    }
}

} // verus!
