//! The view repository: how a view is found, read back and updated.
use vstd::prelude::*;

use crate::document::{
    json_of_bson, lemma_new_name_goes_last, nested_document, document_order, document_fields, document_value, get_i64, insert_bson, insert_document, insert_i64,
    insert_str, new_document, read_stored_json, spec_read_i64, stored_json, stored_json_readable,
    FieldValue,
};
use mongodb::bson::{Bson, Document};
use mongodb::Client;
use serde_json::Value;
use std::marker::PhantomData;

verus! {

/// A view repository that keeps the views of type `V` over aggregates of
/// type `A` in one MongoDB collection, one document per view instance.
pub struct MongoViewRepository<V, A> {
    _phantom: PhantomData<(V, A)>,
    view_name: String,
    client: Client,
}

impl<V, A> MongoViewRepository<V, A> {
    /// The name of the collection that holds the views.
    pub closed spec fn spec_view_name(&self) -> Seq<char> {
        self.view_name@
    }

    /// The client through which the repository reaches the database.
    pub closed spec fn spec_client(&self) -> Client {
        self.client
    }

    /// Creates a repository for the views in the collection `view_name`.
    pub fn new(view_name: &str, client: Client) -> (repository: Self)
        ensures
            repository.spec_view_name() == view_name@,
            repository.spec_client() == client,
    {
        MongoViewRepository { _phantom: PhantomData, view_name: view_name.to_owned(), client }
    }

    /// The name of the collection that holds the views.
    pub fn view_name(&self) -> (name: &str)
        ensures
            name@ == self.spec_view_name(),
    {
        self.view_name.as_str()
    }

    /// The client through which the repository reaches the database.
    pub fn client(&self) -> (client: &Client)
        ensures
            *client == self.spec_client(),
    {
        &self.client
    }
}

/// The filter that selects the document of one view instance.
pub open spec fn spec_view_filter(view_id: Seq<char>) -> Map<Seq<char>, FieldValue> {
    Map::empty().insert("view_id"@, FieldValue::Str(view_id))
}

/// The version of a stored view as it is read back from its fields: the
/// `i64` under "version", or 0 where there is none of that type.
pub open spec fn spec_view_version(f: Map<Seq<char>, FieldValue>) -> i64 {
    match spec_read_i64(f, "version"@) {
        Ok(version) => version,
        Err(_) => 0,
    }
}

/// The shape of the update of a view whose context has the version `version`:
/// one field "$set", holding "payload" and the version one higher. Which
/// payload it sets is stated by `is_view_set` on the document under "$set".
pub open spec fn is_view_update(f: Map<Seq<char>, FieldValue>, version: i64) -> bool {
    &&& f.dom() =~= set!["$set"@]
    &&& f["$set"@] matches FieldValue::Doc(set) && {
        &&& set.dom() =~= set!["payload"@, "version"@]
        &&& set["version"@] == FieldValue::Int64((version + 1) as i64)
    }
}

/// The filter that selects the document of the view instance `view_id`.
pub fn view_filter(view_id: &str) -> (filter: Document)
    ensures
        document_fields(filter) == spec_view_filter(view_id@),
{
    let mut filter = new_document();
    insert_str(&mut filter, "view_id", view_id);
    filter
}

/// The version of a stored view: the `i64` under "version", or 0.
pub fn view_version(document: &Document) -> (version: i64)
    ensures
        version == spec_view_version(document_fields(*document)),
        document_fields(*document).contains_key("version"@) ==> (document_fields(
            *document,
        )["version"@] matches FieldValue::Int64(stored) ==> version == stored),
        !(document_fields(*document).contains_key("version"@) && (document_fields(
            *document,
        )["version"@] is Int64)) ==> version == 0,
{
    match get_i64(document, "version") {
        Ok(version) => version,
        Err(_) => 0,
    }
}

/// The state of a stored view, converted to JSON.
pub fn view_payload(document: &Document) -> (payload: Value)
    requires
        stored_json_readable(*document, "payload"@),
    ensures
        payload == stored_json(*document, "payload"@),
{
    read_stored_json(document, "payload").unwrap()
}

/// The state of a stored view as `view_payload` reads it where it is
/// readable; `None` exactly where it is not.
pub fn read_view_payload(document: &Document) -> (payload: Option<Value>)
    ensures
        payload is Some <==> stored_json_readable(*document, "payload"@),
        payload matches Some(value) ==> value == stored_json(*document, "payload"@),
{
    read_stored_json(document, "payload")
}

/// The fields that an update of a view sets: the view, already converted to
/// BSON, and the version one higher than that of its context.
pub open spec fn is_view_set(set: Document, payload: Bson, version: i64) -> bool {
    &&& document_fields(set).dom() =~= set!["payload"@, "version"@]
    &&& document_fields(set)["version"@] == FieldValue::Int64((version + 1) as i64)
    &&& document_value(set, "payload"@) == Some(payload)
    &&& document_order(set) == seq!["payload"@, "version"@]
}

/// The fields that an update of a view sets.
pub fn view_set_document(payload: Bson, version: i64) -> (set: Document)
    requires
        version < i64::MAX,
    ensures
        is_view_set(set, payload, version),
{
    proof {
        reveal_strlit("payload");
        reveal_strlit("version");
        assert("payload"@[0] != "version"@[0]);
    }
    let mut set = new_document();
    proof { lemma_new_name_goes_last(document_order(set), "payload"@); }
    insert_bson(&mut set, "payload", payload);
    proof { lemma_new_name_goes_last(document_order(set), "version"@); }
    insert_i64(&mut set, "version", version + 1);
    proof {
        assert(document_order(set) =~= seq!["payload"@, "version"@]);
        assert(document_fields(set).dom() =~= set!["payload"@, "version"@]);
    }
    set
}

/// The update that stores a view, already converted to BSON, whose context
/// has the version `version`: `{"$set": set}`, where `set` holds the view
/// under "payload" and the next version under "version".
pub fn view_update_document(payload: Bson, version: i64) -> (update: Document)
    requires
        version < i64::MAX,
    ensures
        is_view_update(document_fields(update), version),
        nested_document(update, "$set"@) matches Some(set) && is_view_set(set, payload, version),
{
    let set = view_set_document(payload, version);
    let mut update = new_document();
    insert_document(&mut update, "$set", set);
    update
}

/// A stored view is read back with the version that its last update set:
/// one more than the version of the context it was updated with.
pub proof fn lemma_view_version_advances(update: Map<Seq<char>, FieldValue>, version: i64)
    requires
        is_view_update(update, version),
        version < i64::MAX,
    ensures
        update["$set"@] matches FieldValue::Doc(set) && spec_view_version(set) == version + 1,
{
}

/// The fields that an update sets are read back, as a stored view is read,
/// as the view converted to JSON and the version one higher.
pub proof fn lemma_view_set_read_back(set: Document, payload: Bson, version: i64)
    requires
        is_view_set(set, payload, version),
        version < i64::MAX,
    ensures
        stored_json(set, "payload"@) == json_of_bson(payload),
        spec_view_version(document_fields(set)) == version + 1,
{
    reveal_strlit("version");
    assert(document_fields(set).contains_key("version"@));
}

} // verus!
