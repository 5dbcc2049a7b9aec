//! A typed client for the Orchestrate document, event and graph store.
//!
//! The library builds requests and interprets replies; it performs no I/O of
//! its own. Every operation takes the transport as a function from a finished
//! [`client::Request`] to the outcome of one exchange.

use vstd::prelude::*;

pub mod client;
pub mod error;
pub mod events;
pub mod graph;
pub mod interpret;
pub mod json;
pub mod key_value;
pub mod laws;
pub mod path;
pub mod search;
pub mod text;
pub mod wire;

pub use error::OrchestrateError;

use client::{blank, default_host, Client, ClientView, Method, Request, Response};
use error::TransportError;
use events::{
    event_path, stream_named, stream_path, CreateEvent, DeleteEvent, GetEvent, GetEvents,
};
use graph::{
    edge_named, edge_path, hop_views, traversal_named, traversal_path, DeleteRelation,
    GetRelations, PutRelation,
};
use interpret::{confirm, confirms, exchanged, sendable};
use json::{JsonValue, Number};
use key_value::{CreateKeyValue, DeleteKeyValue, GetKeyValue, ListReader, UpdateKeyValue};
use search::SearchBuilder;
use text::joined;

verus! {

/// A type that can be read out of a JSON document.
pub trait RepresentsJSON: Sized {
    /// Whether `out` is an answer of `from_json` to `value`: a value that
    /// the document stands for, or nothing where it stands for none. A type
    /// that does not say which answers it gives allows every answer.
    open spec fn represents(value: JsonValue, out: Option<Self>) -> bool {
        true
    }

    /// Reads a value out of `value`.
    fn from_json(value: &JsonValue) -> (r: Option<Self>)
        ensures
            Self::represents(*value, r),
    ;
}

impl RepresentsJSON for String {
    /// A text value stands for its text.
    open spec fn represents(value: JsonValue, out: Option<String>) -> bool {
        out == match value {
            JsonValue::Text(s) => Some(s),
            _ => None::<String>,
        }
    }

    fn from_json(value: &JsonValue) -> (r: Option<String>) {
        match value {
            JsonValue::Text(s) => Some(s.clone()),
            _ => None,
        }
    }
}

impl RepresentsJSON for bool {
    open spec fn represents(value: JsonValue, out: Option<bool>) -> bool {
        out == match value {
            JsonValue::Boolean(b) => Some(b),
            _ => None::<bool>,
        }
    }

    fn from_json(value: &JsonValue) -> (r: Option<bool>) {
        match value {
            JsonValue::Boolean(b) => Some(*b),
            _ => None,
        }
    }
}

impl RepresentsJSON for u64 {
    open spec fn represents(value: JsonValue, out: Option<u64>) -> bool {
        out == value.spec_u64()
    }

    fn from_json(value: &JsonValue) -> (r: Option<u64>) {
        value.as_u64()
    }
}

impl RepresentsJSON for i64 {
    open spec fn represents(value: JsonValue, out: Option<i64>) -> bool {
        out == value.spec_i64()
    }

    fn from_json(value: &JsonValue) -> (r: Option<i64>) {
        value.as_i64()
    }
}

impl RepresentsJSON for Number {
    open spec fn represents(value: JsonValue, out: Option<Number>) -> bool {
        out == value.spec_number()
    }

    fn from_json(value: &JsonValue) -> (r: Option<Number>) {
        value.as_number()
    }
}

/// Whether `out` is an answer to reading every element of `items` as an `R`:
/// the values in order, or nothing where some element stands for none.
pub open spec fn items_represent<R: RepresentsJSON>(
    items: Seq<JsonValue>,
    out: Option<Seq<R>>,
) -> bool {
    match out {
        Some(list) => list.len() == items.len() && forall|i: int|
            0 <= i < items.len() ==> R::represents(items[i], Some(#[trigger] list[i])),
        None => exists|i: int| 0 <= i < items.len() && R::represents(#[trigger] items[i], None),
    }
}

/// The elements of an optional list.
pub open spec fn optional_items<R>(list: Option<Vec<R>>) -> Option<Seq<R>> {
    match list {
        Some(list) => Some(list@),
        None => None,
    }
}

/// Reads every element of `items`, in order. Gives nothing as soon as one
/// element stands for no value.
pub fn decode_items<R: RepresentsJSON>(items: &Vec<JsonValue>) -> (r: Option<Vec<R>>)
    ensures
        items_represent::<R>(items@, optional_items(r)),
{
    let mut list: Vec<R> = Vec::new();
    let mut i: usize = 0;
    while i < items.len()
        invariant
            i <= items.len(),
            list@.len() == i,
            forall|j: int| 0 <= j < i ==> R::represents(items@[j], Some(#[trigger] list@[j])),
        decreases items.len() - i,
    {
        match R::from_json(&items[i]) {
            Some(item) => {
                list.push(item);
            },
            None => {
                assert(R::represents(items@[i as int], None));
                return None;
            },
        }
        i = i + 1;
    }
    Some(list)
}

/// The entry point: a credential and a host, from which every operation
/// starts with a descriptor of its own.
pub struct Orchestrate {
    client: Client,
}

impl Orchestrate {
    /// The descriptor that every operation starts from: the host and the
    /// token, and nothing configured.
    pub closed spec fn origin(&self) -> ClientView {
        blank(self.client@.host, self.client@.token)
    }

    /// A client for the default host that authenticates with `token`.
    pub fn new(token: &str) -> (r: Orchestrate)
        ensures
            r.origin() == blank(default_host(), token@),
    {
        Orchestrate { client: Client::new(token) }
    }

    /// A client that authenticates with `token` at another host.
    pub fn at(host: &str, token: &str) -> (r: Orchestrate)
        ensures
            r.origin() == blank(host@, token@),
    {
        Orchestrate { client: Client::new(token).at(host) }
    }

    /// Checks that the store answers and accepts the credential: a HEAD
    /// request to the versioned root, which succeeds on status 200.
    pub fn ping<S: FnOnce(Request) -> Result<Response, TransportError>>(&self, send: S) -> (r:
        Result<bool, OrchestrateError>)
        requires
            sendable(
                ClientView {
                    target: Some(Seq::empty()),
                    method: Some(Method::Head),
                    ..self.origin()
                },
                send,
            ),
        ensures
            exchanged(
                ClientView {
                    target: Some(Seq::empty()),
                    method: Some(Method::Head),
                    ..self.origin()
                },
                send,
                r,
                |reply: Response, r: Result<bool, OrchestrateError>| confirms(reply, 200, r),
            ),
    {
        let client = self.client.descriptor().trailing("").method(Method::Head);
        proof {
            reveal_strlit("");
            assert(""@ =~= Seq::<char>::empty());
        }
        match client.exec(send) {
            Err(e) => Err(e),
            Ok(reply) => confirm(&reply, 200),
        }
    }

    /// Deletes a collection with all its documents: a DELETE request to
    /// `{collection}` with `force=true`, which succeeds on status 204.
    pub fn delete_collection<S: FnOnce(Request) -> Result<Response, TransportError>>(
        &self,
        collection: &str,
        send: S,
    ) -> (r: Result<bool, OrchestrateError>)
        requires
            sendable(
                ClientView {
                    target: Some(collection@),
                    addressed: collection@.len() > 0,
                    method: Some(Method::Delete),
                    query: seq![("force"@, "true"@)],
                    ..self.origin()
                },
                send,
            ),
        ensures
            exchanged(
                ClientView {
                    target: Some(collection@),
                    addressed: collection@.len() > 0,
                    method: Some(Method::Delete),
                    query: seq![("force"@, "true"@)],
                    ..self.origin()
                },
                send,
                r,
                |reply: Response, r: Result<bool, OrchestrateError>| confirms(reply, 204, r),
            ),
    {
        let client = self.client.descriptor().trailing(collection).naming(collection).query(
            "force",
            "true",
        ).method(Method::Delete);
        assert(client@.query =~= seq![("force"@, "true"@)]);
        match client.exec(send) {
            Err(e) => Err(e),
            Ok(reply) => confirm(&reply, 204),
        }
    }

    /// Starts the read of a document.
    pub fn get(&self, collection: &str, key: &str) -> (r: GetKeyValue)
        ensures
            r.plan() == (ClientView {
                target: Some(joined(collection@, '/', key@)),
                addressed: collection@.len() > 0 && key@.len() > 0,
                method: Some(Method::Get),
                ..self.origin()
            }),
            r.address() == (collection@, key@),
            r.known_ref() is None,
    {
        GetKeyValue::new(self.client.descriptor(), collection, key)
    }

    /// Starts the creation of a document under a key that the store chooses.
    pub fn post(&self, collection: &str) -> (r: CreateKeyValue)
        ensures
            r.plan() == (ClientView {
                target: Some(collection@),
                addressed: collection@.len() > 0,
                method: Some(Method::Post),
                ..self.origin()
            }),
            r.collection() == collection@,
    {
        CreateKeyValue::new(self.client.descriptor(), collection)
    }

    /// Starts the write of a document under a given key.
    pub fn put(&self, collection: &str, key: &str) -> (r: UpdateKeyValue)
        ensures
            r.plan() == (ClientView {
                target: Some(joined(collection@, '/', key@)),
                addressed: collection@.len() > 0 && key@.len() > 0,
                method: Some(Method::Put),
                ..self.origin()
            }),
            r.address() == (collection@, key@),
    {
        UpdateKeyValue::new(self.client.descriptor(), collection, key)
    }

    /// Starts the deletion of a document.
    pub fn delete(&self, collection: &str, key: &str) -> (r: DeleteKeyValue)
        ensures
            r.plan() == (ClientView {
                target: Some(joined(collection@, '/', key@)),
                addressed: collection@.len() > 0 && key@.len() > 0,
                method: Some(Method::Delete),
                ..self.origin()
            }),
    {
        DeleteKeyValue::new(self.client.descriptor(), collection, key)
    }

    /// Starts a listing of a collection.
    pub fn list(&self, collection: &str) -> (r: ListReader)
        ensures
            r.plan() == (ClientView {
                target: Some(collection@),
                addressed: collection@.len() > 0,
                method: Some(Method::Get),
                ..self.origin()
            }),
    {
        ListReader::new(self.client.descriptor(), collection)
    }

    /// Starts a search of a collection.
    pub fn search(&self, collection: &str) -> (r: SearchBuilder)
        ensures
            r.base() == (ClientView {
                target: Some(collection@),
                addressed: collection@.len() > 0,
                method: Some(Method::Get),
                ..self.origin()
            }),
            !r.expressed(),
            !r.followed(),
    {
        SearchBuilder::new(self.client.descriptor(), collection)
    }

    /// Starts a listing of an event stream.
    pub fn get_events(&self, collection: &str, key: &str, kind: &str) -> (r: GetEvents)
        ensures
            r.plan() == (ClientView {
                target: Some(stream_path(collection@, key@, kind@)),
                addressed: stream_named(collection@, key@, kind@),
                method: Some(Method::Get),
                ..self.origin()
            }),
    {
        GetEvents::new(self.client.descriptor(), collection, key, kind)
    }

    /// Starts the read of one event.
    pub fn get_event(
        &self,
        collection: &str,
        key: &str,
        kind: &str,
        timestamp: u64,
        ordinal: u64,
    ) -> (r: GetEvent)
        ensures
            r.plan() == (ClientView {
                target: Some(
                    event_path(stream_path(collection@, key@, kind@), timestamp, ordinal),
                ),
                addressed: stream_named(collection@, key@, kind@),
                method: Some(Method::Get),
                ..self.origin()
            }),
    {
        GetEvent::new(self.client.descriptor(), collection, key, kind, timestamp, ordinal)
    }

    /// Starts an append to an event stream.
    pub fn create_event(&self, collection: &str, key: &str, kind: &str) -> (r: CreateEvent)
        ensures
            r.stream() == stream_path(collection@, key@, kind@),
            r.plan() == (ClientView {
                target: Some(stream_path(collection@, key@, kind@)),
                addressed: stream_named(collection@, key@, kind@),
                method: Some(Method::Post),
                ..self.origin()
            }),
    {
        CreateEvent::new(self.client.descriptor(), collection, key, kind)
    }

    /// Starts the deletion of one event.
    pub fn delete_event(&self, collection: &str, key: &str, kind: &str) -> (r: DeleteEvent)
        ensures
            r.stream() == stream_path(collection@, key@, kind@),
            r.event() == (None::<Seq<char>>, None::<Seq<char>>),
            r.base() == (ClientView {
                addressed: stream_named(collection@, key@, kind@),
                method: Some(Method::Delete),
                ..self.origin()
            }),
    {
        DeleteEvent::new(self.client.descriptor(), collection, key, kind)
    }

    /// Starts a traversal along a chain of relations.
    pub fn get_relations(&self, collection: &str, key: &str, hops: Vec<&str>) -> (r: GetRelations)
        ensures
            r.plan() == (ClientView {
                target: Some(traversal_path(collection@, key@, hop_views(hops@))),
                addressed: traversal_named(collection@, key@, hop_views(hops@)),
                method: Some(Method::Get),
                ..self.origin()
            }),
    {
        GetRelations::new(self.client.descriptor(), collection, key, hops)
    }

    /// Starts the writing of one edge.
    pub fn put_relation(
        &self,
        collection: &str,
        key: &str,
        kind: &str,
        to_collection: &str,
        to_key: &str,
    ) -> (r: PutRelation)
        ensures
            r.plan() == (ClientView {
                target: Some(edge_path(collection@, key@, kind@, to_collection@, to_key@)),
                addressed: edge_named(collection@, key@, kind@, to_collection@, to_key@),
                method: Some(Method::Put),
                ..self.origin()
            }),
    {
        PutRelation::new(self.client.descriptor(), collection, key, kind, to_collection, to_key)
    }

    /// Starts the deletion of one edge.
    pub fn delete_relation(
        &self,
        collection: &str,
        key: &str,
        kind: &str,
        to_collection: &str,
        to_key: &str,
    ) -> (r: DeleteRelation)
        ensures
            r.plan() == (ClientView {
                target: Some(edge_path(collection@, key@, kind@, to_collection@, to_key@)),
                addressed: edge_named(collection@, key@, kind@, to_collection@, to_key@),
                method: Some(Method::Delete),
                ..self.origin()
            }),
    {
        DeleteRelation::new(
            self.client.descriptor(),
            collection,
            key,
            kind,
            to_collection,
            to_key,
        )
    }
}

} // verus!
