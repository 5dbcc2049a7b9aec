//! Event streams on a document: list, append and delete.

use vstd::prelude::*;
use vstd::string::*;

use crate::client::{Client, ClientView, Method, Request, Response};
use crate::decode_items;
use crate::error::{OrchestrateError, TransportError};
use crate::interpret::{confirm, confirms, documented, exchanged, read, reads_as, sendable};
use crate::items_represent;
use crate::json::JsonValue;
use crate::key_value::{quote, quoted, results_member};
use crate::text::{decimal, i64_to_string, joined, signed_decimal, slash_join, u64_to_string};
use crate::RepresentsJSON;

verus! {

/// One page of events.
#[derive(Debug)]
pub struct EventResults<T> {
    /// The number of results on this page.
    pub count: u64,
    pub results: Vec<EventResult<T>>,
}

/// One event: ordinal and timestamp together address it within its stream.
#[derive(Debug)]
pub struct EventResult<T> {
    pub ordinal: u64,
    pub timestamp: u64,
    pub value: T,
}

pub type Events<T> = Result<EventResults<T>, OrchestrateError>;

pub type Event<T> = Result<EventResult<T>, OrchestrateError>;

/// The unsigned integer that a member holds.
pub open spec fn unsigned_member(value: JsonValue, name: Seq<char>) -> Option<u64> {
    match value.spec_field(name) {
        Some(n) => n.spec_u64(),
        None => None,
    }
}

/// Reads a member that is an unsigned integer.
pub fn read_unsigned(value: &JsonValue, name: &str) -> (r: Option<u64>)
    ensures
        r == unsigned_member(*value, name@),
{
    match value.field(name) {
        Some(n) => n.as_u64(),
        None => None,
    }
}

impl<T: RepresentsJSON> RepresentsJSON for EventResult<T> {
    /// An object with the integers `ordinal` and `timestamp` and a document
    /// under `value`.
    open spec fn represents(value: JsonValue, out: Option<EventResult<T>>) -> bool {
        match (
            unsigned_member(value, "ordinal"@),
            unsigned_member(value, "timestamp"@),
            value.spec_field("value"@),
        ) {
            (Some(ordinal), Some(timestamp), Some(v)) => match out {
                Some(res) => res.ordinal == ordinal && res.timestamp == timestamp
                    && T::represents(v, Some(res.value)),
                None => T::represents(v, None),
            },
            _ => out is None,
        }
    }

    fn from_json(value: &JsonValue) -> (r: Option<EventResult<T>>) {
        match (
            read_unsigned(value, "ordinal"),
            read_unsigned(value, "timestamp"),
            value.field("value"),
        ) {
            (Some(ordinal), Some(timestamp), Some(v)) => match T::from_json(v) {
                Some(value) => Some(EventResult { ordinal, timestamp, value }),
                None => None,
            },
            _ => None,
        }
    }
}

impl<T: RepresentsJSON> RepresentsJSON for EventResults<T> {
    /// An object with the integer `count` and the array `results` of that
    /// many events.
    open spec fn represents(value: JsonValue, out: Option<EventResults<T>>) -> bool {
        match (unsigned_member(value, "count"@), results_member(value)) {
            (Some(count), Some(items)) => if count == items.len() {
                match out {
                    Some(res) => res.count == count && items_represent::<EventResult<T>>(
                        items,
                        Some(res.results@),
                    ),
                    None => items_represent::<EventResult<T>>(items, None),
                }
            } else {
                out is None
            },
            _ => out is None,
        }
    }

    fn from_json(value: &JsonValue) -> (r: Option<EventResults<T>>) {
        let items = match value.field("results") {
            Some(items) => items.as_array(),
            None => None,
        };
        match (read_unsigned(value, "count"), items) {
            (Some(count), Some(items)) => {
                if count != items.len() as u64 {
                    return None;
                }
                match decode_items::<EventResult<T>>(items) {
                    Some(results) => Some(EventResults { count, results }),
                    None => None,
                }
            },
            _ => None,
        }
    }
}

/// The path of an event stream: `{collection}/{key}/events/{kind}`.
pub open spec fn stream_path(collection: Seq<char>, key: Seq<char>, kind: Seq<char>) -> Seq<char> {
    joined(collection, '/', key) + "/events/"@ + kind
}

/// Whether the parts of a stream's path are all there.
pub open spec fn stream_named(collection: Seq<char>, key: Seq<char>, kind: Seq<char>) -> bool {
    collection.len() > 0 && key.len() > 0 && kind.len() > 0
}

/// Records the parts of a stream's path in a descriptor.
pub fn naming_stream(client: Client, collection: &str, key: &str, kind: &str) -> (r: Client)
    ensures
        r@ == (ClientView {
            addressed: client@.addressed && stream_named(collection@, key@, kind@),
            ..client@
        }),
{
    client.naming(collection).naming(key).naming(kind)
}

/// Writes the path of an event stream.
pub fn stream_url(collection: &str, key: &str, kind: &str) -> (r: String)
    ensures
        r@ == stream_path(collection@, key@, kind@),
{
    let mut r = slash_join(collection, key);
    r.append("/events/");
    r.append(kind);
    r
}

/// Appends an event to a stream.
pub struct CreateEvent {
    client: Client,
    url: String,
    timestamp: Option<String>,
}

impl CreateEvent {
    /// The path of the stream.
    pub closed spec fn stream(&self) -> Seq<char> {
        self.url@
    }

    /// The descriptor of the request that `exec` makes. A timestamp, once
    /// set, is the last segment of the target.
    pub closed spec fn plan(&self) -> ClientView {
        ClientView {
            target: Some(
                match self.timestamp {
                    Some(t) => joined(self.url@, '/', t@),
                    None => self.url@,
                },
            ),
            ..self.client@
        }
    }

    /// An append to `{collection}/{key}/events/{kind}` with the method POST.
    pub fn new(client: Client, collection: &str, key: &str, kind: &str) -> (r: CreateEvent)
        ensures
            r.stream() == stream_path(collection@, key@, kind@),
            r.plan() == (ClientView {
                target: Some(stream_path(collection@, key@, kind@)),
                addressed: client@.addressed && stream_named(collection@, key@, kind@),
                method: Some(Method::Post),
                ..client@
            }),
    {
        CreateEvent {
            client: naming_stream(client, collection, key, kind).method(Method::Post),
            url: stream_url(collection, key, kind),
            timestamp: None,
        }
    }

    /// Sets the event, as JSON text.
    pub fn data(self, data: &str) -> (r: CreateEvent)
        ensures
            r.stream() == self.stream(),
            r.plan() == (ClientView { body: Some(data@), ..self.plan() }),
    {
        CreateEvent { client: self.client.body(data), url: self.url, timestamp: self.timestamp }
    }

    /// Sets the time of the event, in place of the time of arrival.
    pub fn timestamp(self, time: u64) -> (r: CreateEvent)
        ensures
            r.stream() == self.stream(),
            r.plan() == (ClientView {
                target: Some(joined(self.stream(), '/', decimal(time as nat))),
                ..self.plan()
            }),
    {
        CreateEvent { client: self.client, url: self.url, timestamp: Some(u64_to_string(time)) }
    }

    /// Sends the request and interprets the reply: success is status 201.
    /// An event has no ref, so nothing is read from the headers. Nothing is
    /// sent where no event was set.
    pub fn exec<S: FnOnce(Request) -> Result<Response, TransportError>>(self, send: S) -> (r:
        Result<bool, OrchestrateError>)
        requires
            self.plan().body is Some ==> sendable(self.plan(), send),
        ensures
            documented(
                self.plan(),
                send,
                r,
                |reply: Response, r: Result<bool, OrchestrateError>| confirms(reply, 201, r),
            ),
    {
        if !self.client.has_body() {
            return Err(OrchestrateError::HttpError("request lacks its document".to_owned()));
        }
        let target = match &self.timestamp {
            Some(t) => slash_join(self.url.as_str(), t.as_str()),
            None => self.url,
        };
        let client = self.client.trailing(target.as_str());
        match client.exec(send) {
            Err(e) => Err(e),
            Ok(reply) => confirm(&reply, 201),
        }
    }
}

/// Deletes one event of a stream.
pub struct DeleteEvent {
    client: Client,
    url: String,
    timestamp: Option<String>,
    ordinal: Option<String>,
}

impl DeleteEvent {
    /// The path of the stream.
    pub closed spec fn stream(&self) -> Seq<char> {
        self.url@
    }

    /// The timestamp and ordinal of the event, as far as they are set.
    pub closed spec fn event(&self) -> (Option<Seq<char>>, Option<Seq<char>>) {
        (
            match self.timestamp {
                Some(t) => Some(t@),
                None => None,
            },
            match self.ordinal {
                Some(o) => Some(o@),
                None => None,
            },
        )
    }

    /// What has been configured besides the target.
    pub closed spec fn base(&self) -> ClientView {
        self.client@
    }

    /// Whether the event is identified: both timestamp and ordinal are set.
    pub open spec fn identified(&self) -> bool {
        self.event().0 is Some && self.event().1 is Some
    }

    /// The descriptor of the request that `exec` makes for an identified
    /// event: the target is the stream, the timestamp and the ordinal.
    pub open spec fn plan(&self) -> ClientView {
        ClientView {
            target: Some(
                joined(joined(self.stream(), '/', self.event().0->0), '/', self.event().1->0),
            ),
            ..self.base()
        }
    }

    /// A delete in `{collection}/{key}/events/{kind}` with the method
    /// DELETE; the event is yet to be identified.
    pub fn new(client: Client, collection: &str, key: &str, kind: &str) -> (r: DeleteEvent)
        ensures
            r.stream() == stream_path(collection@, key@, kind@),
            r.event() == (None::<Seq<char>>, None::<Seq<char>>),
            r.base() == (ClientView {
                addressed: client@.addressed && stream_named(collection@, key@, kind@),
                method: Some(Method::Delete),
                ..client@
            }),
    {
        DeleteEvent {
            client: naming_stream(client, collection, key, kind).method(Method::Delete),
            url: stream_url(collection, key, kind),
            timestamp: None,
            ordinal: None,
        }
    }

    /// Sets the timestamp of the event.
    pub fn timestamp(self, time: u64) -> (r: DeleteEvent)
        ensures
            r.stream() == self.stream(),
            r.event() == (Some(decimal(time as nat)), self.event().1),
            r.base() == self.base(),
    {
        DeleteEvent {
            client: self.client,
            url: self.url,
            timestamp: Some(u64_to_string(time)),
            ordinal: self.ordinal,
        }
    }

    /// Sets the ordinal of the event.
    pub fn ordinal(self, ordinal: u64) -> (r: DeleteEvent)
        ensures
            r.stream() == self.stream(),
            r.event() == (self.event().0, Some(decimal(ordinal as nat))),
            r.base() == self.base(),
    {
        DeleteEvent {
            client: self.client,
            url: self.url,
            timestamp: self.timestamp,
            ordinal: Some(u64_to_string(ordinal)),
        }
    }

    /// Asks that the delete happen only if the current ref is `ref_`.
    pub fn if_match(self, ref_: &str) -> (r: DeleteEvent)
        ensures
            r.stream() == self.stream(),
            r.event() == self.event(),
            r.base() == (ClientView {
                headers: self.base().headers.insert("If-Match"@, quoted(ref_@)),
                ..self.base()
            }),
    {
        let value = quote(ref_);
        DeleteEvent {
            client: self.client.header("If-Match", value.as_str()),
            url: self.url,
            timestamp: self.timestamp,
            ordinal: self.ordinal,
        }
    }

    /// Asks that the event be removed for good.
    pub fn purge(self) -> (r: DeleteEvent)
        ensures
            r.stream() == self.stream(),
            r.event() == self.event(),
            r.base() == (ClientView {
                query: self.base().query.push(("purge"@, "true"@)),
                ..self.base()
            }),
    {
        DeleteEvent {
            client: self.client.query("purge", "true"),
            url: self.url,
            timestamp: self.timestamp,
            ordinal: self.ordinal,
        }
    }

    /// Sends the request and interprets the reply: success is status 204.
    /// Nothing is sent for an event that is not identified.
    pub fn exec<S: FnOnce(Request) -> Result<Response, TransportError>>(self, send: S) -> (r:
        Result<bool, OrchestrateError>)
        requires
            self.identified() ==> sendable(self.plan(), send),
        ensures
            !self.identified() ==> (r matches Err(OrchestrateError::HttpError(m)) && m@
                == "event lacks timestamp or ordinal"@),
            self.identified() ==> exchanged(
                self.plan(),
                send,
                r,
                |reply: Response, r: Result<bool, OrchestrateError>| confirms(reply, 204, r),
            ),
    {
        match (&self.timestamp, &self.ordinal) {
            (Some(t), Some(o)) => {
                let dated = slash_join(self.url.as_str(), t.as_str());
                let target = slash_join(dated.as_str(), o.as_str());
                let client = self.client.trailing(target.as_str());
                match client.exec(send) {
                    Err(e) => Err(e),
                    Ok(reply) => confirm(&reply, 204),
                }
            },
            _ => Err(OrchestrateError::HttpError("event lacks timestamp or ordinal".to_owned())),
        }
    }
}

/// The path of one event: the stream, the timestamp and the ordinal.
pub open spec fn event_path(stream: Seq<char>, timestamp: u64, ordinal: u64) -> Seq<char> {
    joined(joined(stream, '/', decimal(timestamp as nat)), '/', decimal(ordinal as nat))
}

/// Reads one event of a stream.
pub struct GetEvent {
    client: Client,
}

impl GetEvent {
    /// The descriptor of the request that `exec` makes.
    pub closed spec fn plan(&self) -> ClientView {
        self.client@
    }

    /// A read of the event at `timestamp` and `ordinal` in
    /// `{collection}/{key}/events/{kind}`, with the method GET.
    pub fn new(
        client: Client,
        collection: &str,
        key: &str,
        kind: &str,
        timestamp: u64,
        ordinal: u64,
    ) -> (r: GetEvent)
        ensures
            r.plan() == (ClientView {
                target: Some(
                    event_path(stream_path(collection@, key@, kind@), timestamp, ordinal),
                ),
                addressed: client@.addressed && stream_named(collection@, key@, kind@),
                method: Some(Method::Get),
                ..client@
            }),
    {
        let stream = stream_url(collection, key, kind);
        let time = u64_to_string(timestamp);
        let dated = slash_join(stream.as_str(), time.as_str());
        let place = u64_to_string(ordinal);
        let url = slash_join(dated.as_str(), place.as_str());
        GetEvent {
            client: naming_stream(client, collection, key, kind).trailing(url.as_str()).method(
                Method::Get,
            ),
        }
    }

    /// Sends the request and interprets the reply: the event, on status 200.
    pub fn exec<T: RepresentsJSON, S: FnOnce(Request) -> Result<Response, TransportError>>(
        self,
        send: S,
    ) -> (r: Event<T>)
        requires
            sendable(self.plan(), send),
        ensures
            exchanged(
                self.plan(),
                send,
                r,
                |reply: Response, r: Event<T>| reads_as::<EventResult<T>>(reply, 200, r),
            ),
    {
        match self.client.exec(send) {
            Err(e) => Err(e),
            Ok(reply) => read::<EventResult<T>>(&reply, 200),
        }
    }
}

/// Lists the events of a stream.
pub struct GetEvents {
    client: Client,
}

impl GetEvents {
    /// The descriptor of the request that `exec` makes.
    pub closed spec fn plan(&self) -> ClientView {
        self.client@
    }

    /// A listing of `{collection}/{key}/events/{kind}` with the method GET.
    pub fn new(client: Client, collection: &str, key: &str, kind: &str) -> (r: GetEvents)
        ensures
            r.plan() == (ClientView {
                target: Some(stream_path(collection@, key@, kind@)),
                addressed: client@.addressed && stream_named(collection@, key@, kind@),
                method: Some(Method::Get),
                ..client@
            }),
    {
        let url = stream_url(collection, key, kind);
        GetEvents {
            client: naming_stream(client, collection, key, kind).trailing(url.as_str()).method(
                Method::Get,
            ),
        }
    }

    /// Adds a query parameter whose value is a number.
    fn number(self, name: &str, value: u64) -> (r: GetEvents)
        ensures
            r.plan() == (ClientView {
                query: self.plan().query.push((name@, decimal(value as nat))),
                ..self.plan()
            }),
    {
        let text = u64_to_string(value);
        GetEvents { client: self.client.query(name, text.as_str()) }
    }

    /// Sets the earliest time of the range.
    pub fn start(self, start: u64) -> (r: GetEvents)
        ensures
            r.plan() == (ClientView {
                query: self.plan().query.push(("start"@, decimal(start as nat))),
                ..self.plan()
            }),
    {
        self.number("start", start)
    }

    /// Sets the latest time of the range.
    pub fn end(self, end: u64) -> (r: GetEvents)
        ensures
            r.plan() == (ClientView {
                query: self.plan().query.push(("end"@, decimal(end as nat))),
                ..self.plan()
            }),
    {
        self.number("end", end)
    }

    /// Sets the page size.
    pub fn limit(self, limit: i64) -> (r: GetEvents)
        ensures
            r.plan() == (ClientView {
                query: self.plan().query.push(("limit"@, signed_decimal(limit as int))),
                ..self.plan()
            }),
    {
        let text = i64_to_string(limit);
        GetEvents { client: self.client.query("limit", text.as_str()) }
    }

    /// Starts the range at an event, that event included.
    pub fn start_event(self, start_event: u64) -> (r: GetEvents)
        ensures
            r.plan() == (ClientView {
                query: self.plan().query.push(("startEvent"@, decimal(start_event as nat))),
                ..self.plan()
            }),
    {
        self.number("startEvent", start_event)
    }

    /// Starts the range after an event.
    pub fn after_event(self, after_event: u64) -> (r: GetEvents)
        ensures
            r.plan() == (ClientView {
                query: self.plan().query.push(("afterEvent"@, decimal(after_event as nat))),
                ..self.plan()
            }),
    {
        self.number("afterEvent", after_event)
    }

    /// Ends the range before an event.
    pub fn before_event(self, before_event: u64) -> (r: GetEvents)
        ensures
            r.plan() == (ClientView {
                query: self.plan().query.push(("beforeEvent"@, decimal(before_event as nat))),
                ..self.plan()
            }),
    {
        self.number("beforeEvent", before_event)
    }

    /// Ends the range at an event, that event included.
    pub fn end_event(self, end_event: u64) -> (r: GetEvents)
        ensures
            r.plan() == (ClientView {
                query: self.plan().query.push(("endEvent"@, decimal(end_event as nat))),
                ..self.plan()
            }),
    {
        self.number("endEvent", end_event)
    }

    /// Sends the request and interprets the reply: one page, on status 200.
    pub fn exec<T: RepresentsJSON, S: FnOnce(Request) -> Result<Response, TransportError>>(
        self,
        send: S,
    ) -> (r: Events<T>)
        requires
            sendable(self.plan(), send),
        ensures
            exchanged(
                self.plan(),
                send,
                r,
                |reply: Response, r: Events<T>| reads_as::<EventResults<T>>(reply, 200, r),
            ),
    {
        match self.client.exec(send) {
            Err(e) => Err(e),
            Ok(reply) => read::<EventResults<T>>(&reply, 200),
        }
    }
}

} // verus!
