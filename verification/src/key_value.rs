//! Documents by key: read, create, update, delete and list.

use vstd::prelude::*;
use vstd::string::*;

use crate::client::{
    distinct_names, optional_view, planned, turned, Client, ClientView, Method, Request,
    Response,
};
use crate::decode_items;
use crate::error::{DecodeError, OrchestrateError, TransportError};
use crate::interpret::{
    confirm, confirms, created_identity, documented, exchanged, expect_status, identify,
    identify_served, read, reads_as, rejects, sendable, served_ref,
};
use crate::items_represent;
use crate::json::JsonValue;
use crate::path::{optional_text_member, read_optional_text, settled_ref, Path, PathView};
use crate::text::{concat, i64_to_string, joined, signed_decimal, slash_join};
use crate::RepresentsJSON;

verus! {

/// One document with its address.
#[derive(Debug)]
pub struct KVResult<T> {
    pub path: Path,
    pub value: T,
}

/// One page of a listing.
#[derive(Debug)]
pub struct KVResults<T> {
    /// The number of results on this page.
    pub count: i64,
    pub results: Vec<KVResult<T>>,
    /// The link to the next page, where there is one.
    pub next: Option<String>,
}

pub type KeyValueResult<T> = Result<KVResult<T>, OrchestrateError>;

pub type KeyValueResults<T> = Result<KVResults<T>, OrchestrateError>;

pub type PathResult = Result<Path, OrchestrateError>;

/// The integer that the member `count` holds.
pub open spec fn count_member(value: JsonValue) -> Option<i64> {
    match value.spec_field("count"@) {
        Some(c) => c.spec_i64(),
        None => None,
    }
}

/// The elements that the member `results` holds.
pub open spec fn results_member(value: JsonValue) -> Option<Seq<JsonValue>> {
    match value.spec_field("results"@) {
        Some(items) => items.spec_items(),
        None => None,
    }
}

impl<T: RepresentsJSON> RepresentsJSON for KVResult<T> {
    /// An object with an address under `path` and a document under `value`.
    open spec fn represents(value: JsonValue, out: Option<KVResult<T>>) -> bool {
        match (value.spec_field("path"@), value.spec_field("value"@)) {
            (Some(p), Some(v)) => match Path::decoded(p) {
                Some(path) => match out {
                    Some(res) => res.path == path && T::represents(v, Some(res.value)),
                    None => T::represents(v, None),
                },
                None => out is None,
            },
            _ => out is None,
        }
    }

    fn from_json(value: &JsonValue) -> (r: Option<KVResult<T>>) {
        match (value.field("path"), value.field("value")) {
            (Some(p), Some(v)) => match Path::from_json(p) {
                Some(path) => match T::from_json(v) {
                    Some(value) => Some(KVResult { path, value }),
                    None => None,
                },
                None => None,
            },
            _ => None,
        }
    }
}

impl<T: RepresentsJSON> RepresentsJSON for KVResults<T> {
    /// An object with the integer `count`, the array `results` of that many
    /// items, and a link `next` that is text, `null` or missing.
    open spec fn represents(value: JsonValue, out: Option<KVResults<T>>) -> bool {
        match (count_member(value), results_member(value), optional_text_member(value, "next"@)) {
            (Some(count), Some(items), Some(next)) => if count == items.len() {
                match out {
                    Some(res) => res.count == count && res.next == next && items_represent::<
                        KVResult<T>,
                    >(items, Some(res.results@)),
                    None => items_represent::<KVResult<T>>(items, None),
                }
            } else {
                out is None
            },
            _ => out is None,
        }
    }

    fn from_json(value: &JsonValue) -> (r: Option<KVResults<T>>) {
        let count = match value.field("count") {
            Some(c) => c.as_i64(),
            None => None,
        };
        let items = match value.field("results") {
            Some(items) => items.as_array(),
            None => None,
        };
        let next = read_optional_text(value, "next");
        match (count, items, next) {
            (Some(count), Some(items), Some(next)) => {
                if count < 0 || count as u64 != items.len() as u64 {
                    return None;
                }
                match decode_items::<KVResult<T>>(items) {
                    Some(results) => Some(KVResults { count, results, next }),
                    None => None,
                }
            },
            _ => None,
        }
    }
}

impl<T> KVResults<T> {
    /// Tells whether more pages remain: whether the page links to a next one.
    pub fn has_next(&self) -> (r: bool)
        ensures
            r == (self.next is Some),
    {
        self.next.is_some()
    }
}

/// Whether `r` is what `reply` gives to the read of the document at
/// `collection` and `key`: what the reply gives to a read of a `T` that
/// expects status 200 and, on success, the address with the ref that the
/// caller asked for or, where none was asked for, the ref that the reply
/// names in `Content-Location`.
pub open spec fn gets<T: RepresentsJSON>(
    collection: Seq<char>,
    key: Seq<char>,
    known: Option<Seq<char>>,
    reply: Response,
    r: KeyValueResult<T>,
) -> bool {
    match r {
        Ok(res) => reads_as::<T>(reply, 200, Ok(res.value)) && res.path@ == (PathView {
            collection,
            key,
            ref_: settled_ref(known, served_ref(reply)),
        }),
        Err(e) => reads_as::<T>(reply, 200, Err(e)),
    }
}

/// The path of one version of a document: `{collection}/{key}/refs/{ref}`.
pub open spec fn version_path(collection: Seq<char>, key: Seq<char>, ref_: Seq<char>) -> Seq<char> {
    joined(collection, '/', key) + "/refs/"@ + ref_
}

/// Reads one document.
pub struct GetKeyValue {
    client: Client,
    collection: String,
    key: String,
    ref_: Option<String>,
}

impl GetKeyValue {
    /// The descriptor of the request that `exec` makes.
    pub closed spec fn plan(&self) -> ClientView {
        self.client@
    }

    /// The collection and key of the document.
    pub closed spec fn address(&self) -> (Seq<char>, Seq<char>) {
        (self.collection@, self.key@)
    }

    /// The ref of the version that is asked for, where one is.
    pub closed spec fn known_ref(&self) -> Option<Seq<char>> {
        match self.ref_ {
            Some(r) => Some(r@),
            None => None,
        }
    }

    /// A read of `{collection}/{key}` with the method GET.
    pub fn new(client: Client, collection: &str, key: &str) -> (r: GetKeyValue)
        ensures
            r.plan() == (ClientView {
                target: Some(joined(collection@, '/', key@)),
                addressed: client@.addressed && collection@.len() > 0 && key@.len() > 0,
                method: Some(Method::Get),
                ..client@
            }),
            r.address() == (collection@, key@),
            r.known_ref() is None,
    {
        let url = slash_join(collection, key);
        GetKeyValue {
            client: client.trailing(url.as_str()).naming(collection).naming(key).method(
                Method::Get,
            ),
            collection: collection.to_owned(),
            key: key.to_owned(),
            ref_: None,
        }
    }

    /// Asks for one version of the document: the read goes to
    /// `{collection}/{key}/refs/{ref}`.
    pub fn at_ref(self, ref_: &str) -> (r: GetKeyValue)
        ensures
            r.plan() == (ClientView {
                target: Some(version_path(self.address().0, self.address().1, ref_@)),
                addressed: self.plan().addressed && ref_@.len() > 0,
                ..self.plan()
            }),
            r.address() == self.address(),
            r.known_ref() == Some(ref_@),
    {
        let mut url = slash_join(self.collection.as_str(), self.key.as_str());
        url.append("/refs/");
        url.append(ref_);
        GetKeyValue {
            client: self.client.trailing(url.as_str()).naming(ref_),
            collection: self.collection,
            key: self.key,
            ref_: Some(ref_.to_owned()),
        }
    }

    /// Interprets the reply to the read of the address `known`.
    pub fn interpret<T: RepresentsJSON>(known: Path, reply: &Response) -> (r: KeyValueResult<T>)
        ensures
            gets::<T>(known@.collection, known@.key, known@.ref_, *reply, r),
    {
        match read::<T>(reply, 200) {
            Err(e) => Err(e),
            Ok(value) => Ok(KVResult { path: known.with_ref(identify_served(reply)), value }),
        }
    }

    /// Sends the request and interprets the reply.
    pub fn exec<T: RepresentsJSON, S: FnOnce(Request) -> Result<Response, TransportError>>(
        self,
        send: S,
    ) -> (r: KeyValueResult<T>)
        requires
            sendable(self.plan(), send),
        ensures
            exchanged(
                self.plan(),
                send,
                r,
                |reply: Response, r: KeyValueResult<T>|
                    gets::<T>(self.address().0, self.address().1, self.known_ref(), reply, r),
            ),
    {
        let known = Path { collection: self.collection, key: self.key, ref_: self.ref_ };
        match self.client.exec(send) {
            Err(e) => Err(e),
            Ok(reply) => GetKeyValue::interpret::<T>(known, &reply),
        }
    }
}

/// A ref between double quotes, as the conditional headers carry it.
pub open spec fn quoted(ref_: Seq<char>) -> Seq<char> {
    seq!['"'] + ref_ + seq!['"']
}

/// Puts a ref between double quotes.
pub fn quote(ref_: &str) -> (r: String)
    ensures
        r@ == quoted(ref_@),
{
    proof {
        reveal_strlit("\"");
    }
    let mut r = concat("\"", ref_);
    r.append("\"");
    assert(r@ =~= quoted(ref_@));
    r
}

/// Whether `r` is what `reply` gives to a create in `collection`: the domain
/// error unless the status is 201, else the address with the key and ref
/// that `Location` names, or a decode error where it names none.
pub open spec fn creates(collection: Seq<char>, reply: Response, r: PathResult) -> bool {
    if reply.status != 201 {
        r matches Err(e) && rejects(reply, e)
    } else {
        match created_identity(reply) {
            Some((key, ref_)) => r matches Ok(path) && path@ == (PathView {
                collection,
                key,
                ref_: Some(ref_),
            }),
            None => r matches Err(e) && e == OrchestrateError::JsonError(DecodeError::Location),
        }
    }
}

/// Whether `r` is what `reply` gives to an update of `collection` and `key`:
/// the domain error unless the status is 201, else the address with the ref
/// that `Location` names, or a decode error where it names none.
pub open spec fn updates(
    collection: Seq<char>,
    key: Seq<char>,
    reply: Response,
    r: PathResult,
) -> bool {
    if reply.status != 201 {
        r matches Err(e) && rejects(reply, e)
    } else {
        match created_identity(reply) {
            Some((_, ref_)) => r matches Ok(path) && path@ == (PathView {
                collection,
                key,
                ref_: Some(ref_),
            }),
            None => r matches Err(e) && e == OrchestrateError::JsonError(DecodeError::Location),
        }
    }
}

/// Creates a document under a key that the store chooses.
pub struct CreateKeyValue {
    client: Client,
    collection: String,
}

impl CreateKeyValue {
    /// The descriptor of the request that `exec` makes.
    pub closed spec fn plan(&self) -> ClientView {
        self.client@
    }

    /// The collection the document goes to.
    pub closed spec fn collection(&self) -> Seq<char> {
        self.collection@
    }

    /// A create in `{collection}` with the method POST.
    pub fn new(client: Client, collection: &str) -> (r: CreateKeyValue)
        ensures
            r.plan() == (ClientView {
                target: Some(collection@),
                addressed: client@.addressed && collection@.len() > 0,
                method: Some(Method::Post),
                ..client@
            }),
            r.collection() == collection@,
    {
        CreateKeyValue {
            client: client.trailing(collection).naming(collection).method(Method::Post),
            collection: collection.to_owned(),
        }
    }

    /// Sets the document, as JSON text.
    pub fn data(self, data: &str) -> (r: CreateKeyValue)
        ensures
            r.plan() == (ClientView { body: Some(data@), ..self.plan() }),
            r.collection() == self.collection(),
    {
        CreateKeyValue { client: self.client.body(data), collection: self.collection }
    }

    /// Interprets the reply to a create in `collection`.
    pub fn interpret(collection: String, reply: &Response) -> (r: PathResult)
        ensures
            creates(collection@, *reply, r),
    {
        match expect_status(reply, 201) {
            Err(e) => Err(e),
            Ok(_) => match identify(reply) {
                Some((key, ref_)) => Ok(Path { collection, key, ref_: Some(ref_) }),
                None => Err(OrchestrateError::JsonError(DecodeError::Location)),
            },
        }
    }

    /// Sends the request and interprets the reply. Nothing is sent where no
    /// document was set.
    pub fn exec<S: FnOnce(Request) -> Result<Response, TransportError>>(self, send: S) -> (r:
        PathResult)
        requires
            self.plan().body is Some ==> sendable(self.plan(), send),
        ensures
            documented(
                self.plan(),
                send,
                r,
                |reply: Response, r: PathResult| creates(self.collection(), reply, r),
            ),
    {
        if !self.client.has_body() {
            return Err(OrchestrateError::HttpError("request lacks its document".to_owned()));
        }
        match self.client.exec(send) {
            Err(e) => Err(e),
            Ok(reply) => CreateKeyValue::interpret(self.collection, &reply),
        }
    }
}

/// Writes a document under a given key.
pub struct UpdateKeyValue {
    client: Client,
    collection: String,
    key: String,
}

impl UpdateKeyValue {
    /// The descriptor of the request that `exec` makes.
    pub closed spec fn plan(&self) -> ClientView {
        self.client@
    }

    /// The collection and key of the document.
    pub closed spec fn address(&self) -> (Seq<char>, Seq<char>) {
        (self.collection@, self.key@)
    }

    /// A write to `{collection}/{key}` with the method PUT.
    pub fn new(client: Client, collection: &str, key: &str) -> (r: UpdateKeyValue)
        ensures
            r.plan() == (ClientView {
                target: Some(joined(collection@, '/', key@)),
                addressed: client@.addressed && collection@.len() > 0 && key@.len() > 0,
                method: Some(Method::Put),
                ..client@
            }),
            r.address() == (collection@, key@),
    {
        let url = slash_join(collection, key);
        UpdateKeyValue {
            client: client.trailing(url.as_str()).naming(collection).naming(key).method(
                Method::Put,
            ),
            collection: collection.to_owned(),
            key: key.to_owned(),
        }
    }

    /// Sets the document, as JSON text.
    pub fn data(self, data: &str) -> (r: UpdateKeyValue)
        ensures
            r.plan() == (ClientView { body: Some(data@), ..self.plan() }),
            r.address() == self.address(),
    {
        UpdateKeyValue {
            client: self.client.body(data),
            collection: self.collection,
            key: self.key,
        }
    }

    /// Asks that the write happen only if the current ref is `ref_`.
    pub fn if_match(self, ref_: &str) -> (r: UpdateKeyValue)
        ensures
            r.plan() == (ClientView {
                headers: self.plan().headers.insert("If-Match"@, quoted(ref_@)),
                ..self.plan()
            }),
            r.address() == self.address(),
    {
        let value = quote(ref_);
        UpdateKeyValue {
            client: self.client.header("If-Match", value.as_str()),
            collection: self.collection,
            key: self.key,
        }
    }

    /// Asks that the write happen only if the key holds no document.
    pub fn if_absent(self) -> (r: UpdateKeyValue)
        ensures
            r.plan() == (ClientView {
                headers: self.plan().headers.insert("If-None-Match"@, "*"@),
                ..self.plan()
            }),
            r.address() == self.address(),
    {
        UpdateKeyValue {
            client: self.client.header("If-None-Match", "*"),
            collection: self.collection,
            key: self.key,
        }
    }

    /// Interprets the reply to a write to `collection` and `key`.
    pub fn interpret(collection: String, key: String, reply: &Response) -> (r: PathResult)
        ensures
            updates(collection@, key@, *reply, r),
    {
        match expect_status(reply, 201) {
            Err(e) => Err(e),
            Ok(_) => match identify(reply) {
                Some((_, ref_)) => {
                    let known = Path { collection, key, ref_: None };
                    Ok(known.with_ref(Some(ref_)))
                },
                None => Err(OrchestrateError::JsonError(DecodeError::Location)),
            },
        }
    }

    /// Sends the request and interprets the reply. Nothing is sent where no
    /// document was set.
    pub fn exec<S: FnOnce(Request) -> Result<Response, TransportError>>(self, send: S) -> (r:
        PathResult)
        requires
            self.plan().body is Some ==> sendable(self.plan(), send),
        ensures
            documented(
                self.plan(),
                send,
                r,
                |reply: Response, r: PathResult|
                    updates(self.address().0, self.address().1, reply, r),
            ),
    {
        if !self.client.has_body() {
            return Err(OrchestrateError::HttpError("request lacks its document".to_owned()));
        }
        match self.client.exec(send) {
            Err(e) => Err(e),
            Ok(reply) => UpdateKeyValue::interpret(self.collection, self.key, &reply),
        }
    }
}

/// Deletes a document.
pub struct DeleteKeyValue {
    client: Client,
}

impl DeleteKeyValue {
    /// The descriptor of the request that `exec` makes.
    pub closed spec fn plan(&self) -> ClientView {
        self.client@
    }

    /// A delete of `{collection}/{key}` with the method DELETE.
    pub fn new(client: Client, collection: &str, key: &str) -> (r: DeleteKeyValue)
        ensures
            r.plan() == (ClientView {
                target: Some(joined(collection@, '/', key@)),
                addressed: client@.addressed && collection@.len() > 0 && key@.len() > 0,
                method: Some(Method::Delete),
                ..client@
            }),
    {
        let url = slash_join(collection, key);
        DeleteKeyValue {
            client: client.trailing(url.as_str()).naming(collection).naming(key).method(
                Method::Delete,
            ),
        }
    }

    /// Asks that the delete happen only if the current ref is `ref_`.
    pub fn if_match(self, ref_: &str) -> (r: DeleteKeyValue)
        ensures
            r.plan() == (ClientView {
                headers: self.plan().headers.insert("If-Match"@, quoted(ref_@)),
                ..self.plan()
            }),
    {
        let value = quote(ref_);
        DeleteKeyValue { client: self.client.header("If-Match", value.as_str()) }
    }

    /// Asks that every version be removed for good.
    pub fn purge(self) -> (r: DeleteKeyValue)
        ensures
            r.plan() == (ClientView {
                query: self.plan().query.push(("purge"@, "true"@)),
                ..self.plan()
            }),
    {
        DeleteKeyValue { client: self.client.query("purge", "true") }
    }

    /// Sends the request and interprets the reply: success is status 204.
    pub fn exec<S: FnOnce(Request) -> Result<Response, TransportError>>(self, send: S) -> (r:
        Result<bool, OrchestrateError>)
        requires
            sendable(self.plan(), send),
        ensures
            exchanged(
                self.plan(),
                send,
                r,
                |reply: Response, r: Result<bool, OrchestrateError>| confirms(reply, 204, r),
            ),
    {
        match self.client.exec(send) {
            Err(e) => Err(e),
            Ok(reply) => confirm(&reply, 204),
        }
    }
}

/// Lists the documents of a collection, page by page.
pub struct ListReader {
    client: Client,
}

impl ListReader {
    /// The descriptor of the request that `exec` makes.
    pub closed spec fn plan(&self) -> ClientView {
        self.client@
    }

    /// A listing of `{collection}` with the method GET.
    pub fn new(client: Client, collection: &str) -> (r: ListReader)
        ensures
            r.plan() == (ClientView {
                target: Some(collection@),
                addressed: client@.addressed && collection@.len() > 0,
                method: Some(Method::Get),
                ..client@
            }),
    {
        ListReader { client: client.trailing(collection).naming(collection).method(Method::Get) }
    }

    /// Sets the page size.
    pub fn limit(self, limit: i64) -> (r: ListReader)
        ensures
            r.plan() == (ClientView {
                query: self.plan().query.push(("limit"@, signed_decimal(limit as int))),
                ..self.plan()
            }),
    {
        let value = i64_to_string(limit);
        ListReader { client: self.client.query("limit", value.as_str()) }
    }

    /// Starts the listing at `start_key`, that key included.
    pub fn start_key(self, start_key: &str) -> (r: ListReader)
        ensures
            r.plan() == (ClientView {
                query: self.plan().query.push(("startKey"@, start_key@)),
                ..self.plan()
            }),
    {
        ListReader { client: self.client.query("startKey", start_key) }
    }

    /// Starts the listing after `after_key`.
    pub fn after_key(self, after_key: &str) -> (r: ListReader)
        ensures
            r.plan() == (ClientView {
                query: self.plan().query.push(("afterKey"@, after_key@)),
                ..self.plan()
            }),
    {
        ListReader { client: self.client.query("afterKey", after_key) }
    }

    /// Ends the listing before `before_key`.
    pub fn before_key(self, before_key: &str) -> (r: ListReader)
        ensures
            r.plan() == (ClientView {
                query: self.plan().query.push(("beforeKey"@, before_key@)),
                ..self.plan()
            }),
    {
        ListReader { client: self.client.query("beforeKey", before_key) }
    }

    /// Ends the listing at `end_key`, that key included.
    pub fn end_key(self, end_key: &str) -> (r: ListReader)
        ensures
            r.plan() == (ClientView {
                query: self.plan().query.push(("endKey"@, end_key@)),
                ..self.plan()
            }),
    {
        ListReader { client: self.client.query("endKey", end_key) }
    }

    /// Turns to the page after `results`: the request goes to the link of
    /// that page, taken as it is but for the version prefix. Without a link
    /// there is no next page, and the reader comes back unchanged.
    pub fn get_next<T>(self, results: &KVResults<T>) -> (r: ListReader)
        ensures
            r.plan() == turned(self.plan(), optional_view(results.next)),
    {
        match &results.next {
            Some(link) => ListReader { client: self.client.follow(link.as_str()) },
            None => self,
        }
    }

    /// Sends the request and interprets the reply: one page, on status 200.
    pub fn exec<T: RepresentsJSON, S: FnOnce(Request) -> Result<Response, TransportError>>(
        self,
        send: S,
    ) -> (r: KeyValueResults<T>)
        requires
            sendable(self.plan(), send),
        ensures
            listed::<T, S>(self.plan(), send, r),
    {
        match self.client.exec(send) {
            Err(e) => Err(e),
            Ok(reply) => read::<KVResults<T>>(&reply, 200),
        }
    }

    /// Walks the listing from this page on, following the link of each page
    /// to the next, and returns the pages in order. The walk ends at the
    /// first page without a link, or after `most` pages, whatever the store
    /// answers; it stops at the first exchange that fails. The transport is
    /// asked to take the requests of the walk only: those that differ from
    /// the first in nothing but the URL.
    pub fn walk<T: RepresentsJSON, S: Fn(Request) -> Result<Response, TransportError>>(
        self,
        send: &S,
        most: usize,
    ) -> (r: Result<Vec<KVResults<T>>, OrchestrateError>)
        requires
            forall|q: Request| #[trigger] pageable(self.plan(), q) ==> call_requires(send, (q,)),
        ensures
            match r {
                Ok(pages) => pages@.len() <= most && traversed::<T, &S>(
                    self.plan(),
                    send,
                    pages@,
                ) && (pages@.len() < most ==> pages@.len() > 0 && pages@.last().next is None),
                Err(e) => exists|pages: Seq<KVResults<T>>|
                    pages.len() < most && #[trigger] traversed::<T, &S>(
                        self.plan(),
                        send,
                        pages,
                    ) && (pages.len() > 0 ==> pages.last().next is Some) && listed::<T, &S>(
                        page_plan(self.plan(), pages, pages.len()),
                        send,
                        Err(e),
                    ),
            },
    {
        let ghost start = self.plan();
        let mut pages: Vec<KVResults<T>> = Vec::new();
        let mut reader = self;
        while pages.len() < most
            invariant
                pages@.len() <= most,
                start == self.plan(),
                forall|q: Request| #[trigger] pageable(start, q) ==> call_requires(send, (q,)),
                reader.plan() == (ClientView {
                    target: reader.plan().target,
                    query: reader.plan().query,
                    ..start
                }),
                traversed::<T, &S>(start, send, pages@),
                pages@.len() > 0 ==> pages@.last().next is Some,
                reader.plan() == page_plan(start, pages@, pages@.len()),
            decreases most - pages.len(),
        {
            let spare = ListReader { client: reader.client.again() };
            let ghost before = pages@;
            assert forall|q: Request|
                q@ == planned(reader.plan()) && distinct_names(q.headers@) implies call_requires(
                send,
                (q,),
            ) by {
                assert(pageable(start, q));
            }
            match reader.exec::<T, &S>(send) {
                Err(e) => {
                    assert(traversed::<T, &S>(start, send, before) && listed::<T, &S>(
                        page_plan(start, before, before.len()),
                        send,
                        Err::<KVResults<T>, OrchestrateError>(e),
                    ));
                    return Err(e);
                },
                Ok(page) => {
                    let ended = !page.has_next();
                    let next = spare.get_next(&page);
                    let ghost got = page;
                    pages.push(page);
                    proof {
                        let n = before.len();
                        assert(pages@[n as int] == got);
                        lemma_page_plan_prefix::<T>(start, before, pages@, n);
                        assert(listed::<T, &S>(
                            page_plan(start, pages@, n),
                            send,
                            Ok::<KVResults<T>, OrchestrateError>(pages@[n as int]),
                        ));
                        assert forall|i: int| 0 <= i < pages@.len() implies #[trigger] listed::<
                            T,
                            &S,
                        >(
                            page_plan(start, pages@, i as nat),
                            send,
                            Ok::<KVResults<T>, OrchestrateError>(pages@[i]),
                        ) && (i + 1 < pages@.len() ==> pages@[i].next is Some) by {
                            if i < n {
                                lemma_page_plan_prefix::<T>(start, before, pages@, i as nat);
                                assert(pages@[i] == before[i]);
                                assert(listed::<T, &S>(
                                    page_plan(start, before, i as nat),
                                    send,
                                    Ok::<KVResults<T>, OrchestrateError>(before[i]),
                                ));
                                if i + 1 == n {
                                    assert(before[i] == before.last());
                                }
                            }
                        }
                    }
                    if ended {
                        return Ok(pages);
                    }
                    reader = next;
                },
            }
        }
        Ok(pages)
    }
}

/// Whether `q` may be a request of a traversal that starts with `start`: it
/// has the method, the headers and the body of the first request, and goes
/// wherever the links lead.
pub open spec fn pageable(start: ClientView, q: Request) -> bool {
    &&& q@.method == planned(start).method
    &&& q@.headers == planned(start).headers
    &&& q@.body == planned(start).body
    &&& distinct_names(q.headers@)
}

/// Whether `r` is the result of asking for one page of a listing with the
/// descriptor `v`.
pub open spec fn listed<T: RepresentsJSON, S: FnOnce(Request) -> Result<Response, TransportError>>(
    v: ClientView,
    send: S,
    r: KeyValueResults<T>,
) -> bool {
    exchanged(
        v,
        send,
        r,
        |reply: Response, r: KeyValueResults<T>| reads_as::<KVResults<T>>(reply, 200, r),
    )
}

/// The descriptor of the request for page `i` of a traversal that starts
/// with `start` and has seen `pages`: each page is asked for where the page
/// before it links to.
pub open spec fn page_plan<T>(start: ClientView, pages: Seq<KVResults<T>>, i: nat) -> ClientView
    decreases i,
{
    if i == 0 {
        start
    } else {
        turned(page_plan(start, pages, (i - 1) as nat), optional_view(pages[i - 1].next))
    }
}

/// Whether `pages` are the first pages of a traversal from `start`: each is
/// the answer to the request that the pages before it lead to, and each but
/// the last links to a next one.
pub open spec fn traversed<
    T: RepresentsJSON,
    S: FnOnce(Request) -> Result<Response, TransportError>,
>(start: ClientView, send: S, pages: Seq<KVResults<T>>) -> bool {
    forall|i: int|
        0 <= i < pages.len() ==> #[trigger] listed::<T, S>(
            page_plan(start, pages, i as nat),
            send,
            Ok::<KVResults<T>, OrchestrateError>(pages[i]),
        ) && (i + 1 < pages.len() ==> pages[i].next is Some)
}

/// The request for a page depends on the pages before it alone.
pub proof fn lemma_page_plan_prefix<T>(
    start: ClientView,
    few: Seq<KVResults<T>>,
    more: Seq<KVResults<T>>,
    i: nat,
)
    requires
        i <= few.len() <= more.len(),
        forall|j: int| 0 <= j < few.len() ==> few[j] == more[j],
    ensures
        page_plan(start, few, i) == page_plan(start, more, i),
    decreases i,
{
    if i > 0 {
        lemma_page_plan_prefix::<T>(start, few, more, (i - 1) as nat);
    }
}

} // verus!
