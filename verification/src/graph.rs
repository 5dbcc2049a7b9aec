//! Relations between documents: traverse, put and delete.

use vstd::prelude::*;
use vstd::string::*;

use crate::client::{Client, ClientView, Method, Request, Response};
use crate::decode_items;
use crate::error::{OrchestrateError, TransportError};
use crate::events::{read_unsigned, unsigned_member};
use crate::interpret::{confirm, confirms, exchanged, read, reads_as, sendable};
use crate::items_represent;
use crate::json::JsonValue;
use crate::key_value::results_member;
use crate::path::Path;
use crate::text::{i64_to_string, join, joined, signed_decimal, slash_join};
use crate::RepresentsJSON;

verus! {

/// The documents reached by a traversal.
#[derive(Debug)]
pub struct GraphResults<T> {
    /// The number of results on this page.
    pub count: u64,
    pub results: Vec<GraphResult<T>>,
}

/// One document reached by a traversal, with its own address.
#[derive(Debug)]
pub struct GraphResult<T> {
    pub path: Path,
    pub value: T,
}

impl<T: RepresentsJSON> RepresentsJSON for GraphResult<T> {
    /// An object with an address under `path` and a document under `value`.
    open spec fn represents(value: JsonValue, out: Option<GraphResult<T>>) -> bool {
        match (value.spec_field("path"@), value.spec_field("value"@)) {
            (Some(p), Some(v)) => match Path::decoded(p) {
                Some(path) => match out {
                    Some(res) => res.path == path && T::represents(v, Some(res.value)),
                    None => T::represents(v, None),
                },
                None => out is None,
            },
            _ => out is None,
        }
    }

    fn from_json(value: &JsonValue) -> (r: Option<GraphResult<T>>) {
        match (value.field("path"), value.field("value")) {
            (Some(p), Some(v)) => match Path::from_json(p) {
                Some(path) => match T::from_json(v) {
                    Some(value) => Some(GraphResult { path, value }),
                    None => None,
                },
                None => None,
            },
            _ => None,
        }
    }
}

impl<T: RepresentsJSON> RepresentsJSON for GraphResults<T> {
    /// An object with the integer `count` and the array `results` of that
    /// many items.
    open spec fn represents(value: JsonValue, out: Option<GraphResults<T>>) -> bool {
        match (unsigned_member(value, "count"@), results_member(value)) {
            (Some(count), Some(items)) => if count == items.len() {
                match out {
                    Some(res) => res.count == count && items_represent::<GraphResult<T>>(
                        items,
                        Some(res.results@),
                    ),
                    None => items_represent::<GraphResult<T>>(items, None),
                }
            } else {
                out is None
            },
            _ => out is None,
        }
    }

    fn from_json(value: &JsonValue) -> (r: Option<GraphResults<T>>) {
        let items = match value.field("results") {
            Some(items) => items.as_array(),
            None => None,
        };
        match (read_unsigned(value, "count"), items) {
            (Some(count), Some(items)) => {
                if count != items.len() as u64 {
                    return None;
                }
                match decode_items::<GraphResult<T>>(items) {
                    Some(results) => Some(GraphResults { count, results }),
                    None => None,
                }
            },
            _ => None,
        }
    }
}

/// The views of a list of string slices.
pub open spec fn hop_views(hops: Seq<&str>) -> Seq<Seq<char>> {
    hops.map_values(|hop: &str| hop@)
}

/// The path of a traversal: `{collection}/{key}/relations/` and the hop
/// kinds with slashes between them.
pub open spec fn traversal_path(
    collection: Seq<char>,
    key: Seq<char>,
    hops: Seq<Seq<char>>,
) -> Seq<char> {
    joined(collection, '/', key) + "/relations/"@ + join(hops, '/')
}

/// The path of one edge:
/// `{collection}/{key}/relation/{kind}/{to_collection}/{to_key}`.
pub open spec fn edge_path(
    collection: Seq<char>,
    key: Seq<char>,
    kind: Seq<char>,
    to_collection: Seq<char>,
    to_key: Seq<char>,
) -> Seq<char> {
    joined(
        joined(joined(collection, '/', key) + "/relation/"@ + kind, '/', to_collection),
        '/',
        to_key,
    )
}

/// Whether a traversal is fully named: collection and key are there, and
/// there is at least one hop, none of them empty.
pub open spec fn traversal_named(
    collection: Seq<char>,
    key: Seq<char>,
    hops: Seq<Seq<char>>,
) -> bool {
    collection.len() > 0 && key.len() > 0 && hops.len() > 0 && forall|i: int|
        0 <= i < hops.len() ==> (#[trigger] hops[i]).len() > 0
}

/// Whether an edge is fully named: every part of its path is there.
pub open spec fn edge_named(
    collection: Seq<char>,
    key: Seq<char>,
    kind: Seq<char>,
    to_collection: Seq<char>,
    to_key: Seq<char>,
) -> bool {
    collection.len() > 0 && key.len() > 0 && kind.len() > 0 && to_collection.len() > 0
        && to_key.len() > 0
}

/// Tells whether there is at least one hop and none is empty.
pub fn hops_named(hops: &Vec<&str>) -> (r: bool)
    ensures
        r == (hops@.len() > 0 && forall|i: int|
            0 <= i < hops@.len() ==> (#[trigger] hop_views(hops@)[i]).len() > 0),
{
    if hops.len() == 0 {
        return false;
    }
    let mut i: usize = 0;
    while i < hops.len()
        invariant
            i <= hops.len(),
            forall|j: int| 0 <= j < i ==> (#[trigger] hop_views(hops@)[j]).len() > 0,
        decreases hops.len() - i,
    {
        if hops[i].is_empty() {
            assert(hop_views(hops@)[i as int].len() == 0);
            return false;
        }
        i = i + 1;
    }
    true
}

/// Writes the hop kinds with slashes between them.
pub fn join_hops(hops: &Vec<&str>) -> (r: String)
    ensures
        r@ == join(hop_views(hops@), '/'),
{
    let mut r = String::new();
    let mut i: usize = 0;
    proof {
        reveal_strlit("/");
        assert(hop_views(hops@).take(0) =~= Seq::<Seq<char>>::empty());
    }
    while i < hops.len()
        invariant
            i <= hops.len(),
            "/"@ == seq!['/'],
            r@ == join(hop_views(hops@).take(i as int), '/'),
        decreases hops.len() - i,
    {
        let ghost before = r@;
        if i > 0 {
            r.append("/");
        }
        r.append(hops[i]);
        proof {
            let next = hop_views(hops@).take(i + 1);
            assert(next.drop_last() =~= hop_views(hops@).take(i as int));
            assert(next.last() == hops@[i as int]@);
            if i == 0 {
                assert(r@ =~= next[0]);
            } else {
                assert(r@ =~= before.push('/') + next.last());
            }
        }
        i = i + 1;
    }
    assert(hop_views(hops@).take(hops.len() as int) =~= hop_views(hops@));
    r
}

/// Writes the path of one edge.
pub fn edge_url(collection: &str, key: &str, kind: &str, to_collection: &str, to_key: &str) -> (r:
    String)
    ensures
        r@ == edge_path(collection@, key@, kind@, to_collection@, to_key@),
{
    let mut from = slash_join(collection, key);
    from.append("/relation/");
    from.append(kind);
    let to = slash_join(from.as_str(), to_collection);
    slash_join(to.as_str(), to_key)
}

/// Follows a chain of relations from a document.
pub struct GetRelations {
    client: Client,
}

impl GetRelations {
    /// The descriptor of the request that `exec` makes.
    pub closed spec fn plan(&self) -> ClientView {
        self.client@
    }

    /// A traversal from `{collection}/{key}` along `hops`, one relation kind
    /// per hop, with the method GET.
    pub fn new(client: Client, collection: &str, key: &str, hops: Vec<&str>) -> (r: GetRelations)
        ensures
            r.plan() == (ClientView {
                target: Some(traversal_path(collection@, key@, hop_views(hops@))),
                addressed: client@.addressed && traversal_named(
                    collection@,
                    key@,
                    hop_views(hops@),
                ),
                method: Some(Method::Get),
                ..client@
            }),
    {
        let mut url = slash_join(collection, key);
        url.append("/relations/");
        let chain = join_hops(&hops);
        url.append(chain.as_str());
        let named = client.naming(collection).naming(key);
        let named = if hops_named(&hops) {
            named
        } else {
            named.naming("")
        };
        proof {
            reveal_strlit("");
        }
        GetRelations { client: named.trailing(url.as_str()).method(Method::Get) }
    }

    /// Sets the page size.
    pub fn limit(self, limit: i64) -> (r: GetRelations)
        ensures
            r.plan() == (ClientView {
                query: self.plan().query.push(("limit"@, signed_decimal(limit as int))),
                ..self.plan()
            }),
    {
        let text = i64_to_string(limit);
        GetRelations { client: self.client.query("limit", text.as_str()) }
    }

    /// Sets the number of results to skip.
    pub fn offset(self, offset: i64) -> (r: GetRelations)
        ensures
            r.plan() == (ClientView {
                query: self.plan().query.push(("offset"@, signed_decimal(offset as int))),
                ..self.plan()
            }),
    {
        let text = i64_to_string(offset);
        GetRelations { client: self.client.query("offset", text.as_str()) }
    }

    /// Sends the request and interprets the reply: the documents reached, on
    /// status 200.
    pub fn exec<T: RepresentsJSON, S: FnOnce(Request) -> Result<Response, TransportError>>(
        self,
        send: S,
    ) -> (r: Result<GraphResults<T>, OrchestrateError>)
        requires
            sendable(self.plan(), send),
        ensures
            exchanged(
                self.plan(),
                send,
                r,
                |reply: Response, r: Result<GraphResults<T>, OrchestrateError>|
                    reads_as::<GraphResults<T>>(reply, 200, r),
            ),
    {
        match self.client.exec(send) {
            Err(e) => Err(e),
            Ok(reply) => read::<GraphResults<T>>(&reply, 200),
        }
    }
}

/// Puts one edge between two documents.
pub struct PutRelation {
    client: Client,
}

impl PutRelation {
    /// The descriptor of the request that `exec` makes.
    pub closed spec fn plan(&self) -> ClientView {
        self.client@
    }

    /// The edge of kind `kind` from `{collection}/{key}` to
    /// `{to_collection}/{to_key}`, written with the method PUT and no body.
    pub fn new(
        client: Client,
        collection: &str,
        key: &str,
        kind: &str,
        to_collection: &str,
        to_key: &str,
    ) -> (r: PutRelation)
        ensures
            r.plan() == (ClientView {
                target: Some(edge_path(collection@, key@, kind@, to_collection@, to_key@)),
                addressed: client@.addressed && edge_named(
                    collection@,
                    key@,
                    kind@,
                    to_collection@,
                    to_key@,
                ),
                method: Some(Method::Put),
                ..client@
            }),
    {
        let url = edge_url(collection, key, kind, to_collection, to_key);
        let named = client.naming(collection).naming(key).naming(kind).naming(
            to_collection,
        ).naming(to_key);
        PutRelation { client: named.trailing(url.as_str()).method(Method::Put) }
    }

    /// Sends the request and interprets the reply: success is status 204.
    pub fn exec<S: FnOnce(Request) -> Result<Response, TransportError>>(self, send: S) -> (r:
        Result<bool, OrchestrateError>)
        requires
            sendable(self.plan(), send),
        ensures
            exchanged(
                self.plan(),
                send,
                r,
                |reply: Response, r: Result<bool, OrchestrateError>| confirms(reply, 204, r),
            ),
    {
        match self.client.exec(send) {
            Err(e) => Err(e),
            Ok(reply) => confirm(&reply, 204),
        }
    }
}

/// Deletes one edge between two documents.
pub struct DeleteRelation {
    client: Client,
}

impl DeleteRelation {
    /// The descriptor of the request that `exec` makes.
    pub closed spec fn plan(&self) -> ClientView {
        self.client@
    }

    /// The edge of kind `kind` from `{collection}/{key}` to
    /// `{to_collection}/{to_key}`, removed with the method DELETE.
    pub fn new(
        client: Client,
        collection: &str,
        key: &str,
        kind: &str,
        to_collection: &str,
        to_key: &str,
    ) -> (r: DeleteRelation)
        ensures
            r.plan() == (ClientView {
                target: Some(edge_path(collection@, key@, kind@, to_collection@, to_key@)),
                addressed: client@.addressed && edge_named(
                    collection@,
                    key@,
                    kind@,
                    to_collection@,
                    to_key@,
                ),
                method: Some(Method::Delete),
                ..client@
            }),
    {
        let url = edge_url(collection, key, kind, to_collection, to_key);
        let named = client.naming(collection).naming(key).naming(kind).naming(
            to_collection,
        ).naming(to_key);
        DeleteRelation { client: named.trailing(url.as_str()).method(Method::Delete) }
    }

    /// Sends the request and interprets the reply: success is status 204.
    pub fn exec<S: FnOnce(Request) -> Result<Response, TransportError>>(self, send: S) -> (r:
        Result<bool, OrchestrateError>)
        requires
            sendable(self.plan(), send),
        ensures
            exchanged(
                self.plan(),
                send,
                r,
                |reply: Response, r: Result<bool, OrchestrateError>| confirms(reply, 204, r),
            ),
    {
        match self.client.exec(send) {
            Err(e) => Err(e),
            Ok(reply) => confirm(&reply, 204),
        }
    }
}

} // verus!
