//! Full-text search over a collection.

use vstd::prelude::*;
use vstd::string::*;

use crate::client::{
    optional_view, turned, Client, ClientView, Method, Request, Response,
};
use crate::decode_items;
use crate::error::{OrchestrateError, TransportError};
use crate::events::{read_unsigned, unsigned_member};
use crate::interpret::{exchanged, read, reads_as, sendable};
use crate::items_represent;
use crate::json::{JsonValue, Number};
use crate::key_value::results_member;
use crate::path::{optional_text_member, read_optional_text, Path};
use crate::text::{i64_to_string, signed_decimal};
use crate::RepresentsJSON;

verus! {

/// One page of search results.
#[derive(Debug)]
pub struct SearchResults<T> {
    /// The number of results on this page.
    pub count: u64,
    /// The number of matches in all; it may exceed `count`.
    pub total_count: u64,
    pub results: Vec<SearchResult<T>>,
    /// The link to the next page, where there is one.
    pub next: Option<String>,
    /// The link to the previous page, where there is one.
    pub prev: Option<String>,
}

/// One match, with its relevance.
#[derive(Debug)]
pub struct SearchResult<T> {
    pub path: Path,
    pub score: Number,
    pub distance: Number,
    pub value: T,
}

pub type SearchResponse<T> = Result<SearchResults<T>, OrchestrateError>;

/// The number that a member holds.
pub open spec fn number_member(value: JsonValue, name: Seq<char>) -> Option<Number> {
    match value.spec_field(name) {
        Some(n) => n.spec_number(),
        None => None,
    }
}

/// Reads a member that is a number.
pub fn read_number(value: &JsonValue, name: &str) -> (r: Option<Number>)
    ensures
        r == number_member(*value, name@),
{
    match value.field(name) {
        Some(n) => n.as_number(),
        None => None,
    }
}

impl<T: RepresentsJSON> RepresentsJSON for SearchResult<T> {
    /// An object with an address under `path`, the numbers `score` and
    /// `distance`, and a document under `value`.
    open spec fn represents(value: JsonValue, out: Option<SearchResult<T>>) -> bool {
        match (
            value.spec_field("path"@),
            number_member(value, "score"@),
            number_member(value, "distance"@),
            value.spec_field("value"@),
        ) {
            (Some(p), Some(score), Some(distance), Some(v)) => match Path::decoded(p) {
                Some(path) => match out {
                    Some(res) => res.path == path && res.score == score && res.distance
                        == distance && T::represents(v, Some(res.value)),
                    None => T::represents(v, None),
                },
                None => out is None,
            },
            _ => out is None,
        }
    }

    fn from_json(value: &JsonValue) -> (r: Option<SearchResult<T>>) {
        match (
            value.field("path"),
            read_number(value, "score"),
            read_number(value, "distance"),
            value.field("value"),
        ) {
            (Some(p), Some(score), Some(distance), Some(v)) => match Path::from_json(p) {
                Some(path) => match T::from_json(v) {
                    Some(value) => Some(SearchResult { path, score, distance, value }),
                    None => None,
                },
                None => None,
            },
            _ => None,
        }
    }
}

impl<T: RepresentsJSON> RepresentsJSON for SearchResults<T> {
    /// An object with the integers `count` and `total_count`, the array
    /// `results` of `count` items, and the links `next` and `prev`, each
    /// text, `null` or missing.
    open spec fn represents(value: JsonValue, out: Option<SearchResults<T>>) -> bool {
        match (
            unsigned_member(value, "count"@),
            unsigned_member(value, "total_count"@),
            results_member(value),
            optional_text_member(value, "next"@),
            optional_text_member(value, "prev"@),
        ) {
            (Some(count), Some(total_count), Some(items), Some(next), Some(prev)) => if count
                == items.len() {
                match out {
                    Some(res) => res.count == count && res.total_count == total_count && res.next
                        == next && res.prev == prev && items_represent::<SearchResult<T>>(
                        items,
                        Some(res.results@),
                    ),
                    None => items_represent::<SearchResult<T>>(items, None),
                }
            } else {
                out is None
            },
            _ => out is None,
        }
    }

    fn from_json(value: &JsonValue) -> (r: Option<SearchResults<T>>) {
        let items = match value.field("results") {
            Some(items) => items.as_array(),
            None => None,
        };
        match (
            read_unsigned(value, "count"),
            read_unsigned(value, "total_count"),
            items,
            read_optional_text(value, "next"),
            read_optional_text(value, "prev"),
        ) {
            (Some(count), Some(total_count), Some(items), Some(next), Some(prev)) => {
                if count != items.len() as u64 {
                    return None;
                }
                match decode_items::<SearchResult<T>>(items) {
                    Some(results) => Some(
                        SearchResults { count, total_count, results, next, prev },
                    ),
                    None => None,
                }
            },
            _ => None,
        }
    }
}

impl<T> SearchResults<T> {
    /// Tells whether more pages remain: whether the page links to a next one.
    pub fn has_next(&self) -> (r: bool)
        ensures
            r == (self.next is Some),
    {
        self.next.is_some()
    }

    /// Tells whether the page links to a previous one.
    pub fn has_prev(&self) -> (r: bool)
        ensures
            r == (self.prev is Some),
    {
        self.prev.is_some()
    }
}

/// The value of a `sort` parameter: `value.{property}:{order}`.
pub open spec fn sort_clause(property: Seq<char>, order: Seq<char>) -> Seq<char> {
    "value."@ + property + ":"@ + order
}

/// Searches a collection.
pub struct SearchBuilder {
    client: Client,
    expressed: bool,
    followed: bool,
}

impl SearchBuilder {
    /// What has been configured so far.
    pub closed spec fn base(&self) -> ClientView {
        self.client@
    }

    /// Whether a search expression was set.
    pub closed spec fn expressed(&self) -> bool {
        self.expressed
    }

    /// Whether the builder stands at a pagination link.
    pub closed spec fn followed(&self) -> bool {
        self.followed
    }

    /// The descriptor of the request that `exec` makes: what has been
    /// configured, in the order of the calls. Only where no expression was
    /// set and no link was followed, `query=*` is added at the end.
    pub open spec fn plan(&self) -> ClientView {
        if self.followed() || self.expressed() {
            self.base()
        } else {
            ClientView { query: self.base().query.push(("query"@, "*"@)), ..self.base() }
        }
    }

    /// A search of `{collection}` with the method GET.
    pub fn new(client: Client, collection: &str) -> (r: SearchBuilder)
        ensures
            r.base() == (ClientView {
                target: Some(collection@),
                addressed: client@.addressed && collection@.len() > 0,
                method: Some(Method::Get),
                ..client@
            }),
            !r.expressed(),
            !r.followed(),
    {
        SearchBuilder {
            client: client.trailing(collection).naming(collection).method(Method::Get),
            expressed: false,
            followed: false,
        }
    }

    /// Sets the page size.
    pub fn limit(self, limit: i64) -> (r: SearchBuilder)
        ensures
            r.base() == (ClientView {
                query: self.base().query.push(("limit"@, signed_decimal(limit as int))),
                ..self.base()
            }),
            r.expressed() == self.expressed(),
            r.followed() == self.followed(),
    {
        let text = i64_to_string(limit);
        SearchBuilder {
            client: self.client.query("limit", text.as_str()),
            expressed: self.expressed,
            followed: self.followed,
        }
    }

    /// Sets the number of results to skip.
    pub fn offset(self, offset: i64) -> (r: SearchBuilder)
        ensures
            r.base() == (ClientView {
                query: self.base().query.push(("offset"@, signed_decimal(offset as int))),
                ..self.base()
            }),
            r.expressed() == self.expressed(),
            r.followed() == self.followed(),
    {
        let text = i64_to_string(offset);
        SearchBuilder {
            client: self.client.query("offset", text.as_str()),
            expressed: self.expressed,
            followed: self.followed,
        }
    }

    /// Adds a sort clause after the parameters already there: by the
    /// property `prop` of the documents, in the order `sort` (`asc` or
    /// `desc`).
    pub fn sort(self, prop: &str, sort: &str) -> (r: SearchBuilder)
        ensures
            r.base() == (ClientView {
                query: self.base().query.push(("sort"@, sort_clause(prop@, sort@))),
                ..self.base()
            }),
            r.expressed() == self.expressed(),
            r.followed() == self.followed(),
    {
        let mut clause = "value.".to_owned();
        clause.append(prop);
        clause.append(":");
        clause.append(sort);
        SearchBuilder {
            client: self.client.query("sort", clause.as_str()),
            expressed: self.expressed,
            followed: self.followed,
        }
    }

    /// Adds the search expression after the parameters already there.
    pub fn query(self, query: &str) -> (r: SearchBuilder)
        ensures
            r.base() == (ClientView {
                query: self.base().query.push(("query"@, query@)),
                ..self.base()
            }),
            r.expressed(),
            r.followed() == self.followed(),
    {
        SearchBuilder {
            client: self.client.query("query", query),
            expressed: true,
            followed: self.followed,
        }
    }

    /// Turns to a link, where there is one.
    fn turn(self, link: &Option<String>) -> (r: SearchBuilder)
        ensures
            r.base() == turned(self.base(), optional_view(*link)),
            r.expressed() == self.expressed(),
            r.followed() == (self.followed() || *link is Some),
    {
        match link {
            Some(link) => SearchBuilder {
                client: self.client.follow(link.as_str()),
                expressed: self.expressed,
                followed: true,
            },
            None => self,
        }
    }

    /// Turns to the page after `results`: the request goes to the link of
    /// that page, taken as it is but for the version prefix. Without a link
    /// there is no next page, and the builder comes back unchanged.
    pub fn get_next<T>(self, results: &SearchResults<T>) -> (r: SearchBuilder)
        ensures
            r.base() == turned(self.base(), optional_view(results.next)),
            r.expressed() == self.expressed(),
            r.followed() == (self.followed() || results.next is Some),
    {
        self.turn(&results.next)
    }

    /// Turns to the page before `results`, in the same way.
    pub fn get_prev<T>(self, results: &SearchResults<T>) -> (r: SearchBuilder)
        ensures
            r.base() == turned(self.base(), optional_view(results.prev)),
            r.expressed() == self.expressed(),
            r.followed() == (self.followed() || results.prev is Some),
    {
        self.turn(&results.prev)
    }

    /// Sends the request and interprets the reply: one page, on status 200.
    pub fn exec<T: RepresentsJSON, S: FnOnce(Request) -> Result<Response, TransportError>>(
        self,
        send: S,
    ) -> (r: SearchResponse<T>)
        requires
            sendable(self.plan(), send),
        ensures
            exchanged(
                self.plan(),
                send,
                r,
                |reply: Response, r: SearchResponse<T>|
                    reads_as::<SearchResults<T>>(reply, 200, r),
            ),
    {
        let client = if self.followed || self.expressed {
            self.client
        } else {
            self.client.query("query", "*")
        };
        match client.exec(send) {
            Err(e) => Err(e),
            Ok(reply) => read::<SearchResults<T>>(&reply, 200),
        }
    }
}

} // verus!
