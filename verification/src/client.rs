//! The request descriptor, the finished request and the raw reply.

use vstd::prelude::*;
use vstd::string::*;

use vstd::utf8::encode_utf8;

use crate::error::{OrchestrateError, TransportError};
use crate::text::{
    concat, decimal, eq_ignoring_case, same_ignoring_case, strip_prefix, u64_to_string,
    without_prefix,
};
use crate::wire::{
    base64, encode_base64, encode_query, form_urlencoded, pair_views, parse_url,
    parse_url_with_query, query_set, url_parsed, MAX_URL_BYTES,
};

verus! {

/// The HTTP methods the store is spoken to with.
#[derive(Clone, Copy, Debug, PartialEq, Eq, Structural)]
pub enum Method {
    Get,
    Post,
    Put,
    Delete,
    Head,
}

/// A list of headers read as a mapping: an entry replaces every earlier
/// entry of the same name.
pub open spec fn header_map(list: Seq<(String, String)>) -> Map<Seq<char>, Seq<char>>
    decreases list.len(),
{
    if list.len() == 0 {
        Map::empty()
    } else {
        header_map(list.drop_last()).insert(list.last().0@, list.last().1@)
    }
}

/// Whether no name occurs twice in the list.
pub open spec fn distinct_names(list: Seq<(String, String)>) -> bool {
    forall|i: int, j: int| 0 <= i < j < list.len() ==> list[i].0@ != list[j].0@
}

/// Replacing the value of an entry, in a list without repeated names, is
/// insertion into the mapping.
pub proof fn lemma_replace_is_insert(list: Seq<(String, String)>, k: int, entry: (String, String))
    requires
        distinct_names(list),
        0 <= k < list.len(),
        list[k].0@ == entry.0@,
    ensures
        header_map(list.update(k, entry)) == header_map(list).insert(entry.0@, entry.1@),
        distinct_names(list.update(k, entry)),
    decreases list.len(),
{
    let changed = list.update(k, entry);
    if k == list.len() - 1 {
        assert(changed.drop_last() =~= list.drop_last());
        assert(header_map(changed) =~= header_map(list).insert(entry.0@, entry.1@));
    } else {
        let init = list.drop_last();
        assert(distinct_names(init));
        lemma_replace_is_insert(init, k, entry);
        assert(changed.drop_last() =~= init.update(k, entry));
        assert(changed.last() == list.last());
        assert(list[k].0@ != list[list.len() - 1].0@);
        assert(header_map(changed) =~= header_map(list).insert(entry.0@, entry.1@));
    }
}

/// Sets a header in a list without repeated names: the entry of that name
/// gets the new value, or a new entry goes to the end.
pub fn set_header(list: &mut Vec<(String, String)>, name: String, value: String)
    requires
        distinct_names(old(list)@),
    ensures
        distinct_names(final(list)@),
        header_map(final(list)@) == header_map(old(list)@).insert(name@, value@),
{
    let mut i: usize = 0;
    while i < list.len()
        invariant
            i <= list.len(),
            *list == *old(list),
            distinct_names(list@),
            forall|j: int| 0 <= j < i ==> list@[j].0@ != name@,
        decreases list.len() - i,
    {
        if list[i].0 == name {
            proof {
                lemma_replace_is_insert(list@, i as int, (name, value));
            }
            list.set(i, (name, value));
            return ;
        }
        i = i + 1;
    }
    let ghost before = list@;
    list.push((name, value));
    proof {
        assert(list@.drop_last() =~= before);
    }
}

/// The value of the first header whose name is `name` but for the case of
/// ASCII letters.
pub open spec fn header_value(list: Seq<(String, String)>, name: Seq<char>) -> Option<Seq<char>>
    decreases list.len(),
{
    if list.len() == 0 {
        None
    } else if same_ignoring_case(list[0].0@, name) {
        Some(list[0].1@)
    } else {
        header_value(list.skip(1), name)
    }
}

/// A request ready to be sent.
#[derive(Debug)]
pub struct Request {
    pub method: Method,
    /// The absolute URL, query included.
    pub url: String,
    /// The headers, no name twice.
    pub headers: Vec<(String, String)>,
    pub body: Option<String>,
}

/// What came back from one completed exchange.
#[derive(Debug)]
pub struct Response {
    pub status: u16,
    pub headers: Vec<(String, String)>,
    pub body: String,
}

impl Response {
    /// Looks a header up by name, without regard to the case of ASCII
    /// letters. Where several entries match, the first is taken.
    pub fn header(&self, name: &str) -> (r: Option<&String>)
        ensures
            match r {
                Some(value) => header_value(self.headers@, name@) == Some(value@),
                None => header_value(self.headers@, name@) is None,
            },
    {
        let mut i: usize = 0;
        assert(self.headers@.skip(0) =~= self.headers@);
        while i < self.headers.len()
            invariant
                i <= self.headers.len(),
                header_value(self.headers@, name@) == header_value(
                    self.headers@.skip(i as int),
                    name@,
                ),
            decreases self.headers.len() - i,
        {
            let entry = &self.headers[i];
            let ghost rest = self.headers@.skip(i as int);
            assert(rest.len() > 0 && rest[0] == self.headers@[i as int]);
            if eq_ignoring_case(entry.0.as_str(), name) {
                assert(header_value(rest, name@) == Some(rest[0].1@));
                return Some(&entry.1);
            }
            assert(header_value(rest, name@) == header_value(rest.skip(1), name@));
            assert(rest.skip(1) =~= self.headers@.skip(i + 1));
            i = i + 1;
        }
        None
    }
}

/// The text of the client's identity header.
pub open spec fn version_text() -> Seq<char> {
    "orc-rs 0.1.0"@
}

/// The name and version this client announces itself with.
pub fn version() -> (r: String)
    ensures
        r@ == version_text(),
{
    "orc-rs 0.1.0".to_owned()
}

/// Tells whether a header name is the client's to set.
pub fn is_reserved(name: &str, with_body: bool) -> (r: bool)
    ensures
        r == reserved(name@, with_body),
{
    eq_ignoring_case(name, "Authorization") || eq_ignoring_case(name, "User-Agent")
        || eq_ignoring_case(name, "Content-Length") || (with_body && eq_ignoring_case(
        name,
        "Content-Type",
    ))
}

/// Copies a list of pairs of strings.
pub fn copy_pairs(pairs: &Vec<(String, String)>) -> (r: Vec<(String, String)>)
    ensures
        r@ == pairs@,
{
    let mut r: Vec<(String, String)> = Vec::new();
    let mut i: usize = 0;
    while i < pairs.len()
        invariant
            i <= pairs.len(),
            r@ == pairs@.take(i as int),
        decreases pairs.len() - i,
    {
        r.push((pairs[i].0.clone(), pairs[i].1.clone()));
        assert(r@ =~= pairs@.take(i + 1));
        i = i + 1;
    }
    assert(pairs@.take(pairs.len() as int) =~= pairs@);
    r
}

/// A request as plain values, its headers as a mapping.
pub struct RequestView {
    pub method: Method,
    pub url: Seq<char>,
    pub headers: Map<Seq<char>, Seq<char>>,
    pub body: Option<Seq<char>>,
}

/// The view of an optional string.
pub open spec fn optional_view(s: Option<String>) -> Option<Seq<char>> {
    match s {
        Some(s) => Some(s@),
        None => None,
    }
}

impl View for Request {
    type V = RequestView;

    open spec fn view(&self) -> RequestView {
        RequestView {
            method: self.method,
            url: self.url@,
            headers: header_map(self.headers@),
            body: optional_view(self.body),
        }
    }
}

/// The descriptor of one request: the credential and host it goes to, and
/// what has been configured so far.
#[derive(Clone, Debug)]
pub struct Client {
    pub host: String,
    token: String,
    url: Option<String>,
    addressed: bool,
    method: Option<Method>,
    headers: Vec<(String, String)>,
    query: Vec<(String, String)>,
    body: Option<String>,
}

/// A descriptor as plain values. Headers are a mapping; query parameters are
/// a sequence, so a name may repeat.
pub struct ClientView {
    pub host: Seq<char>,
    pub token: Seq<char>,
    pub target: Option<Seq<char>>,
    /// Whether every part that the target was made of is non-empty: an
    /// address with an empty collection or key is the address of something
    /// else.
    pub addressed: bool,
    pub method: Option<Method>,
    pub headers: Map<Seq<char>, Seq<char>>,
    pub query: Seq<(Seq<char>, Seq<char>)>,
    pub body: Option<Seq<char>>,
}

impl View for Client {
    type V = ClientView;

    closed spec fn view(&self) -> ClientView {
        ClientView {
            host: self.host@,
            token: self.token@,
            target: optional_view(self.url),
            addressed: self.addressed,
            method: self.method,
            headers: header_map(self.headers@),
            query: pair_views(self.query@),
            body: optional_view(self.body),
        }
    }
}

/// A descriptor with nothing configured but where it goes and who asks.
pub open spec fn blank(host: Seq<char>, token: Seq<char>) -> ClientView {
    ClientView {
        host,
        token,
        target: None,
        addressed: true,
        method: None,
        headers: Map::empty(),
        query: Seq::empty(),
        body: None,
    }
}

/// The descriptor after a link has been followed, or the same descriptor
/// where there is no link.
pub open spec fn turned(v: ClientView, link: Option<Seq<char>>) -> ClientView {
    match link {
        Some(link) => ClientView {
            target: Some(without_prefix(link, "/v0/"@)),
            query: Seq::empty(),
            ..v
        },
        None => v,
    }
}

/// The host that a new client talks to.
pub open spec fn default_host() -> Seq<char> {
    "api.orchestrate.io"@
}

/// The value of the `Authorization` header for a token: the Basic scheme
/// with the token as user name and an empty password.
pub open spec fn authorization(token: Seq<char>) -> Seq<char> {
    "Basic "@ + base64(encode_utf8(token.push(':')))
}

/// The value of the `Content-Length` header: the number of bytes of the
/// body, zero without one.
pub open spec fn content_length(body: Option<Seq<char>>) -> Seq<char> {
    match body {
        Some(b) => decimal(encode_utf8(b).len()),
        None => decimal(0),
    }
}

/// Whether a header name is the client's to set: `Authorization`,
/// `User-Agent` and `Content-Length` always, `Content-Type` where there is a
/// body. Header names are compared without regard to case, as HTTP does.
pub open spec fn reserved(name: Seq<char>, with_body: bool) -> bool {
    ||| same_ignoring_case(name, "Authorization"@)
    ||| same_ignoring_case(name, "User-Agent"@)
    ||| same_ignoring_case(name, "Content-Length"@)
    ||| (with_body && same_ignoring_case(name, "Content-Type"@))
}

/// The headers of the caller that go out: all but those under a reserved
/// name.
pub open spec fn kept(headers: Map<Seq<char>, Seq<char>>, with_body: bool) -> Map<
    Seq<char>,
    Seq<char>,
> {
    Map::new(
        |name: Seq<char>| headers.dom().contains(name) && !reserved(name, with_body),
        |name: Seq<char>| headers[name],
    )
}

/// The headers that go out: those of the caller that are not reserved, then
/// the body headers, then identity and credential. No caller-supplied header
/// can stand in for the credential, in whatever case its name is written.
pub open spec fn final_headers(v: ClientView) -> Map<Seq<char>, Seq<char>> {
    let own = kept(v.headers, v.body is Some);
    let sized = own.insert("Content-Length"@, content_length(v.body));
    let typed = if v.body is Some {
        sized.insert("Content-Type"@, "application/json"@)
    } else {
        sized
    };
    typed.insert("User-Agent"@, version_text()).insert("Authorization"@, authorization(v.token))
}

/// The text that is parsed into the request's URL, before the query
/// parameters are applied.
pub open spec fn url_text(host: Seq<char>, target: Seq<char>) -> Seq<char> {
    "https://"@ + host + "/v0/"@ + target
}

/// The URL of the request, if it has one: the parsed target, with the query
/// parameters in place of any query the target came with, unless there are
/// no parameters.
pub open spec fn request_url(v: ClientView) -> Option<Seq<char>> {
    match v.target {
        None => None,
        Some(target) => {
            let text = url_text(v.host, target);
            let query = form_urlencoded(v.query);
            if encode_utf8(text).len() > MAX_URL_BYTES || encode_utf8(query).len()
                > MAX_URL_BYTES {
                None
            } else if v.query.len() == 0 {
                url_parsed(text)
            } else {
                match url_parsed(text) {
                    Some(url) => Some(query_set(url, query)),
                    None => None,
                }
            }
        },
    }
}

/// Why a descriptor cannot be turned into a request, if it cannot: it lacks
/// method or target, a part of its address is empty, or its URL is too long
/// or is refused by the parser.
pub open spec fn refusal(v: ClientView) -> Option<Seq<char>> {
    if v.method is None {
        Some("request has no method"@)
    } else if v.target is None {
        Some("request has no target"@)
    } else if !v.addressed {
        Some("request address has an empty part"@)
    } else if encode_utf8(url_text(v.host, v.target->0)).len() > MAX_URL_BYTES || encode_utf8(
        form_urlencoded(v.query),
    ).len() > MAX_URL_BYTES {
        Some("request URL is too long"@)
    } else if request_url(v) is None {
        Some("request URL is malformed"@)
    } else {
        None
    }
}

/// The request that a descriptor stands for.
pub open spec fn planned(v: ClientView) -> RequestView {
    RequestView {
        method: v.method->0,
        url: request_url(v)->0,
        headers: final_headers(v),
        body: v.body,
    }
}

/// What the caller gets for the outcome of the exchange: the reply as it
/// came, or the transport's failure under the matching error.
pub open spec fn delivered(outcome: Result<Response, TransportError>) -> Result<
    Response,
    OrchestrateError,
> {
    match outcome {
        Ok(reply) => Ok(reply),
        Err(TransportError::Http(message)) => Err(OrchestrateError::HttpError(message)),
        Err(TransportError::Io(message)) => Err(OrchestrateError::IoError(message)),
    }
}

impl Client {
    /// A descriptor for the default host with nothing configured.
    pub fn new(token: &str) -> (r: Client)
        ensures
            r@ == blank(default_host(), token@),
    {
        let r = Client {
            host: "api.orchestrate.io".to_owned(),
            token: token.to_owned(),
            url: None,
            addressed: true,
            method: None,
            headers: Vec::new(),
            query: Vec::new(),
            body: None,
        };
        assert(pair_views(r.query@) =~= Seq::empty());
        r
    }

    /// A descriptor for the same host and credential with nothing
    /// configured: one per request.
    pub fn descriptor(&self) -> (r: Client)
        ensures
            r@ == blank(self@.host, self@.token),
    {
        let r = Client {
            host: self.host.clone(),
            token: self.token.clone(),
            url: None,
            addressed: true,
            method: None,
            headers: Vec::new(),
            query: Vec::new(),
            body: None,
        };
        assert(pair_views(r.query@) =~= Seq::empty());
        r
    }

    /// A copy of the descriptor, with all that was configured.
    pub fn again(&self) -> (r: Client)
        ensures
            r@ == self@,
    {
        let url = match &self.url {
            Some(u) => Some(u.clone()),
            None => None,
        };
        let body = match &self.body {
            Some(b) => Some(b.clone()),
            None => None,
        };
        Client {
            host: self.host.clone(),
            token: self.token.clone(),
            url,
            addressed: self.addressed,
            method: self.method,
            headers: copy_pairs(&self.headers),
            query: copy_pairs(&self.query),
            body,
        }
    }

    /// Sets the host that the request goes to.
    pub fn at(self, host: &str) -> (r: Client)
        ensures
            r@ == (ClientView { host: host@, ..self@ }),
    {
        let mut r = self;
        r.host = host.to_owned();
        r
    }

    /// Sets the target: the path of the resource below the versioned root.
    pub fn trailing(self, url: &str) -> (r: Client)
        ensures
            r@ == (ClientView { target: Some(url@), ..self@ }),
    {
        let mut r = self;
        r.url = Some(url.to_owned());
        r
    }

    /// Records whether a part of the address is there: once a part was
    /// empty, the descriptor stands for no request.
    pub fn naming(self, part: &str) -> (r: Client)
        ensures
            r@ == (ClientView { addressed: self@.addressed && part@.len() > 0, ..self@ }),
    {
        let mut r = self;
        r.addressed = r.addressed && !part.is_empty();
        r
    }

    /// Points the descriptor at a pagination link: the link without the
    /// version prefix becomes the target, taken as it is, and the query
    /// parameters set so far give way to those the link carries.
    pub fn follow(self, link: &str) -> (r: Client)
        ensures
            r@ == turned(self@, Some(link@)),
    {
        let mut r = self;
        r.url = Some(strip_prefix(link, "/v0/"));
        r.query = Vec::new();
        assert(pair_views(r.query@) =~= Seq::empty());
        r
    }

    /// Sets a header. A later call with the same name overwrites.
    pub fn header(self, name: &str, value: &str) -> (r: Client)
        ensures
            r@ == (ClientView { headers: self@.headers.insert(name@, value@), ..self@ }),
    {
        let mut r = self;
        let ghost before = r.headers@;
        r.headers.push((name.to_owned(), value.to_owned()));
        assert(r.headers@.drop_last() =~= before);
        r
    }

    /// Adds a query parameter after those already there. A name may repeat.
    pub fn query(self, name: &str, value: &str) -> (r: Client)
        ensures
            r@ == (ClientView { query: self@.query.push((name@, value@)), ..self@ }),
    {
        let mut r = self;
        r.query.push((name.to_owned(), value.to_owned()));
        assert(pair_views(r.query@) =~= pair_views(self.query@).push((name@, value@)));
        r
    }

    /// Sets the body.
    pub fn body(self, body: &str) -> (r: Client)
        ensures
            r@ == (ClientView { body: Some(body@), ..self@ }),
    {
        let mut r = self;
        r.body = Some(body.to_owned());
        r
    }

    /// Tells whether a body is set.
    pub fn has_body(&self) -> (r: bool)
        ensures
            r == (self@.body is Some),
    {
        self.body.is_some()
    }

    /// Sets the method.
    pub fn method(self, method: Method) -> (r: Client)
        ensures
            r@ == (ClientView { method: Some(method), ..self@ }),
    {
        let mut r = self;
        r.method = Some(method);
        r
    }
}

impl Client {
    /// Builds the value of the `Authorization` header.
    fn credential(&self) -> (r: String)
        ensures
            r@ == authorization(self@.token),
    {
        let pair = concat(self.token.as_str(), ":");
        proof {
            reveal_strlit(":");
            assert(pair@ =~= self@.token.push(':'));
        }
        let encoded = encode_base64(pair.as_str());
        concat("Basic ", encoded.as_str())
    }

    /// Builds the headers that go out.
    fn outgoing_headers(&self) -> (r: Vec<(String, String)>)
        ensures
            distinct_names(r@),
            header_map(r@) == final_headers(self@),
    {
        let with_body = self.body.is_some();
        let mut r: Vec<(String, String)> = Vec::new();
        let mut i: usize = 0;
        assert(self.headers@.take(0) =~= Seq::<(String, String)>::empty());
        assert(header_map(r@) =~= kept(header_map(self.headers@.take(0)), with_body));
        while i < self.headers.len()
            invariant
                i <= self.headers.len(),
                distinct_names(r@),
                header_map(r@) == kept(header_map(self.headers@.take(i as int)), with_body),
            decreases self.headers.len() - i,
        {
            let entry = &self.headers[i];
            let ghost before = header_map(self.headers@.take(i as int));
            proof {
                let next = self.headers@.take(i + 1);
                assert(next.drop_last() =~= self.headers@.take(i as int));
                assert(next.last() == self.headers@[i as int]);
            }
            if is_reserved(entry.0.as_str(), with_body) {
                assert(kept(before.insert(entry.0@, entry.1@), with_body) =~= kept(
                    before,
                    with_body,
                ));
            } else {
                set_header(&mut r, entry.0.clone(), entry.1.clone());
                assert(kept(before.insert(entry.0@, entry.1@), with_body) =~= kept(
                    before,
                    with_body,
                ).insert(entry.0@, entry.1@));
            }
            i = i + 1;
        }
        assert(self.headers@.take(self.headers.len() as int) =~= self.headers@);
        let length = match &self.body {
            Some(b) => u64_to_string(b.as_str().as_bytes().len() as u64),
            None => u64_to_string(0),
        };
        set_header(&mut r, "Content-Length".to_owned(), length);
        if with_body {
            set_header(&mut r, "Content-Type".to_owned(), "application/json".to_owned());
        }
        set_header(&mut r, "User-Agent".to_owned(), version());
        set_header(&mut r, "Authorization".to_owned(), self.credential());
        r
    }

    /// Builds the URL, or says why there is none.
    fn outgoing_url(&self) -> (r: Result<String, OrchestrateError>)
        requires
            self@.method is Some,
        ensures
            match r {
                Ok(url) => refusal(self@) is None && request_url(self@) == Some(url@),
                Err(OrchestrateError::HttpError(message)) => refusal(self@) == Some(message@),
                Err(_) => false,
            },
    {
        match &self.url {
            None => Err(OrchestrateError::HttpError("request has no target".to_owned())),
            Some(target) => {
                if !self.addressed {
                    return Err(
                        OrchestrateError::HttpError(
                            "request address has an empty part".to_owned(),
                        ),
                    );
                }
                let rooted = concat("https://", self.host.as_str());
                let versioned = concat(rooted.as_str(), "/v0/");
                let text = concat(versioned.as_str(), target.as_str());
                assert(text@ =~= url_text(self@.host, target@));
                let query = encode_query(&self.query);
                if text.as_str().as_bytes().len() > MAX_URL_BYTES || query.as_str().as_bytes().len()
                    > MAX_URL_BYTES {
                    return Err(
                        OrchestrateError::HttpError("request URL is too long".to_owned()),
                    );
                }
                let parsed = if self.query.len() == 0 {
                    parse_url(text.as_str())
                } else {
                    parse_url_with_query(text.as_str(), query.as_str())
                };
                match parsed {
                    Ok(url) => Ok(url),
                    Err(_) => Err(
                        OrchestrateError::HttpError("request URL is malformed".to_owned()),
                    ),
                }
            },
        }
    }

    /// Finishes the descriptor: the request it stands for, or the reason it
    /// stands for none. Identity and credential are put in last.
    pub fn request(&self) -> (r: Result<Request, OrchestrateError>)
        ensures
            match r {
                Ok(q) => refusal(self@) is None && q@ == planned(self@) && distinct_names(
                    q.headers@,
                ),
                Err(OrchestrateError::HttpError(message)) => refusal(self@) == Some(message@),
                Err(_) => false,
            },
    {
        let method = match self.method {
            Some(method) => method,
            None => {
                return Err(OrchestrateError::HttpError("request has no method".to_owned()));
            },
        };
        let url = self.outgoing_url()?;
        let headers = self.outgoing_headers();
        let body = match &self.body {
            Some(b) => Some(b.clone()),
            None => None,
        };
        Ok(Request { method, url, headers, body })
    }

    /// Performs the exchange: finishes the descriptor, hands the request to
    /// `send` once, and returns the reply as it came, whatever its status.
    /// Nothing is sent where the descriptor stands for no request. The
    /// descriptor is used up: what was configured is never sent twice.
    pub fn exec<S: FnOnce(Request) -> Result<Response, TransportError>>(self, send: S) -> (r:
        Result<Response, OrchestrateError>)
        requires
            refusal(self@) is None ==> forall|q: Request|
                q@ == planned(self@) && distinct_names(q.headers@) ==> call_requires(send, (q,)),
        ensures
            match refusal(self@) {
                Some(message) => r matches Err(OrchestrateError::HttpError(m)) && m@ == message,
                None => exists|q: Request, outcome: Result<Response, TransportError>|
                    q@ == planned(self@) && distinct_names(q.headers@) && call_ensures(
                        send,
                        (q,),
                        outcome,
                    ) && r == delivered(outcome),
            },
    {
        let q = self.request()?;
        let ghost sent = q;
        let outcome = send(q);
        assert(call_ensures(send, (sent,), outcome));
        match outcome {
            Ok(reply) => Ok(reply),
            Err(TransportError::Http(message)) => Err(OrchestrateError::HttpError(message)),
            Err(TransportError::Io(message)) => Err(OrchestrateError::IoError(message)),
        }
    }
}

} // verus!
