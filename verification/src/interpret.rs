//! Reading replies: the status an operation expects, the document in the
//! body, and the identity in the headers.

use vstd::prelude::*;

use crate::client::{
    distinct_names, header_value, planned, refusal, ClientView, Request, Response,
};
use crate::error::{error_message, DecodeError, DomainError, OrchestrateError, TransportError};
use crate::json::{parse, reads, JsonValue};
use crate::path::{location_identity, parse_location};
use crate::RepresentsJSON;

verus! {

/// Whether `error` is the domain error for `reply`: its status, and the
/// message of its body.
pub open spec fn rejects(reply: Response, error: OrchestrateError) -> bool {
    error matches OrchestrateError::RequestError(e) && e.status == reply.status && e.message@
        == error_message(reply.body@)
}

/// Whether `r` is what a parsed body gives for the type `R`: a syntax error
/// where there is no document, a value the document stands for, or a shape
/// error where it stands for none.
pub open spec fn documents_as<R: RepresentsJSON>(
    doc: Option<JsonValue>,
    r: Result<R, OrchestrateError>,
) -> bool {
    match doc {
        None => r matches Err(e) && e == OrchestrateError::JsonError(DecodeError::Syntax),
        Some(d) => match r {
            Ok(value) => R::represents(d, Some(value)),
            Err(e) => e == OrchestrateError::JsonError(DecodeError::Shape) && R::represents(
                d,
                None,
            ),
        },
    }
}

/// Whether `r` is what `reply` gives to a read that expects the status
/// `expected`: the domain error for any other status, else an outcome of
/// parsing the body, read as an `R`.
pub open spec fn reads_as<R: RepresentsJSON>(
    reply: Response,
    expected: u16,
    r: Result<R, OrchestrateError>,
) -> bool {
    if reply.status != expected {
        r matches Err(e) && rejects(reply, e)
    } else {
        exists|doc: Option<JsonValue>| #[trigger] reads(reply.body@, doc) && documents_as::<R>(doc, r)
    }
}

/// Whether `r` is what `reply` gives to an operation that returns no
/// document: success on the expected status, the domain error on any other.
pub open spec fn confirms(reply: Response, expected: u16, r: Result<bool, OrchestrateError>) -> bool {
    if reply.status != expected {
        r matches Err(e) && rejects(reply, e)
    } else {
        r == Ok::<bool, OrchestrateError>(true)
    }
}

/// The key and ref that the `Location` header of a reply names.
pub open spec fn created_identity(reply: Response) -> Option<(Seq<char>, Seq<char>)> {
    match header_value(reply.headers@, "Location"@) {
        Some(location) => location_identity(location),
        None => None,
    }
}

/// The ref that the `Content-Location` header of a reply names.
pub open spec fn served_ref(reply: Response) -> Option<Seq<char>> {
    match header_value(reply.headers@, "Content-Location"@) {
        Some(location) => match location_identity(location) {
            Some((_, ref_)) => Some(ref_),
            None => None,
        },
        None => None,
    }
}

/// Whether the transport may be called with the request that `v` stands
/// for, where it stands for one; nothing is asked of the transport where
/// nothing is sent.
pub open spec fn sendable<S: FnOnce(Request) -> Result<Response, TransportError>>(
    v: ClientView,
    send: S,
) -> bool {
    refusal(v) is None ==> forall|q: Request|
        q@ == planned(v) && distinct_names(q.headers@) ==> call_requires(send, (q,))
}

/// What an operation that sends a document says where none was set.
pub open spec fn undocumented() -> Seq<char> {
    "request lacks its document"@
}

/// Whether `r` is the result of one operation that sends a document: the
/// refusal where no document was set, and nothing is sent; else the result
/// of the exchange.
pub open spec fn documented<S: FnOnce(Request) -> Result<Response, TransportError>, R>(
    v: ClientView,
    send: S,
    r: Result<R, OrchestrateError>,
    interprets: spec_fn(Response, Result<R, OrchestrateError>) -> bool,
) -> bool {
    if v.body is None {
        r matches Err(OrchestrateError::HttpError(m)) && m@ == undocumented()
    } else {
        exchanged(v, send, r, interprets)
    }
}

/// Whether `r` is the result of one operation on the descriptor `v`: the
/// refusal where `v` stands for no request; else the transport was called
/// once with that request, and `r` is its failure, or what `interprets`
/// allows for its reply.
pub open spec fn exchanged<S: FnOnce(Request) -> Result<Response, TransportError>, R>(
    v: ClientView,
    send: S,
    r: Result<R, OrchestrateError>,
    interprets: spec_fn(Response, Result<R, OrchestrateError>) -> bool,
) -> bool {
    match refusal(v) {
        Some(message) => r matches Err(OrchestrateError::HttpError(m)) && m@ == message,
        None => exists|q: Request, outcome: Result<Response, TransportError>|
            q@ == planned(v) && distinct_names(q.headers@) && #[trigger] call_ensures(
                send,
                (q,),
                outcome,
            ) && match outcome {
                Ok(reply) => interprets(reply, r),
                Err(TransportError::Http(message)) => r matches Err(
                    OrchestrateError::HttpError(m),
                ) && m == message,
                Err(TransportError::Io(message)) => r matches Err(OrchestrateError::IoError(m))
                    && m == message,
            },
    }
}

/// Tells the domain error for a reply whose status is not `expected`.
pub fn expect_status(reply: &Response, expected: u16) -> (r: Result<(), OrchestrateError>)
    ensures
        match r {
            Ok(_) => reply.status == expected,
            Err(e) => reply.status != expected && rejects(*reply, e),
        },
{
    if reply.status == expected {
        Ok(())
    } else {
        Err(
            OrchestrateError::RequestError(
                DomainError::from_reply(reply.status, reply.body.as_str()),
            ),
        )
    }
}

/// Reads an `R` out of a body that has been parsed already.
pub fn read_document<R: RepresentsJSON>(doc: &Option<JsonValue>) -> (r: Result<
    R,
    OrchestrateError,
>)
    ensures
        documents_as::<R>(*doc, r),
{
    match doc {
        None => Err(OrchestrateError::JsonError(DecodeError::Syntax)),
        Some(d) => match R::from_json(d) {
            Some(value) => Ok(value),
            None => Err(OrchestrateError::JsonError(DecodeError::Shape)),
        },
    }
}

/// Interprets the reply to a read.
pub fn read<R: RepresentsJSON>(reply: &Response, expected: u16) -> (r: Result<R, OrchestrateError>)
    ensures
        reads_as::<R>(*reply, expected, r),
{
    match expect_status(reply, expected) {
        Err(e) => Err(e),
        Ok(_) => {
            let doc = parse(reply.body.as_str());
            let r = read_document::<R>(&doc);
            assert(reads(reply.body@, doc) && documents_as::<R>(doc, r));
            r
        },
    }
}

/// Interprets the reply to an operation that returns no document.
pub fn confirm(reply: &Response, expected: u16) -> (r: Result<bool, OrchestrateError>)
    ensures
        confirms(*reply, expected, r),
{
    match expect_status(reply, expected) {
        Err(e) => Err(e),
        Ok(_) => Ok(true),
    }
}

/// Reads key and ref out of the `Location` header.
pub fn identify(reply: &Response) -> (r: Option<(String, String)>)
    ensures
        match r {
            Some((key, ref_)) => created_identity(*reply) == Some((key@, ref_@)),
            None => created_identity(*reply) is None,
        },
{
    match reply.header("Location") {
        Some(location) => parse_location(location.as_str()),
        None => None,
    }
}

/// Reads the ref out of the `Content-Location` header.
pub fn identify_served(reply: &Response) -> (r: Option<String>)
    ensures
        match r {
            Some(ref_) => served_ref(*reply) == Some(ref_@),
            None => served_ref(*reply) is None,
        },
{
    match reply.header("Content-Location") {
        Some(location) => match parse_location(location.as_str()) {
            Some((_, ref_)) => Some(ref_),
            None => None,
        },
        None => None,
    }
}

} // verus!
