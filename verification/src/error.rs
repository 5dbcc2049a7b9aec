//! The ways an operation can fail.

use vstd::prelude::*;
use vstd::std_specs::convert::FromSpecImpl;

use crate::json::{alike, json_document, lemma_alike_field, parse, JsonValue};

verus! {

/// Why a completed, successful exchange could not be turned into a result.
#[derive(Clone, Copy, Debug, PartialEq, Eq, Structural)]
pub enum DecodeError {
    /// The body is not a JSON document, or is beyond what the parser is
    /// handed: it is too long, nests too deep, or has too long an exponent
    /// or too long a name.
    Syntax,
    /// The body is JSON of another shape than the operation returns.
    Shape,
    /// The reply does not name the document it created: the `Location`
    /// header is missing or is not of the form `.../{key}/refs/{ref}`.
    Location,
}

/// A failure below HTTP: the exchange did not complete.
#[derive(Debug)]
pub enum TransportError {
    /// The request could not be made or the reply could not be understood.
    Http(String),
    /// Reading or writing on the connection failed.
    Io(String),
}

/// A completed exchange whose status is not the one the operation expects.
#[derive(Debug)]
pub struct DomainError {
    pub status: u16,
    pub message: String,
}

/// Any failure of an operation.
#[derive(Debug)]
pub enum OrchestrateError {
    JsonError(DecodeError),
    HttpError(String),
    RequestError(DomainError),
    IoError(String),
}

/// The message that the parsed body `doc` holds for an error reply whose
/// text is `body`: the text member `message` where the body is a JSON object
/// that has one, the whole body otherwise.
pub open spec fn message_of(doc: Option<JsonValue>, body: Seq<char>) -> Seq<char> {
    match doc {
        Some(doc) => match doc.spec_field("message"@) {
            Some(found) => match found.spec_text() {
                Some(text) => text,
                None => body,
            },
            None => body,
        },
        None => body,
    }
}

/// The message of an error reply with the text `body`.
pub open spec fn error_message(body: Seq<char>) -> Seq<char> {
    message_of(json_document(body), body)
}

impl DomainError {
    /// Reads the message out of an error body that has been parsed already.
    pub fn from_parsed(status: u16, doc: &Option<JsonValue>, body: &str) -> (r: DomainError)
        ensures
            r.status == status,
            r.message@ == message_of(*doc, body@),
    {
        let message = match doc {
            Some(doc) => match doc.field("message") {
                Some(found) => match found.as_text() {
                    Some(text) => text.clone(),
                    None => body.to_owned(),
                },
                None => body.to_owned(),
            },
            None => body.to_owned(),
        };
        DomainError { status, message }
    }

    /// The error for a reply with an unexpected `status` and the given body.
    pub fn from_reply(status: u16, body: &str) -> (r: DomainError)
        ensures
            r.status == status,
            r.message@ == error_message(body@),
    {
        let doc = parse(body);
        proof {
            lemma_message_alike(doc, json_document(body@), body@);
        }
        DomainError::from_parsed(status, &doc, body)
    }
}

/// The message does not depend on the payload of real numbers: documents
/// that are alike hold the same message.
pub proof fn lemma_message_alike(found: Option<JsonValue>, named: Option<JsonValue>, body: Seq<char>)
    requires
        match named {
            Some(d) => found matches Some(v) && alike(v, d),
            None => found is None,
        },
    ensures
        message_of(found, body) == message_of(named, body),
{
    match (found, named) {
        (Some(v), Some(d)) => {
            lemma_alike_field(v, d, "message"@);
            match v.spec_field("message"@) {
                Some(x) => {
                    lemma_alike_field(x, d.spec_field("message"@)->0, "message"@);
                },
                None => {},
            }
        },
        _ => {},
    }
}

impl OrchestrateError {
    /// What `description` returns.
    pub open spec fn spec_description(self) -> Seq<char> {
        match self {
            OrchestrateError::JsonError(_) => "failed to decode json"@,
            OrchestrateError::HttpError(message) => message@,
            OrchestrateError::RequestError(error) => error.message@,
            OrchestrateError::IoError(message) => message@,
        }
    }

    /// A short account of the failure.
    pub fn description(&self) -> (r: String)
        ensures
            r@ == self.spec_description(),
    {
        match self {
            OrchestrateError::JsonError(_) => "failed to decode json".to_owned(),
            OrchestrateError::HttpError(message) => message.clone(),
            OrchestrateError::RequestError(error) => error.message.clone(),
            OrchestrateError::IoError(message) => message.clone(),
        }
    }

    /// More about the failure: there is never more to say.
    pub fn detail(&self) -> (r: Option<String>)
        ensures
            r is None,
    {
        None
    }
}

impl From<DecodeError> for OrchestrateError {
    fn from(err: DecodeError) -> (r: OrchestrateError) {
        OrchestrateError::JsonError(err)
    }
}

impl FromSpecImpl<DecodeError> for OrchestrateError {
    open spec fn obeys_from_spec() -> bool {
        true
    }

    open spec fn from_spec(err: DecodeError) -> OrchestrateError {
        OrchestrateError::JsonError(err)
    }
}

impl From<TransportError> for OrchestrateError {
    fn from(err: TransportError) -> (r: OrchestrateError) {
        match err {
            TransportError::Http(message) => OrchestrateError::HttpError(message),
            TransportError::Io(message) => OrchestrateError::IoError(message),
        }
    }
}

impl FromSpecImpl<TransportError> for OrchestrateError {
    open spec fn obeys_from_spec() -> bool {
        true
    }

    open spec fn from_spec(err: TransportError) -> OrchestrateError {
        match err {
            TransportError::Http(message) => OrchestrateError::HttpError(message),
            TransportError::Io(message) => OrchestrateError::IoError(message),
        }
    }
}

impl From<DomainError> for OrchestrateError {
    fn from(err: DomainError) -> (r: OrchestrateError) {
        OrchestrateError::RequestError(err)
    }
}

impl FromSpecImpl<DomainError> for OrchestrateError {
    open spec fn obeys_from_spec() -> bool {
        true
    }

    open spec fn from_spec(err: DomainError) -> OrchestrateError {
        OrchestrateError::RequestError(err)
    }
}

} // verus!
