//! What comes back from a provider: the outcome of one request, and the
//! kinds of failure that a handler tells its user about.
//!
//! The request itself is made elsewhere. The functions here take what the
//! transport reports and decide what it amounts to.

use crate::decode::{decode, parsed};
use crate::json::{ExtractError, Json, JsonValue};
use crate::reply::{Reply, ReplyValue};
use crate::text::{decimal, joined, opt_text, u64_text};
use vstd::prelude::*;

verus! {

/// The kinds of failure.
#[derive(Clone, Copy, Debug, PartialEq, Eq, Structural)]
pub enum ErrorKind {
    /// The provider could not be reached, or answered with another status
    /// than success.
    Transport,
    /// The provider's answer could not be read, or a count in it is no
    /// number.
    Decode,
    /// The answer lacks a field.
    FieldMissing,
    /// The answer holds a value of another kind than expected.
    TypeMismatch,
    /// A credential is missing.
    Unauthorized,
    /// No command of that name exists.
    UnknownCommand,
}

impl ErrorKind {
    /// The kind of failure that an extraction error is.
    pub open spec fn of_extract(e: ExtractError) -> ErrorKind {
        match e {
            ExtractError::FieldMissing => ErrorKind::FieldMissing,
            ExtractError::TypeMismatch => ErrorKind::TypeMismatch,
        }
    }

    /// The text that tells the user of a failure of this kind.
    pub open spec fn text(self) -> Seq<char> {
        match self {
            ErrorKind::Transport => "Did not receive a response from the provider :("@,
            ErrorKind::Decode => "Could not read the response of the provider :("@,
            ErrorKind::FieldMissing => "The response of the provider lacks a field :("@,
            ErrorKind::TypeMismatch => "The response of the provider has an unexpected shape :("@,
            ErrorKind::Unauthorized => "A credential is missing :("@,
            ErrorKind::UnknownCommand => "Not implemented :("@,
        }
    }

    /// The kind of failure that an extraction error is.
    pub fn from_extract(e: ExtractError) -> (k: ErrorKind)
        ensures
            k == ErrorKind::of_extract(e),
    {
        match e {
            ExtractError::FieldMissing => ErrorKind::FieldMissing,
            ExtractError::TypeMismatch => ErrorKind::TypeMismatch,
        }
    }

    /// The text that tells the user of a failure of this kind.
    pub fn message(self) -> (r: String)
        ensures
            r@ == self.text(),
    {
        match self {
            ErrorKind::Transport => "Did not receive a response from the provider :(".to_owned(),
            ErrorKind::Decode => "Could not read the response of the provider :(".to_owned(),
            ErrorKind::FieldMissing => "The response of the provider lacks a field :(".to_owned(),
            ErrorKind::TypeMismatch => "The response of the provider has an unexpected shape :(".to_owned(),
            ErrorKind::Unauthorized => "A credential is missing :(".to_owned(),
            ErrorKind::UnknownCommand => "Not implemented :(".to_owned(),
        }
    }

    /// The reply that tells the user of a failure of this kind.
    pub fn reply(self) -> (r: Reply)
        ensures
            r@ == ReplyValue::Text(self.text()),
    {
        Reply::Text(self.message())
    }
}

/// The kinds of failure of a request.
#[derive(Clone, Copy, Debug, PartialEq, Eq, Structural)]
pub enum FailureKind {
    Transport,
    Decode,
}

impl FailureKind {
    /// This kind among all kinds of failure.
    pub open spec fn kind(self) -> ErrorKind {
        match self {
            FailureKind::Transport => ErrorKind::Transport,
            FailureKind::Decode => ErrorKind::Decode,
        }
    }

    /// This kind among all kinds of failure.
    pub fn error_kind(self) -> (k: ErrorKind)
        ensures
            k == self.kind(),
    {
        match self {
            FailureKind::Transport => ErrorKind::Transport,
            FailureKind::Decode => ErrorKind::Decode,
        }
    }
}

/// What a provider sent, as a mathematical value.
pub enum PayloadValue {
    Document(JsonValue),
    Text(Seq<char>),
}

/// The outcome of a request, as a mathematical value.
pub enum ApiResultValue {
    Success(PayloadValue),
    Failure(FailureKind, Seq<char>),
}

/// What a provider sent: a JSON document, or a text as it came.
#[derive(Debug, PartialEq, Eq)]
pub enum Payload {
    Document(Json),
    Text(String),
}

impl View for Payload {
    type V = PayloadValue;

    open spec fn view(&self) -> PayloadValue {
        match self {
            Payload::Document(d) => PayloadValue::Document(d@),
            Payload::Text(t) => PayloadValue::Text(t@),
        }
    }
}

/// The outcome of a request.
#[derive(Debug, PartialEq, Eq)]
pub enum ApiResult {
    Success(Payload),
    /// The kind of failure, and a detail for the log.
    Failure(FailureKind, String),
}

impl View for ApiResult {
    type V = ApiResultValue;

    open spec fn view(&self) -> ApiResultValue {
        match self {
            ApiResult::Success(p) => ApiResultValue::Success(p@),
            ApiResult::Failure(k, d) => ApiResultValue::Failure(*k, d@),
        }
    }
}

/// The format in which an answer is expected.
#[derive(Clone, Copy, Debug, PartialEq, Eq, Structural)]
pub enum Format {
    Document,
    Text,
}

/// What the transport reports of a request, as a mathematical value.
pub enum ExchangeValue {
    Unanswered(Seq<char>),
    Answered(u16, Seq<char>),
}

/// What the transport reports of a request.
#[derive(Debug, PartialEq, Eq)]
pub enum Exchange {
    /// No answer came; the text says why.
    Unanswered(String),
    /// An answer came, with this status and this body.
    Answered(u16, String),
}

impl View for Exchange {
    type V = ExchangeValue;

    open spec fn view(&self) -> ExchangeValue {
        match self {
            Exchange::Unanswered(d) => ExchangeValue::Unanswered(d@),
            Exchange::Answered(status, body) => ExchangeValue::Answered(*status, body@),
        }
    }
}

/// Whether a status reports success.
pub open spec fn is_success(status: u16) -> bool {
    200 <= status < 300
}

/// The detail of the failure that an answer with another status than
/// success is.
pub open spec fn status_detail(status: u16) -> Seq<char> {
    "status "@ + decimal(status as nat)
}

/// The detail of the failure that a body that is no JSON text is.
pub open spec fn decode_detail() -> Seq<char> {
    "the body is not a JSON document"@
}

/// The outcome of a request, from what the transport reports, the expected
/// format, and what the body reads as.
///
/// No answer, or an answer with another status than success, is a failure
/// of transport. A body that is expected to be a document and reads as none
/// is a failure to decode.
pub open spec fn settled(
    exchange: ExchangeValue,
    format: Format,
    document: Option<JsonValue>,
) -> ApiResultValue {
    match exchange {
        ExchangeValue::Unanswered(detail) => ApiResultValue::Failure(FailureKind::Transport, detail),
        ExchangeValue::Answered(status, body) => if !is_success(status) {
            ApiResultValue::Failure(FailureKind::Transport, status_detail(status))
        } else {
            match format {
                Format::Text => ApiResultValue::Success(PayloadValue::Text(body)),
                Format::Document => match document {
                    Some(d) => ApiResultValue::Success(PayloadValue::Document(d)),
                    None => ApiResultValue::Failure(FailureKind::Decode, decode_detail()),
                },
            }
        },
    }
}

/// The value of an optional document.
pub open spec fn document_value(document: Option<Json>) -> Option<JsonValue> {
    match document {
        Some(d) => Some(d@),
        None => None,
    }
}

/// The body that an exchange carries, if an answer came.
pub open spec fn body_of(exchange: ExchangeValue) -> Seq<char> {
    match exchange {
        ExchangeValue::Unanswered(_) => Seq::empty(),
        ExchangeValue::Answered(_, body) => body,
    }
}

/// Decides the outcome of a request whose body was already read:
/// `document` is what the body reads as, `None` if it is no JSON text.
pub fn settle(exchange: Exchange, format: Format, document: Option<Json>) -> (r: ApiResult)
    ensures
        r@ == settled(exchange@, format, document_value(document)),
{
    match exchange {
        Exchange::Unanswered(detail) => ApiResult::Failure(FailureKind::Transport, detail),
        Exchange::Answered(status, body) => {
            if !(200 <= status && status < 300) {
                let detail = joined("status ", u64_text(status as u64).as_str());
                ApiResult::Failure(FailureKind::Transport, detail)
            } else {
                match format {
                    Format::Text => ApiResult::Success(Payload::Text(body)),
                    Format::Document => match document {
                        Some(d) => ApiResult::Success(Payload::Document(d)),
                        None => ApiResult::Failure(
                            FailureKind::Decode,
                            "the body is not a JSON document".to_owned(),
                        ),
                    },
                }
            }
        },
    }
}

/// Decides the outcome of a request from what the transport reports. A body
/// that is expected to be a document is read with `serde_json`.
pub fn receive(exchange: Exchange, format: Format) -> (r: ApiResult)
    ensures
        r@ == settled(exchange@, format, parsed(body_of(exchange@))),
{
    let document = match &exchange {
        Exchange::Answered(status, body) => {
            if 200 <= *status && *status < 300 && format == Format::Document {
                decode(body.as_str())
            } else {
                None
            }
        },
        Exchange::Unanswered(_) => None,
    };
    settle(exchange, format, document)
}

/// The document that a request brought, or the kind of failure that stands
/// in its place. A text where a document was expected is a failure to
/// decode.
pub open spec fn document_in(result: ApiResultValue) -> Result<JsonValue, ErrorKind> {
    match result {
        ApiResultValue::Success(PayloadValue::Document(d)) => Ok(d),
        ApiResultValue::Success(PayloadValue::Text(_)) => Err(ErrorKind::Decode),
        ApiResultValue::Failure(kind, _) => Err(kind.kind()),
    }
}

/// The reply that tells the user of a failure.
pub open spec fn failure(kind: ErrorKind) -> ReplyValue {
    ReplyValue::Text(kind.text())
}

impl ApiResult {
    /// The document that the request brought, or the kind of failure that
    /// stands in its place.
    pub fn document(&self) -> (r: Result<&Json, ErrorKind>)
        ensures
            match r {
                Ok(d) => document_in(self@) == Ok::<JsonValue, ErrorKind>(d@),
                Err(k) => document_in(self@) == Err::<JsonValue, ErrorKind>(k),
            },
    {
        match self {
            ApiResult::Success(Payload::Document(d)) => Ok(d),
            ApiResult::Success(Payload::Text(_)) => Err(ErrorKind::Decode),
            ApiResult::Failure(kind, _) => Err(kind.error_kind()),
        }
    }
}

/// How a request is made.
#[derive(Clone, Copy, Debug, PartialEq, Eq, Structural)]
pub enum Method {
    Get,
    Post,
}

/// A request, as a mathematical value.
pub struct RequestValue {
    pub url: Seq<char>,
    pub method: Method,
    pub body: Option<Seq<char>>,
    pub auth_token: Option<Seq<char>>,
    pub format: Format,
}

/// A request to a provider: where it goes, how, what it carries, the
/// credential it bears, and the format in which the answer is expected.
#[derive(Debug, PartialEq, Eq)]
pub struct Request {
    pub url: String,
    pub method: Method,
    pub body: Option<String>,
    pub auth_token: Option<String>,
    pub format: Format,
}

impl View for Request {
    type V = RequestValue;

    open spec fn view(&self) -> RequestValue {
        RequestValue {
            url: self.url@,
            method: self.method,
            body: opt_text(self.body),
            auth_token: opt_text(self.auth_token),
            format: self.format,
        }
    }
}

impl RequestValue {
    /// The request that reads a document from an address.
    pub open spec fn get(url: Seq<char>) -> RequestValue {
        RequestValue {
            url,
            method: Method::Get,
            body: None,
            auth_token: None,
            format: Format::Document,
        }
    }

    /// The request that sends a body to an address, with a credential, and
    /// takes the answer as text.
    pub open spec fn post(url: Seq<char>, token: Seq<char>, body: Seq<char>) -> RequestValue {
        RequestValue {
            url,
            method: Method::Post,
            body: Some(body),
            auth_token: Some(token),
            format: Format::Text,
        }
    }
}

impl Request {
    /// The request that reads a document from an address.
    pub fn get(url: &str) -> (r: Request)
        ensures
            r@ == RequestValue::get(url@),
    {
        Request {
            url: url.to_owned(),
            method: Method::Get,
            body: None,
            auth_token: None,
            format: Format::Document,
        }
    }

    /// The request that sends a body to an address, with a credential, and
    /// takes the answer as text.
    pub fn post(url: &str, token: String, body: String) -> (r: Request)
        ensures
            r@ == RequestValue::post(url@, token@, body@),
    {
        Request {
            url: url.to_owned(),
            method: Method::Post,
            body: Some(body),
            auth_token: Some(token),
            format: Format::Text,
        }
    }
}

// ---------------------------------------------------------------------------
// Laws of the outcome of a request
// ---------------------------------------------------------------------------

/// An answer with another status than success is a failure of transport,
/// whatever its body holds and in whatever format it was expected.
pub proof fn law_bad_status_is_transport_failure(
    status: u16,
    body: Seq<char>,
    format: Format,
    document: Option<JsonValue>,
)
    requires
        !is_success(status),
    ensures
        settled(ExchangeValue::Answered(status, body), format, document)
            == ApiResultValue::Failure(FailureKind::Transport, status_detail(status)),
{
}

/// A request is a success exactly if an answer came, its status reports
/// success, and, where a document was expected, its body reads as one.
pub proof fn law_success_of_a_request(
    exchange: ExchangeValue,
    format: Format,
    document: Option<JsonValue>,
)
    ensures
        settled(exchange, format, document) is Success <==> (exchange matches ExchangeValue::Answered(
            status,
            _,
        ) && is_success(status) && (format == Format::Document ==> document is Some)),
{
}

/// A failed request leaves no document: what stands in its place is the
/// kind of the failure.
pub proof fn law_failure_leaves_no_document(kind: FailureKind, detail: Seq<char>)
    ensures
        document_in(ApiResultValue::Failure(kind, detail)) == Err::<JsonValue, ErrorKind>(kind.kind()),
{
}

} // verus!
