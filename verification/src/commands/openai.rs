//! Text completion by a language model: what is sent as the prompt, what is
//! shown of the answer, and the steps of the exchange with the user.
//!
//! The answer may take longer than the platform waits for a reply, so a
//! placeholder is sent at once and replaced when the answer is there.

use crate::api::{
    ApiResult, ApiResultValue, ErrorKind, Payload, PayloadValue, Request, RequestValue,
};
use crate::decode::{decode, parsed, quote, string_literal};
use crate::json::{path_of, Json, JsonValue, Step, StepValue};
use crate::text::{joined, replace_all, replaced, trim, trimmed};
use vstd::prelude::*;

verus! {

/// The model that completes the text.
pub const MODEL: &'static str = "gpt-3.5-turbo-0301";

/// Where a completion is asked for.
pub const URL: &'static str = "https://api.openai.com/v1/chat/completions";

/// The text of the placeholder.
pub const PLEASE_WAIT: &'static str = "Please wait... Fetching response...";

/// The text that says that no prompt came with the command.
pub const NO_PROMPT: &'static str = "Could not pass text to AI";

/// The text that says that the provider did not answer.
pub const NO_RESPONSE: &'static str = "Did not receive a response from Open Ai :(";

// ---------------------------------------------------------------------------
// The prompt
// ---------------------------------------------------------------------------

/// What is sent as the content of the user's message: the prompt as a JSON
/// string literal, and a full stop that marks its end.
pub open spec fn prompt_content_of(prompt: Seq<char>) -> Seq<char> {
    string_literal(prompt) + "."@
}

/// The content of the user's message for a prompt.
pub fn prompt_content(prompt: &str) -> (r: String)
    ensures
        r@ == prompt_content_of(prompt@),
{
    joined(quote(prompt).as_str(), ".")
}

/// The request for a completion: the body goes to the provider with the
/// credential, and the answer is taken as text.
pub fn create_request(token: String, body: String) -> (r: Request)
    ensures
        r@ == RequestValue::post(URL@, token@, body@),
{
    Request::post(URL, token, body)
}

// ---------------------------------------------------------------------------
// The answer
// ---------------------------------------------------------------------------

/// `text` between two fences of three backticks.
pub open spec fn fenced(text: Seq<char>) -> Seq<char> {
    "```"@ + text + "```"@
}

/// What is shown of a rendered answer: every escaped line break becomes a
/// blank, two in a row only one; double quotes, escaped or not, go; and so
/// does the white space at both ends.
pub open spec fn cleaned(rendered: Seq<char>) -> Seq<char> {
    trimmed(
        replaced(
            replaced(replaced(replaced(rendered, "\\n\\n"@, " "@), "\\n"@, " "@), "\\\""@, ""@),
            "\""@,
            ""@,
        ),
    )
}

/// The path to the text of the first choice of a completion.
pub open spec fn content_path() -> Seq<StepValue> {
    seq![
        StepValue::Key("choices"@),
        StepValue::Index(0),
        StepValue::Key("message"@),
        StepValue::Key("content"@),
    ]
}

/// A scalar as JSON text: a string as its literal, any other scalar as its
/// text. `None` for an array or an object.
pub open spec fn rendered(v: JsonValue) -> Option<Seq<char>> {
    match v {
        JsonValue::Str(s) => Some(string_literal(s)),
        _ => v.scalar_text(),
    }
}

/// What is shown of a completion: the text of its first choice, rendered
/// and cleaned.
pub open spec fn completion_of(doc: JsonValue) -> Result<Seq<char>, ErrorKind> {
    match doc.resolve(content_path()) {
        Err(e) => Err(ErrorKind::of_extract(e)),
        Ok(v) => match rendered(v) {
            Some(t) => Ok(cleaned(t)),
            None => Err(ErrorKind::TypeMismatch),
        },
    }
}

/// What is shown for an answer of the provider, where `document` is what a
/// body that came as text reads as.
///
/// No answer is told with a text of its own; a body that is no JSON text,
/// or a completion without a text, with the text of that failure.
pub open spec fn shown(response: ApiResultValue, document: Option<JsonValue>) -> Seq<char> {
    match response {
        ApiResultValue::Failure(_, _) => NO_RESPONSE@,
        ApiResultValue::Success(payload) => {
            let doc = match payload {
                PayloadValue::Document(d) => Some(d),
                PayloadValue::Text(_) => document,
            };
            match doc {
                None => ErrorKind::Decode.text(),
                Some(d) => match completion_of(d) {
                    Ok(t) => t,
                    Err(k) => k.text(),
                },
            }
        },
    }
}

/// The body of an answer that came as text.
pub open spec fn text_of(response: ApiResultValue) -> Seq<char> {
    match response {
        ApiResultValue::Success(PayloadValue::Text(t)) => t,
        _ => Seq::empty(),
    }
}

/// Cleans a rendered answer for display.
pub fn clean(rendered: &str) -> (r: String)
    ensures
        r@ == cleaned(rendered@),
{
    let a = replace_all(rendered, "\\n\\n", " ");
    let b = replace_all(a.as_str(), "\\n", " ");
    let c = replace_all(b.as_str(), "\\\"", "");
    let d = replace_all(c.as_str(), "\"", "");
    trim(d.as_str())
}

fn path_content() -> (p: Vec<Step>)
    ensures
        path_of(p@) == content_path(),
{
    let mut p: Vec<Step> = Vec::new();
    p.push(Step::key("choices"));
    p.push(Step::Index(0));
    p.push(Step::key("message"));
    p.push(Step::key("content"));
    assert(path_of(p@) =~= content_path());
    p
}

/// What is shown of a completion that was read as a document.
pub fn completion_text(doc: &Json) -> (r: Result<String, ErrorKind>)
    ensures
        match r {
            Ok(t) => completion_of(doc@) == Ok::<Seq<char>, ErrorKind>(t@),
            Err(k) => completion_of(doc@) == Err::<Seq<char>, ErrorKind>(k),
        },
{
    let output = match doc.at(&path_content()) {
        Ok(output) => output,
        Err(e) => {
            return Err(ErrorKind::from_extract(e));
        },
    };
    let text = match output {
        Json::Str(s) => quote(s.as_str()),
        _ => match output.text() {
            Some(t) => t,
            None => {
                return Err(ErrorKind::TypeMismatch);
            },
        },
    };
    Ok(clean(text.as_str()))
}

/// What is shown for an answer of the provider, given what the request
/// brought. A body that came as text is read with `serde_json`.
pub fn parse_text(response: &ApiResult) -> (r: String)
    ensures
        r@ == shown(response@, parsed(text_of(response@))),
{
    let completion = match response {
        ApiResult::Failure(_, _) => {
            return NO_RESPONSE.to_owned();
        },
        ApiResult::Success(Payload::Document(doc)) => completion_text(doc),
        ApiResult::Success(Payload::Text(text)) => match decode(text.as_str()) {
            Some(doc) => completion_text(&doc),
            None => Err(ErrorKind::Decode),
        },
    };
    match completion {
        Ok(t) => t,
        Err(k) => k.message(),
    }
}

// ---------------------------------------------------------------------------
// The steps of the exchange
// ---------------------------------------------------------------------------

/// Where the exchange stands, as a mathematical value.
pub enum PromptStateValue {
    Start,
    Placing(Seq<char>),
    Waiting(u64),
    Done,
}

/// Where the exchange stands.
#[derive(Debug, PartialEq, Eq)]
pub enum PromptState {
    /// Nothing happened yet.
    Start,
    /// The placeholder is on its way; the prompt waits.
    Placing(String),
    /// The placeholder is shown, under this handle, and the completion is
    /// asked for.
    Waiting(u64),
    /// The exchange is over.
    Done,
}

impl View for PromptState {
    type V = PromptStateValue;

    open spec fn view(&self) -> PromptStateValue {
        match self {
            PromptState::Start => PromptStateValue::Start,
            PromptState::Placing(p) => PromptStateValue::Placing(p@),
            PromptState::Waiting(h) => PromptStateValue::Waiting(*h),
            PromptState::Done => PromptStateValue::Done,
        }
    }
}

/// What happened, as a mathematical value.
pub enum PromptEventValue {
    Invoked(Option<Seq<char>>),
    Placed(Option<u64>),
    Answered(ApiResultValue),
}

/// What happened.
#[derive(Debug, PartialEq, Eq)]
pub enum PromptEvent {
    /// The command arrived, with the prompt if the user gave one.
    Invoked(Option<String>),
    /// The placeholder was sent: the handle of the message, or `None` if it
    /// could not be sent.
    Placed(Option<u64>),
    /// The request for the completion ended.
    Answered(ApiResult),
}

impl View for PromptEvent {
    type V = PromptEventValue;

    open spec fn view(&self) -> PromptEventValue {
        match self {
            PromptEvent::Invoked(p) => PromptEventValue::Invoked(
                match p {
                    Some(p) => Some(p@),
                    None => None,
                },
            ),
            PromptEvent::Placed(h) => PromptEventValue::Placed(*h),
            PromptEvent::Answered(r) => PromptEventValue::Answered(r@),
        }
    }
}

/// What is to be done, as a mathematical value.
pub enum PromptActionValue {
    Send(Seq<char>),
    Place(Seq<char>),
    Request(Seq<char>),
    Edit(u64, Seq<char>),
    Rest,
}

/// What is to be done.
#[derive(Debug, PartialEq, Eq)]
pub enum PromptAction {
    /// Send this text as the reply.
    Send(String),
    /// Send this text as the placeholder.
    Place(String),
    /// Ask for a completion, with this content of the user's message.
    Request(String),
    /// Replace the text of the message under this handle.
    Edit(u64, String),
    /// Nothing.
    Rest,
}

impl View for PromptAction {
    type V = PromptActionValue;

    open spec fn view(&self) -> PromptActionValue {
        match self {
            PromptAction::Send(t) => PromptActionValue::Send(t@),
            PromptAction::Place(t) => PromptActionValue::Place(t@),
            PromptAction::Request(c) => PromptActionValue::Request(c@),
            PromptAction::Edit(h, t) => PromptActionValue::Edit(*h, t@),
            PromptAction::Rest => PromptActionValue::Rest,
        }
    }
}

/// The state after an event.
///
/// A command with a prompt leads to the placeholder, the placeholder to the
/// request, and the answer to the end. A command without a prompt, and a
/// placeholder that could not be sent, end the exchange at once. An event
/// that does not belong to the state leaves it as it is.
pub open spec fn next_state(state: PromptStateValue, event: PromptEventValue) -> PromptStateValue {
    match (state, event) {
        (PromptStateValue::Start, PromptEventValue::Invoked(Some(p))) => PromptStateValue::Placing(
            p,
        ),
        (PromptStateValue::Start, PromptEventValue::Invoked(None)) => PromptStateValue::Done,
        (PromptStateValue::Placing(_), PromptEventValue::Placed(Some(h))) => PromptStateValue::Waiting(
            h,
        ),
        (PromptStateValue::Placing(_), PromptEventValue::Placed(None)) => PromptStateValue::Done,
        (PromptStateValue::Waiting(_), PromptEventValue::Answered(_)) => PromptStateValue::Done,
        (s, _) => s,
    }
}

/// What to do on an event, where `document` is what the body of an answer
/// that came as text reads as.
pub open spec fn next_action(
    state: PromptStateValue,
    event: PromptEventValue,
    document: Option<JsonValue>,
) -> PromptActionValue {
    match (state, event) {
        (PromptStateValue::Start, PromptEventValue::Invoked(Some(_))) => PromptActionValue::Place(
            fenced(PLEASE_WAIT@),
        ),
        (PromptStateValue::Start, PromptEventValue::Invoked(None)) => PromptActionValue::Send(
            NO_PROMPT@,
        ),
        (PromptStateValue::Placing(p), PromptEventValue::Placed(Some(_))) => PromptActionValue::Request(
            prompt_content_of(p),
        ),
        (PromptStateValue::Waiting(h), PromptEventValue::Answered(r)) => PromptActionValue::Edit(
            h,
            fenced(shown(r, document)),
        ),
        _ => PromptActionValue::Rest,
    }
}

/// The body of the answer that an event carries as text.
pub open spec fn answer_text(event: PromptEventValue) -> Seq<char> {
    match event {
        PromptEventValue::Answered(r) => text_of(r),
        _ => Seq::empty(),
    }
}

fn fence(text: &str) -> (r: String)
    ensures
        r@ == fenced(text@),
{
    joined(joined("```", text).as_str(), "```")
}

/// Takes one event of the exchange: returns the next state and what to do.
pub fn text_prompt(state: PromptState, event: &PromptEvent) -> (r: (PromptState, PromptAction))
    ensures
        r.0@ == next_state(state@, event@),
        r.1@ == next_action(state@, event@, parsed(answer_text(event@))),
{
    match state {
        PromptState::Start => match event {
            PromptEvent::Invoked(Some(val)) => (
                PromptState::Placing(val.clone()),
                PromptAction::Place(fence(PLEASE_WAIT)),
            ),
            PromptEvent::Invoked(None) => (
                PromptState::Done,
                PromptAction::Send(NO_PROMPT.to_owned()),
            ),
            _ => (PromptState::Start, PromptAction::Rest),
        },
        PromptState::Placing(prompt) => match event {
            PromptEvent::Placed(Some(handle)) => (
                PromptState::Waiting(*handle),
                PromptAction::Request(prompt_content(prompt.as_str())),
            ),
            PromptEvent::Placed(None) => (PromptState::Done, PromptAction::Rest),
            _ => (PromptState::Placing(prompt), PromptAction::Rest),
        },
        PromptState::Waiting(handle) => match event {
            PromptEvent::Answered(response) => {
                let text = parse_text(response);
                (PromptState::Done, PromptAction::Edit(handle, fence(text.as_str())))
            },
            _ => (PromptState::Waiting(handle), PromptAction::Rest),
        },
        PromptState::Done => (PromptState::Done, PromptAction::Rest),
    }
}

/// Once the exchange is over, no event starts it again or asks for
/// anything.
pub proof fn law_done_is_final(event: PromptEventValue, document: Option<JsonValue>)
    ensures
        next_state(PromptStateValue::Done, event) == PromptStateValue::Done,
        next_action(PromptStateValue::Done, event, document) == PromptActionValue::Rest,
{
}

/// A message is edited only under the handle under which the placeholder
/// was shown, and only when the answer is there.
pub proof fn law_edit_follows_placeholder(
    state: PromptStateValue,
    event: PromptEventValue,
    document: Option<JsonValue>,
)
    ensures
        next_action(state, event, document) matches PromptActionValue::Edit(handle, _) ==> state
            == PromptStateValue::Waiting(handle) && event is Answered,
{
}

} // verus!
