use botcore::api::{
    receive, settle, ApiResult, ErrorKind, Exchange, FailureKind, Format, Method, Payload, Request,
};
use botcore::json::{ExtractError, Json};
use botcore::reply::Reply;

#[test]
fn an_answer_with_status_200_and_a_json_body_is_a_document() {
    let r = receive(Exchange::Answered(200, "{\"message\": \"x\"}".to_string()), Format::Document);
    assert_eq!(
        r,
        ApiResult::Success(Payload::Document(Json::Object(vec![(
            "message".to_string(),
            Json::Str("x".to_string())
        )])))
    );
}

#[test]
fn an_answer_expected_as_text_is_kept_as_it_came() {
    let r = receive(Exchange::Answered(204, "not json".to_string()), Format::Text);
    assert_eq!(r, ApiResult::Success(Payload::Text("not json".to_string())));
}

#[test]
fn a_body_that_is_no_json_is_a_failure_to_decode() {
    let r = receive(Exchange::Answered(200, "<html>".to_string()), Format::Document);
    assert_eq!(
        r,
        ApiResult::Failure(FailureKind::Decode, "the body is not a JSON document".to_string())
    );
}

#[test]
fn a_status_outside_the_two_hundreds_is_a_failure_of_transport() {
    for (status, detail) in [
        (500u16, "status 500"),
        (404, "status 404"),
        (199, "status 199"),
        (300, "status 300"),
        (0, "status 0"),
        (65535, "status 65535"),
    ] {
        for format in [Format::Document, Format::Text] {
            let r = receive(Exchange::Answered(status, "{}".to_string()), format);
            assert_eq!(r, ApiResult::Failure(FailureKind::Transport, detail.to_string()));
        }
    }
}

#[test]
fn the_two_hundreds_are_success() {
    for status in [200u16, 201, 250, 299] {
        let r = receive(Exchange::Answered(status, "[]".to_string()), Format::Document);
        assert_eq!(r, ApiResult::Success(Payload::Document(Json::Array(Vec::new()))));
    }
}

#[test]
fn no_answer_is_a_failure_of_transport_with_its_detail() {
    let r = receive(Exchange::Unanswered("connection refused".to_string()), Format::Document);
    assert_eq!(r, ApiResult::Failure(FailureKind::Transport, "connection refused".to_string()));
}

#[test]
fn settle_decides_from_what_the_body_read_as() {
    let doc = Json::Bool(true);
    assert_eq!(
        settle(Exchange::Answered(200, "true".to_string()), Format::Document, Some(doc)),
        ApiResult::Success(Payload::Document(Json::Bool(true)))
    );
    assert_eq!(
        settle(Exchange::Answered(200, "true".to_string()), Format::Document, None),
        ApiResult::Failure(FailureKind::Decode, "the body is not a JSON document".to_string())
    );
    assert_eq!(
        settle(Exchange::Answered(200, "true".to_string()), Format::Text, None),
        ApiResult::Success(Payload::Text("true".to_string()))
    );
    assert_eq!(
        settle(Exchange::Answered(503, "true".to_string()), Format::Document, Some(Json::Null)),
        ApiResult::Failure(FailureKind::Transport, "status 503".to_string())
    );
    assert_eq!(
        settle(Exchange::Unanswered("why".to_string()), Format::Text, Some(Json::Null)),
        ApiResult::Failure(FailureKind::Transport, "why".to_string())
    );
}

#[test]
fn document_hands_out_the_document_or_the_kind_of_failure() {
    let ok = ApiResult::Success(Payload::Document(Json::Null));
    assert_eq!(ok.document(), Ok(&Json::Null));
    let text = ApiResult::Success(Payload::Text("x".to_string()));
    assert_eq!(text.document(), Err(ErrorKind::Decode));
    let down = ApiResult::Failure(FailureKind::Transport, "d".to_string());
    assert_eq!(down.document(), Err(ErrorKind::Transport));
    let bad = ApiResult::Failure(FailureKind::Decode, "d".to_string());
    assert_eq!(bad.document(), Err(ErrorKind::Decode));
}

#[test]
fn every_kind_of_failure_has_its_text() {
    assert_eq!(ErrorKind::Transport.message(), "Did not receive a response from the provider :(");
    assert_eq!(ErrorKind::Decode.message(), "Could not read the response of the provider :(");
    assert_eq!(ErrorKind::FieldMissing.message(), "The response of the provider lacks a field :(");
    assert_eq!(
        ErrorKind::TypeMismatch.message(),
        "The response of the provider has an unexpected shape :("
    );
    assert_eq!(ErrorKind::Unauthorized.message(), "A credential is missing :(");
    assert_eq!(ErrorKind::UnknownCommand.message(), "Not implemented :(");
    assert_eq!(
        ErrorKind::FieldMissing.reply(),
        Reply::Text("The response of the provider lacks a field :(".to_string())
    );
}

#[test]
fn kinds_of_failure_map_onto_each_other() {
    assert_eq!(ErrorKind::from_extract(ExtractError::FieldMissing), ErrorKind::FieldMissing);
    assert_eq!(ErrorKind::from_extract(ExtractError::TypeMismatch), ErrorKind::TypeMismatch);
    assert_eq!(FailureKind::Transport.error_kind(), ErrorKind::Transport);
    assert_eq!(FailureKind::Decode.error_kind(), ErrorKind::Decode);
}

#[test]
fn requests_carry_what_the_transport_needs() {
    let g = Request::get("https://example.org/x.json");
    assert_eq!(
        g,
        Request {
            url: "https://example.org/x.json".to_string(),
            method: Method::Get,
            body: None,
            auth_token: None,
            format: Format::Document,
        }
    );
    let p = Request::post("https://example.org/y", "secret".to_string(), "{}".to_string());
    assert_eq!(
        p,
        Request {
            url: "https://example.org/y".to_string(),
            method: Method::Post,
            body: Some("{}".to_string()),
            auth_token: Some("secret".to_string()),
            format: Format::Text,
        }
    );
}
