use docpipe::digitize::Digitize;
use docpipe::digitize::DigitizeError;

#[test]
fn accepted_response_with_document_id_succeeds() {
    let r = Digitize::interpret_digitize_response(202, "{\"documentId\":\"doc1\"}");
    assert_eq!(r.unwrap(), "doc1");
}

#[test]
fn accepted_response_with_empty_document_id_fails() {
    let r = Digitize::interpret_digitize_response(202, "{\"documentId\":\"\"}");
    assert!(matches!(r, Err(DigitizeError::EmptyResult)));
}

#[test]
fn accepted_response_without_document_id_fails() {
    let r = Digitize::interpret_digitize_response(202, "{}");
    assert!(matches!(r, Err(DigitizeError::MissingField)));
}

#[test]
fn accepted_response_with_unparseable_body_fails_as_malformed() {
    let r = Digitize::interpret_digitize_response(202, "oops");
    assert!(matches!(r, Err(DigitizeError::MalformedResponse)));
}

#[test]
fn plain_ok_status_is_not_accepted() {
    let r = Digitize::interpret_digitize_response(200, "{\"documentId\":\"doc1\"}");
    match r {
        Err(DigitizeError::HttpStatus { status, body }) => {
            assert_eq!(status, 200);
            assert_eq!(body, "{\"documentId\":\"doc1\"}");
        },
        other => panic!("expected a status failure, got {:?}", other),
    }
}

#[test]
fn error_status_carries_status_and_body() {
    let r = Digitize::interpret_digitize_response(404, "no such project");
    match r {
        Err(DigitizeError::HttpStatus { status, body }) => {
            assert_eq!(status, 404);
            assert_eq!(body, "no such project");
        },
        other => panic!("expected a status failure, got {:?}", other),
    }
}

#[test]
fn new_keeps_endpoint_and_token() {
    let d = Digitize::new("https://cloud.example/du", "proj7", "tok");
    assert_eq!(d.base_url, "https://cloud.example/du");
    assert_eq!(d.project_id, "proj7");
    assert_eq!(d.bearer_token, "tok");
}

#[test]
fn start_url_names_project_and_api_version() {
    let d = Digitize::new("https://cloud.example/du", "proj7", "tok");
    assert_eq!(
        d.start_url(),
        "https://cloud.example/du/proj7/digitization/start?api-version=1"
    );
}

#[test]
fn authorization_value_is_a_bearer_header() {
    let d = Digitize::new("https://cloud.example/du", "proj7", "tok-42");
    assert_eq!(d.authorization_value(), "Bearer tok-42");
}
