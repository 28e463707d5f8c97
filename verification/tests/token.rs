use docpipe::auth::AuthError;
use docpipe::auth::Authentication;

#[test]
fn acquires_exact_token_from_well_formed_response() {
    let r = Authentication::interpret_token_response(200, "{\"access_token\":\"tok123\"}");
    assert_eq!(r, Ok("tok123".to_string()));
}

#[test]
fn acquires_token_on_any_success_status() {
    let r = Authentication::interpret_token_response(201, "{\"access_token\":\"abc\"}");
    assert_eq!(r, Ok("abc".to_string()));
    let r = Authentication::interpret_token_response(299, "{\"access_token\":\"abc\"}");
    assert_eq!(r, Ok("abc".to_string()));
}

#[test]
fn acquires_token_beside_other_fields() {
    let r = Authentication::interpret_token_response(
        200,
        "{\"token_type\":\"Bearer\",\"access_token\":\"t-9\",\"expires_in\":\"3600\"}",
    );
    assert_eq!(r, Ok("t-9".to_string()));
}

#[test]
fn unauthorized_status_fails_with_that_status() {
    let r = Authentication::interpret_token_response(401, "{\"access_token\":\"tok123\"}");
    assert_eq!(r, Err(AuthError::HttpStatus(401)));
}

#[test]
fn server_error_status_fails_with_that_status() {
    let r = Authentication::interpret_token_response(500, "oops");
    assert_eq!(r, Err(AuthError::HttpStatus(500)));
}

#[test]
fn body_without_token_field_fails() {
    let r = Authentication::interpret_token_response(200, "{\"refresh_token\":\"x\"}");
    assert_eq!(r, Err(AuthError::MissingToken));
}

#[test]
fn non_string_token_field_fails() {
    let r = Authentication::interpret_token_response(200, "{\"access_token\":17}");
    assert_eq!(r, Err(AuthError::MissingToken));
}

#[test]
fn unparseable_body_fails_as_malformed() {
    let r = Authentication::interpret_token_response(200, "not json at all");
    assert_eq!(r, Err(AuthError::MalformedResponse));
}

#[test]
fn empty_body_fails_as_malformed() {
    let r = Authentication::interpret_token_response(200, "");
    assert_eq!(r, Err(AuthError::MalformedResponse));
}

#[test]
fn new_keeps_the_credentials() {
    let a = Authentication::new("app-1", "s3cret", "https://auth.example/token");
    assert_eq!(a.client_id, "app-1");
    assert_eq!(a.client_secret, "s3cret");
    assert_eq!(a.token_url, "https://auth.example/token");
}

#[test]
fn token_request_form_carries_the_grant_fields() {
    let a = Authentication::new("app-1", "s3cret", "https://auth.example/token");
    let form = a.token_request_form();
    assert_eq!(form.len(), 4);
    assert_eq!(form[0], ("client_id".to_string(), "app-1".to_string()));
    assert_eq!(form[1], ("client_secret".to_string(), "s3cret".to_string()));
    assert_eq!(form[2], ("grant_type".to_string(), "client_credentials".to_string()));
    assert_eq!(
        form[3],
        (
            "scope".to_string(),
            "Du.DocumentManager.Document Du.Classification.Api Du.Digitization.Api Du.Extraction.Api Du.Validation.Api".to_string(),
        )
    );
}
