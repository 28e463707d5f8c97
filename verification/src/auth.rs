//! Bearer-token acquisition through an OAuth2 client-credentials grant.
//!
//! The outbound POST itself is I/O and lives with the caller; this module
//! states what the request carries and decides what a response means.

use vstd::prelude::*;

use crate::json::json_text_fields;
use crate::json::parse_json;
use crate::json::get_string_field;

verus! {

/// Why no bearer token came back.
#[derive(Clone, Copy, Debug, PartialEq, Eq, Structural)]
pub enum AuthError {
    /// No response was received at all.
    Transport,
    /// The response status was outside the success range; carries the status.
    HttpStatus(u16),
    /// The body parsed but holds no `access_token` string field.
    MissingToken,
    /// The body is not valid structured data.
    MalformedResponse,
}

/// Credentials for the client-credentials grant, immutable for the lifetime
/// of the value.
pub struct Authentication {
    pub client_id: String,
    pub client_secret: String,
    pub token_url: String,
}

/// The fixed scope the requested token must authorize.
pub open spec fn token_scope() -> Seq<char> {
    "Du.DocumentManager.Document Du.Classification.Api Du.Digitization.Api Du.Extraction.Api Du.Validation.Api"@
}

/// The form fields of the token request, in order.
pub open spec fn token_form_of(a: Authentication) -> Seq<(Seq<char>, Seq<char>)> {
    seq![
        ("client_id"@, a.client_id@),
        ("client_secret"@, a.client_secret@),
        ("grant_type"@, "client_credentials"@),
        ("scope"@, token_scope()),
    ]
}

/// What a token-endpoint response means: the token on a success status whose
/// body holds `access_token`, and the matching error otherwise.
pub open spec fn token_of_response(status: u16, body: Seq<char>) -> Result<Seq<char>, AuthError> {
    if !(200 <= status <= 299) {
        Err(AuthError::HttpStatus(status))
    } else {
        match json_text_fields(body) {
            Option::None => Err(AuthError::MalformedResponse),
            Option::Some(fields) => if fields.dom().contains("access_token"@) {
                Ok(fields["access_token"@])
            } else {
                Err(AuthError::MissingToken)
            },
        }
    }
}

/// An acquired token or error, seen at the specification level.
pub open spec fn token_result_view(r: Result<String, AuthError>) -> Result<Seq<char>, AuthError> {
    match r {
        Ok(token) => Ok(token@),
        Err(e) => Err(e),
    }
}

impl Authentication {
    pub fn new(client_id: &str, client_secret: &str, token_url: &str) -> (r: Authentication)
        ensures
            r.client_id@ == client_id@,
            r.client_secret@ == client_secret@,
            r.token_url@ == token_url@,
    {
        Authentication {
            client_id: client_id.to_owned(),
            client_secret: client_secret.to_owned(),
            token_url: token_url.to_owned(),
        }
    }

    /// The form-encoded fields of the grant request that acquires a token.
    pub fn token_request_form(&self) -> (r: Vec<(String, String)>)
        ensures
            r.deep_view() == token_form_of(*self),
    {
        let mut form: Vec<(String, String)> = Vec::new();
        form.push(("client_id".to_owned(), self.client_id.clone()));
        form.push(("client_secret".to_owned(), self.client_secret.clone()));
        form.push(("grant_type".to_owned(), "client_credentials".to_owned()));
        form.push((
            "scope".to_owned(),
            "Du.DocumentManager.Document Du.Classification.Api Du.Digitization.Api Du.Extraction.Api Du.Validation.Api".to_owned(),
        ));
        proof {
            assert(form.deep_view() =~= token_form_of(*self));
        }
        form
    }

    /// Decides what the token endpoint's response means: the exact
    /// `access_token` string on success, the matching error otherwise.
    pub fn interpret_token_response(status: u16, body: &str) -> (r: Result<String, AuthError>)
        ensures
            token_result_view(r) == token_of_response(status, body@),
    {
        if !(200 <= status && status <= 299) {
            return Err(AuthError::HttpStatus(status));
        }
        match parse_json(body) {
            Option::None => Err(AuthError::MalformedResponse),
            Option::Some(value) => match get_string_field(&value, "access_token") {
                Option::Some(token) => Ok(token),
                Option::None => Err(AuthError::MissingToken),
            },
        }
    }
}

/// Every well-formed token response that holds `access_token` yields exactly
/// that token; a non-success status, an unparseable body, or a parsed body
/// without the field each yield the matching failure.
pub proof fn lemma_token_acquisition(status: u16, body: Seq<char>)
    ensures
        (200 <= status <= 299 && json_text_fields(body) is Some
            && json_text_fields(body).unwrap().dom().contains("access_token"@))
            ==> token_of_response(status, body) == Ok::<Seq<char>, AuthError>(
                json_text_fields(body).unwrap()["access_token"@],
            ),
        !(200 <= status <= 299)
            ==> token_of_response(status, body) == Err::<Seq<char>, AuthError>(AuthError::HttpStatus(status)),
        (200 <= status <= 299 && json_text_fields(body) is None)
            ==> token_of_response(status, body) == Err::<Seq<char>, AuthError>(AuthError::MalformedResponse),
        (200 <= status <= 299 && json_text_fields(body) is Some
            && !json_text_fields(body).unwrap().dom().contains("access_token"@))
            ==> token_of_response(status, body) == Err::<Seq<char>, AuthError>(AuthError::MissingToken),
{
}

} // verus!
