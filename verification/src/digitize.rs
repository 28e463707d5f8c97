//! Submission of raw document bytes to the digitization endpoint.
//!
//! The outbound POST itself is I/O and lives with the caller; this module
//! states the endpoint and headers the request carries and decides what a
//! response means.

use vstd::prelude::*;
use vstd::string::*;

use crate::json::json_text_fields;
use crate::json::parse_json;
use crate::json::get_string_field;

verus! {

/// The one transport status on which digitization succeeds: Accepted.
pub const ACCEPTED_STATUS: u16 = 202;

/// Why no usable document identifier came back.
#[derive(Debug)]
pub enum DigitizeError {
    /// No response was received at all.
    Transport,
    /// The response status was not Accepted; carries the status and the
    /// response body text for diagnostics.
    HttpStatus { status: u16, body: String },
    /// The body is not valid structured data.
    MalformedResponse,
    /// The body parsed but holds no `documentId` string field.
    MissingField,
    /// The call nominally succeeded, but the identifier is empty.
    EmptyResult,
}

/// A digitization error, seen at the specification level.
pub enum DigitizeErrorView {
    Transport,
    HttpStatus { status: u16, body: Seq<char> },
    MalformedResponse,
    MissingField,
    EmptyResult,
}

impl View for DigitizeError {
    type V = DigitizeErrorView;

    open spec fn view(&self) -> DigitizeErrorView {
        match self {
            DigitizeError::Transport => DigitizeErrorView::Transport,
            DigitizeError::HttpStatus { status, body } => DigitizeErrorView::HttpStatus {
                status: *status,
                body: body@,
            },
            DigitizeError::MalformedResponse => DigitizeErrorView::MalformedResponse,
            DigitizeError::MissingField => DigitizeErrorView::MissingField,
            DigitizeError::EmptyResult => DigitizeErrorView::EmptyResult,
        }
    }
}

/// The digitization endpoint and the token its requests carry, immutable for
/// the lifetime of the value.
pub struct Digitize {
    pub base_url: String,
    pub project_id: String,
    pub bearer_token: String,
}

/// What a digitization response means: the `documentId` on an Accepted status
/// whose body holds one that is not empty, and the matching error otherwise.
pub open spec fn digitize_outcome(status: u16, body: Seq<char>) -> Result<
    Seq<char>,
    DigitizeErrorView,
> {
    if status != ACCEPTED_STATUS {
        Err(DigitizeErrorView::HttpStatus { status, body })
    } else {
        match json_text_fields(body) {
            Option::None => Err(DigitizeErrorView::MalformedResponse),
            Option::Some(fields) => if !fields.dom().contains("documentId"@) {
                Err(DigitizeErrorView::MissingField)
            } else if fields["documentId"@].len() == 0 {
                Err(DigitizeErrorView::EmptyResult)
            } else {
                Ok(fields["documentId"@])
            },
        }
    }
}

/// A digitization result, seen at the specification level.
pub open spec fn digitize_result_view(r: Result<String, DigitizeError>) -> Result<
    Seq<char>,
    DigitizeErrorView,
> {
    match r {
        Ok(id) => Ok(id@),
        Err(e) => Err(e@),
    }
}

impl Digitize {
    pub fn new(base_url: &str, project_id: &str, bearer_token: &str) -> (r: Digitize)
        ensures
            r.base_url@ == base_url@,
            r.project_id@ == project_id@,
            r.bearer_token@ == bearer_token@,
    {
        Digitize {
            base_url: base_url.to_owned(),
            project_id: project_id.to_owned(),
            bearer_token: bearer_token.to_owned(),
        }
    }

    /// The URL that a digitization run is started at.
    pub open spec fn start_url_of(self) -> Seq<char> {
        self.base_url@ + "/"@ + self.project_id@ + "/digitization/start?api-version=1"@
    }

    /// The URL that a digitization run is started at.
    pub fn start_url(&self) -> (r: String)
        ensures
            r@ == self.start_url_of(),
    {
        let mut url = self.base_url.clone();
        url.append("/");
        url.append(self.project_id.as_str());
        url.append("/digitization/start?api-version=1");
        url
    }

    /// The value of the `Authorization` header of every request this client
    /// sends.
    pub open spec fn authorization_value_of(self) -> Seq<char> {
        "Bearer "@ + self.bearer_token@
    }

    /// The value of the `Authorization` header of every request this client
    /// sends.
    pub fn authorization_value(&self) -> (r: String)
        ensures
            r@ == self.authorization_value_of(),
    {
        let mut header = String::from_str("Bearer ");
        header.append(self.bearer_token.as_str());
        header
    }

    /// Decides what the digitization endpoint's response means: the
    /// non-empty `documentId` on an Accepted status, the matching error
    /// otherwise.
    pub fn interpret_digitize_response(status: u16, body: &str) -> (r: Result<
        String,
        DigitizeError,
    >)
        ensures
            digitize_result_view(r) == digitize_outcome(status, body@),
    {
        if status != ACCEPTED_STATUS {
            return Err(DigitizeError::HttpStatus { status, body: body.to_owned() });
        }
        match parse_json(body) {
            Option::None => Err(DigitizeError::MalformedResponse),
            Option::Some(value) => match get_string_field(&value, "documentId") {
                Option::None => Err(DigitizeError::MissingField),
                Option::Some(id) => if id.as_str().is_empty() {
                    Err(DigitizeError::EmptyResult)
                } else {
                    Ok(id)
                },
            },
        }
    }
}

/// The digitization outcome is a document identifier exactly when the status
/// is Accepted and the body parses with a non-empty `documentId`; the
/// identifier is then exactly the field's content.
pub proof fn lemma_digitize_acceptance(status: u16, body: Seq<char>)
    ensures
        digitize_outcome(status, body) is Ok <==> (status == ACCEPTED_STATUS
            && json_text_fields(body) is Some
            && json_text_fields(body).unwrap().dom().contains("documentId"@)
            && json_text_fields(body).unwrap()["documentId"@].len() > 0),
        digitize_outcome(status, body) is Ok ==> digitize_outcome(status, body)->Ok_0
            == json_text_fields(body).unwrap()["documentId"@],
{
}

} // verus!
