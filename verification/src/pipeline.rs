//! The orchestrated run: token acquisition, digitization, classification,
//! result formatting, short-circuiting to a failure on the first error.
//!
//! The run is a state machine. The caller performs the outside work that the
//! current state asks for (read the file, send a request) and hands the
//! outcome back as plain values; every transition is a verified function.

use vstd::prelude::*;
use vstd::string::*;

use crate::auth::AuthError;
use crate::auth::Authentication;
use crate::auth::token_of_response;
use crate::digitize::DigitizeError;
use crate::digitize::DigitizeErrorView;
use crate::digitize::digitize_outcome;
use crate::digitize::Digitize;
use crate::mime::detect_mime_type;
use crate::mime::mime_for_name;

verus! {

/// Why a run failed.
#[derive(Debug)]
#[allow(inconsistent_fields)]
pub enum FailureKind {
    /// The uploaded file could not be read.
    LocalIo,
    /// Token acquisition failed.
    Auth { error: AuthError },
    /// Digitization failed.
    Digitize { error: DigitizeError },
    /// Classification failed.
    Classify { error: ClassifyError },
}

/// Why classification yielded no usable document-type identifier.
#[derive(Clone, Copy, Debug, PartialEq, Eq, Structural)]
pub enum ClassifyError {
    /// The classifier returned no identifier at all.
    Failed,
    /// The classifier nominally succeeded, but the identifier is empty.
    EmptyResult,
}

/// A failure, seen at the specification level.
#[allow(inconsistent_fields)]
pub enum FailureKindView {
    LocalIo,
    Auth { error: AuthError },
    Digitize { error: DigitizeErrorView },
    Classify { error: ClassifyError },
}

impl View for FailureKind {
    type V = FailureKindView;

    open spec fn view(&self) -> FailureKindView {
        match self {
            FailureKind::LocalIo => FailureKindView::LocalIo,
            FailureKind::Auth { error } => FailureKindView::Auth { error: *error },
            FailureKind::Digitize { error } => FailureKindView::Digitize { error: error@ },
            FailureKind::Classify { error } => FailureKindView::Classify { error: *error },
        }
    }
}

/// The terminal outcome of one run: exactly one of a human-readable
/// extraction summary or a failure.
#[derive(Debug)]
pub enum PipelineResult {
    Success { summary: String },
    Failure { kind: FailureKind },
}

/// A terminal outcome, seen at the specification level.
pub enum PipelineResultView {
    Success { summary: Seq<char> },
    Failure { kind: FailureKindView },
}

impl View for PipelineResult {
    type V = PipelineResultView;

    open spec fn view(&self) -> PipelineResultView {
        match self {
            PipelineResult::Success { summary } => PipelineResultView::Success {
                summary: summary@,
            },
            PipelineResult::Failure { kind } => PipelineResultView::Failure { kind: kind@ },
        }
    }
}

/// Where one run stands: which stage's outcome it awaits, with the data that
/// the following stages still need, or the terminal outcome.
#[derive(Debug)]
pub enum PipelineState {
    /// The document was read; a bearer token is awaited.
    AwaitingToken { bytes: Vec<u8>, mime: String },
    /// A token is held; the digitization response is awaited.
    AwaitingDigitization { bytes: Vec<u8>, mime: String, token: String },
    /// A document identifier is held; the classification outcome is awaited.
    AwaitingClassification { document_id: String },
    /// The run is over; nothing further is invoked.
    Finished { outcome: PipelineResult },
}

/// A run's state, seen at the specification level.
pub enum PipelineStateView {
    AwaitingToken { bytes: Seq<u8>, mime: Seq<char> },
    AwaitingDigitization { bytes: Seq<u8>, mime: Seq<char>, token: Seq<char> },
    AwaitingClassification { document_id: Seq<char> },
    Finished { outcome: PipelineResultView },
}

impl View for PipelineState {
    type V = PipelineStateView;

    open spec fn view(&self) -> PipelineStateView {
        match self {
            PipelineState::AwaitingToken { bytes, mime } => PipelineStateView::AwaitingToken {
                bytes: bytes@,
                mime: mime@,
            },
            PipelineState::AwaitingDigitization { bytes, mime, token } => {
                PipelineStateView::AwaitingDigitization {
                    bytes: bytes@,
                    mime: mime@,
                    token: token@,
                }
            },
            PipelineState::AwaitingClassification { document_id } => {
                PipelineStateView::AwaitingClassification { document_id: document_id@ }
            },
            PipelineState::Finished { outcome } => PipelineStateView::Finished {
                outcome: outcome@,
            },
        }
    }
}

/// The fixed label of the classification mode that every run asks for.
pub fn classification_type_label() -> (r: String)
    ensures
        r@ == "ml-classification"@,
{
    String::from_str("ml-classification")
}

/// The summary a fully processed document is reported with.
pub open spec fn summary_of(document_type_id: Seq<char>) -> Seq<char> {
    "Extracted data for document type: "@ + document_type_id
}

/// The summary a fully processed document is reported with.
pub fn format_summary(document_type_id: &str) -> (r: String)
    ensures
        r@ == summary_of(document_type_id@),
{
    let mut summary = String::from_str("Extracted data for document type: ");
    summary.append(document_type_id);
    summary
}

/// Where a run stands once the uploaded file was read: awaiting a token with
/// the bytes and the detected content type, or finished with a local I/O
/// failure when the file could not be read.
pub open spec fn start_step(name: Seq<char>, read: Option<Seq<u8>>) -> PipelineStateView {
    match read {
        Option::None => PipelineStateView::Finished {
            outcome: PipelineResultView::Failure { kind: FailureKindView::LocalIo },
        },
        Option::Some(bytes) => PipelineStateView::AwaitingToken {
            bytes,
            mime: mime_for_name(name),
        },
    }
}

/// What the token stage's outside work came to: the token, or the error;
/// `None` stands for a request that got no response.
pub open spec fn token_outcome_of(response: Option<(u16, Seq<char>)>) -> Result<
    Seq<char>,
    AuthError,
> {
    match response {
        Option::None => Err(AuthError::Transport),
        Option::Some((status, body)) => token_of_response(status, body),
    }
}

/// Where a run stands once the token stage's outcome is in: on to
/// digitization with the token, or finished with the authentication failure.
/// A state that awaits nothing from this stage is left as it stands.
pub open spec fn token_step(s: PipelineStateView, response: Option<(u16, Seq<char>)>) -> PipelineStateView {
    match s {
        PipelineStateView::AwaitingToken { bytes, mime } => match token_outcome_of(response) {
            Ok(token) => PipelineStateView::AwaitingDigitization { bytes, mime, token },
            Err(error) => PipelineStateView::Finished {
                outcome: PipelineResultView::Failure { kind: FailureKindView::Auth { error } },
            },
        },
        _ => s,
    }
}

/// What the digitization stage's outside work came to; `None` stands for a
/// request that got no response.
pub open spec fn digitize_outcome_of(response: Option<(u16, Seq<char>)>) -> Result<
    Seq<char>,
    DigitizeErrorView,
> {
    match response {
        Option::None => Err(DigitizeErrorView::Transport),
        Option::Some((status, body)) => digitize_outcome(status, body),
    }
}

/// Where a run stands once the digitization stage's outcome is in: on to
/// classification with the document identifier, or finished with the
/// digitization failure. A state that awaits nothing from this stage is left
/// as it stands.
pub open spec fn digitize_step(s: PipelineStateView, response: Option<(u16, Seq<char>)>) -> PipelineStateView {
    match s {
        PipelineStateView::AwaitingDigitization { .. } => match digitize_outcome_of(response) {
            Ok(document_id) => PipelineStateView::AwaitingClassification { document_id },
            Err(error) => PipelineStateView::Finished {
                outcome: PipelineResultView::Failure {
                    kind: FailureKindView::Digitize { error },
                },
            },
        },
        _ => s,
    }
}

/// Where a run stands once the classification outcome is in: finished with
/// the extraction summary for a non-empty document-type identifier, and with
/// the matching failure otherwise. A state that awaits nothing from this
/// stage is left as it stands.
pub open spec fn classify_step(s: PipelineStateView, document_type_id: Option<Seq<char>>) -> PipelineStateView {
    match s {
        PipelineStateView::AwaitingClassification { .. } => match document_type_id {
            Option::None => PipelineStateView::Finished {
                outcome: PipelineResultView::Failure {
                    kind: FailureKindView::Classify { error: ClassifyError::Failed },
                },
            },
            Option::Some(type_id) => if type_id.len() == 0 {
                PipelineStateView::Finished {
                    outcome: PipelineResultView::Failure {
                        kind: FailureKindView::Classify { error: ClassifyError::EmptyResult },
                    },
                }
            } else {
                PipelineStateView::Finished {
                    outcome: PipelineResultView::Success { summary: summary_of(type_id) },
                }
            },
        },
        _ => s,
    }
}

/// Begins a run from what reading the uploaded file came to: its bytes, or
/// `None` when the file could not be opened or read. Detects the content
/// type from the file name; detection never fails.
pub fn start_run(file_name: &str, read_bytes: Option<Vec<u8>>) -> (r: PipelineState)
    ensures
        r@ == start_step(file_name@, read_bytes.deep_view()),
{
    match read_bytes {
        Option::None => PipelineState::Finished {
            outcome: PipelineResult::Failure { kind: FailureKind::LocalIo },
        },
        Option::Some(bytes) => {
            let mime = detect_mime_type(file_name);
            proof {
                assert(bytes.deep_view() =~= bytes@);
            }
            PipelineState::AwaitingToken { bytes, mime }
        },
    }
}

/// Feeds the token endpoint's response (or its absence) into the run.
pub fn on_token_response(state: PipelineState, response: Option<(u16, String)>) -> (r: PipelineState)
    ensures
        r@ == token_step(state@, response.deep_view()),
{
    match state {
        PipelineState::AwaitingToken { bytes, mime } => {
            let outcome = match response {
                Option::None => Err(AuthError::Transport),
                Option::Some((status, body)) => Authentication::interpret_token_response(
                    status,
                    body.as_str(),
                ),
            };
            match outcome {
                Ok(token) => PipelineState::AwaitingDigitization { bytes, mime, token },
                Err(error) => PipelineState::Finished {
                    outcome: PipelineResult::Failure { kind: FailureKind::Auth { error } },
                },
            }
        },
        other => other,
    }
}

/// Feeds the digitization endpoint's response (or its absence) into the run.
pub fn on_digitize_response(state: PipelineState, response: Option<(u16, String)>) -> (r: PipelineState)
    ensures
        r@ == digitize_step(state@, response.deep_view()),
{
    match state {
        PipelineState::AwaitingDigitization { .. } => {
            let outcome = match response {
                Option::None => Err(DigitizeError::Transport),
                Option::Some((status, body)) => Digitize::interpret_digitize_response(
                    status,
                    body.as_str(),
                ),
            };
            match outcome {
                Ok(document_id) => PipelineState::AwaitingClassification { document_id },
                Err(error) => PipelineState::Finished {
                    outcome: PipelineResult::Failure { kind: FailureKind::Digitize { error } },
                },
            }
        },
        other => other,
    }
}

/// Feeds the classification outcome into the run: the document-type
/// identifier, or `None` when classification failed.
pub fn on_classification(state: PipelineState, document_type_id: Option<String>) -> (r: PipelineState)
    ensures
        r@ == classify_step(state@, document_type_id.deep_view()),
{
    match state {
        PipelineState::AwaitingClassification { .. } => match document_type_id {
            Option::None => PipelineState::Finished {
                outcome: PipelineResult::Failure {
                    kind: FailureKind::Classify { error: ClassifyError::Failed },
                },
            },
            Option::Some(type_id) => if type_id.as_str().is_empty() {
                PipelineState::Finished {
                    outcome: PipelineResult::Failure {
                        kind: FailureKind::Classify { error: ClassifyError::EmptyResult },
                    },
                }
            } else {
                let summary = format_summary(type_id.as_str());
                PipelineState::Finished {
                    outcome: PipelineResult::Success { summary },
                }
            },
        },
        other => other,
    }
}

/// Whether a run is over and failed.
pub open spec fn has_failed(s: PipelineStateView) -> bool {
    s matches PipelineStateView::Finished { outcome: PipelineResultView::Failure { .. } }
}

/// A failed stage finishes the run at once with a failure: no later stage is
/// ever awaited after an error.
pub proof fn lemma_failure_short_circuits(
    s: PipelineStateView,
    response: Option<(u16, Seq<char>)>,
    document_type_id: Option<Seq<char>>,
)
    ensures
        (s is AwaitingToken && token_outcome_of(response) is Err) ==> has_failed(
            token_step(s, response),
        ),
        (s is AwaitingDigitization && digitize_outcome_of(response) is Err) ==> has_failed(
            digitize_step(s, response),
        ),
        (s is AwaitingClassification && (document_type_id is None
            || document_type_id.unwrap().len() == 0)) ==> has_failed(
            classify_step(s, document_type_id),
        ),
{
}

/// A finished run is terminal: no stage outcome moves it.
pub proof fn lemma_finished_is_terminal(
    s: PipelineStateView,
    response: Option<(u16, Seq<char>)>,
    document_type_id: Option<Seq<char>>,
)
    requires
        s is Finished,
    ensures
        token_step(s, response) == s,
        digitize_step(s, response) == s,
        classify_step(s, document_type_id) == s,
{
}

/// The stages stand in one strict line: each step either moves to the next
/// awaiting stage or finishes the run.
pub proof fn lemma_stages_are_linear(
    s: PipelineStateView,
    response: Option<(u16, Seq<char>)>,
    document_type_id: Option<Seq<char>>,
)
    ensures
        s is AwaitingToken ==> token_step(s, response) is AwaitingDigitization || token_step(
            s,
            response,
        ) is Finished,
        s is AwaitingDigitization ==> digitize_step(s, response) is AwaitingClassification
            || digitize_step(s, response) is Finished,
        s is AwaitingClassification ==> classify_step(s, document_type_id) is Finished,
{
}

} // verus!
