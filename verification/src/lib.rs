//! A verified document-processing pipeline: bearer-token acquisition,
//! binary document submission for digitization, classification, and the
//! stage-chained orchestration that turns an uploaded file into a final
//! result-or-error response.
//!
//! The network and file I/O themselves live with the caller; this library
//! states what every request carries, decides what every response means, and
//! drives the run as a state machine whose every transition is specified.

pub mod auth;
pub mod digitize;
pub mod json;
pub mod mime;
pub mod pipeline;
