//! Decisions of the command layer: gating a start on a usable API key,
//! resolving a finished streaming session into a deliverable transcript or a
//! model-reset retry, and deciding whether a transcript is pasted and saved.
//! The command plumbing around them — task spawning, awaiting, the UI
//! bridge — stays with the surrounding application.

use vstd::prelude::*;
use vstd::string::StringExecFns;

use crate::errors::AppError;
use crate::settings::default_model_spec;
use crate::settings::default_realtime_model;
use crate::text::contains_seq;
use crate::text::is_blank;
use crate::text::str_contains;
use crate::text::str_eq;
use crate::text::str_is_blank;

verus! {

/// What a finished recording reports back: the transcript, whether it was
/// pasted, and how long the recording ran.
#[derive(Debug)]
pub struct RecordingSummary {
    pub text: String,
    pub pasted: bool,
    pub duration_ms: i64,
}

/// A failure message that points at the model: it names the model or calls
/// something unsupported.
pub open spec fn model_error_spec(message: Seq<char>) -> bool {
    contains_seq(message, "not supported"@) || contains_seq(message, "model"@)
}

/// True iff the failure message points at the model.
pub fn is_model_error(message: &str) -> (r: bool)
    ensures
        r == model_error_spec(message@),
{
    str_contains(message, "not supported") || str_contains(message, "model")
}

/// A recording may start only with a non-blank API key.
pub fn require_api_key(api_key: &str) -> (r: Result<(), AppError>)
    ensures
        is_blank(api_key@) <==> r matches Err(AppError::MissingApiKey),
        !is_blank(api_key@) <==> r is Ok,
    {
    if str_is_blank(api_key) {
        Err(AppError::MissingApiKey)
    } else {
        Ok(())
    }
}

/// How a finished streaming session resolves.
#[derive(Debug)]
pub enum StopDecision {
    /// The session produced this transcript: deliver it.
    Deliver(String),
    /// The session failed in a way that points at a non-default model: the
    /// caller resets the configured model to the default, then surfaces this
    /// error so the user retries.
    ResetModel { error: AppError },
    /// The session failed; surface its error as it is.
    Fail(AppError),
}

/// Resolves the streaming session's outcome against the configured model. A
/// transcript is delivered as it is. A failure whose message points at the
/// model, while a non-default model is configured, asks the caller to reset
/// the model and fails with a validation message saying so; every other
/// failure passes through unchanged.
pub fn resolve_transcript(outcome: Result<String, AppError>, model: &str) -> (r: StopDecision)
    ensures
        outcome matches Ok(t) ==> r == StopDecision::Deliver(t),
        outcome matches Err(e) ==> {
            if model_error_spec(e.message_spec()) && model@ != default_model_spec() {
                r matches StopDecision::ResetModel { error } && (
                error matches AppError::Validation(m) && m@ == e.message_spec()
                    + ". Model reset to GPT Realtime mini. Please try again."@)
            } else {
                r == StopDecision::Fail(e)
            }
        },
{
    match outcome {
        Result::Ok(t) => StopDecision::Deliver(t),
        Result::Err(e) => {
            let message = e.message();
            if is_model_error(message.as_str()) && !str_eq(model, default_realtime_model()) {
                let error = AppError::Validation(
                    message.concat(". Model reset to GPT Realtime mini. Please try again."),
                );
                StopDecision::ResetModel { error }
            } else {
                StopDecision::Fail(e)
            }
        },
    }
}

/// A transcript is pasted (or saved) only when it has visible content.
pub fn wants_paste(transcript: &str) -> (r: bool)
    ensures
        r == !is_blank(transcript@),
{
    !str_is_blank(transcript)
}

/// A transcript lands in the history exactly when saving is on and the
/// transcript has visible content.
pub fn wants_history(save_history: bool, transcript: &str) -> (r: bool)
    ensures
        r == (save_history && !is_blank(transcript@)),
{
    save_history && !str_is_blank(transcript)
}

} // verus!
