use vstd::prelude::*;

use crate::decode::cot_of;
use crate::decode::decode_cot;
use crate::decode::decode_seasonality;
use crate::decode::seasonality_of;
use crate::decode::trim_ascii;
use crate::decode::trim_bytes;
use crate::errors::TaskError;
use crate::event::agg_run;
use crate::event::aggregate;
use crate::event::AggState;
use crate::event::AggregatedOutput;
use crate::event::StreamEvent;
use crate::jmodel::Json;
use crate::jsonio::bytes_to_text;
use crate::jsonio::lossy_text;
use crate::jsonio::parse_json;
use crate::jsonio::parse_result;
use crate::results::COTModel;
use crate::results::COTResult;
use crate::results::SeasonalityModel;
use crate::results::SeasonalityResult;

verus! {

/// What the process layer observed of one invocation: the full event
/// sequence of a worker that was started, or the operating system's refusal
/// to start it.
#[derive(Debug)]
pub enum LaunchOutcome {
    Completed(Vec<StreamEvent>),
    SpawnError(String),
}

/// The document that an aggregated stdout buffer yields: the buffer is
/// trimmed of surrounding whitespace, decoded permissively as text, and
/// parsed.
pub open spec fn decoded_doc(stdout: Seq<u8>) -> Option<Json> {
    parse_result(lossy_text(trim_ascii(stdout)))
}

/// What the Result Decoder owes for a seasonality run, given the final
/// aggregation state: a channel failure is reported as `StreamError` with
/// the stderr text; a stdout buffer that does not parse, or parses to a
/// document outside the schema, is reported as `DecodeFailed` carrying the
/// byte length of the stdout buffer and the full stderr text; and a document
/// inside the schema yields exactly its decoding, missing fields staying
/// missing.
pub open spec fn seasonality_verdict(
    st: AggState,
    r: Result<SeasonalityResult, TaskError>,
) -> bool {
    match st.error {
        Some(c) => (r matches Err(TaskError::StreamError { cause, stderr }) && cause@ == c
            && stderr@ == lossy_text(st.stderr)),
        None => match decoded_doc(st.stdout) {
            None => (r matches Err(TaskError::DecodeFailed { stdout_len, stderr, .. })
                && stdout_len as nat == st.stdout.len() && stderr@ == lossy_text(st.stderr)),
            Some(j) => match seasonality_of(j) {
                None => (r matches Err(TaskError::DecodeFailed { stdout_len, stderr, .. })
                    && stdout_len as nat == st.stdout.len() && stderr@ == lossy_text(st.stderr)),
                Some(model) => (r matches Ok(res) && res@ == model),
            },
        },
    }
}

/// The same obligation for a Commitment-of-Traders run.
pub open spec fn cot_verdict(st: AggState, r: Result<COTResult, TaskError>) -> bool {
    match st.error {
        Some(c) => (r matches Err(TaskError::StreamError { cause, stderr }) && cause@ == c
            && stderr@ == lossy_text(st.stderr)),
        None => match decoded_doc(st.stdout) {
            None => (r matches Err(TaskError::DecodeFailed { stdout_len, stderr, .. })
                && stdout_len as nat == st.stdout.len() && stderr@ == lossy_text(st.stderr)),
            Some(j) => match cot_of(j) {
                None => (r matches Err(TaskError::DecodeFailed { stdout_len, stderr, .. })
                    && stdout_len as nat == st.stdout.len() && stderr@ == lossy_text(st.stderr)),
                Some(model) => (r matches Ok(res) && res@ == model),
            },
        },
    }
}

/// The Result Decoder for seasonality runs.
pub fn decode_seasonality_output(out: &AggregatedOutput) -> (r: Result<
    SeasonalityResult,
    TaskError,
>)
    ensures
        seasonality_verdict(out@, r),
{
    match &out.error {
        Some(c) => Err(
            TaskError::StreamError { cause: c.clone(), stderr: bytes_to_text(&out.stderr) },
        ),
        None => {
            let trimmed = trim_bytes(&out.stdout);
            let text = bytes_to_text(&trimmed);
            match parse_json(text.as_str()) {
                Err(cause) => Err(
                    TaskError::DecodeFailed {
                        cause,
                        stdout_len: out.stdout.len(),
                        stderr: bytes_to_text(&out.stderr),
                    },
                ),
                Ok(doc) => match decode_seasonality(&doc) {
                    Ok(res) => Ok(res),
                    Err(_) => Err(
                        TaskError::DecodeFailed {
                            cause: "the document does not match the expected result shape"
                                .to_owned(),
                            stdout_len: out.stdout.len(),
                            stderr: bytes_to_text(&out.stderr),
                        },
                    ),
                },
            }
        },
    }
}

/// The Result Decoder for Commitment-of-Traders runs.
pub fn decode_cot_output(out: &AggregatedOutput) -> (r: Result<COTResult, TaskError>)
    ensures
        cot_verdict(out@, r),
{
    match &out.error {
        Some(c) => Err(
            TaskError::StreamError { cause: c.clone(), stderr: bytes_to_text(&out.stderr) },
        ),
        None => {
            let trimmed = trim_bytes(&out.stdout);
            let text = bytes_to_text(&trimmed);
            match parse_json(text.as_str()) {
                Err(cause) => Err(
                    TaskError::DecodeFailed {
                        cause,
                        stdout_len: out.stdout.len(),
                        stderr: bytes_to_text(&out.stderr),
                    },
                ),
                Ok(doc) => match decode_cot(&doc) {
                    Ok(res) => Ok(res),
                    Err(_) => Err(
                        TaskError::DecodeFailed {
                            cause: "the document does not match the expected result shape"
                                .to_owned(),
                            stdout_len: out.stdout.len(),
                            stderr: bytes_to_text(&out.stderr),
                        },
                    ),
                },
            }
        },
    }
}

/// Finish a seasonality call: a refused spawn is reported as `SpawnFailed`;
/// a completed run is aggregated in arrival order and decoded.
pub fn complete_seasonality(outcome: &LaunchOutcome) -> (r: Result<SeasonalityResult, TaskError>)
    ensures
        outcome matches LaunchOutcome::SpawnError(c) ==> (r matches Err(
            TaskError::SpawnFailed { cause },
        ) && cause@ == c@),
        outcome matches LaunchOutcome::Completed(events) ==> seasonality_verdict(
            agg_run(events@),
            r,
        ),
{
    match outcome {
        LaunchOutcome::SpawnError(c) => Err(TaskError::SpawnFailed { cause: c.clone() }),
        LaunchOutcome::Completed(events) => {
            let agg = aggregate(events);
            decode_seasonality_output(&agg)
        },
    }
}

/// Finish a Commitment-of-Traders call in the same way.
pub fn complete_cot(outcome: &LaunchOutcome) -> (r: Result<COTResult, TaskError>)
    ensures
        outcome matches LaunchOutcome::SpawnError(c) ==> (r matches Err(
            TaskError::SpawnFailed { cause },
        ) && cause@ == c@),
        outcome matches LaunchOutcome::Completed(events) ==> cot_verdict(agg_run(events@), r),
{
    match outcome {
        LaunchOutcome::SpawnError(c) => Err(TaskError::SpawnFailed { cause: c.clone() }),
        LaunchOutcome::Completed(events) => {
            let agg = aggregate(events);
            decode_cot_output(&agg)
        },
    }
}

/// A run whose worker emitted a well-formed schema document returns exactly
/// the decoding of that document: no field is invented, and a missing field
/// stays missing.
pub proof fn lemma_result_is_decoded_document(
    st: AggState,
    r: Result<SeasonalityResult, TaskError>,
    j: Json,
    model: SeasonalityModel,
)
    requires
        seasonality_verdict(st, r),
        st.error is None,
        decoded_doc(st.stdout) == Some(j),
        seasonality_of(j) == Some(model),
    ensures
        r matches Ok(res) && res@ == model,
{
}

/// The same, for a Commitment-of-Traders run.
pub proof fn lemma_cot_result_is_decoded_document(
    st: AggState,
    r: Result<COTResult, TaskError>,
    j: Json,
    model: COTModel,
)
    requires
        cot_verdict(st, r),
        st.error is None,
        decoded_doc(st.stdout) == Some(j),
        cot_of(j) == Some(model),
    ensures
        r matches Ok(res) && res@ == model,
{
}

/// A run whose stdout does not parse fails with `DecodeFailed`, reporting
/// the byte length of the stdout buffer and everything the worker wrote to
/// stderr.
pub proof fn lemma_malformed_output_reports_stderr(
    st: AggState,
    r: Result<SeasonalityResult, TaskError>,
)
    requires
        seasonality_verdict(st, r),
        st.error is None,
        decoded_doc(st.stdout) is None,
    ensures
        r matches Err(TaskError::DecodeFailed { stdout_len, stderr, .. }) && stdout_len as nat
            == st.stdout.len() && stderr@ == lossy_text(st.stderr),
{
}

} // verus!
