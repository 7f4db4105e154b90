//! Completions of a question that is still being typed or spoken.

use crate::counters;
use crate::counters::take_number;
use crate::prefetch;
use crate::prefetch::{invalidate_prefetch, speculative_record, PrefetchState};
use crate::prompt_events::{CompletionSource, TelemetryIdentity};
use crate::telemetry;
use crate::text;
use crate::text::{byte_len, concat2, decimal_text, same_text, trim};
use vstd::prelude::*;
use vstd::string::*;

verus! {

broadcast use vstd::string::group_string_axioms;

/// How many bytes a question may have to be completed.
pub const COMPLETION_PROMPT_MAX_BYTES: usize = 32768;

/// What a completion was asked for.
#[derive(Clone, Debug, PartialEq, Eq)]
pub struct CompletionRequestContext {
    pub backend_revision: u64,
    pub client_revision: u64,
    pub source: CompletionSource,
    pub voice_session_id: Option<u64>,
    pub prompt: String,
    pub started_ms: u64,
}

/// What is known of completions: whether something makes them, what the last one was asked for,
/// whether updates wait for it, and how many were asked for.
#[derive(Clone, Debug, PartialEq, Eq)]
pub struct CompletionState {
    pub runtime_available: bool,
    pub context: Option<CompletionRequestContext>,
    pub holds_updates: bool,
    pub generation: u64,
}

/// Forgets what was asked for, and says whether the runtime has to forget it too.
pub fn clear_completion_request_state_locked(
    state: &mut CompletionState,
    require_runtime: bool,
) -> (result: Result<bool, String>)
    ensures
        text::outcome(result) == (if require_runtime && !old(state).runtime_available {
            Err("completion runtime is not available"@)
        } else {
            Ok(old(state).runtime_available)
        }),
        final(state).runtime_available == old(state).runtime_available,
        final(state).generation == old(state).generation,
        match result {
            Ok(_) => final(state).context is None && !final(state).holds_updates,
            Err(_) => *final(state) == *old(state),
        },
{
    if require_runtime && !state.runtime_available {
        return Err("completion runtime is not available".to_owned());
    }
    state.context = None;
    state.holds_updates = false;
    Ok(state.runtime_available)
}

/// Forgets what was asked for, and every answer that was made ahead of the question. Says whether
/// the runtime has to forget what was asked for too.
pub fn clear_completion_state_locked(
    state: &mut CompletionState,
    speculation: &mut PrefetchState,
    require_runtime: bool,
) -> (result: Result<bool, String>)
    ensures
        text::outcome(result) == (if require_runtime && !old(state).runtime_available {
            Err("completion runtime is not available"@)
        } else {
            Ok(old(state).runtime_available)
        }),
        final(state).runtime_available == old(state).runtime_available,
        final(state).generation == old(state).generation,
        match result {
            Ok(_) => {
                &&& final(state).context is None
                &&& !final(state).holds_updates
                &&& final(speculation).generation == counters::counted(old(speculation).generation)
                &&& final(speculation).cache is None
                &&& final(speculation).task == old(speculation).task_given_up()
            },
            Err(_) => *final(state) == *old(state) && *final(speculation) == *old(speculation),
        },
{
    match clear_completion_request_state_locked(state, require_runtime) {
        Ok(forget) => {
            invalidate_prefetch(speculation);
            Ok(forget)
        },
        Err(error) => Err(error),
    }
}

/// What becomes of a question that was offered for completion.
#[derive(Clone, Copy, Debug, PartialEq, Eq, Structural)]
pub enum CompletionAdmission {
    /// Nothing is asked for; the runtime forgets the last question where `forget` says so.
    Cleared { forget: bool },
    /// A completion is asked for, under this number.
    Ask { backend_revision: u64 },
}

/// Whether a question can be completed.
pub open spec fn completable(prompt: Seq<char>) -> bool {
    text::trimmed(prompt).len() > 0 && text::byte_count(prompt) <= 32768
}

/// What becomes of a question that was offered for completion.
pub open spec fn offered(
    state: CompletionState,
    completion_enabled: bool,
    prompt: Seq<char>,
) -> Result<CompletionAdmission, Seq<char>> {
    if completion_enabled && !state.runtime_available {
        Err("completion runtime is not available"@)
    } else if completion_enabled && completable(prompt) {
        Ok(
            CompletionAdmission::Ask {
                backend_revision: counters::next_number(state.generation),
            },
        )
    } else {
        Ok(CompletionAdmission::Cleared { forget: state.runtime_available })
    }
}

/// What is known after a question was offered for completion.
pub open spec fn after_offering(
    state: CompletionState,
    completion_enabled: bool,
    prompt: Seq<char>,
) -> CompletionState {
    match offered(state, completion_enabled, prompt) {
        Err(_) => state,
        Ok(CompletionAdmission::Ask { .. }) => CompletionState {
            generation: counters::counted(state.generation),
            ..state
        },
        Ok(CompletionAdmission::Cleared { .. }) => CompletionState {
            context: None,
            holds_updates: false,
            ..state
        },
    }
}

/// Decides what becomes of a question that was offered for completion. Every answer that was made
/// ahead of a question is given up.
pub fn admit_completion_request(
    state: &mut CompletionState,
    speculation: &mut PrefetchState,
    completion_enabled: bool,
    prompt: &str,
) -> (result: Result<CompletionAdmission, String>)
    ensures
        text::outcome(result) == offered(*old(state), completion_enabled, prompt@),
        *final(state) == after_offering(*old(state), completion_enabled, prompt@),
        final(speculation).cache is None,
        final(speculation).generation == (if completion_enabled {
            counters::counted(old(speculation).generation)
        } else {
            counters::counted(counters::counted(old(speculation).generation))
        }),
        final(speculation).task == old(speculation).task_given_up(),
        final(state).runtime_available == old(state).runtime_available,
        if completion_enabled && !old(state).runtime_available {
            &&& text::outcome(result) == Err::<CompletionAdmission, Seq<char>>(
                "completion runtime is not available"@,
            )
            &&& *final(state) == *old(state)
        } else if !completion_enabled || !completable(prompt@) {
            &&& result == Ok::<CompletionAdmission, String>(
                CompletionAdmission::Cleared { forget: old(state).runtime_available },
            )
            &&& final(state).context is None
            &&& !final(state).holds_updates
            &&& final(state).generation == old(state).generation
        } else {
            &&& result == Ok::<CompletionAdmission, String>(
                CompletionAdmission::Ask {
                    backend_revision: counters::next_number(old(state).generation),
                },
            )
            &&& final(state).context == old(state).context
            &&& final(state).holds_updates == old(state).holds_updates
            &&& final(state).generation == counters::counted(old(state).generation)
        },
{
    invalidate_prefetch(speculation);
    if !completion_enabled {
        return match clear_completion_state_locked(state, speculation, false) {
            Ok(forget) => Ok(CompletionAdmission::Cleared { forget }),
            Err(error) => Err(error),
        };
    }
    if !state.runtime_available {
        return Err("completion runtime is not available".to_owned());
    }
    if trim(prompt).is_empty() || byte_len(prompt) > COMPLETION_PROMPT_MAX_BYTES {
        return match clear_completion_request_state_locked(state, false) {
            Ok(forget) => Ok(CompletionAdmission::Cleared { forget }),
            Err(error) => Err(error),
        };
    }
    Ok(CompletionAdmission::Ask { backend_revision: take_number(&mut state.generation) })
}

/// Notes what a completion is asked for; updates wait for it from now on.
pub fn store_completion_context(state: &mut CompletionState, context: CompletionRequestContext)
    ensures
        *final(state) == with_context(*old(state), context),
{
    state.holds_updates = true;
    state.context = Some(context);
}

/// Whether a prediction is for what was asked for last.
pub open spec fn expected(
    context: Option<CompletionRequestContext>,
    revision: u64,
    prompt: Seq<char>,
) -> bool {
    context matches Some(request) && request.backend_revision == revision && request.prompt@
        == prompt
}

/// Takes what was asked for last, where a prediction is for just that and completions are wanted;
/// updates no longer wait for it.
pub fn take_matching_request(
    state: &mut CompletionState,
    completion_enabled: bool,
    revision: u64,
    prompt: &str,
) -> (request: Option<CompletionRequestContext>)
    ensures
        final(state).runtime_available == old(state).runtime_available,
        final(state).generation == old(state).generation,
        if completion_enabled && expected(old(state).context, revision, prompt@) {
            &&& request == old(state).context
            &&& final(state).context is None
            &&& !final(state).holds_updates
        } else {
            &&& request is None
            &&& *final(state) == *old(state)
        },
{
    if !completion_enabled {
        return None;
    }
    let matching = match &state.context {
        Some(request) => request.backend_revision == revision && same_text(
            request.prompt.as_str(),
            prompt,
        ),
        None => false,
    };
    if matching {
        state.holds_updates = false;
        state.context.take()
    } else {
        None
    }
}

/// What was typed or said with what was predicted to follow, where anything was.
pub open spec fn continued(prompt: Seq<char>, suffix: Option<Seq<char>>) -> Option<Seq<char>> {
    match suffix {
        Some(rest) => if rest.len() > 0 {
            Some(prompt + rest)
        } else {
            None
        },
        None => None,
    }
}

/// The question that an answer is made for ahead of time: what was typed or said with what was
/// predicted to follow, where anything was.
pub fn predicted_prompt(prompt: &str, suffix: Option<&str>) -> (predicted: Option<String>)
    ensures
        text::optional_text(predicted) == continued(prompt@, text::optional_str(suffix)),
{
    match suffix {
        Some(rest) => if rest.is_empty() {
            None
        } else {
            Some(concat2(prompt, rest))
        },
        None => None,
    }
}

/// What the user interface is told of a prediction.
#[derive(Clone, Debug, PartialEq, Eq)]
pub struct CompletionEventPayload {
    pub source: CompletionSource,
    pub revision: u64,
    pub voice_session_id: Option<u64>,
    pub suffix: Option<String>,
}

/// What the user interface is told of a prediction.
pub fn completion_event(request: &CompletionRequestContext, suffix: Option<String>) -> (event:
    CompletionEventPayload)
    ensures
        event == told_prediction(*request, suffix),
{
    CompletionEventPayload {
        source: request.source,
        revision: request.client_revision,
        voice_session_id: request.voice_session_id,
        suffix,
    }
}

/// The record of a prediction. `running_on` says what the runtime that made it runs on, where that
/// is known; `now_ms` is the time, where it is known.
pub fn completion_record(
    request: &CompletionRequestContext,
    running_on: Option<telemetry::InferenceProvider>,
    now_ms: Option<u64>,
) -> (record: telemetry::TelemetryMetadata)
    ensures
        record.schema_version == telemetry::SCHEMA_VERSION,
        record.timestamp_ms == (match now_ms {
            Some(now) => now,
            None => 0,
        }),
        record.request_id@ == "completion-"@ + text::decimal(request.backend_revision as nat),
        record.generation == request.backend_revision,
        record.input_source == (match request.source {
            CompletionSource::Typed => telemetry::InputSource::Text,
            CompletionSource::Voice => telemetry::InputSource::Voice,
        }),
        record.provider is Local,
        record.model@ == "qwen-completion"@,
        record.stage is CompletionPrediction,
        record.transport is Http,
        record.inference_provider == (match running_on {
            Some(actual) => actual,
            None => telemetry::InferenceProvider::AttachedUnknown,
        }),
        record.speculative_origin == (match request.source {
            CompletionSource::Typed => telemetry::SpeculativeOrigin::User,
            CompletionSource::Voice => telemetry::SpeculativeOrigin::System,
        }),
        record.input_tokens is None,
        record.output_tokens is None,
        record.duration_ms == Some(
            match now_ms {
                Some(now) => if now >= request.started_ms {
                    (now - request.started_ms) as u64
                } else {
                    0
                },
                None => 0,
            },
        ),
        record.status is Success,
        record.error_category is Nothing,
{
    let timestamp_ms: u64 = match now_ms {
        Some(now) => now,
        None => 0,
    };
    let duration_ms: u64 = match now_ms {
        Some(now) => now.saturating_sub(request.started_ms),
        None => 0,
    };
    speculative_record(
        concat2("completion-", decimal_text(request.backend_revision as u128).as_str()),
        request.backend_revision,
        timestamp_ms,
        request.source,
        telemetry::Stage::CompletionPrediction,
        TelemetryIdentity {
            provider: telemetry::Provider::Local,
            model: "qwen-completion",
            inference_provider: match running_on {
                Some(actual) => actual,
                None => telemetry::InferenceProvider::AttachedUnknown,
            },
        },
        duration_ms,
        true,
    )
}

/// Forgets everything about completions because nothing makes them any more. Says what has to be
/// reported of the prediction, which is nothing where the application is being closed.
pub fn end_completion(state: &mut CompletionState, exiting: bool) -> (failure: Option<String>)
    ensures
        !final(state).runtime_available,
        final(state).context is None,
        !final(state).holds_updates,
        final(state).generation == old(state).generation,
        text::optional_text(failure) == (if exiting {
            None
        } else {
            Some("completion prediction worker stopped unexpectedly"@)
        }),
{
    state.runtime_available = false;
    state.context = None;
    state.holds_updates = false;
    if exiting {
        None
    } else {
        Some("completion prediction worker stopped unexpectedly".to_owned())
    }
}

/// Puts the runtime that makes completions in its place, unless the application is being closed;
/// hands it back to be shut down in that case.
pub fn store_completion_runtime<R, H>(
    runtime_slot: &mut Option<R>,
    request_slot: &mut Option<H>,
    exit_cleanup_started: bool,
    runtime: R,
    request: H,
) -> (refused: Option<R>)
    ensures
        exit_cleanup_started ==> refused == Some(runtime) && *final(runtime_slot) == *old(
            runtime_slot,
        ) && *final(request_slot) == *old(request_slot),
        !exit_cleanup_started ==> refused is None && *final(runtime_slot) == Some(runtime)
            && *final(request_slot) == Some(request),
{
    if exit_cleanup_started {
        return Some(runtime);
    }
    *request_slot = Some(request);
    *runtime_slot = Some(runtime);
    None
}

/// A prediction is used at most once, and only where it is for the question that was offered last:
/// once what was asked for is taken, forgotten or asked for anew under another number, no
/// prediction for it is expected.
pub proof fn law_predictions_are_used_once(
    earlier: CompletionRequestContext,
    later: CompletionRequestContext,
    generation: u64,
    prompt: Seq<char>,
)
    requires
        earlier.backend_revision == generation,
        later.backend_revision == counters::next_number(generation),
        generation < u64::MAX,
    ensures
        !expected(None, earlier.backend_revision, prompt),
        !expected(Some(later), earlier.backend_revision, prompt),
{
}

/// A completion is asked for exactly where completions are wanted, something makes them, and the
/// question says something in at most 32768 bytes; it then gets the next number, and what was
/// asked for before is kept until then. Where it is not asked for, what was asked for before is
/// forgotten, and the runtime forgets it too. Only a missing runtime is an error.
pub proof fn law_completions_are_asked_for_where_possible(
    state: CompletionState,
    completion_enabled: bool,
    prompt: Seq<char>,
)
    ensures
        ({
            let result = offered(state, completion_enabled, prompt);
            let after = after_offering(state, completion_enabled, prompt);
            let blank = forall|i: int| 0 <= i < prompt.len() ==> text::white(#[trigger] prompt[i]);
            let fits = !blank && vstd::utf8::encode_utf8(prompt).len() <= 32768;
            let missing = completion_enabled && !state.runtime_available;
            let asks = completion_enabled && state.runtime_available && fits;
            &&& missing <==> result is Err
            &&& missing ==> result == Err::<CompletionAdmission, Seq<char>>(
                "completion runtime is not available"@,
            ) && after == state
            &&& asks <==> (result matches Ok(admission) && admission is Ask)
            &&& asks && state.generation < u64::MAX ==> result
                == Ok::<CompletionAdmission, Seq<char>>(
                CompletionAdmission::Ask { backend_revision: (state.generation + 1) as u64 },
            ) && after.generation == state.generation + 1
            &&& asks ==> after.context == state.context && after.holds_updates
                == state.holds_updates
            &&& !missing && !asks ==> result == Ok::<CompletionAdmission, Seq<char>>(
                CompletionAdmission::Cleared { forget: state.runtime_available },
            ) && after.context is None && !after.holds_updates && after.generation
                == state.generation
            &&& after.runtime_available == state.runtime_available
        }),
{
    text::law_trimmed_texts_keep_their_words(prompt);
}

/// A prediction is expected exactly for the question that was asked for last, under its number and
/// word for word; what is predicted continues that question, and a prediction of nothing does not.
pub proof fn law_predictions_continue_their_question(
    request: CompletionRequestContext,
    revision: u64,
    prompt: Seq<char>,
    suffix: Seq<char>,
)
    ensures
        expected(Some(request), revision, prompt) <==> request.backend_revision == revision
            && request.prompt@ == prompt,
        !expected(None, revision, prompt),
        continued(prompt, None) is None,
        suffix.len() == 0 ==> continued(prompt, Some(suffix)) is None,
        suffix.len() > 0 ==> (continued(prompt, Some(suffix)) matches Some(whole) && whole.len()
            == prompt.len() + suffix.len() && whole.take(prompt.len() as int) == prompt
            && whole.skip(prompt.len() as int) == suffix),
{
    let whole = prompt + suffix;
    assert(whole.take(prompt.len() as int) == prompt);
    assert(whole.skip(prompt.len() as int) == suffix);
}

/// The state while a question is being completed.
pub open spec fn with_context(
    state: CompletionState,
    context: CompletionRequestContext,
) -> CompletionState {
    CompletionState { context: Some(context), holds_updates: true, ..state }
}

/// What the user interface is told of a prediction.
pub open spec fn told_prediction(
    request: CompletionRequestContext,
    suffix: Option<String>,
) -> CompletionEventPayload {
    CompletionEventPayload {
        source: request.source,
        revision: request.client_revision,
        voice_session_id: request.voice_session_id,
        suffix,
    }
}

/// A question that is being completed is remembered and holds updates back; its prediction is told
/// to whoever asked, under the revision that they know.
pub proof fn law_predictions_go_to_who_asked(
    state: CompletionState,
    context: CompletionRequestContext,
    suffix: Option<String>,
)
    ensures
        with_context(state, context).context == Some(context),
        with_context(state, context).holds_updates,
        with_context(state, context).runtime_available == state.runtime_available,
        with_context(state, context).generation == state.generation,
        told_prediction(context, suffix).source == context.source,
        told_prediction(context, suffix).revision == context.client_revision,
        told_prediction(context, suffix).voice_session_id == context.voice_session_id,
        told_prediction(context, suffix).suffix == suffix,
{
}

} // verus!
