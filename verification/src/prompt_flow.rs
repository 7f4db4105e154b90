//! Answering a prompt, from its admission to its end.

use crate::active_prompt::{ControlView, PromptControlError};
use crate::agent_stages::AcceptResult;
use crate::conversation::{assistant_content_text, Content};
use crate::profile_switch;
use crate::profile_switch::local_profile_for_model;
use crate::prompt;
use crate::prompt::{validate_prompt_request_id, validate_prompt_text};
use crate::prompt_events;
use crate::prompt_events::{
    ensure_agent_prerequisites, initial_stage_sequence, instant_provider, stage_event, EventView,
    ModelProvider, PromptExecutionEventPayload, StagePayload, StageStatusPayload,
};
use crate::settings::{AssistantPreferences, InstantModel, ResponseProfilePayload};
use crate::startup::{
    ensure_startup_ready_for_prompt, RuntimePhasePayload, StartupStatePayload, StartupView,
};
use crate::text;
use crate::text::trim;
use vstd::prelude::*;
use vstd::string::*;

verus! {

/// Why a prompt is not admitted, where it is not: the start is looked at first, the name of the
/// request next, and the prompt itself last.
pub open spec fn admission_refusal<G>(
    startup: StartupView<G>,
    request_id: Seq<char>,
    prompt: Seq<char>,
) -> Option<Seq<char>> {
    match startup {
        StartupView::WarmingModel { .. } => Some("local Gemma model is still warming up"@),
        StartupView::Error { message } => Some("startup error: "@ + message),
        StartupView::Ready { .. } => if !prompt::generated_request_id(request_id) {
            Some("request ID must be an opaque generated identifier"@)
        } else {
            prompt::prompt_refusal(prompt)
        },
    }
}

/// Admits a prompt as it is, or says why it is refused.
pub fn admit_prompt<G>(
    startup: &StartupStatePayload<G>,
    request_id: &str,
    prompt: String,
) -> (result: Result<String, String>)
    ensures
        match result {
            Ok(admitted) => admission_refusal(startup@, request_id@, prompt@) is None && admitted
                == prompt,
            Err(message) => admission_refusal(startup@, request_id@, prompt@) == Some(message@),
        },
{
    match ensure_startup_ready_for_prompt(startup) {
        Ok(_) => {},
        Err(message) => {
            return Err(message);
        },
    }
    match validate_prompt_request_id(request_id) {
        Ok(_) => {},
        Err(message) => {
            return Err(message);
        },
    }
    validate_prompt_text(prompt)
}

/// Why a prompt cannot be dispatched with the assistant's preferences, where it cannot.
pub open spec fn dispatch_obstacle(
    preferences: AssistantPreferences,
    custom_configured: bool,
    server_available: bool,
    selected: ResponseProfilePayload,
) -> Option<Seq<char>> {
    let deep = prompt_events::agent_obstacle(
        preferences.deep_model,
        custom_configured,
        server_available,
    );
    let review = prompt_events::agent_obstacle(
        preferences.review_model,
        custom_configured,
        server_available,
    );
    if preferences.deep_enabled && deep is Some {
        deep
    } else if preferences.review_enabled && review is Some {
        review
    } else {
        profile_obstacle(preferences.instant_model, selected)
    }
}

/// Why a prompt cannot go to the model of the Instant stage with the selected profile, where it
/// cannot.
pub open spec fn profile_obstacle(
    model: InstantModel,
    selected: ResponseProfilePayload,
) -> Option<Seq<char>> {
    match profile_switch::local_profile(model) {
        Some(expected) => if selected == expected {
            None
        } else {
            Some("selected local model is not loaded"@)
        },
        None => None,
    }
}

/// The outcome of a check, from what stands in the way.
pub open spec fn unless(obstacle: Option<Seq<char>>) -> Result<(), Seq<char>> {
    match obstacle {
        Some(message) => Err(message),
        None => Ok(()),
    }
}

/// Why a prompt cannot go to the model of the Instant stage with the servers that there are, where
/// it cannot.
pub open spec fn server_obstacle(model: InstantModel, server_available: bool) -> Option<
    Seq<char>,
> {
    if prompt_events::instant_provider_of(model) is OpenCode && !server_available {
        Some("OpenCode server is not available"@)
    } else {
        None
    }
}

/// Refuses a prompt for a server that is not there.
pub fn ensure_instant_server(model: InstantModel, server_available: bool) -> (result: Result<
    (),
    String,
>)
    ensures
        text::outcome(result) == unless(server_obstacle(model, server_available)),
{
    match instant_provider(model) {
        ModelProvider::OpenCode => if !server_available {
            return Err("OpenCode server is not available".to_owned());
        },
        _ => {},
    }
    Ok(())
}

/// Refuses a prompt whose local model is not the loaded one.
pub fn ensure_local_profile(model: InstantModel, selected: ResponseProfilePayload) -> (result:
    Result<(), String>)
    ensures
        text::outcome(result) == unless(profile_obstacle(model, selected)),
{
    match local_profile_for_model(model) {
        Some(expected) => if selected != expected {
            return Err("selected local model is not loaded".to_owned());
        },
        None => {},
    }
    Ok(())
}

/// Refuses a prompt that cannot be dispatched with the assistant's preferences.
pub fn ensure_dispatch(
    preferences: &AssistantPreferences,
    custom_configured: bool,
    server_available: bool,
    selected: ResponseProfilePayload,
) -> (result: Result<(), String>)
    ensures
        text::outcome(result) == unless(
            dispatch_obstacle(*preferences, custom_configured, server_available, selected),
        ),
{
    if preferences.deep_enabled {
        match ensure_agent_prerequisites(
            preferences.deep_model,
            custom_configured,
            server_available,
        ) {
            Ok(_) => {},
            Err(error) => {
                return Err(error);
            },
        }
    }
    if preferences.review_enabled {
        match ensure_agent_prerequisites(
            preferences.review_model,
            custom_configured,
            server_available,
        ) {
            Ok(_) => {},
            Err(error) => {
                return Err(error);
            },
        }
    }
    ensure_local_profile(preferences.instant_model, selected)
}

/// What is fixed about the answering of a prompt once the assistant has begun with it. What is
/// done before that does not depend on it.
#[derive(Clone, Copy, Debug, PartialEq, Eq, Structural)]
pub struct PromptPlan {
    pub preferences: AssistantPreferences,
    pub custom_configured: bool,
    pub server_available: bool,
}

/// Where the first answer comes from.
#[derive(Clone, Copy, Debug, PartialEq, Eq, Structural)]
pub enum Origin {
    Prefetched,
    Provider,
}

/// How a prompt ended that was answered or cancelled.
#[derive(Clone, Copy, Debug, PartialEq, Eq, Structural)]
pub enum PromptEnd {
    Completed(RuntimePhasePayload),
    Cancelled(RuntimePhasePayload),
}

/// What execution is entered for.
#[derive(Debug, PartialEq, Eq)]
pub enum Entry {
    /// An answer that was made ahead of the question.
    Prefetched { answer: Content },
    /// A question to the model of the Instant stage.
    Provider,
}

/// What an event was published for.
#[derive(Debug, PartialEq, Eq)]
pub enum PublishPoint {
    Queued,
    Running,
    Answer { answer: Content },
    ProviderError { message: String },
    Failure { message: String, reported: Option<String> },
    Completed { phase: RuntimePhasePayload },
    Cancelled { phase: RuntimePhasePayload, reported: Option<String>, strict: bool },
}

/// What an event was published for, by its characters.
#[verifier::ext_equal]
pub ghost enum PointView {
    Queued,
    Running,
    Answer { answer: Content },
    ProviderError { message: Seq<char> },
    Failure { message: Seq<char>, reported: Option<Seq<char>> },
    Completed { phase: RuntimePhasePayload },
    Cancelled { phase: RuntimePhasePayload, reported: Option<Seq<char>>, strict: bool },
}

impl View for PublishPoint {
    type V = PointView;

    open spec fn view(&self) -> PointView {
        match *self {
            PublishPoint::Queued => PointView::Queued,
            PublishPoint::Running => PointView::Running,
            PublishPoint::Answer { answer } => PointView::Answer { answer },
            PublishPoint::ProviderError { message } => PointView::ProviderError {
                message: message@,
            },
            PublishPoint::Failure { message, reported } => PointView::Failure {
                message: message@,
                reported: text::optional_text(reported),
            },
            PublishPoint::Completed { phase } => PointView::Completed { phase },
            PublishPoint::Cancelled { phase, reported, strict } => PointView::Cancelled {
                phase,
                reported: text::optional_text(reported),
                strict,
            },
        }
    }
}

/// How a question to the model of the Instant stage ended.
#[derive(Debug, PartialEq, Eq)]
pub enum StreamEnd {
    Answered(Content),
    Cancelled,
    Failed(String),
}

/// What happened to the outside work of answering a prompt. `cancelled` says whether the prompt
/// has been cancelled by then.
#[derive(Debug)]
pub enum PromptEvent<G> {
    /// A prompt was submitted.
    Submitted { startup: StartupStatePayload<G>, request_id: String, prompt: String },
    /// The assistant began with the prompt, or not.
    Started { result: Result<(), String> },
    /// The prompt was registered as the active one, or not.
    Registered { result: Result<(), String> },
    /// Speech was silenced, and the selected profile was read.
    Dispatched { selected: ResponseProfilePayload },
    /// An event was published, or not.
    Published { then: PublishPoint, result: Result<(), PromptControlError> },
    /// The Deep stage was started.
    DeepStarted,
    /// The answer that was made ahead of the question, if there is one, was taken.
    PrefetchTaken { result: Result<Option<Content>, String> },
    /// The selected profile was read.
    ProfileRead { selected: ResponseProfilePayload },
    /// The local model's conversation was brought in line with the assistant's, or not.
    HistorySynced { result: Result<(), String> },
    /// The voice runtime entered execution, or not.
    Executed { entry: Entry, result: Result<(), String> },
    /// The custom provider's client could not be made.
    ClientRefused { message: String },
    /// The model of the Instant stage was asked.
    Streamed { cancelled: bool, end: StreamEnd },
    /// The coordinator was handed the outcome of the Instant stage.
    Accepted {
        answer: Result<Content, String>,
        origin: Origin,
        result: Result<AcceptResult, String>,
    },
    /// The Deep and Review stages are over.
    Resolved {
        answer: Result<Content, String>,
        origin: Origin,
        cancelled: bool,
        has_final_answer: bool,
        result: Result<(), PromptControlError>,
    },
    /// The voice runtime left execution in order, or not.
    Completed { result: Result<RuntimePhasePayload, String> },
    /// The coordinator committed the answer, or not.
    Committed { phase: RuntimePhasePayload, result: Result<(), String> },
    /// The request was cancelled and the voice runtime put to sleep, or not.
    Slept {
        reported: Option<String>,
        strict: bool,
        result: Result<RuntimePhasePayload, String>,
    },
    /// The request was cancelled and the voice runtime told of the failure, or not.
    Failed { message: String, reported: Option<String>, result: Result<(), String> },
}

/// What is done next.
#[derive(Debug, PartialEq, Eq)]
pub enum PromptStep {
    /// Let the assistant begin with the prompt.
    Begin { prompt: String },
    /// Register the prompt as the active one; `direct_client` says whether it holds the OpenCode
    /// session.
    Register { direct_client: bool },
    /// Silence what is spoken, and read the selected profile.
    Dispatch,
    /// Publish an event.
    Publish { event: PromptExecutionEventPayload, then: PublishPoint },
    /// Start the Deep stage.
    StartDeep,
    /// Take the answer that was made ahead of the question, and forget every other one.
    TakePrefetch,
    /// Read the selected profile.
    ReadProfile,
    /// Bring the local model's conversation in line with the assistant's.
    SyncHistory,
    /// Let the voice runtime enter execution.
    Execute { entry: Entry },
    /// Ask the model of the Instant stage.
    Stream,
    /// Hand the outcome of the Instant stage to the coordinator.
    AcceptInstant { answer: Result<Content, String>, origin: Origin },
    /// Run the Deep and Review stages.
    ResolveAgents { answer: Result<Content, String>, origin: Origin, accepted: AcceptResult },
    /// Let the voice runtime leave execution.
    Complete,
    /// Let the coordinator commit the answer.
    Commit { phase: RuntimePhasePayload },
    /// Cancel the request and put the voice runtime to sleep.
    Cancel { reported: Option<String>, strict: bool },
    /// Cancel the request and tell the voice runtime of the failure.
    Fail { message: String, reported: Option<String> },
    /// Nothing: the prompt is over. A settled prompt has reached its end; any other is abandoned.
    End { result: Result<PromptEnd, String>, settled: bool },
}

/// What is done next, by its contents.
#[verifier::ext_equal]
pub ghost enum StepView {
    Begin { prompt: Seq<char> },
    Register { direct_client: bool },
    Dispatch,
    Publish { event: EventView, then: PointView },
    StartDeep,
    TakePrefetch,
    ReadProfile,
    SyncHistory,
    Execute { entry: Entry },
    Stream,
    AcceptInstant { answer: Result<Content, Seq<char>>, origin: Origin },
    ResolveAgents { answer: Result<Content, Seq<char>>, origin: Origin, accepted: AcceptResult },
    Complete,
    Commit { phase: RuntimePhasePayload },
    Cancel { reported: Option<Seq<char>>, strict: bool },
    Fail { message: Seq<char>, reported: Option<Seq<char>> },
    End { result: Result<PromptEnd, Seq<char>>, settled: bool },
}

impl View for PromptStep {
    type V = StepView;

    open spec fn view(&self) -> StepView {
        match *self {
            PromptStep::Begin { prompt } => StepView::Begin { prompt: prompt@ },
            PromptStep::Register { direct_client } => StepView::Register { direct_client },
            PromptStep::Dispatch => StepView::Dispatch,
            PromptStep::Publish { event, then } => StepView::Publish { event: event@, then: then@ },
            PromptStep::StartDeep => StepView::StartDeep,
            PromptStep::TakePrefetch => StepView::TakePrefetch,
            PromptStep::ReadProfile => StepView::ReadProfile,
            PromptStep::SyncHistory => StepView::SyncHistory,
            PromptStep::Execute { entry } => StepView::Execute { entry },
            PromptStep::Stream => StepView::Stream,
            PromptStep::AcceptInstant { answer, origin } => StepView::AcceptInstant {
                answer: text::outcome(answer),
                origin,
            },
            PromptStep::ResolveAgents { answer, origin, accepted } => StepView::ResolveAgents {
                answer: text::outcome(answer),
                origin,
                accepted,
            },
            PromptStep::Complete => StepView::Complete,
            PromptStep::Commit { phase } => StepView::Commit { phase },
            PromptStep::Cancel { reported, strict } => StepView::Cancel {
                reported: text::optional_text(reported),
                strict,
            },
            PromptStep::Fail { message, reported } => StepView::Fail {
                message: message@,
                reported: text::optional_text(reported),
            },
            PromptStep::End { result, settled } => StepView::End {
                result: text::outcome(result),
                settled,
            },
        }
    }
}

/// What is done next, and whether the prompt's OpenCode client is told to stop before that.
#[derive(Debug, PartialEq, Eq)]
pub struct PromptMove {
    pub abort_client: bool,
    pub step: PromptStep,
}

/// What is done next, by its contents.
#[verifier::ext_equal]
pub ghost struct MoveView {
    pub abort_client: bool,
    pub step: StepView,
}

impl View for PromptMove {
    type V = MoveView;

    open spec fn view(&self) -> MoveView {
        MoveView { abort_client: self.abort_client, step: self.step@ }
    }
}

/// A move without telling the client to stop.
pub open spec fn go(step: StepView) -> MoveView {
    MoveView { abort_client: false, step }
}

/// The prompt is abandoned with an error.
pub open spec fn abandoned(message: Seq<char>) -> StepView {
    StepView::End { result: Err(message), settled: false }
}

/// The request is cancelled, with nothing else to report.
pub open spec fn cancelling() -> StepView {
    StepView::Cancel { reported: None, strict: false }
}

/// An error, or what is reported in its place.
pub open spec fn reported_error(reported: Option<Seq<char>>, error: Seq<char>) -> Seq<char> {
    match reported {
        Some(message) => message,
        None => error,
    }
}

/// What follows where an event could not be published and nothing else is to be reported.
pub open spec fn unpublished(error: PromptControlError) -> StepView {
    match error {
        PromptControlError::Cancelled => cancelling(),
        PromptControlError::Error(message) => abandoned(message@),
    }
}

impl PromptPlan {
    /// Who answers.
    pub open spec fn provider(self) -> ModelProvider {
        prompt_events::instant_provider_of(self.preferences.instant_model)
    }

    /// Why the prompt cannot be dispatched with the selected profile, where it cannot.
    pub open spec fn obstacle(self, selected: ResponseProfilePayload) -> Option<Seq<char>> {
        dispatch_obstacle(
            self.preferences,
            self.custom_configured,
            self.server_available,
            selected,
        )
    }

    /// The stages in the order in which they are begun.
    pub open spec fn stages(self) -> Seq<StagePayload> {
        prompt_events::begun_stages(self.preferences.deep_enabled)
    }

    /// How the stages begin.
    pub open spec fn first_stage(self) -> StepView {
        beginning(self.stages()[0])
    }

    /// What follows the publication of an event.
    pub open spec fn after_publication(
        self,
        then: PublishPoint,
        result: Result<(), PromptControlError>,
    ) -> StepView {
        match (then, result) {
            (PublishPoint::Queued, Ok(_)) => StepView::StartDeep,
            (PublishPoint::Queued, Err(error)) => unpublished(error),
            (PublishPoint::Running, Ok(_)) => StepView::TakePrefetch,
            (PublishPoint::Running, Err(error)) => unpublished(error),
            (PublishPoint::Answer { answer }, Ok(_)) => StepView::AcceptInstant {
                answer: Ok(answer),
                origin: Origin::Prefetched,
            },
            (PublishPoint::Answer { .. }, Err(error)) => unpublished(error),
            (PublishPoint::ProviderError { message }, Ok(_)) => StepView::AcceptInstant {
                answer: Err(message@),
                origin: Origin::Provider,
            },
            (PublishPoint::ProviderError { .. }, Err(error)) => unpublished(error),
            (PublishPoint::Failure { message, reported }, Ok(_)) => StepView::End {
                result: Err(reported_error(text::optional_text(reported), message@)),
                settled: true,
            },
            (
                PublishPoint::Failure { reported, .. },
                Err(PromptControlError::Cancelled),
            ) => StepView::Cancel { reported: text::optional_text(reported), strict: false },
            (
                PublishPoint::Failure { reported, .. },
                Err(PromptControlError::Error(error)),
            ) => abandoned(reported_error(text::optional_text(reported), error@)),
            (PublishPoint::Completed { phase }, _) => StepView::End {
                result: Ok(PromptEnd::Completed(phase)),
                settled: true,
            },
            (PublishPoint::Cancelled { phase, .. }, Ok(_)) => StepView::End {
                result: Ok(PromptEnd::Cancelled(phase)),
                settled: true,
            },
            (
                PublishPoint::Cancelled { phase, strict, .. },
                Err(PromptControlError::Cancelled),
            ) => if strict {
                abandoned("assistant request cancelled"@)
            } else {
                StepView::End { result: Ok(PromptEnd::Cancelled(phase)), settled: true }
            },
            (
                PublishPoint::Cancelled { reported, .. },
                Err(PromptControlError::Error(error)),
            ) => abandoned(reported_error(text::optional_text(reported), error@)),
        }
    }

    /// What follows the answer, or the lack of one, that was made ahead of the question.
    pub open spec fn after_prefetch(self, prefetched: Option<Content>) -> StepView {
        match prefetched {
            Some(answer) => StepView::Execute { entry: Entry::Prefetched { answer } },
            None => if self.provider() is Local {
                StepView::ReadProfile
            } else {
                StepView::Execute { entry: Entry::Provider }
            },
        }
    }

    /// What follows the entry into execution.
    pub open spec fn after_entry(self, entry: Entry, result: Result<(), String>) -> MoveView {
        match result {
            Err(error) => MoveView {
                abort_client: entry is Provider && self.provider() is OpenCode,
                step: abandoned(error@),
            },
            Ok(_) => go(
                match entry {
                    Entry::Prefetched { answer } => StepView::Publish {
                        event: EventView::Text { text: answer.words() },
                        then: PointView::Answer { answer },
                    },
                    Entry::Provider => if self.provider() is Custom && !self.custom_configured {
                        StepView::Fail {
                            message: "Custom provider is not configured"@,
                            reported: None,
                        }
                    } else {
                        StepView::Stream
                    },
                },
            ),
        }
    }

    /// What is said of an answer without visible text, where the provider is held to one.
    pub open spec fn blank_answer(self, answer: Content) -> Option<Seq<char>> {
        if text::trimmed(answer.words()).len() > 0 {
            None
        } else {
            match self.provider() {
                ModelProvider::Local => Some("response provider completed without visible text"@),
                ModelProvider::OpenCode => Some("OpenCode completed without visible text"@),
                ModelProvider::Custom => None,
            }
        }
    }

    /// What follows the provider's answer.
    pub open spec fn after_stream(self, cancelled: bool, end: StreamEnd) -> MoveView {
        let opencode = self.provider() is OpenCode;
        match end {
            StreamEnd::Cancelled => if opencode && !cancelled {
                go(StepView::Cancel { reported: None, strict: true })
            } else {
                MoveView { abort_client: opencode, step: cancelling() }
            },
            StreamEnd::Failed(message) => if cancelled && self.provider() !is Local {
                MoveView { abort_client: opencode, step: cancelling() }
            } else {
                MoveView {
                    abort_client: opencode,
                    step: StepView::Publish {
                        event: EventView::Error { message: message@ },
                        then: PointView::ProviderError { message: message@ },
                    },
                }
            },
            StreamEnd::Answered(answer) => if cancelled {
                MoveView { abort_client: opencode, step: cancelling() }
            } else {
                match self.blank_answer(answer) {
                    Some(message) => MoveView {
                        abort_client: opencode,
                        step: StepView::AcceptInstant {
                            answer: Err(message),
                            origin: Origin::Provider,
                        },
                    },
                    None => go(
                        StepView::AcceptInstant { answer: Ok(answer), origin: Origin::Provider },
                    ),
                }
            },
        }
    }

    /// What follows the Deep and Review stages.
    pub open spec fn after_agents(
        self,
        answer: Result<Content, Seq<char>>,
        origin: Origin,
        cancelled: bool,
        has_final_answer: bool,
        result: Result<(), PromptControlError>,
    ) -> MoveView {
        match result {
            Err(PromptControlError::Cancelled) => go(cancelling()),
            Err(PromptControlError::Error(message)) => go(
                StepView::Fail {
                    message: message@,
                    reported: if answer is Ok {
                        None
                    } else {
                        Some("agent resolution failed"@)
                    },
                },
            ),
            Ok(_) => if cancelled {
                MoveView {
                    abort_client: answer is Ok && origin is Provider && self.provider()
                        is OpenCode,
                    step: cancelling(),
                }
            } else {
                go(
                    match answer {
                        Ok(_) => StepView::Complete,
                        Err(failure) => if has_final_answer {
                            StepView::Complete
                        } else {
                            StepView::Fail { message: failure, reported: Some(failure) }
                        },
                    },
                )
            },
        }
    }

    /// What is done after an event.
    pub open spec fn next<G>(self, event: PromptEvent<G>) -> MoveView {
        match event {
            PromptEvent::Submitted { startup, request_id, prompt } => go(
                match admission_refusal(startup@, request_id@, prompt@) {
                    Some(message) => abandoned(message),
                    None => StepView::Begin { prompt: prompt@ },
                },
            ),
            PromptEvent::Started { result } => go(
                match result {
                    Err(error) => abandoned(error@),
                    Ok(_) => match server_obstacle(
                        self.preferences.instant_model,
                        self.server_available,
                    ) {
                        Some(message) => abandoned(message),
                        None => StepView::Register { direct_client: self.provider() is OpenCode },
                    },
                },
            ),
            PromptEvent::Registered { result } => go(
                match result {
                    Err(error) => abandoned(error@),
                    Ok(_) => StepView::Dispatch,
                },
            ),
            PromptEvent::Dispatched { selected } => go(
                match self.obstacle(selected) {
                    Some(message) => abandoned(message),
                    None => self.first_stage(),
                },
            ),
            PromptEvent::Published { then, result } => go(self.after_publication(then, result)),
            PromptEvent::DeepStarted => go(beginning(self.stages().last())),
            PromptEvent::PrefetchTaken { result } => go(
                match result {
                    Err(error) => abandoned(error@),
                    Ok(prefetched) => self.after_prefetch(prefetched),
                },
            ),
            PromptEvent::ProfileRead { selected } => go(
                match profile_obstacle(self.preferences.instant_model, selected) {
                    Some(message) => abandoned(message),
                    None => StepView::SyncHistory,
                },
            ),
            PromptEvent::HistorySynced { result } => go(
                match result {
                    Err(error) => abandoned(error@),
                    Ok(_) => StepView::Execute { entry: Entry::Provider },
                },
            ),
            PromptEvent::Executed { entry, result } => self.after_entry(entry, result),
            PromptEvent::ClientRefused { message } => go(
                StepView::Fail { message: message@, reported: None },
            ),
            PromptEvent::Streamed { cancelled, end } => self.after_stream(cancelled, end),
            PromptEvent::Accepted { answer, origin, result } => go(
                match result {
                    Err(error) => abandoned(error@),
                    Ok(accepted) => StepView::ResolveAgents {
                        answer: text::outcome(answer),
                        origin,
                        accepted,
                    },
                },
            ),
            PromptEvent::Resolved { answer, origin, cancelled, has_final_answer, result } => {
                self.after_agents(text::outcome(answer), origin, cancelled, has_final_answer, result)
            },
            PromptEvent::Completed { result } => go(
                match result {
                    Err(error) => abandoned(error@),
                    Ok(phase) => StepView::Commit { phase },
                },
            ),
            PromptEvent::Committed { phase, result } => go(
                match result {
                    Err(error) => abandoned(error@),
                    Ok(_) => StepView::Publish {
                        event: EventView::Completed { runtime_phase: phase },
                        then: PointView::Completed { phase },
                    },
                },
            ),
            PromptEvent::Slept { reported, strict, result } => go(
                match result {
                    Err(error) => abandoned(
                        reported_error(text::optional_text(reported), error@),
                    ),
                    Ok(phase) => StepView::Publish {
                        event: EventView::Cancelled { runtime_phase: phase },
                        then: PointView::Cancelled {
                            phase,
                            reported: text::optional_text(reported),
                            strict,
                        },
                    },
                },
            ),
            PromptEvent::Failed { message, reported, result } => go(
                match result {
                    Err(error) => abandoned(
                        reported_error(text::optional_text(reported), error@),
                    ),
                    Ok(_) => StepView::Publish {
                        event: EventView::Error { message: message@ },
                        then: PointView::Failure {
                            message: message@,
                            reported: text::optional_text(reported),
                        },
                    },
                },
            ),
        }
    }
}

/// The Instant stage is told to be running.
pub open spec fn running() -> StepView {
    StepView::Publish {
        event: prompt_events::staged(StagePayload::Instant, StageStatusPayload::Running, None),
        then: PointView::Running,
    }
}

/// How a stage begins: the Deep stage is told to be queued, and the Instant stage to be running.
pub open spec fn beginning(stage: StagePayload) -> StepView {
    if stage is Deep {
        StepView::Publish {
            event: prompt_events::staged(StagePayload::Deep, StageStatusPayload::Queued, None),
            then: PointView::Queued,
        }
    } else {
        running()
    }
}

fn go_on(step: PromptStep) -> (next: PromptMove)
    ensures
        next@ == go(step@),
{
    PromptMove { abort_client: false, step }
}

fn abandon(message: String) -> (step: PromptStep)
    ensures
        step@ == abandoned(message@),
{
    PromptStep::End { result: Err(message), settled: false }
}

fn cancel() -> (step: PromptStep)
    ensures
        step@ == cancelling(),
{
    PromptStep::Cancel { reported: None, strict: false }
}

fn give_up(error: PromptControlError) -> (step: PromptStep)
    ensures
        step@ == unpublished(error),
{
    match error {
        PromptControlError::Cancelled => cancel(),
        PromptControlError::Error(message) => abandon(message),
    }
}

fn report(reported: Option<String>, error: String) -> (message: String)
    ensures
        message@ == reported_error(text::optional_text(reported), error@),
{
    match reported {
        Some(message) => message,
        None => error,
    }
}

fn begin_stage(stage: StagePayload) -> (step: PromptStep)
    ensures
        step@ == beginning(stage),
{
    match stage {
        StagePayload::Deep => PromptStep::Publish {
            event: stage_event(StagePayload::Deep, StageStatusPayload::Queued, None),
            then: PublishPoint::Queued,
        },
        _ => PromptStep::Publish {
            event: stage_event(StagePayload::Instant, StageStatusPayload::Running, None),
            then: PublishPoint::Running,
        },
    }
}

fn begin_stages(plan: PromptPlan) -> (step: PromptStep)
    ensures
        step@ == plan.first_stage(),
{
    let stages = initial_stage_sequence(plan.preferences.deep_enabled);
    begin_stage(stages[0])
}

fn begin_last_stage(plan: PromptPlan) -> (step: PromptStep)
    ensures
        step@ == beginning(plan.stages().last()),
{
    let stages = initial_stage_sequence(plan.preferences.deep_enabled);
    begin_stage(stages[stages.len() - 1])
}

fn continue_after_publication(
    plan: PromptPlan,
    then: PublishPoint,
    result: Result<(), PromptControlError>,
) -> (step: PromptStep)
    ensures
        step@ == plan.after_publication(then, result),
{
    match then {
        PublishPoint::Queued => match result {
            Ok(_) => PromptStep::StartDeep,
            Err(error) => give_up(error),
        },
        PublishPoint::Running => match result {
            Ok(_) => PromptStep::TakePrefetch,
            Err(error) => give_up(error),
        },
        PublishPoint::Answer { answer } => match result {
            Ok(_) => PromptStep::AcceptInstant { answer: Ok(answer), origin: Origin::Prefetched },
            Err(error) => give_up(error),
        },
        PublishPoint::ProviderError { message } => match result {
            Ok(_) => PromptStep::AcceptInstant { answer: Err(message), origin: Origin::Provider },
            Err(error) => give_up(error),
        },
        PublishPoint::Failure { message, reported } => match result {
            Ok(_) => PromptStep::End { result: Err(report(reported, message)), settled: true },
            Err(PromptControlError::Cancelled) => PromptStep::Cancel { reported, strict: false },
            Err(PromptControlError::Error(error)) => abandon(report(reported, error)),
        },
        PublishPoint::Completed { phase } => PromptStep::End {
            result: Ok(PromptEnd::Completed(phase)),
            settled: true,
        },
        PublishPoint::Cancelled { phase, reported, strict } => match result {
            Ok(_) => PromptStep::End { result: Ok(PromptEnd::Cancelled(phase)), settled: true },
            Err(PromptControlError::Cancelled) => if strict {
                abandon("assistant request cancelled".to_owned())
            } else {
                PromptStep::End { result: Ok(PromptEnd::Cancelled(phase)), settled: true }
            },
            Err(PromptControlError::Error(error)) => abandon(report(reported, error)),
        },
    }
}

fn continue_after_entry(plan: PromptPlan, entry: Entry, result: Result<(), String>) -> (next:
    PromptMove)
    ensures
        next@ == plan.after_entry(entry, result),
{
    let provider = instant_provider(plan.preferences.instant_model);
    match result {
        Err(error) => {
            let asked = match entry {
                Entry::Provider => true,
                Entry::Prefetched { .. } => false,
            };
            PromptMove {
                abort_client: asked && provider == ModelProvider::OpenCode,
                step: abandon(error),
            }
        },
        Ok(_) => match entry {
            Entry::Prefetched { answer } => {
                let event = PromptExecutionEventPayload::Text {
                    text: assistant_content_text(&answer).to_owned(),
                };
                go_on(PromptStep::Publish { event, then: PublishPoint::Answer { answer } })
            },
            Entry::Provider => if provider == ModelProvider::Custom && !plan.custom_configured {
                go_on(
                    PromptStep::Fail {
                        message: "Custom provider is not configured".to_owned(),
                        reported: None,
                    },
                )
            } else {
                go_on(PromptStep::Stream)
            },
        },
    }
}

fn blank_message(plan: PromptPlan, answer: &Content) -> (message: Option<String>)
    ensures
        text::optional_text(message) == plan.blank_answer(*answer),
{
    if !trim(assistant_content_text(answer)).is_empty() {
        return None;
    }
    match instant_provider(plan.preferences.instant_model) {
        ModelProvider::Local => Some(
            "response provider completed without visible text".to_owned(),
        ),
        ModelProvider::OpenCode => Some("OpenCode completed without visible text".to_owned()),
        ModelProvider::Custom => None,
    }
}

fn continue_after_stream(plan: PromptPlan, cancelled: bool, end: StreamEnd) -> (next: PromptMove)
    ensures
        next@ == plan.after_stream(cancelled, end),
{
    let provider = instant_provider(plan.preferences.instant_model);
    let opencode = provider == ModelProvider::OpenCode;
    match end {
        StreamEnd::Cancelled => if opencode && !cancelled {
            go_on(PromptStep::Cancel { reported: None, strict: true })
        } else {
            PromptMove { abort_client: opencode, step: cancel() }
        },
        StreamEnd::Failed(message) => if cancelled && provider != ModelProvider::Local {
            PromptMove { abort_client: opencode, step: cancel() }
        } else {
            let event = PromptExecutionEventPayload::Error { message: message.clone() };
            PromptMove {
                abort_client: opencode,
                step: PromptStep::Publish { event, then: PublishPoint::ProviderError { message } },
            }
        },
        StreamEnd::Answered(answer) => {
            if cancelled {
                return PromptMove { abort_client: opencode, step: cancel() };
            }
            match blank_message(plan, &answer) {
                Some(message) => PromptMove {
                    abort_client: opencode,
                    step: PromptStep::AcceptInstant {
                        answer: Err(message),
                        origin: Origin::Provider,
                    },
                },
                None => go_on(
                    PromptStep::AcceptInstant { answer: Ok(answer), origin: Origin::Provider },
                ),
            }
        },
    }
}

fn continue_after_agents(
    plan: PromptPlan,
    answer: Result<Content, String>,
    origin: Origin,
    cancelled: bool,
    has_final_answer: bool,
    result: Result<(), PromptControlError>,
) -> (next: PromptMove)
    ensures
        next@ == plan.after_agents(
            text::outcome(answer),
            origin,
            cancelled,
            has_final_answer,
            result,
        ),
{
    match result {
        Err(PromptControlError::Cancelled) => go_on(cancel()),
        Err(PromptControlError::Error(message)) => go_on(
            PromptStep::Fail {
                message,
                reported: if answer.is_ok() {
                    None
                } else {
                    Some("agent resolution failed".to_owned())
                },
            },
        ),
        Ok(_) => {
            if cancelled {
                let opencode = instant_provider(plan.preferences.instant_model) == ModelProvider::OpenCode;
                return PromptMove {
                    abort_client: answer.is_ok() && origin == Origin::Provider && opencode,
                    step: cancel(),
                };
            }
            match answer {
                Ok(_) => go_on(PromptStep::Complete),
                Err(failure) => if has_final_answer {
                    go_on(PromptStep::Complete)
                } else {
                    go_on(
                        PromptStep::Fail { message: failure.clone(), reported: Some(failure) },
                    )
                },
            }
        },
    }
}

/// Decides what is done after an event of a prompt.
pub fn submit_prompt<G>(plan: PromptPlan, event: PromptEvent<G>) -> (next: PromptMove)
    ensures
        next@ == plan.next(event),
{
    match event {
        PromptEvent::Submitted { startup, request_id, prompt } => match admit_prompt(
            &startup,
            request_id.as_str(),
            prompt,
        ) {
            Err(message) => go_on(abandon(message)),
            Ok(prompt) => go_on(PromptStep::Begin { prompt }),
        },
        PromptEvent::Started { result } => match result {
            Err(error) => go_on(abandon(error)),
            Ok(_) => match ensure_instant_server(
                plan.preferences.instant_model,
                plan.server_available,
            ) {
                Err(message) => go_on(abandon(message)),
                Ok(_) => {
                    let provider = instant_provider(plan.preferences.instant_model);
                    go_on(
                        PromptStep::Register {
                            direct_client: provider == ModelProvider::OpenCode,
                        },
                    )
                },
            },
        },
        PromptEvent::Registered { result } => match result {
            Err(error) => go_on(abandon(error)),
            Ok(_) => go_on(PromptStep::Dispatch),
        },
        PromptEvent::Dispatched { selected } => match ensure_dispatch(
            &plan.preferences,
            plan.custom_configured,
            plan.server_available,
            selected,
        ) {
            Err(message) => go_on(abandon(message)),
            Ok(_) => go_on(begin_stages(plan)),
        },
        PromptEvent::Published { then, result } => go_on(
            continue_after_publication(plan, then, result),
        ),
        PromptEvent::DeepStarted => go_on(begin_last_stage(plan)),
        PromptEvent::PrefetchTaken { result } => match result {
            Err(error) => go_on(abandon(error)),
            Ok(Some(answer)) => go_on(
                PromptStep::Execute { entry: Entry::Prefetched { answer } },
            ),
            Ok(None) => if instant_provider(plan.preferences.instant_model) == ModelProvider::Local {
                go_on(PromptStep::ReadProfile)
            } else {
                go_on(PromptStep::Execute { entry: Entry::Provider })
            },
        },
        PromptEvent::ProfileRead { selected } => match ensure_local_profile(
            plan.preferences.instant_model,
            selected,
        ) {
            Err(message) => go_on(abandon(message)),
            Ok(_) => go_on(PromptStep::SyncHistory),
        },
        PromptEvent::HistorySynced { result } => match result {
            Err(error) => go_on(abandon(error)),
            Ok(_) => go_on(PromptStep::Execute { entry: Entry::Provider }),
        },
        PromptEvent::Executed { entry, result } => continue_after_entry(plan, entry, result),
        PromptEvent::ClientRefused { message } => go_on(
            PromptStep::Fail { message, reported: None },
        ),
        PromptEvent::Streamed { cancelled, end } => continue_after_stream(plan, cancelled, end),
        PromptEvent::Accepted { answer, origin, result } => match result {
            Err(error) => go_on(abandon(error)),
            Ok(accepted) => go_on(PromptStep::ResolveAgents { answer, origin, accepted }),
        },
        PromptEvent::Resolved { answer, origin, cancelled, has_final_answer, result } => {
            continue_after_agents(plan, answer, origin, cancelled, has_final_answer, result)
        },
        PromptEvent::Completed { result } => match result {
            Err(error) => go_on(abandon(error)),
            Ok(phase) => go_on(PromptStep::Commit { phase }),
        },
        PromptEvent::Committed { phase, result } => match result {
            Err(error) => go_on(abandon(error)),
            Ok(_) => go_on(
                PromptStep::Publish {
                    event: PromptExecutionEventPayload::Completed { runtime_phase: phase },
                    then: PublishPoint::Completed { phase },
                },
            ),
        },
        PromptEvent::Slept { reported, strict, result } => match result {
            Err(error) => go_on(abandon(report(reported, error))),
            Ok(phase) => go_on(
                PromptStep::Publish {
                    event: PromptExecutionEventPayload::Cancelled { runtime_phase: phase },
                    then: PublishPoint::Cancelled { phase, reported, strict },
                },
            ),
        },
        PromptEvent::Failed { message, reported, result } => match result {
            Err(error) => go_on(abandon(report(reported, error))),
            Ok(_) => go_on(
                PromptStep::Publish {
                    event: PromptExecutionEventPayload::Error { message: message.clone() },
                    then: PublishPoint::Failure { message, reported },
                },
            ),
        },
    }
}

/// What the user interface gets for a prompt that was answered or cancelled.
#[derive(Clone, Debug, PartialEq, Eq)]
pub struct PromptFinalPayload {
    pub request_id: String,
    pub runtime_phase: RuntimePhasePayload,
    pub outcome: String,
    pub error_message: Option<String>,
}

/// What the user interface gets for a prompt that was answered or cancelled.
pub fn final_payload(request_id: String, end: PromptEnd) -> (payload: PromptFinalPayload)
    ensures
        payload.request_id == request_id,
        match end {
            PromptEnd::Completed(phase) => payload.runtime_phase == phase && payload.outcome@
                == "completed"@,
            PromptEnd::Cancelled(phase) => payload.runtime_phase == phase && payload.outcome@
                == "cancelled"@,
        },
        payload.error_message is None,
{
    match end {
        PromptEnd::Completed(runtime_phase) => PromptFinalPayload {
            request_id,
            runtime_phase,
            outcome: "completed".to_owned(),
            error_message: None,
        },
        PromptEnd::Cancelled(runtime_phase) => PromptFinalPayload {
            request_id,
            runtime_phase,
            outcome: "cancelled".to_owned(),
            error_message: None,
        },
    }
}

/// Whether an event can follow a step: it tells what came of just that step.
pub open spec fn follows<G>(step: StepView, event: PromptEvent<G>) -> bool {
    match (step, event) {
        (StepView::Begin { .. }, PromptEvent::Started { .. }) => true,
        (StepView::Register { .. }, PromptEvent::Registered { .. }) => true,
        (StepView::Dispatch, PromptEvent::Dispatched { .. }) => true,
        (StepView::Publish { then, .. }, PromptEvent::Published { then: point, .. }) => then
            == point@,
        (StepView::StartDeep, PromptEvent::DeepStarted) => true,
        (StepView::TakePrefetch, PromptEvent::PrefetchTaken { .. }) => true,
        (StepView::ReadProfile, PromptEvent::ProfileRead { .. }) => true,
        (StepView::SyncHistory, PromptEvent::HistorySynced { .. }) => true,
        (StepView::Execute { entry }, PromptEvent::Executed { entry: entered, .. }) => entry
            == entered,
        (StepView::Stream, PromptEvent::ClientRefused { .. }) => true,
        (StepView::Stream, PromptEvent::Streamed { .. }) => true,
        (
            StepView::AcceptInstant { answer, origin },
            PromptEvent::Accepted { answer: accepted, origin: source, .. },
        ) => answer == text::outcome(accepted) && origin == source,
        (
            StepView::ResolveAgents { answer, origin, .. },
            PromptEvent::Resolved { answer: resolved, origin: source, .. },
        ) => answer == text::outcome(resolved) && origin == source,
        (StepView::Complete, PromptEvent::Completed { .. }) => true,
        (StepView::Commit { phase }, PromptEvent::Committed { phase: committed, .. }) => phase
            == committed,
        (
            StepView::Cancel { reported, strict },
            PromptEvent::Slept { reported: told, strict: exact, .. },
        ) => reported == text::optional_text(told) && strict == exact,
        (
            StepView::Fail { message, reported },
            PromptEvent::Failed { message: failure, reported: told, .. },
        ) => message == failure@ && reported == text::optional_text(told),
        _ => false,
    }
}

/// How many steps can still follow a step at most.
pub open spec fn remaining(step: StepView) -> nat {
    match step {
        StepView::Begin { .. } => 23,
        StepView::Register { .. } => 22,
        StepView::Dispatch => 21,
        StepView::Publish { then, .. } => match then {
            PointView::Queued => 20,
            PointView::Running => 18,
            PointView::Answer { .. } => 13,
            PointView::ProviderError { .. } => 12,
            PointView::Completed { .. } => 1,
            PointView::Failure { .. } => 3,
            PointView::Cancelled { .. } => 1,
        },
        StepView::StartDeep => 19,
        StepView::TakePrefetch => 17,
        StepView::ReadProfile => 16,
        StepView::SyncHistory => 15,
        StepView::Execute { .. } => 14,
        StepView::Stream => 13,
        StepView::AcceptInstant { .. } => 11,
        StepView::ResolveAgents { .. } => 10,
        StepView::Complete => 9,
        StepView::Commit { .. } => 8,
        StepView::Fail { .. } => 4,
        StepView::Cancel { .. } => 2,
        StepView::End { .. } => 0,
    }
}

/// A prompt that is not admitted is over at once, with the reason and nothing else: the assistant
/// does not begin with it, it is not registered, and nothing is published of it. The name of the
/// request is judged before the prompt, and neither before the start is complete.
pub proof fn law_refused_prompts_change_nothing<G>(
    plan: PromptPlan,
    startup: StartupStatePayload<G>,
    request_id: String,
    prompt: String,
)
    ensures
        ({
            let next = plan.next(PromptEvent::Submitted { startup, request_id, prompt });
            let refusal = admission_refusal(startup@, request_id@, prompt@);
            &&& refusal is Some ==> next == go(abandoned(refusal->0))
            &&& refusal is None ==> next == go(StepView::Begin { prompt: prompt@ })
            &&& startup@ is Ready && !prompt::generated_request_id(request_id@) ==> refusal
                == Some("request ID must be an opaque generated identifier"@)
            &&& startup@ is Ready && prompt::generated_request_id(request_id@) ==> refusal
                == prompt::prompt_refusal(prompt@)
            &&& !(startup@ is Ready) ==> refusal is Some
        }),
{
}

/// Nothing is skipped on the way to the first stage: the assistant begins with a prompt only once
/// it is admitted, the prompt is registered only once the assistant has begun and its server is
/// there, and its stages begin only once it is registered and can be dispatched.
pub proof fn law_prompts_are_admitted_in_order<G>(plan: PromptPlan, event: PromptEvent<G>)
    ensures
        plan.next(event).step is Begin ==> (event matches PromptEvent::Submitted {
            startup,
            request_id,
            prompt,
        } && admission_refusal(startup@, request_id@, prompt@) is None),
        plan.next(event).step is Register ==> (event matches PromptEvent::Started { result }
            && result is Ok && server_obstacle(
            plan.preferences.instant_model,
            plan.server_available,
        ) is None),
        plan.next(event).step is Dispatch ==> (event matches PromptEvent::Registered { result }
            && result is Ok),
        plan.next(event).step == plan.first_stage() ==> (event is DeepStarted || (
        event matches PromptEvent::Dispatched { selected } && plan.obstacle(selected) is None)),
{
}

/// Every prompt comes to an end: each step that follows another leaves fewer steps to go.
pub proof fn law_prompts_come_to_an_end<G>(
    plan: PromptPlan,
    step: StepView,
    event: PromptEvent<G>,
)
    requires
        follows(step, event),
    ensures
        remaining(plan.next(event).step) < remaining(step),
        remaining(step) <= 23,
{
}

/// An answer is committed only after the Deep and Review stages ended well for a prompt that was
/// not cancelled, and only where there is an answer.
pub proof fn law_only_resolved_answers_are_committed<G>(plan: PromptPlan, event: PromptEvent<G>)
    ensures
        plan.next(event).step is Commit ==> event is Completed,
        plan.next(event).step is Complete ==> (event matches PromptEvent::Resolved {
            answer,
            cancelled,
            has_final_answer,
            result,
            ..
        } && result is Ok && !cancelled && (answer is Ok || has_final_answer)),
{
}

/// A prompt that is being cancelled is never completed: it ends as cancelled, or with an error.
pub proof fn law_cancelled_prompts_are_not_completed<G>(
    plan: PromptPlan,
    step: StepView,
    event: PromptEvent<G>,
)
    requires
        follows(step, event),
        step is Cancel || (step matches StepView::Publish { then, .. } && then is Cancelled),
    ensures
        ({
            let next = plan.next(event).step;
            ||| next matches StepView::Publish { then, .. } && then is Cancelled
            ||| next matches StepView::End { result: Err(_), .. }
            ||| next matches StepView::End { result: Ok(PromptEnd::Cancelled(_)), settled: true }
        }),
{
}

/// A prompt that was answered or cancelled is settled.
pub proof fn law_prompts_that_end_well_are_settled<G>(plan: PromptPlan, event: PromptEvent<G>)
    ensures
        plan.next(event).step matches StepView::End { result: Ok(_), settled } ==> settled,
{
}

/// The Deep stage, where it is wanted, is started before the Instant stage is run.
pub proof fn law_deep_is_started_before_the_model_is_asked<G>(
    plan: PromptPlan,
    event: PromptEvent<G>,
)
    ensures
        plan.preferences.deep_enabled ==> (plan.first_stage() matches StepView::Publish {
            then,
            ..
        } && then is Queued),
        plan.preferences.deep_enabled && plan.next(event).step == running() ==> event is DeepStarted,
        plan.next(event).step is TakePrefetch ==> (event matches PromptEvent::Published {
            then,
            result,
        } && then is Running && result is Ok),
        plan.next(event).step is StartDeep ==> (event matches PromptEvent::Published {
            then,
            result,
        } && then is Queued && result is Ok),
{
}

/// The stages that are told to begin from a step on, where everything that is told is published.
pub open spec fn stages_told<G>(plan: PromptPlan, step: StepView) -> Seq<StagePayload>
    decreases remaining(step),
{
    match step {
        StepView::Publish { event: EventView::Stage { stage, .. }, then: PointView::Queued } => {
            let published = PromptEvent::<G>::Published {
                then: PublishPoint::Queued,
                result: Ok(()),
            };
            seq![stage] + stages_told::<G>(plan, plan.next(published).step)
        },
        StepView::StartDeep => stages_told::<G>(
            plan,
            plan.next(PromptEvent::<G>::DeepStarted).step,
        ),
        StepView::Publish { event: EventView::Stage { stage, .. }, then: PointView::Running } => {
            seq![stage]
        },
        _ => seq![],
    }
}

/// A prompt that can be dispatched begins all of its stages, in their order and each of them once.
pub proof fn law_stages_are_begun_in_order<G>(
    plan: PromptPlan,
    selected: ResponseProfilePayload,
)
    requires
        plan.obstacle(selected) is None,
    ensures
        stages_told::<G>(plan, plan.next(PromptEvent::<G>::Dispatched { selected }).step)
            == prompt_events::begun_stages(plan.preferences.deep_enabled),
{
    reveal_with_fuel(stages_told, 4);
    assert(stages_told::<G>(plan, running()) == seq![StagePayload::Instant]);
    if plan.preferences.deep_enabled {
        assert(plan.stages().last() == StagePayload::Instant);
        assert(seq![StagePayload::Deep] + seq![StagePayload::Instant]
            == seq![StagePayload::Deep, StagePayload::Instant]);
    }
}

} // verus!
