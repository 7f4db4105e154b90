//! What the user interface is told while a prompt is answered, and what is recorded of it.

use crate::conversation::SourcePayload;
use crate::prompt::stage_detail;
use crate::settings::{AgentModel, InstantModel};
use crate::startup::RuntimePhasePayload;
use crate::telemetry;
use crate::text;
use crate::text::concat2;
use vstd::prelude::*;
use vstd::string::*;

verus! {

broadcast use vstd::string::group_string_axioms;

/// A stage of answering a prompt.
#[derive(Clone, Copy, Debug, PartialEq, Eq, Structural)]
pub enum StagePayload {
    Instant,
    Deep,
    Review,
}

/// How far a stage is.
#[derive(Clone, Copy, Debug, PartialEq, Eq, Structural)]
pub enum StageStatusPayload {
    Queued,
    Running,
    Completed,
    Kept,
    Corrected,
    Failed,
}

/// One thing that the user interface is told.
#[derive(Clone, Debug, PartialEq, Eq)]
pub enum PromptExecutionEventPayload {
    Stage { stage: StagePayload, status: StageStatusPayload, detail: Option<String> },
    Text { text: String },
    Correction { stage: StagePayload, text: String, correction: String },
    Reasoning { text: String },
    Status { message: String },
    Tool { tool: String, status: String, detail: String },
    Sources { sources: Vec<SourcePayload> },
    Error { message: String },
    Completed { runtime_phase: RuntimePhasePayload },
    Cancelled { runtime_phase: RuntimePhasePayload },
}

/// What the user interface is told, by its characters.
#[verifier::ext_equal]
pub ghost enum EventView {
    Stage { stage: StagePayload, status: StageStatusPayload, detail: Option<Seq<char>> },
    Text { text: Seq<char> },
    Correction { stage: StagePayload, text: Seq<char>, correction: Seq<char> },
    Reasoning { text: Seq<char> },
    Status { message: Seq<char> },
    Tool { tool: Seq<char>, status: Seq<char>, detail: Seq<char> },
    Sources { sources: Seq<(Seq<char>, Seq<char>)> },
    Error { message: Seq<char> },
    Completed { runtime_phase: RuntimePhasePayload },
    Cancelled { runtime_phase: RuntimePhasePayload },
}

/// Sources by their addresses and titles.
pub open spec fn source_views(sources: Seq<SourcePayload>) -> Seq<(Seq<char>, Seq<char>)> {
    sources.map_values(|source: SourcePayload| (source.url@, source.title@))
}

impl View for PromptExecutionEventPayload {
    type V = EventView;

    open spec fn view(&self) -> EventView {
        match *self {
            PromptExecutionEventPayload::Stage { stage, status, detail } => EventView::Stage {
                stage,
                status,
                detail: text::optional_text(detail),
            },
            PromptExecutionEventPayload::Text { text } => EventView::Text { text: text@ },
            PromptExecutionEventPayload::Correction { stage, text, correction } => {
                EventView::Correction { stage, text: text@, correction: correction@ }
            },
            PromptExecutionEventPayload::Reasoning { text } => EventView::Reasoning { text: text@ },
            PromptExecutionEventPayload::Status { message } => EventView::Status {
                message: message@,
            },
            PromptExecutionEventPayload::Tool { tool, status, detail } => EventView::Tool {
                tool: tool@,
                status: status@,
                detail: detail@,
            },
            PromptExecutionEventPayload::Sources { sources } => EventView::Sources {
                sources: source_views(sources@),
            },
            PromptExecutionEventPayload::Error { message } => EventView::Error {
                message: message@,
            },
            PromptExecutionEventPayload::Completed { runtime_phase } => EventView::Completed {
                runtime_phase,
            },
            PromptExecutionEventPayload::Cancelled { runtime_phase } => EventView::Cancelled {
                runtime_phase,
            },
        }
    }
}

/// Several events by their characters.
pub open spec fn event_views(events: Seq<PromptExecutionEventPayload>) -> Seq<EventView> {
    events.map_values(|event: PromptExecutionEventPayload| event@)
}

impl PromptExecutionEventPayload {
    /// Whether the event says that the prompt was cancelled.
    pub fn is_terminal(&self) -> (terminal: bool)
        ensures
            terminal == (self@ is Cancelled),
    {
        match self {
            PromptExecutionEventPayload::Cancelled { .. } => true,
            _ => false,
        }
    }
}

/// The stages in the order in which they are begun.
pub open spec fn begun_stages(deep_enabled: bool) -> Seq<StagePayload> {
    if deep_enabled {
        seq![StagePayload::Deep, StagePayload::Instant]
    } else {
        seq![StagePayload::Instant]
    }
}

/// The stages in the order in which they are begun.
pub fn initial_stage_sequence(deep_enabled: bool) -> (stages: Vec<StagePayload>)
    ensures
        stages@ == begun_stages(deep_enabled),
{
    let mut stages: Vec<StagePayload> = Vec::new();
    if deep_enabled {
        stages.push(StagePayload::Deep);
    }
    stages.push(StagePayload::Instant);
    stages
}

/// The part of a stage's detail that is shown.
pub open spec fn shown_detail(detail: Option<Seq<char>>) -> Option<Seq<char>> {
    match detail {
        Some(words) => Some(
            words.take(
                if words.len() <= 256 {
                    words.len() as int
                } else {
                    256
                },
            ),
        ),
        None => None,
    }
}

/// How far a stage is, as the user interface is told it.
pub open spec fn staged(
    stage: StagePayload,
    status: StageStatusPayload,
    detail: Option<Seq<char>>,
) -> EventView {
    EventView::Stage { stage, status, detail: shown_detail(detail) }
}

/// How far a stage is, as the user interface is told it.
pub fn stage_event(
    stage: StagePayload,
    status: StageStatusPayload,
    detail: Option<&str>,
) -> (event: PromptExecutionEventPayload)
    ensures
        event@ == staged(stage, status, text::optional_str(detail)),
{
    PromptExecutionEventPayload::Stage { stage, status, detail: stage_detail(detail) }
}

/// A short message, as the user interface is told it.
pub fn status_event(message: &str) -> (event: PromptExecutionEventPayload)
    ensures
        event@ == (EventView::Status { message: message@ }),
{
    PromptExecutionEventPayload::Status { message: message.to_owned() }
}

/// A copy of some sources.
pub fn copy_sources(sources: &[SourcePayload]) -> (copy: Vec<SourcePayload>)
    ensures
        source_views(copy@) == source_views(sources@),
{
    let mut copy: Vec<SourcePayload> = Vec::new();
    let mut i: usize = 0;
    while i < sources.len()
        invariant
            i <= sources.len(),
            source_views(copy@) == source_views(sources@.take(i as int)),
            copy@.len() == i,
        decreases sources.len() - i,
    {
        let source = SourcePayload {
            url: sources[i].url.as_str().to_owned(),
            title: sources[i].title.as_str().to_owned(),
        };
        copy.push(source);
        proof {
            let before = copy@.drop_last();
            assert(copy@ == before.push(source));
            assert(source_views(copy@) =~= source_views(before).push((source.url@, source.title@)));
            assert(source_views(sources@.take(i + 1)) =~= source_views(
                sources@.take(i as int),
            ).push((sources@[i as int].url@, sources@[i as int].title@)));
        }
        i += 1;
    }
    proof {
        assert(sources@.take(i as int) == sources@);
    }
    copy
}

/// The words of the texts among some events, one after the other.
pub open spec fn visible_text(events: Seq<EventView>) -> Seq<char>
    decreases events.len(),
{
    if events.len() == 0 {
        seq![]
    } else {
        visible_text(events.drop_last()) + (match events.last() {
            EventView::Text { text } => text,
            _ => seq![],
        })
    }
}

/// The words of the texts among some events, one after the other.
pub fn prompt_execution_text(events: &[PromptExecutionEventPayload]) -> (words: String)
    ensures
        words@ == visible_text(event_views(events@)),
{
    let mut words = String::new();
    let mut i: usize = 0;
    proof {
        assert(event_views(events@).take(0) == Seq::<EventView>::empty());
    }
    while i < events.len()
        invariant
            i <= events.len(),
            words@ == visible_text(event_views(events@).take(i as int)),
        decreases events.len() - i,
    {
        proof {
            let shown = event_views(events@);
            assert(shown.take(i + 1).drop_last() == shown.take(i as int));
            assert(shown.take(i + 1).last() == events@[i as int]@);
        }
        match &events[i] {
            PromptExecutionEventPayload::Text { text } => {
                words.append(text.as_str());
            },
            _ => {},
        }
        i += 1;
    }
    proof {
        assert(event_views(events@).take(i as int) == event_views(events@));
    }
    words
}

/// What the Deep stage found out.
#[derive(Clone, Debug, PartialEq, Eq)]
pub struct DeepReport {
    pub complete_answer: String,
    pub voice_summary: String,
    pub sources: Vec<SourcePayload>,
}

/// What the Deep stage found out, by its characters.
#[verifier::ext_equal]
pub ghost struct ReportView {
    pub complete_answer: Seq<char>,
    pub voice_summary: Seq<char>,
    pub sources: Seq<(Seq<char>, Seq<char>)>,
}

impl View for DeepReport {
    type V = ReportView;

    open spec fn view(&self) -> ReportView {
        ReportView {
            complete_answer: self.complete_answer@,
            voice_summary: self.voice_summary@,
            sources: source_views(self.sources@),
        }
    }
}

impl ReportView {
    /// What the user interface is told of the report: its sources, where it has any, and the
    /// answer that takes the place of the first one.
    pub open spec fn shown(self) -> Seq<EventView> {
        let correction = EventView::Correction {
            stage: StagePayload::Deep,
            text: self.complete_answer,
            correction: "Correction: "@ + text::trimmed(self.voice_summary),
        };
        if self.sources.len() == 0 {
            seq![correction]
        } else {
            seq![EventView::Sources { sources: self.sources }, correction]
        }
    }
}

/// Appends what the user interface is told of a Deep report.
pub fn show_report(events: &mut Vec<PromptExecutionEventPayload>, report: &DeepReport)
    ensures
        event_views(final(events)@) == event_views(old(events)@) + report@.shown(),
{
    let ghost before = events@;
    if report.sources.len() > 0 {
        let sources = PromptExecutionEventPayload::Sources {
            sources: copy_sources(report.sources.as_slice()),
        };
        let ghost shown = sources@;
        events.push(sources);
        proof {
            assert(event_views(events@) =~= event_views(before).push(shown));
        }
    }
    let ghost between = events@;
    let correction = PromptExecutionEventPayload::Correction {
        stage: StagePayload::Deep,
        text: report.complete_answer.as_str().to_owned(),
        correction: concat2("Correction: ", text::trim(report.voice_summary.as_str())),
    };
    let ghost shown = correction@;
    events.push(correction);
    proof {
        assert(event_views(events@) =~= event_views(between).push(shown));
        assert(event_views(events@) =~= event_views(before) + report@.shown());
    }
}

/// Which provider runs a model.
#[derive(Clone, Copy, Debug, PartialEq, Eq, Structural)]
pub enum ModelProvider {
    Local,
    Custom,
    OpenCode,
}

/// Which provider runs a model of the Instant stage.
pub open spec fn instant_provider_of(model: InstantModel) -> ModelProvider {
    match model {
        InstantModel::LocalFast | InstantModel::LocalQuality => ModelProvider::Local,
        InstantModel::CustomSolHigh | InstantModel::CustomLunaLow => ModelProvider::Custom,
        InstantModel::OpenCodeSolHigh | InstantModel::OpenCodeLunaLow => ModelProvider::OpenCode,
    }
}

/// Which provider runs a model of the Instant stage.
pub fn instant_provider(model: InstantModel) -> (provider: ModelProvider)
    ensures
        provider == instant_provider_of(model),
{
    match model {
        InstantModel::LocalFast | InstantModel::LocalQuality => ModelProvider::Local,
        InstantModel::CustomSolHigh | InstantModel::CustomLunaLow => ModelProvider::Custom,
        InstantModel::OpenCodeSolHigh | InstantModel::OpenCodeLunaLow => ModelProvider::OpenCode,
    }
}

/// Which provider runs a model of the Deep or Review stage.
pub open spec fn agent_provider_of(model: AgentModel) -> ModelProvider {
    match model {
        AgentModel::CustomSolHigh | AgentModel::CustomLunaLow => ModelProvider::Custom,
        AgentModel::OpenCodeSolHigh | AgentModel::OpenCodeLunaLow => ModelProvider::OpenCode,
    }
}

/// Which provider runs a model of the Deep or Review stage.
pub fn agent_provider(model: AgentModel) -> (provider: ModelProvider)
    ensures
        provider == agent_provider_of(model),
{
    match model {
        AgentModel::CustomSolHigh | AgentModel::CustomLunaLow => ModelProvider::Custom,
        AgentModel::OpenCodeSolHigh | AgentModel::OpenCodeLunaLow => ModelProvider::OpenCode,
    }
}

/// Why an agent cannot run, where it cannot.
pub open spec fn agent_obstacle(
    model: AgentModel,
    custom_configured: bool,
    server_available: bool,
) -> Option<Seq<char>> {
    match agent_provider_of(model) {
        ModelProvider::OpenCode => if server_available {
            None
        } else {
            Some("OpenCode server is not available"@)
        },
        _ => if custom_configured {
            None
        } else {
            Some("Custom provider is not configured"@)
        },
    }
}

/// Refuses an agent whose provider is not there.
pub fn ensure_agent_prerequisites(
    model: AgentModel,
    custom_configured: bool,
    server_available: bool,
) -> (result: Result<(), String>)
    ensures
        text::outcome(result) == (match agent_obstacle(model, custom_configured, server_available) {
            Some(message) => Err(message),
            None => Ok(()),
        }),
{
    match agent_provider(model) {
        ModelProvider::OpenCode => if !server_available {
            return Err("OpenCode server is not available".to_owned());
        },
        _ => if !custom_configured {
            return Err("Custom provider is not configured".to_owned());
        },
    }
    Ok(())
}

/// Who answered, with which model, on what.
#[derive(Clone, Copy, Debug)]
pub struct TelemetryIdentity {
    pub provider: telemetry::Provider,
    pub model: &'static str,
    pub inference_provider: telemetry::InferenceProvider,
}

/// The name under which a model is recorded.
pub open spec fn instant_model_name(model: InstantModel) -> Seq<char> {
    match model {
        InstantModel::LocalFast => "gemma-fast"@,
        InstantModel::LocalQuality => "gemma-quality"@,
        InstantModel::CustomSolHigh | InstantModel::OpenCodeSolHigh => "gpt-5.6-sol"@,
        InstantModel::CustomLunaLow | InstantModel::OpenCodeLunaLow => "gpt-5.6-luna"@,
    }
}

/// The name under which a model is recorded.
pub open spec fn agent_model_name(model: AgentModel) -> Seq<char> {
    match model {
        AgentModel::CustomSolHigh | AgentModel::OpenCodeSolHigh => "gpt-5.6-sol"@,
        AgentModel::CustomLunaLow | AgentModel::OpenCodeLunaLow => "gpt-5.6-luna"@,
    }
}

/// A provider as it is recorded.
pub open spec fn recorded_provider(provider: ModelProvider) -> telemetry::Provider {
    match provider {
        ModelProvider::Local => telemetry::Provider::Local,
        ModelProvider::Custom => telemetry::Provider::Custom,
        ModelProvider::OpenCode => telemetry::Provider::OpenCode,
    }
}

fn record_provider(provider: ModelProvider) -> (recorded: telemetry::Provider)
    ensures
        recorded == recorded_provider(provider),
{
    match provider {
        ModelProvider::Local => telemetry::Provider::Local,
        ModelProvider::Custom => telemetry::Provider::Custom,
        ModelProvider::OpenCode => telemetry::Provider::OpenCode,
    }
}

/// What is recorded of a model of the Instant stage.
pub fn instant_telemetry_identity(model: InstantModel) -> (identity: TelemetryIdentity)
    ensures
        identity.provider == recorded_provider(instant_provider_of(model)),
        identity.model@ == instant_model_name(model),
        identity.inference_provider == (if instant_provider_of(model) is Local {
            telemetry::InferenceProvider::AttachedUnknown
        } else {
            telemetry::InferenceProvider::Remote
        }),
{
    let provider = instant_provider(model);
    TelemetryIdentity {
        provider: record_provider(provider),
        model: match model {
            InstantModel::LocalFast => "gemma-fast",
            InstantModel::LocalQuality => "gemma-quality",
            InstantModel::CustomSolHigh | InstantModel::OpenCodeSolHigh => "gpt-5.6-sol",
            InstantModel::CustomLunaLow | InstantModel::OpenCodeLunaLow => "gpt-5.6-luna",
        },
        inference_provider: match provider {
            ModelProvider::Local => telemetry::InferenceProvider::AttachedUnknown,
            _ => telemetry::InferenceProvider::Remote,
        },
    }
}

/// What is recorded of a model of the Deep or Review stage.
pub fn agent_telemetry_identity(model: AgentModel) -> (identity: TelemetryIdentity)
    ensures
        identity.provider == recorded_provider(agent_provider_of(model)),
        identity.model@ == agent_model_name(model),
        identity.inference_provider is Remote,
{
    TelemetryIdentity {
        provider: record_provider(agent_provider(model)),
        model: match model {
            AgentModel::CustomSolHigh | AgentModel::OpenCodeSolHigh => "gpt-5.6-sol",
            AgentModel::CustomLunaLow | AgentModel::OpenCodeLunaLow => "gpt-5.6-luna",
        },
        inference_provider: telemetry::InferenceProvider::Remote,
    }
}

/// Where a request came from.
#[derive(Clone, Copy, Debug, PartialEq, Eq, Structural)]
pub enum CompletionSource {
    Typed,
    Voice,
}

/// Which request a record is about.
#[derive(Clone, Debug)]
pub struct RecordedRequest {
    pub request_id: String,
    pub generation: u64,
    pub source: CompletionSource,
    pub timestamp_ms: u64,
}

/// Whether `record` is the record of one stage.
pub open spec fn stage_recorded(
    record: telemetry::TelemetryMetadata,
    request: RecordedRequest,
    stage: telemetry::Stage,
    identity: TelemetryIdentity,
    running_on: Option<telemetry::InferenceProvider>,
    duration_ms: u64,
    succeeded: bool,
) -> bool {
    &&& record.schema_version == telemetry::SCHEMA_VERSION
    &&& record.timestamp_ms == request.timestamp_ms
    &&& record.request_id@ == request.request_id@
    &&& record.generation == request.generation
    &&& record.input_source == (match request.source {
        CompletionSource::Typed => telemetry::InputSource::Text,
        CompletionSource::Voice => telemetry::InputSource::Voice,
    })
    &&& record.provider == identity.provider
    &&& record.model@ == identity.model@
    &&& record.stage == stage
    &&& record.transport is Http
    &&& record.inference_provider == (match running_on {
        Some(actual) => if identity.provider is Local {
            actual
        } else {
            identity.inference_provider
        },
        None => identity.inference_provider,
    })
    &&& record.speculative_origin is Nobody
    &&& record.input_tokens is None
    &&& record.output_tokens is None
    &&& record.duration_ms == Some(duration_ms)
    &&& record.status == (if succeeded {
        telemetry::Status::Success
    } else {
        telemetry::Status::Error
    })
    &&& record.error_category == (if succeeded {
        telemetry::ErrorCategory::Nothing
    } else {
        telemetry::ErrorCategory::Internal
    })
}

/// The record of one stage. `running_on` says what the local model really runs on, where a local
/// model is loaded.
pub fn assistant_stage_record(
    request: &RecordedRequest,
    stage: telemetry::Stage,
    identity: TelemetryIdentity,
    running_on: Option<telemetry::InferenceProvider>,
    duration_ms: u64,
    succeeded: bool,
) -> (record: telemetry::TelemetryMetadata)
    ensures
        stage_recorded(record, *request, stage, identity, running_on, duration_ms, succeeded),
{
    let inference_provider = match running_on {
        Some(actual) => match identity.provider {
            telemetry::Provider::Local => actual,
            _ => identity.inference_provider,
        },
        None => identity.inference_provider,
    };
    telemetry::TelemetryMetadata {
        schema_version: telemetry::SCHEMA_VERSION,
        timestamp_ms: request.timestamp_ms,
        request_id: request.request_id.as_str().to_owned(),
        generation: request.generation,
        input_source: match request.source {
            CompletionSource::Typed => telemetry::InputSource::Text,
            CompletionSource::Voice => telemetry::InputSource::Voice,
        },
        provider: identity.provider,
        model: identity.model.to_owned(),
        stage,
        transport: telemetry::Transport::Http,
        inference_provider,
        speculative_origin: telemetry::SpeculativeOrigin::Nobody,
        input_tokens: None,
        output_tokens: None,
        duration_ms: Some(duration_ms),
        status: if succeeded {
            telemetry::Status::Success
        } else {
            telemetry::Status::Error
        },
        error_category: if succeeded {
            telemetry::ErrorCategory::Nothing
        } else {
            telemetry::ErrorCategory::Internal
        },
    }
}

/// Where the Deep stage is wanted, it is begun before the Instant stage, which is begun in any
/// case.
pub proof fn law_deep_is_begun_before_instant(deep_enabled: bool)
    ensures
        begun_stages(deep_enabled).last() is Instant,
        begun_stages(deep_enabled).contains(StagePayload::Deep) == deep_enabled,
        deep_enabled ==> begun_stages(deep_enabled)[0] is Deep,
        begun_stages(deep_enabled).no_duplicates(),
{
    if deep_enabled {
        assert(begun_stages(true)[0] == StagePayload::Deep);
    }
}

/// Every model that is recorded has a valid identifier for a name.
pub proof fn law_recorded_model_names_are_identifiers(instant: InstantModel, agent: AgentModel)
    ensures
        telemetry::valid_identifier(instant_model_name(instant)),
        telemetry::valid_identifier(agent_model_name(agent)),
{
    reveal_strlit("gemma-fast");
    reveal_strlit("gemma-quality");
    reveal_strlit("gpt-5.6-sol");
    reveal_strlit("gpt-5.6-luna");
    vstd::utf8::is_ascii_chars_encode_utf8(instant_model_name(instant));
    vstd::utf8::is_ascii_chars_encode_utf8(agent_model_name(agent));
}

/// What is shown of the words is every text in its order, and nothing but texts.
pub proof fn law_visible_words_are_the_texts(before: Seq<EventView>, event: EventView)
    ensures
        visible_text(Seq::<EventView>::empty()).len() == 0,
        event matches EventView::Text { text } ==> visible_text(before.push(event))
            == visible_text(before) + text,
        !(event is Text) ==> visible_text(before.push(event)) == visible_text(before),
{
    assert(before.push(event).drop_last() == before);
    assert(visible_text(before) + Seq::<char>::empty() == visible_text(before));
}

/// The detail of a stage is shown whole where it is short, and as far as it goes otherwise; the
/// stage and how far it is are told as they are.
pub proof fn law_stages_are_told_with_their_details(
    stage: StagePayload,
    status: StageStatusPayload,
    words: Seq<char>,
)
    ensures
        words.len() <= 256 ==> shown_detail(Some(words)) == Some(words),
        words.len() > 256 ==> shown_detail(Some(words)) is Some && shown_detail(Some(words))->0.len()
            == 256 && shown_detail(Some(words))->0.is_prefix_of(words),
        shown_detail(None) is None,
        staged(stage, status, Some(words)) == (EventView::Stage {
            stage,
            status,
            detail: shown_detail(Some(words)),
        }),
        staged(stage, status, None) == (EventView::Stage { stage, status, detail: None }),
{
    assert(words.take(words.len() as int) == words);
    if words.len() > 256 {
        assert(words.take(256) == words.subrange(0, 256));
    }
}

/// A report is shown with its answer, whole, as a correction by the Deep stage, of which the summary
/// is spoken; its sources come first, all of them, where it has any.
pub proof fn law_reports_are_shown_whole(report: ReportView)
    ensures
        ({
            let shown = report.shown();
            let correction = shown.last();
            &&& shown.len() == (if report.sources.len() > 0 {
                2int
            } else {
                1
            })
            &&& report.sources.len() > 0 ==> shown[0] == (EventView::Sources {
                sources: report.sources,
            })
            &&& correction matches EventView::Correction { stage, text, correction }
            &&& stage is Deep
            &&& text == report.complete_answer
            &&& correction == "Correction: "@ + text::trimmed(report.voice_summary)
        }),
{
}

/// Each model is run by the provider that it is named after, and recorded as such.
pub proof fn law_models_are_run_by_their_providers(instant: InstantModel, agent: AgentModel)
    ensures
        instant_provider_of(instant) is Local <==> instant is LocalFast || instant is LocalQuality,
        instant_provider_of(instant) is Custom <==> instant is CustomSolHigh || instant
            is CustomLunaLow,
        instant_provider_of(instant) is OpenCode <==> instant is OpenCodeSolHigh || instant
            is OpenCodeLunaLow,
        agent_provider_of(agent) is Custom <==> agent is CustomSolHigh || agent is CustomLunaLow,
        agent_provider_of(agent) is OpenCode <==> agent is OpenCodeSolHigh || agent
            is OpenCodeLunaLow,
        recorded_provider(ModelProvider::Local) is Local,
        recorded_provider(ModelProvider::Custom) is Custom,
        recorded_provider(ModelProvider::OpenCode) is OpenCode,
        instant is LocalFast ==> instant_model_name(instant) == "gemma-fast"@,
        instant is LocalQuality ==> instant_model_name(instant) == "gemma-quality"@,
        instant is CustomSolHigh || instant is OpenCodeSolHigh ==> instant_model_name(instant)
            == "gpt-5.6-sol"@,
        instant is CustomLunaLow || instant is OpenCodeLunaLow ==> instant_model_name(instant)
            == "gpt-5.6-luna"@,
        agent is CustomSolHigh || agent is OpenCodeSolHigh ==> agent_model_name(agent)
            == "gpt-5.6-sol"@,
        agent is CustomLunaLow || agent is OpenCodeLunaLow ==> agent_model_name(agent)
            == "gpt-5.6-luna"@,
{
}

/// An agent can run exactly where its own provider is there: the other one does not matter.
pub proof fn law_agents_need_their_own_provider(agent: AgentModel, custom: bool, server: bool)
    ensures
        ({
            let hosted = agent is OpenCodeSolHigh || agent is OpenCodeLunaLow;
            let obstacle = agent_obstacle(agent, custom, server);
            &&& hosted ==> (obstacle is None <==> server)
            &&& !hosted ==> (obstacle is None <==> custom)
            &&& hosted && !server ==> obstacle == Some("OpenCode server is not available"@)
            &&& !hosted && !custom ==> obstacle == Some("Custom provider is not configured"@)
        }),
{
}

/// A stage is recorded under its request, its provider and its model, with how long it took and
/// whether it succeeded. What a local model really runs on is recorded where it is known; what
/// somebody else runs is not looked into.
pub proof fn law_stages_are_recorded_as_they_went(
    record: telemetry::TelemetryMetadata,
    request: RecordedRequest,
    stage: telemetry::Stage,
    identity: TelemetryIdentity,
    running_on: Option<telemetry::InferenceProvider>,
    duration_ms: u64,
    succeeded: bool,
)
    requires
        stage_recorded(record, request, stage, identity, running_on, duration_ms, succeeded),
    ensures
        record.request_id@ == request.request_id@,
        record.generation == request.generation,
        record.timestamp_ms == request.timestamp_ms,
        record.input_source is Voice <==> request.source is Voice,
        record.stage == stage,
        record.provider == identity.provider,
        record.model@ == identity.model@,
        record.duration_ms == Some(duration_ms),
        record.status is Success <==> succeeded,
        record.error_category is Nothing <==> succeeded,
        identity.provider is Local && running_on is Some ==> Some(record.inference_provider)
            == running_on,
        !(identity.provider is Local) || running_on is None ==> record.inference_provider
            == identity.inference_provider,
        record.speculative_origin is Nobody,
        record.transport is Http,
        record.input_tokens is None && record.output_tokens is None,
        record.schema_version == 1,
{
}

} // verus!
