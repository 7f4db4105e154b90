//! The start of the application: what it finds out about itself, what it shows of that, and when
//! it is ready for what.

use crate::capabilities;
use crate::capabilities::{
    apply_opencode_startup_failure, configured_capabilities, copy_capabilities,
    disable_local_models, ensure_required_capabilities, failed_capabilities, mark_capability, provide_capability,
    repair_tts_capability, requested_failure_text, resolve_assistant_settings, CapabilityPayload,
    CapabilityStatePayload, CapabilityView,
};
use crate::config;
use crate::config::{model_path_for_profile, ResponseBackendConfig, RuntimeConfig};
use crate::persisted_state;
use crate::persisted_state::{resolve_effective_tts_enabled, resolve_selected_response_profile};
use crate::settings::{AssistantSettingsPayload, ResponseProfilePayload};
use crate::text;
use crate::text::{concat2, concat3};
use crate::tts::LocalTtsRuntime;
use vstd::prelude::*;
use vstd::string::*;

verus! {

broadcast use vstd::string::group_string_axioms;

/// How long a pause ends an utterance where nothing else is configured.
pub const DEFAULT_SILENCE_TIMEOUT_MS: u64 = 1500;

/// What the voice runtime does at the moment.
#[derive(Clone, Copy, Debug, PartialEq, Eq, Structural)]
pub enum RuntimePhasePayload {
    Initializing,
    Sleeping,
    Listening,
    Processing,
    Executing,
    Error,
}

impl RuntimePhasePayload {
    /// The name of the phase.
    pub open spec fn name(self) -> Seq<char> {
        match self {
            RuntimePhasePayload::Initializing => "initializing"@,
            RuntimePhasePayload::Sleeping => "sleeping"@,
            RuntimePhasePayload::Listening => "listening"@,
            RuntimePhasePayload::Processing => "processing"@,
            RuntimePhasePayload::Executing => "executing"@,
            RuntimePhasePayload::Error => "error"@,
        }
    }

    /// The name of the phase.
    pub fn as_str(&self) -> (name: &'static str)
        ensures
            name@ == self.name(),
    {
        match self {
            RuntimePhasePayload::Initializing => "initializing",
            RuntimePhasePayload::Sleeping => "sleeping",
            RuntimePhasePayload::Listening => "listening",
            RuntimePhasePayload::Processing => "processing",
            RuntimePhasePayload::Executing => "executing",
            RuntimePhasePayload::Error => "error",
        }
    }
}

/// The sounds that mark the beginning and the end of listening, as data addresses.
#[derive(Clone, Debug, PartialEq, Eq)]
pub struct CueAssetPathsPayload {
    pub start_listening: String,
    pub stop_listening: String,
}

/// What the user interface learns about the start. `G` is the gain of spoken answers.
#[derive(Clone, Debug)]
pub enum StartupStatePayload<G> {
    WarmingModel {
        cue_asset_paths: CueAssetPathsPayload,
        runtime_phase: RuntimePhasePayload,
        voice_input_available: bool,
        voice_input_error: Option<String>,
        silence_timeout_ms: u64,
        message: String,
        selected_response_profile: ResponseProfilePayload,
        supported_response_profiles: Vec<ResponseProfilePayload>,
        prompt_cancellation_available: bool,
        tts_enabled: bool,
        tts_output_gain_db: G,
        capabilities: Vec<CapabilityPayload>,
    },
    Ready {
        cue_asset_paths: CueAssetPathsPayload,
        runtime_phase: RuntimePhasePayload,
        voice_input_available: bool,
        voice_input_error: Option<String>,
        silence_timeout_ms: u64,
        selected_response_profile: ResponseProfilePayload,
        supported_response_profiles: Vec<ResponseProfilePayload>,
        prompt_cancellation_available: bool,
        tts_enabled: bool,
        tts_output_gain_db: G,
        capabilities: Vec<CapabilityPayload>,
    },
    Error { message: String },
}

/// What a new startup state takes over from the one before it.
#[derive(Clone, Debug)]
pub struct StartupSnapshot<G> {
    pub cue_asset_paths: CueAssetPathsPayload,
    pub voice_input_available: bool,
    pub voice_input_error: Option<String>,
    pub silence_timeout_ms: u64,
    pub tts_enabled: bool,
    pub tts_output_gain_db: G,
    pub supported_response_profiles: Vec<ResponseProfilePayload>,
    pub capabilities: Vec<CapabilityPayload>,
}

/// What a startup state says, by its contents.
#[verifier::ext_equal]
pub struct StartupFacts<G> {
    pub start_cue: Seq<char>,
    pub stop_cue: Seq<char>,
    pub runtime_phase: RuntimePhasePayload,
    pub voice_input_available: bool,
    pub voice_input_error: Option<Seq<char>>,
    pub silence_timeout_ms: u64,
    pub selected_response_profile: ResponseProfilePayload,
    pub supported_response_profiles: Seq<ResponseProfilePayload>,
    pub prompt_cancellation_available: bool,
    pub tts_enabled: bool,
    pub tts_output_gain_db: G,
    pub capabilities: Seq<CapabilityView>,
}

/// A startup state by its contents.
#[verifier::ext_equal]
pub enum StartupView<G> {
    WarmingModel { facts: StartupFacts<G>, message: Seq<char> },
    Ready { facts: StartupFacts<G> },
    Error { message: Seq<char> },
}

impl<G> View for StartupStatePayload<G> {
    type V = StartupView<G>;

    open spec fn view(&self) -> StartupView<G> {
        match *self {
            StartupStatePayload::WarmingModel {
                cue_asset_paths,
                runtime_phase,
                voice_input_available,
                voice_input_error,
                silence_timeout_ms,
                message,
                selected_response_profile,
                supported_response_profiles,
                prompt_cancellation_available,
                tts_enabled,
                tts_output_gain_db,
                capabilities,
            } => StartupView::WarmingModel {
                facts: StartupFacts {
                    start_cue: cue_asset_paths.start_listening@,
                    stop_cue: cue_asset_paths.stop_listening@,
                    runtime_phase,
                    voice_input_available,
                    voice_input_error: text::optional_text(voice_input_error),
                    silence_timeout_ms,
                    selected_response_profile,
                    supported_response_profiles: supported_response_profiles@,
                    prompt_cancellation_available,
                    tts_enabled,
                    tts_output_gain_db,
                    capabilities: capabilities::views(capabilities@),
                },
                message: message@,
            },
            StartupStatePayload::Ready {
                cue_asset_paths,
                runtime_phase,
                voice_input_available,
                voice_input_error,
                silence_timeout_ms,
                selected_response_profile,
                supported_response_profiles,
                prompt_cancellation_available,
                tts_enabled,
                tts_output_gain_db,
                capabilities,
            } => StartupView::Ready {
                facts: StartupFacts {
                    start_cue: cue_asset_paths.start_listening@,
                    stop_cue: cue_asset_paths.stop_listening@,
                    runtime_phase,
                    voice_input_available,
                    voice_input_error: text::optional_text(voice_input_error),
                    silence_timeout_ms,
                    selected_response_profile,
                    supported_response_profiles: supported_response_profiles@,
                    prompt_cancellation_available,
                    tts_enabled,
                    tts_output_gain_db,
                    capabilities: capabilities::views(capabilities@),
                },
            },
            StartupStatePayload::Error { message } => StartupView::Error { message: message@ },
        }
    }
}

impl<G> StartupView<G> {
    /// The state with other facts; a failed start has none.
    pub open spec fn with_facts(self, facts: StartupFacts<G>) -> StartupView<G> {
        match self {
            StartupView::WarmingModel { message, .. } => StartupView::WarmingModel {
                facts,
                message,
            },
            StartupView::Ready { .. } => StartupView::Ready { facts },
            StartupView::Error { message } => StartupView::Error { message },
        }
    }

    /// What the state says; arbitrary for a failed start.
    pub open spec fn facts(self) -> StartupFacts<G> {
        match self {
            StartupView::WarmingModel { facts, .. } => facts,
            StartupView::Ready { facts } => facts,
            StartupView::Error { .. } => arbitrary(),
        }
    }

    /// The state with other capabilities.
    pub open spec fn with_capabilities(self, capabilities: Seq<CapabilityView>) -> StartupView<G> {
        self.with_facts(StartupFacts { capabilities, ..self.facts() })
    }
}

/// A copy of an optional text.
pub fn copy_text(value: &Option<String>) -> (copy: Option<String>)
    ensures
        copy == *value,
{
    match value {
        Some(present) => Some(present.clone()),
        None => None,
    }
}

fn copy_cues(cues: &CueAssetPathsPayload) -> (copy: CueAssetPathsPayload)
    ensures
        copy == *cues,
{
    CueAssetPathsPayload {
        start_listening: cues.start_listening.clone(),
        stop_listening: cues.stop_listening.clone(),
    }
}

/// A copy of a list of profiles.
pub fn copy_profiles(profiles: &Vec<ResponseProfilePayload>) -> (copy: Vec<ResponseProfilePayload>)
    ensures
        copy@ == profiles@,
{
    let mut copy: Vec<ResponseProfilePayload> = Vec::new();
    let mut i: usize = 0;
    while i < profiles.len()
        invariant
            i <= profiles.len(),
            copy@ == profiles@.take(i as int),
        decreases profiles.len() - i,
    {
        copy.push(profiles[i]);
        i += 1;
    }
    copy
}

/// Shows whether spoken answers are on.
pub fn set_startup_tts_enabled<G>(startup_state: &mut StartupStatePayload<G>, enabled: bool)
    ensures
        final(startup_state)@ == old(startup_state)@.with_facts(
            StartupFacts { tts_enabled: enabled, ..old(startup_state)@.facts() },
        ),
{
    match startup_state {
        StartupStatePayload::WarmingModel { tts_enabled, .. } => {
            *tts_enabled = enabled;
        },
        StartupStatePayload::Ready { tts_enabled, .. } => {
            *tts_enabled = enabled;
        },
        StartupStatePayload::Error { .. } => {},
    }
}

/// Shows that a capability has failed.
pub fn fail_startup_capability<G>(
    startup_state: &mut StartupStatePayload<G>,
    capability_id: &str,
    reason: String,
)
    ensures
        final(startup_state)@ == old(startup_state)@.with_capabilities(
            capabilities::marked(
                old(startup_state)@.facts().capabilities,
                capability_id@,
                CapabilityStatePayload::Failed,
                reason@,
                None,
            ),
        ),
{
    match startup_state {
        StartupStatePayload::WarmingModel { capabilities, .. } => {
            mark_capability(capabilities, capability_id, CapabilityStatePayload::Failed, reason);
        },
        StartupStatePayload::Ready { capabilities, .. } => {
            mark_capability(capabilities, capability_id, CapabilityStatePayload::Failed, reason);
        },
        StartupStatePayload::Error { .. } => {},
    }
}

/// Shows what a capability runs on.
pub fn set_startup_capability_provider<G>(
    startup_state: &mut StartupStatePayload<G>,
    capability_id: &str,
    actual_provider: &'static str,
)
    ensures
        final(startup_state)@ == old(startup_state)@.with_capabilities(
            capabilities::provided(
                old(startup_state)@.facts().capabilities,
                capability_id@,
                actual_provider@,
            ),
        ),
{
    match startup_state {
        StartupStatePayload::WarmingModel { capabilities, .. } => {
            provide_capability(capabilities, capability_id, actual_provider);
        },
        StartupStatePayload::Ready { capabilities, .. } => {
            provide_capability(capabilities, capability_id, actual_provider);
        },
        StartupStatePayload::Error { .. } => {},
    }
}

/// The facts of a state in which a profile runs.
pub open spec fn ready_facts<G>(
    snapshot: StartupSnapshot<G>,
    profile: ResponseProfilePayload,
    capabilities: Seq<CapabilityView>,
) -> StartupFacts<G> {
    StartupFacts {
        start_cue: snapshot.cue_asset_paths.start_listening@,
        stop_cue: snapshot.cue_asset_paths.stop_listening@,
        runtime_phase: RuntimePhasePayload::Sleeping,
        voice_input_available: snapshot.voice_input_available,
        voice_input_error: text::optional_text(snapshot.voice_input_error),
        silence_timeout_ms: snapshot.silence_timeout_ms,
        selected_response_profile: profile,
        supported_response_profiles: snapshot.supported_response_profiles@,
        prompt_cancellation_available: true,
        tts_enabled: snapshot.tts_enabled,
        tts_output_gain_db: snapshot.tts_output_gain_db,
        capabilities,
    }
}

/// The state in which a profile runs.
pub fn startup_ready_state_from_snapshot<G: Copy>(
    startup_snapshot: &StartupSnapshot<G>,
    selected_response_profile: ResponseProfilePayload,
) -> (state: StartupStatePayload<G>)
    ensures
        state@ == (StartupView::Ready {
            facts: ready_facts(
                *startup_snapshot,
                selected_response_profile,
                capabilities::views(startup_snapshot.capabilities@),
            ),
        }),
{
    StartupStatePayload::Ready {
        cue_asset_paths: copy_cues(&startup_snapshot.cue_asset_paths),
        runtime_phase: RuntimePhasePayload::Sleeping,
        voice_input_available: startup_snapshot.voice_input_available,
        voice_input_error: copy_text(&startup_snapshot.voice_input_error),
        silence_timeout_ms: startup_snapshot.silence_timeout_ms,
        selected_response_profile,
        supported_response_profiles: copy_profiles(&startup_snapshot.supported_response_profiles),
        prompt_cancellation_available: true,
        tts_enabled: startup_snapshot.tts_enabled,
        tts_output_gain_db: startup_snapshot.tts_output_gain_db,
        capabilities: copy_capabilities(&startup_snapshot.capabilities),
    }
}

/// Whether a snapshot holds what a startup state says.
pub open spec fn snapshot_of<G>(
    snapshot: StartupSnapshot<G>,
    facts: StartupFacts<G>,
    supported: Seq<ResponseProfilePayload>,
) -> bool {
    &&& snapshot.cue_asset_paths.start_listening@ == facts.start_cue
    &&& snapshot.cue_asset_paths.stop_listening@ == facts.stop_cue
    &&& snapshot.voice_input_available == facts.voice_input_available
    &&& text::optional_text(snapshot.voice_input_error) == facts.voice_input_error
    &&& snapshot.silence_timeout_ms == facts.silence_timeout_ms
    &&& snapshot.tts_enabled == facts.tts_enabled
    &&& snapshot.tts_output_gain_db == facts.tts_output_gain_db
    &&& snapshot.supported_response_profiles@ == supported
    &&& capabilities::views(snapshot.capabilities@) == facts.capabilities
}

/// What a switch of the profile takes over from the startup state; after a failed start there is
/// nothing to take over.
pub fn startup_snapshot_for_profile_switch<G: Copy>(
    startup_state: &StartupStatePayload<G>,
    profile: ResponseProfilePayload,
    supported_response_profiles: Vec<ResponseProfilePayload>,
) -> (result: Result<StartupSnapshot<G>, String>)
    ensures
        match result {
            Ok(snapshot) => {
                &&& !(startup_state@ is Error)
                &&& snapshot_of(snapshot, startup_state@.facts(), supported_response_profiles@)
            },
            Err(message) => {
                &&& startup_state@ is Error
                &&& message@ == "cannot switch response profile `"@ + profile.name()
                    + "` while startup is in error"@
            },
        },
{
    match startup_state {
        StartupStatePayload::WarmingModel {
            cue_asset_paths,
            voice_input_available,
            voice_input_error,
            silence_timeout_ms,
            tts_enabled,
            tts_output_gain_db,
            capabilities,
            ..
        } => Ok(
            StartupSnapshot {
                cue_asset_paths: copy_cues(cue_asset_paths),
                voice_input_available: *voice_input_available,
                voice_input_error: copy_text(voice_input_error),
                silence_timeout_ms: *silence_timeout_ms,
                tts_enabled: *tts_enabled,
                tts_output_gain_db: *tts_output_gain_db,
                supported_response_profiles,
                capabilities: copy_capabilities(capabilities),
            },
        ),
        StartupStatePayload::Ready {
            cue_asset_paths,
            voice_input_available,
            voice_input_error,
            silence_timeout_ms,
            tts_enabled,
            tts_output_gain_db,
            capabilities,
            ..
        } => Ok(
            StartupSnapshot {
                cue_asset_paths: copy_cues(cue_asset_paths),
                voice_input_available: *voice_input_available,
                voice_input_error: copy_text(voice_input_error),
                silence_timeout_ms: *silence_timeout_ms,
                tts_enabled: *tts_enabled,
                tts_output_gain_db: *tts_output_gain_db,
                supported_response_profiles,
                capabilities: copy_capabilities(capabilities),
            },
        ),
        StartupStatePayload::Error { .. } => Err(
            concat3(
                "cannot switch response profile `",
                profile.as_str(),
                "` while startup is in error",
            ),
        ),
    }
}

/// The capabilities after neither the profile that was asked for nor the one before it could be
/// started.
pub open spec fn unrestored(
    capabilities: Seq<CapabilityView>,
    requested: ResponseProfilePayload,
    restored: ResponseProfilePayload,
    startup_error: Seq<char>,
    restore_error: Seq<char>,
) -> Seq<CapabilityView> {
    let failed = CapabilityStatePayload::Failed;
    if requested == restored {
        capabilities::marked(
            capabilities,
            requested.local_capability(),
            failed,
            capabilities::requested_failure(requested, startup_error) + "; retry failed: "@
                + restore_error,
            None,
        )
    } else {
        capabilities::marked(
            capabilities::marked(
                capabilities,
                requested.local_capability(),
                failed,
                capabilities::requested_failure(requested, startup_error),
                None,
            ),
            restored.local_capability(),
            failed,
            "failed to restore previous "@ + restored.name() + " profile: "@ + restore_error,
            None,
        )
    }
}

/// The state after neither the profile that was asked for nor the one before it could be started:
/// the application stays usable, and the local capabilities say what happened.
pub fn startup_state_after_profile_restore_failure<G: Copy>(
    startup_snapshot: &StartupSnapshot<G>,
    requested: ResponseProfilePayload,
    restored: ResponseProfilePayload,
    startup_error: &str,
    restore_error: &str,
) -> (state: StartupStatePayload<G>)
    ensures
        state@ == (StartupView::Ready {
            facts: ready_facts(
                *startup_snapshot,
                restored,
                unrestored(
                    capabilities::views(startup_snapshot.capabilities@),
                    requested,
                    restored,
                    startup_error@,
                    restore_error@,
                ),
            ),
        }),
{
    let mut changed = copy_capabilities(&startup_snapshot.capabilities);
    let mut reason = requested_failure_text(requested, startup_error);
    if requested == restored {
        reason.append("; retry failed: ");
        reason.append(restore_error);
    }
    mark_capability(
        &mut changed,
        requested.local_capability_id(),
        CapabilityStatePayload::Failed,
        reason,
    );
    if requested != restored {
        let mut restore_reason = concat3(
            "failed to restore previous ",
            restored.as_str(),
            " profile: ",
        );
        restore_reason.append(restore_error);
        mark_capability(
            &mut changed,
            restored.local_capability_id(),
            CapabilityStatePayload::Failed,
            restore_reason,
        );
    }
    StartupStatePayload::Ready {
        cue_asset_paths: copy_cues(&startup_snapshot.cue_asset_paths),
        runtime_phase: RuntimePhasePayload::Sleeping,
        voice_input_available: startup_snapshot.voice_input_available,
        voice_input_error: copy_text(&startup_snapshot.voice_input_error),
        silence_timeout_ms: startup_snapshot.silence_timeout_ms,
        selected_response_profile: restored,
        supported_response_profiles: copy_profiles(&startup_snapshot.supported_response_profiles),
        prompt_cancellation_available: true,
        tts_enabled: startup_snapshot.tts_enabled,
        tts_output_gain_db: startup_snapshot.tts_output_gain_db,
        capabilities: changed,
    }
}

/// Whether a prompt is accepted.
pub open spec fn prompt_admission<G>(state: StartupView<G>) -> Result<(), Seq<char>> {
    match state {
        StartupView::Ready { .. } => Ok(()),
        StartupView::WarmingModel { .. } => Err("local Gemma model is still warming up"@),
        StartupView::Error { message } => Err("startup error: "@ + message),
    }
}

/// Accepts a prompt once the start is complete.
pub fn ensure_startup_ready_for_prompt<G>(startup_state: &StartupStatePayload<G>) -> (result:
    Result<(), String>)
    ensures
        text::outcome(result) == prompt_admission(startup_state@),
{
    match startup_state {
        StartupStatePayload::Ready { .. } => Ok(()),
        StartupStatePayload::WarmingModel { .. } => Err(
            "local Gemma model is still warming up".to_owned(),
        ),
        StartupStatePayload::Error { message } => Err(
            concat2("startup error: ", message.as_str()),
        ),
    }
}

/// Whether a switch of the profile is accepted, as far as the start decides that.
pub open spec fn switch_admission<G>(state: StartupView<G>) -> Result<(), Seq<char>> {
    match state {
        StartupView::Ready { .. } => Ok(()),
        StartupView::WarmingModel { .. } => Err(
            "response backend is busy; wait for the active operation to finish"@,
        ),
        StartupView::Error { message } => Err("startup error: "@ + message),
    }
}

/// Accepts a switch of the profile once the start is complete.
pub fn ensure_startup_ready_for_profile_switch<G>(startup_state: &StartupStatePayload<G>) -> (
    result: Result<(), String>)
    ensures
        text::outcome(result) == switch_admission(startup_state@),
{
    match startup_state {
        StartupStatePayload::Ready { .. } => Ok(()),
        StartupStatePayload::WarmingModel { .. } => Err(
            "response backend is busy; wait for the active operation to finish".to_owned(),
        ),
        StartupStatePayload::Error { message } => Err(
            concat2("startup error: ", message.as_str()),
        ),
    }
}

/// Whether a switch of the profile is accepted, as far as the voice runtime decides that.
pub open spec fn idle_admission(phase: RuntimePhasePayload) -> Result<(), Seq<char>> {
    if phase is Sleeping {
        Ok(())
    } else {
        Err(
            "response profile switch is only allowed while runtime is sleeping; current phase is "@
                + phase.name(),
        )
    }
}

/// Accepts a switch of the profile while the voice runtime sleeps.
pub fn ensure_response_profile_switch_runtime_is_idle(runtime_phase: RuntimePhasePayload) -> (
    result: Result<(), String>)
    ensures
        text::outcome(result) == idle_admission(runtime_phase),
{
    if runtime_phase != RuntimePhasePayload::Sleeping {
        return Err(
            concat2(
                "response profile switch is only allowed while runtime is sleeping; current phase is ",
                runtime_phase.as_str(),
            ),
        );
    }
    Ok(())
}

/// Why an update cannot be installed now, where it cannot.
pub open spec fn installation_busy(
    startup_ready: bool,
    phase: RuntimePhasePayload,
    active_prompt: bool,
    response_operation_busy: bool,
    tts_operation_busy: bool,
) -> Option<Seq<char>> {
    if startup_ready && phase is Sleeping && !active_prompt && !response_operation_busy
        && !tts_operation_busy {
        None
    } else {
        Some("Update installation requires VoxGolem to be idle."@)
    }
}

/// Why an update cannot be installed now, where it cannot: everything has to be idle.
pub fn update_installation_busy_reason(
    startup_ready: bool,
    runtime_phase: RuntimePhasePayload,
    active_prompt: bool,
    response_operation_busy: bool,
    tts_operation_busy: bool,
) -> (reason: Option<&'static str>)
    ensures
        text::optional_str(reason) == installation_busy(
            startup_ready,
            runtime_phase,
            active_prompt,
            response_operation_busy,
            tts_operation_busy,
        ),
{
    if !startup_ready || runtime_phase != RuntimePhasePayload::Sleeping || active_prompt
        || response_operation_busy || tts_operation_busy {
        Some("Update installation requires VoxGolem to be idle.")
    } else {
        None
    }
}

/// Accepts the installation of an update while everything is idle.
pub fn ensure_update_installation_is_idle<G>(
    startup_state: &StartupStatePayload<G>,
    runtime_phase: RuntimePhasePayload,
    active_prompt: bool,
    response_operation_busy: bool,
    tts_operation_busy: bool,
) -> (result: Result<(), String>)
    ensures
        text::outcome(result) == (match installation_busy(
            startup_state@ is Ready,
            runtime_phase,
            active_prompt,
            response_operation_busy,
            tts_operation_busy,
        ) {
            None => Ok(()),
            Some(reason) => Err(reason),
        }),
{
    let startup_ready = matches!(startup_state, StartupStatePayload::Ready { .. });
    match update_installation_busy_reason(
        startup_ready,
        runtime_phase,
        active_prompt,
        response_operation_busy,
        tts_operation_busy,
    ) {
        Some(reason) => Err(reason.to_owned()),
        None => Ok(()),
    }
}

/// The system prompt that a file holds.
pub open spec fn held_prompt(shown_path: Seq<char>, contents: Seq<char>) -> Result<
    Seq<char>,
    Seq<char>,
> {
    if text::trimmed(contents).len() == 0 {
        Err(shown_path + " is empty"@)
    } else {
        Ok(text::trimmed(contents))
    }
}

/// The system prompt that a file holds: its text without white space around it.
pub fn llama_cpp_system_prompt(shown_path: &str, contents: &str) -> (result: Result<
    String,
    String,
>)
    ensures
        text::text_outcome(result) == held_prompt(shown_path@, contents@),
{
    let prompt = text::trim(contents);
    if prompt.is_empty() {
        return Err(concat2(shown_path, " is empty"));
    }
    Ok(prompt.to_owned())
}

/// How the start of an optional runtime went.
pub enum RuntimeLoad {
    Absent,
    Started,
    Failed(String),
}

/// What was found out about the machine while the application started.
pub struct StartupFindings<G> {
    pub cue_asset_paths: CueAssetPathsPayload,
    pub silence_timeout_ms: u64,
    pub tts_output_gain_db: G,
    pub tts_enabled_by_default: bool,
    pub persisted_profile: Option<ResponseProfilePayload>,
    pub persisted_settings: Option<AssistantSettingsPayload>,
    pub persisted_tts_enabled: Option<bool>,
    pub wake_word_started: bool,
    pub parakeet: RuntimeLoad,
    pub voice_activity: RuntimeLoad,
    pub system_prompt: Result<String, String>,
    pub on_windows: bool,
}

/// What the application starts with.
pub struct StartupPlan<G> {
    pub startup_state: StartupStatePayload<G>,
    pub selected_profile: ResponseProfilePayload,
    pub profile_must_be_stored: bool,
    pub settings: AssistantSettingsPayload,
    pub settings_must_be_stored: bool,
    pub supported_profiles: Vec<ResponseProfilePayload>,
    pub effective_tts_enabled: bool,
    pub voice_input_available: bool,
    pub system_prompt: Option<String>,
    pub local_model: Option<String>,
}

/// The reasons for which there is no voice input, one per line.
pub open spec fn voice_errors<G>(findings: StartupFindings<G>) -> Option<Seq<char>> {
    let parakeet = match findings.parakeet {
        RuntimeLoad::Failed(error) => Some(
            "failed to initialize parakeet transcriber: "@ + error@,
        ),
        _ => None,
    };
    let activity = match findings.voice_activity {
        RuntimeLoad::Failed(error) => joined_line(
            parakeet,
            "failed to initialize voice activity detector: "@ + error@,
        ),
        _ => parakeet,
    };
    if findings.wake_word_started {
        activity
    } else {
        joined_line(activity, "wake word runtime is unavailable"@)
    }
}

/// A text with one more line.
pub open spec fn joined_line(before: Option<Seq<char>>, line: Seq<char>) -> Option<Seq<char>> {
    match before {
        Some(text) => Some(text + "\n"@ + line),
        None => Some(line),
    }
}

fn push_line(before: &mut Option<String>, line: &str)
    ensures
        text::optional_text(*final(before)) == joined_line(
            text::optional_text(*old(before)),
            line@,
        ),
{
    match before.take() {
        Some(mut lines) => {
            lines.append("\n");
            lines.append(line);
            *before = Some(lines);
        },
        None => {
            *before = Some(line.to_owned());
        },
    }
}

/// The capabilities once the voice runtimes were started.
pub open spec fn started_capabilities<G>(config: RuntimeConfig, findings: StartupFindings<G>) -> Seq<
    CapabilityView,
> {
    let failed = CapabilityStatePayload::Failed;
    let initial = capabilities::initial_capabilities(config, findings.on_windows);
    let wake = if config.wake_word_model.present && !findings.wake_word_started {
        capabilities::marked(
            initial,
            "wake_word"@,
            failed,
            "wake word runtime failed to initialize"@,
            None,
        )
    } else {
        initial
    };
    let speech = if tts_wanted(config, findings) {
        capabilities::marked(
            wake,
            "tts"@,
            CapabilityStatePayload::Warming,
            "TTS runtime is warming up"@,
            None,
        )
    } else {
        wake
    };
    let parakeet = if config.parakeet_model_dir.present && !(findings.parakeet is Started) {
        capabilities::marked(
            speech,
            "parakeet"@,
            failed,
            "Parakeet runtime failed to initialize"@,
            None,
        )
    } else {
        speech
    };
    if config.silero_vad_model.present && !(findings.voice_activity is Started) {
        capabilities::marked(parakeet, "vad"@, failed, "VAD runtime failed to initialize"@, None)
    } else {
        parakeet
    }
}

/// Whether spoken answers are to be started.
pub open spec fn tts_wanted<G>(config: RuntimeConfig, findings: StartupFindings<G>) -> bool {
    config.tts_model.present && (match findings.persisted_tts_enabled {
        Some(stored) => stored,
        None => findings.tts_enabled_by_default,
    })
}

/// Whether voice input can be used.
pub open spec fn voice_available<G>(findings: StartupFindings<G>) -> bool {
    findings.wake_word_started && findings.parakeet is Started && findings.voice_activity
        is Started
}

/// The profile to start with.
pub open spec fn starting_profile<G>(config: RuntimeConfig, findings: StartupFindings<G>) -> ResponseProfilePayload {
    persisted_state::resolved_profile(
        config::profiles_of(config.response_backend),
        findings.persisted_profile,
    )
}

/// The local model to load: that of the profile, or the fast one where that has none; none where
/// answers come from elsewhere, or where the local server, its fast model or the system prompt is
/// missing.
pub open spec fn starting_model<G>(config: RuntimeConfig, findings: StartupFindings<G>) -> Option<
    Seq<char>,
> {
    match config.response_backend {
        ResponseBackendConfig::LlamaCpp { fast_model_path, quality_model_path, .. } => if findings.system_prompt
            is Ok && capabilities::available(
            started_capabilities(config, findings),
            "local_fast"@,
        ) {
            Some(
                if starting_profile(config, findings) is Quality && quality_model_path is Some {
                    quality_model_path->0@
                } else {
                    fast_model_path@
                },
            )
        } else {
            None
        },
        _ => None,
    }
}

/// What the user interface learns first: a local model has to be loaded where there is one to
/// load, and everything else is ready at once. Without a system prompt no local model answers.
pub open spec fn starting_view<G>(config: RuntimeConfig, findings: StartupFindings<G>) -> StartupView<
    G,
> {
    let profile = starting_profile(config, findings);
    let caps = started_capabilities(config, findings);
    let facts = StartupFacts {
        start_cue: findings.cue_asset_paths.start_listening@,
        stop_cue: findings.cue_asset_paths.stop_listening@,
        runtime_phase: RuntimePhasePayload::Sleeping,
        voice_input_available: voice_available(findings),
        voice_input_error: voice_errors(findings),
        silence_timeout_ms: findings.silence_timeout_ms,
        selected_response_profile: profile,
        supported_response_profiles: config::profiles_of(config.response_backend),
        prompt_cancellation_available: true,
        tts_enabled: false,
        tts_output_gain_db: findings.tts_output_gain_db,
        capabilities: caps,
    };
    if !(config.response_backend is LlamaCpp) {
        StartupView::Ready { facts }
    } else if starting_model(config, findings) is Some {
        StartupView::WarmingModel {
            facts: StartupFacts {
                runtime_phase: RuntimePhasePayload::Initializing,
                prompt_cancellation_available: false,
                capabilities: capabilities::marked(
                    caps,
                    profile.local_capability(),
                    CapabilityStatePayload::Warming,
                    "local model is loading"@,
                    None,
                ),
                ..facts
            },
            message: "Loading local Gemma model..."@,
        }
    } else {
        StartupView::Ready {
            facts: StartupFacts {
                supported_response_profiles: seq![],
                capabilities: match findings.system_prompt {
                    Ok(_) => caps,
                    Err(error) => capabilities::without_local_models(
                        caps,
                        "failed to load SOUL.md: "@ + error@,
                    ),
                },
                ..facts
            },
        }
    }
}

/// What the application starts with, given its configuration and what it found out about the
/// machine.
pub fn build_app_state<G: Copy>(config: &RuntimeConfig, findings: StartupFindings<G>) -> (plan:
    StartupPlan<G>)
    ensures
        plan.startup_state@ == starting_view(*config, findings),
        plan.selected_profile == starting_profile(*config, findings),
        plan.profile_must_be_stored == (findings.persisted_profile != Some(
            plan.selected_profile,
        )),
        plan.settings == capabilities::resolved_settings(
            config.response_backend,
            capabilities::initial_capabilities(*config, findings.on_windows),
            plan.selected_profile,
            findings.persisted_settings,
        ),
        plan.settings_must_be_stored == (findings.persisted_settings != Some(plan.settings)),
        plan.supported_profiles@ == config::profiles_of(config.response_backend),
        plan.effective_tts_enabled == tts_wanted(*config, findings),
        plan.voice_input_available == voice_available(findings),
        plan.system_prompt == (if config.response_backend is LlamaCpp && findings.system_prompt
            is Ok {
            Some(findings.system_prompt->Ok_0)
        } else {
            None
        }),
        text::optional_text(plan.local_model) == starting_model(*config, findings),
{
    let ghost given = findings;
    let mut capabilities = configured_capabilities(config, findings.on_windows);
    let supported_profiles = config::supported_response_profiles(&config.response_backend);
    let (selected_profile, profile_must_be_stored) = resolve_selected_response_profile(
        supported_profiles.as_slice(),
        findings.persisted_profile,
    );
    let (settings, settings_must_be_stored) = resolve_assistant_settings(
        &config.response_backend,
        &capabilities,
        selected_profile,
        findings.persisted_settings,
    );
    if config.wake_word_model.present && !findings.wake_word_started {
        mark_capability(
            &mut capabilities,
            "wake_word",
            CapabilityStatePayload::Failed,
            "wake word runtime failed to initialize".to_owned(),
        );
    }
    let effective_tts_enabled = resolve_effective_tts_enabled(
        findings.tts_enabled_by_default,
        config.tts_model.present,
        findings.persisted_tts_enabled,
    );
    if effective_tts_enabled {
        mark_capability(
            &mut capabilities,
            "tts",
            CapabilityStatePayload::Warming,
            "TTS runtime is warming up".to_owned(),
        );
    }
    let mut voice_input_error: Option<String> = None;
    let parakeet_started = matches!(findings.parakeet, RuntimeLoad::Started);
    if let RuntimeLoad::Failed(error) = &findings.parakeet {
        push_line(
            &mut voice_input_error,
            concat2("failed to initialize parakeet transcriber: ", error.as_str()).as_str(),
        );
    }
    let activity_started = matches!(findings.voice_activity, RuntimeLoad::Started);
    if let RuntimeLoad::Failed(error) = &findings.voice_activity {
        push_line(
            &mut voice_input_error,
            concat2("failed to initialize voice activity detector: ", error.as_str()).as_str(),
        );
    }
    if config.parakeet_model_dir.present && !parakeet_started {
        mark_capability(
            &mut capabilities,
            "parakeet",
            CapabilityStatePayload::Failed,
            "Parakeet runtime failed to initialize".to_owned(),
        );
    }
    if config.silero_vad_model.present && !activity_started {
        mark_capability(
            &mut capabilities,
            "vad",
            CapabilityStatePayload::Failed,
            "VAD runtime failed to initialize".to_owned(),
        );
    }
    let voice_input_available = findings.wake_word_started && parakeet_started && activity_started;
    if !findings.wake_word_started {
        push_line(&mut voice_input_error, "wake word runtime is unavailable");
    }
    let mut system_prompt: Option<String> = None;
    let mut local_model: Option<String> = None;
    let mut shown_profiles = copy_profiles(&supported_profiles);
    if let ResponseBackendConfig::LlamaCpp { fast_model_path, quality_model_path, .. } =
        &config.response_backend {
        match findings.system_prompt {
            Err(error) => {
                let reason = concat2("failed to load SOUL.md: ", error.as_str());
                disable_local_models(&mut capabilities, reason.as_str());
                shown_profiles = Vec::new();
            },
            Ok(prompt) => {
                system_prompt = Some(prompt);
                if capabilities::capability_available(&capabilities, "local_fast") {
                    let quality: Option<&str> = match quality_model_path {
                        Some(path) => Some(path.as_str()),
                        None => None,
                    };
                    local_model =
                    Some(
                        match model_path_for_profile(
                            selected_profile,
                            fast_model_path.as_str(),
                            quality,
                        ) {
                            Ok(path) => path.to_owned(),
                            Err(_) => fast_model_path.clone(),
                        },
                    );
                } else {
                    shown_profiles = Vec::new();
                }
            },
        }
    }
    let startup_state = if local_model.is_some() {
        mark_capability(
            &mut capabilities,
            selected_profile.local_capability_id(),
            CapabilityStatePayload::Warming,
            "local model is loading".to_owned(),
        );
        StartupStatePayload::WarmingModel {
            cue_asset_paths: findings.cue_asset_paths,
            runtime_phase: RuntimePhasePayload::Initializing,
            voice_input_available,
            voice_input_error,
            silence_timeout_ms: findings.silence_timeout_ms,
            message: "Loading local Gemma model...".to_owned(),
            selected_response_profile: selected_profile,
            supported_response_profiles: shown_profiles,
            prompt_cancellation_available: false,
            tts_enabled: false,
            tts_output_gain_db: findings.tts_output_gain_db,
            capabilities,
        }
    } else {
        StartupStatePayload::Ready {
            cue_asset_paths: findings.cue_asset_paths,
            runtime_phase: RuntimePhasePayload::Sleeping,
            voice_input_available,
            voice_input_error,
            silence_timeout_ms: findings.silence_timeout_ms,
            selected_response_profile: selected_profile,
            supported_response_profiles: shown_profiles,
            prompt_cancellation_available: true,
            tts_enabled: false,
            tts_output_gain_db: findings.tts_output_gain_db,
            capabilities,
        }
    };
    proof {
        assert(startup_state@ == starting_view(*config, given));
    }
    StartupPlan {
        startup_state,
        selected_profile,
        profile_must_be_stored,
        settings,
        settings_must_be_stored,
        supported_profiles,
        effective_tts_enabled,
        voice_input_available,
        system_prompt,
        local_model,
    }
}

/// The state once loading the local model has ended, unless the profile was switched meanwhile or
/// the start has failed.
pub open spec fn loaded_view<G>(
    state: StartupView<G>,
    captured: StartupSnapshot<G>,
    profile: ResponseProfilePayload,
    loaded: Result<Seq<char>, Seq<char>>,
    still_wanted: bool,
) -> StartupView<G> {
    if !still_wanted || state is Error {
        state
    } else {
        let caps = match loaded {
            Ok(provider) => capabilities::provided(
                state.facts().capabilities,
                profile.local_capability(),
                provider,
            ),
            Err(error) => capabilities::marked(
                state.facts().capabilities,
                profile.local_capability(),
                CapabilityStatePayload::Failed,
                "failed to initialize local llama.cpp runtime: "@ + error,
                None,
            ),
        };
        StartupView::Ready {
            facts: StartupFacts {
                tts_enabled: state.facts().tts_enabled,
                supported_response_profiles: if loaded is Ok {
                    captured.supported_response_profiles@
                } else {
                    seq![]
                },
                ..ready_facts(captured, profile, caps)
            },
        }
    }
}

/// Shows that loading the local model has ended. `still_wanted` says whether the profile is still
/// the one that was asked for.
pub fn conclude_local_model_start<G: Copy>(
    startup_state: &mut StartupStatePayload<G>,
    captured: &StartupSnapshot<G>,
    profile: ResponseProfilePayload,
    loaded: Result<&'static str, String>,
    still_wanted: bool,
)
    ensures
        final(startup_state)@ == loaded_view(
            old(startup_state)@,
            *captured,
            profile,
            match loaded {
                Ok(provider) => Ok(provider@),
                Err(error) => Err(error@),
            },
            still_wanted,
        ),
{
    if !still_wanted {
        return;
    }
    let (mut latest, current_tts_enabled) = match startup_state {
        StartupStatePayload::WarmingModel { capabilities, tts_enabled, .. } => (
            copy_capabilities(capabilities),
            *tts_enabled,
        ),
        StartupStatePayload::Ready { capabilities, tts_enabled, .. } => (
            copy_capabilities(capabilities),
            *tts_enabled,
        ),
        StartupStatePayload::Error { .. } => {
            return;
        },
    };
    let supported = match loaded {
        Ok(provider) => {
            provide_capability(&mut latest, profile.local_capability_id(), provider);
            copy_profiles(&captured.supported_response_profiles)
        },
        Err(error) => {
            mark_capability(
                &mut latest,
                profile.local_capability_id(),
                CapabilityStatePayload::Failed,
                concat2("failed to initialize local llama.cpp runtime: ", error.as_str()),
            );
            Vec::new()
        },
    };
    *startup_state =
    StartupStatePayload::Ready {
        cue_asset_paths: copy_cues(&captured.cue_asset_paths),
        runtime_phase: RuntimePhasePayload::Sleeping,
        voice_input_available: captured.voice_input_available,
        voice_input_error: copy_text(&captured.voice_input_error),
        silence_timeout_ms: captured.silence_timeout_ms,
        selected_response_profile: profile,
        supported_response_profiles: supported,
        prompt_cancellation_available: true,
        tts_enabled: current_tts_enabled,
        tts_output_gain_db: captured.tts_output_gain_db,
        capabilities: latest,
    };
}

/// The state after a start that failed for good.
pub fn build_startup_error_app_state<G>(message: String) -> (state: StartupStatePayload<G>)
    ensures
        state@ == (StartupView::<G>::Error { message: message@ }),
{
    StartupStatePayload::Error { message }
}

/// The state of an application whose configuration cannot be read: it can be used, but nothing
/// works.
pub fn build_nonfatal_config_error_app_state<G>(
    cue_asset_paths: CueAssetPathsPayload,
    message: String,
    tts_output_gain_db: G,
) -> (state: StartupStatePayload<G>)
    ensures
        state@ == (StartupView::Ready {
            facts: StartupFacts {
                start_cue: cue_asset_paths.start_listening@,
                stop_cue: cue_asset_paths.stop_listening@,
                runtime_phase: RuntimePhasePayload::Sleeping,
                voice_input_available: false,
                voice_input_error: Some(message@),
                silence_timeout_ms: DEFAULT_SILENCE_TIMEOUT_MS,
                selected_response_profile: ResponseProfilePayload::Fast,
                supported_response_profiles: seq![],
                prompt_cancellation_available: false,
                tts_enabled: false,
                tts_output_gain_db,
                capabilities: capabilities::capability_ids().map_values(
                    |id: Seq<char>|
                        CapabilityView {
                            id,
                            state: CapabilityStatePayload::Failed,
                            reason: message@,
                            actual_provider: None,
                        },
                ),
            },
        }),
{
    StartupStatePayload::Ready {
        cue_asset_paths,
        runtime_phase: RuntimePhasePayload::Sleeping,
        voice_input_available: false,
        voice_input_error: Some(message.clone()),
        silence_timeout_ms: DEFAULT_SILENCE_TIMEOUT_MS,
        selected_response_profile: ResponseProfilePayload::Fast,
        supported_response_profiles: Vec::new(),
        prompt_cancellation_available: false,
        tts_enabled: false,
        tts_output_gain_db,
        capabilities: failed_capabilities(message),
    }
}

/// A local model that does not start, or cannot be restored, never disables the application: the
/// state is ready, and every capability but the local ones is as it was.
pub proof fn law_local_failures_keep_the_application_usable<G>(
    state: StartupView<G>,
    captured: StartupSnapshot<G>,
    requested: ResponseProfilePayload,
    previous: ResponseProfilePayload,
    startup_error: Seq<char>,
    restore_error: Seq<char>,
    id: Seq<char>,
)
    requires
        !(state is Error),
        id != "local_fast"@,
        id != "local_quality"@,
    ensures
        loaded_view(state, captured, requested, Err(startup_error), true) is Ready,
        capabilities::available(
            loaded_view(
                state,
                captured,
                requested,
                Err(startup_error),
                true,
            ).facts().capabilities,
            id,
        ) == capabilities::available(state.facts().capabilities, id),
        capabilities::available(
            unrestored(
                state.facts().capabilities,
                requested,
                previous,
                startup_error,
                restore_error,
            ),
            id,
        ) == capabilities::available(state.facts().capabilities, id),
{
    let caps = state.facts().capabilities;
    let failed = CapabilityStatePayload::Failed;
    capabilities::law_only_the_named_capability_changes(
        caps,
        requested.local_capability(),
        failed,
        "failed to initialize local llama.cpp runtime: "@ + startup_error,
        None,
    );
    let reason = if requested == previous {
        capabilities::requested_failure(requested, startup_error) + "; retry failed: "@
            + restore_error
    } else {
        capabilities::requested_failure(requested, startup_error)
    };
    capabilities::law_only_the_named_capability_changes(
        caps,
        requested.local_capability(),
        failed,
        reason,
        None,
    );
    capabilities::law_only_the_named_capability_changes(
        capabilities::marked(caps, requested.local_capability(), failed, reason, None),
        previous.local_capability(),
        failed,
        "failed to restore previous "@ + previous.name() + " profile: "@ + restore_error,
        None,
    );
}

/// Whatever is missing of the local models, the application can be used: its start does not fail,
/// a local model is awaited only where one is loaded, and no capability but the local ones is
/// affected.
pub proof fn law_missing_local_files_disable_only_local_answers<G>(
    config: RuntimeConfig,
    findings: StartupFindings<G>,
    id: Seq<char>,
)
    ensures
        !(starting_view(config, findings) is Error),
        starting_view(config, findings) is WarmingModel <==> starting_model(config, findings)
            is Some,
        id != "local_fast"@ && id != "local_quality"@ ==> capabilities::available(
            starting_view(config, findings).facts().capabilities,
            id,
        ) == capabilities::available(started_capabilities(config, findings), id),
        findings.system_prompt is Err && config.response_backend is LlamaCpp ==> starting_view(
            config,
            findings,
        ).facts().supported_response_profiles.len() == 0,
{
    let caps = started_capabilities(config, findings);
    capabilities::law_only_the_named_capability_changes(
        caps,
        starting_profile(config, findings).local_capability(),
        CapabilityStatePayload::Warming,
        "local model is loading"@,
        None,
    );
    if let Err(error) = findings.system_prompt {
        let failed = CapabilityStatePayload::Failed;
        let reason = "failed to load SOUL.md: "@ + error@;
        capabilities::law_only_the_named_capability_changes(
            caps,
            "local_fast"@,
            failed,
            reason,
            None,
        );
        capabilities::law_only_the_named_capability_changes(
            caps,
            "local_quality"@,
            failed,
            reason,
            None,
        );
        capabilities::law_only_the_named_capability_changes(
            capabilities::marked(caps, "local_fast"@, failed, reason, None),
            "local_quality"@,
            failed,
            reason,
            None,
        );
    }
}

/// Whether a change of the assistant's settings is accepted.
pub open spec fn settings_admission<G>(
    settings: AssistantSettingsPayload,
    previous: AssistantSettingsPayload,
    state: StartupView<G>,
) -> Result<(), Seq<char>> {
    if state is Error {
        Err("startup is not ready"@)
    } else {
        match capabilities::first_unavailable(
            state.facts().capabilities,
            capabilities::required_capabilities(settings, previous),
        ) {
            None => Ok(()),
            Some(id) => Err("assistant capability `"@ + id + "` is unavailable"@),
        }
    }
}

/// Accepts a change of the assistant's settings for which every capability that it needs is
/// available. Nothing can be changed after a failed start.
pub fn ensure_assistant_settings_available<G>(
    settings: &AssistantSettingsPayload,
    previous: &AssistantSettingsPayload,
    startup_state: &StartupStatePayload<G>,
) -> (result: Result<(), String>)
    ensures
        text::outcome(result) == settings_admission(*settings, *previous, startup_state@),
{
    match startup_state {
        StartupStatePayload::WarmingModel { capabilities, .. } => ensure_required_capabilities(
            settings,
            previous,
            capabilities,
        ),
        StartupStatePayload::Ready { capabilities, .. } => ensure_required_capabilities(
            settings,
            previous,
            capabilities,
        ),
        StartupStatePayload::Error { .. } => Err("startup is not ready".to_owned()),
    }
}

/// The settings with which the assistant goes on after the OpenCode service did not start, where
/// they are others than before.
pub open spec fn settings_after_opencode<G>(
    before: StartupView<G>,
    settings: AssistantSettingsPayload,
    reason: Seq<char>,
) -> Option<AssistantSettingsPayload> {
    let others = capabilities::settings_without_opencode(
        settings,
        capabilities::available(
            capabilities::marked(
                before.facts().capabilities,
                "opencode"@,
                CapabilityStatePayload::Failed,
                reason,
                None,
            ),
            "custom_provider"@,
        ),
    );
    if before is Error || others == settings {
        None
    } else {
        Some(others)
    }
}

/// Records that the OpenCode service did not start, and says with which settings the assistant
/// goes on, where they are others than before.
pub fn fail_opencode_startup<G>(
    startup_state: &mut StartupStatePayload<G>,
    settings: AssistantSettingsPayload,
    reason: String,
) -> (reconciled: Option<AssistantSettingsPayload>)
    ensures
        final(startup_state)@ == old(startup_state)@.with_capabilities(
            capabilities::capabilities_without_opencode(
                old(startup_state)@.facts().capabilities,
                reason@,
            ),
        ),
        reconciled == settings_after_opencode(old(startup_state)@, settings, reason@),
{
    let reconciled = match startup_state {
        StartupStatePayload::WarmingModel { capabilities, .. } => apply_opencode_startup_failure(
            capabilities,
            settings,
            reason,
        ),
        StartupStatePayload::Ready { capabilities, .. } => apply_opencode_startup_failure(
            capabilities,
            settings,
            reason,
        ),
        StartupStatePayload::Error { .. } => settings,
    };
    if reconciled == settings {
        None
    } else {
        Some(reconciled)
    }
}

/// What becomes of a speech runtime that was started with the application.
#[derive(Clone, Copy, Debug, PartialEq, Eq, Structural)]
pub enum TtsStartup {
    /// It is not wanted any more.
    Superseded,
    /// It speaks.
    Installed,
    /// It did not start.
    Failed,
}

/// The state once the start of the speech runtime has ended, and how it has.
pub open spec fn after_speech_start<G>(
    before: StartupView<G>,
    current: bool,
    runtime: Option<LocalTtsRuntime>,
) -> (TtsStartup, StartupView<G>) {
    if !current {
        (TtsStartup::Superseded, before)
    } else if runtime is Some {
        (
            TtsStartup::Installed,
            before.with_facts(
                StartupFacts {
                    tts_enabled: true,
                    capabilities: capabilities::repaired(
                        before.facts().capabilities,
                        true,
                        runtime,
                    ),
                    ..before.facts()
                },
            ),
        )
    } else {
        (
            TtsStartup::Failed,
            before.with_capabilities(
                capabilities::marked(
                    before.facts().capabilities,
                    "tts"@,
                    CapabilityStatePayload::Failed,
                    "TTS runtime failed to initialize"@,
                    None,
                ),
            ),
        )
    }
}

/// Ends the start of the speech runtime. `runtime` is there where it started; `current` says
/// whether nobody has switched speech since.
pub fn conclude_tts_startup<G>(
    startup_state: &mut StartupStatePayload<G>,
    current: bool,
    runtime: Option<&LocalTtsRuntime>,
) -> (outcome: TtsStartup)
    ensures
        (outcome, final(startup_state)@) == after_speech_start(
            old(startup_state)@,
            current,
            match runtime {
                Some(present) => Some(*present),
                None => None,
            },
        ),
{
    if !current {
        return TtsStartup::Superseded;
    }
    match runtime {
        Some(present) => {
            match startup_state {
                StartupStatePayload::WarmingModel { capabilities, tts_enabled, .. } => {
                    *tts_enabled = true;
                    repair_tts_capability(capabilities, true, Some(present));
                },
                StartupStatePayload::Ready { capabilities, tts_enabled, .. } => {
                    *tts_enabled = true;
                    repair_tts_capability(capabilities, true, Some(present));
                },
                StartupStatePayload::Error { .. } => {},
            }
            TtsStartup::Installed
        },
        None => {
            fail_startup_capability(
                startup_state,
                "tts",
                "TTS runtime failed to initialize".to_owned(),
            );
            TtsStartup::Failed
        },
    }
}

} // verus!
