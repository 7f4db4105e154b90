//! Switching the response profile: which switches are allowed, and what follows each result of
//! the outside work that a switch needs.

use crate::capabilities;
use crate::capabilities::{
    copy_capabilities, provide_capability, update_restored_profile_capabilities,
};
use crate::config::{model_path_for_profile, ResponseBackendConfig};
use crate::persisted_state::contains_profile;
use crate::settings;
use crate::settings::{
    AssistantPreferences, AssistantSettingsPayload, InstantModel, ResponseProfilePayload,
};
use crate::startup;
use crate::startup::{
    copy_profiles, copy_text, ensure_response_profile_switch_runtime_is_idle,
    ensure_startup_ready_for_profile_switch, startup_ready_state_from_snapshot,
    startup_snapshot_for_profile_switch, startup_state_after_profile_restore_failure,
    CueAssetPathsPayload, RuntimePhasePayload, StartupSnapshot, StartupStatePayload,
};
use crate::text;
use crate::text::concat3;
use vstd::prelude::*;
use vstd::string::*;

verus! {

broadcast use vstd::string::group_string_axioms;

/// The assistant's preferences, whether a prompt keeps them from being changed, and how often
/// they were changed.
#[derive(Clone, Copy, Debug, PartialEq, Eq, Structural)]
pub struct PreferenceStore {
    pub preferences: AssistantPreferences,
    pub prompt_active: bool,
    pub generation: u64,
}

/// The Instant model that serves a profile.
pub open spec fn local_model_of(profile: ResponseProfilePayload) -> InstantModel {
    match profile {
        ResponseProfilePayload::Fast => InstantModel::LocalFast,
        ResponseProfilePayload::Quality => InstantModel::LocalQuality,
    }
}

/// The Instant model that serves a profile.
pub fn local_instant_model(profile: ResponseProfilePayload) -> (model: InstantModel)
    ensures
        model == local_model_of(profile),
{
    match profile {
        ResponseProfilePayload::Fast => InstantModel::LocalFast,
        ResponseProfilePayload::Quality => InstantModel::LocalQuality,
    }
}

/// The profile that a local Instant model serves.
pub open spec fn local_profile(model: InstantModel) -> Option<ResponseProfilePayload> {
    match model {
        InstantModel::LocalFast => Some(ResponseProfilePayload::Fast),
        InstantModel::LocalQuality => Some(ResponseProfilePayload::Quality),
        _ => None,
    }
}

/// The profile that a local Instant model serves.
pub fn local_profile_for_model(model: InstantModel) -> (profile: Option<ResponseProfilePayload>)
    ensures
        profile == local_profile(model),
{
    match model {
        InstantModel::LocalFast => Some(ResponseProfilePayload::Fast),
        InstantModel::LocalQuality => Some(ResponseProfilePayload::Quality),
        InstantModel::CustomSolHigh
        | InstantModel::CustomLunaLow
        | InstantModel::OpenCodeSolHigh
        | InstantModel::OpenCodeLunaLow => None,
    }
}

/// The preferences with the local model of a profile.
pub open spec fn with_local_model(
    preferences: AssistantPreferences,
    profile: ResponseProfilePayload,
) -> AssistantPreferences {
    AssistantPreferences { instant_model: local_model_of(profile), ..preferences }
}

/// Makes the local model of a profile the Instant model: stores profile and settings first, and
/// changes the preferences only where that succeeded and they are still the expected ones.
pub fn synchronize_local_instant_model_with<F>(
    store: &mut PreferenceStore,
    expected_generation: u64,
    profile: ResponseProfilePayload,
    persist: F,
) -> (result: Result<Option<()>, String>)
    where F: FnOnce(ResponseProfilePayload, AssistantSettingsPayload) -> Result<(), String>
    requires
        old(store).generation == expected_generation ==> persist.requires(
            (
                profile,
                settings::settings_of(with_local_model(old(store).preferences, profile)),
            ),
        ),
    ensures
        ({
            let next = with_local_model(old(store).preferences, profile);
            let stored = |outcome: Result<(), String>|
                persist.ensures((profile, settings::settings_of(next)), outcome);
            if old(store).generation != expected_generation {
                result == Ok::<Option<()>, String>(None) && *final(store) == *old(store)
            } else {
                match result {
                    Ok(done) => {
                        &&& done is Some
                        &&& stored(Ok(()))
                        &&& !old(store).prompt_active
                        &&& *final(store) == (PreferenceStore {
                            preferences: next,
                            prompt_active: false,
                            generation: old(store).generation.wrapping_add(1),
                        })
                    },
                    Err(message) => {
                        &&& *final(store) == *old(store)
                        &&& {
                            ||| stored(Err(message))
                            ||| stored(Ok(())) && old(store).prompt_active && message@
                                == "assistant settings cannot change while a prompt is active"@
                        }
                    },
                }
            }
        }),
{
    if store.generation != expected_generation {
        return Ok(None);
    }
    let mut preferences = store.preferences;
    preferences.instant_model = local_instant_model(profile);
    let settings = AssistantSettingsPayload::from(&preferences);
    match persist(profile, settings) {
        Ok(done) => {
            proof {
                assert(done == ());
            }
        },
        Err(message) => {
            return Err(message);
        },
    }
    if store.prompt_active {
        return Err("assistant settings cannot change while a prompt is active".to_owned());
    }
    store.preferences = preferences;
    store.generation = store.generation.wrapping_add(1);
    Ok(Some(()))
}

/// What taking a profile change back leads to: whether it has to be stored, or why it cannot be
/// taken back, then the preferences and the selected profile.
pub open spec fn rolled_back(
    store: PreferenceStore,
    switch_is_current: bool,
    selected: ResponseProfilePayload,
    previous_profile: ResponseProfilePayload,
    previous_preferences: AssistantPreferences,
    previous_generation: u64,
) -> (Result<bool, Seq<char>>, PreferenceStore, ResponseProfilePayload) {
    if !switch_is_current || store.generation != previous_generation {
        (Ok(false), store, selected)
    } else if store.prompt_active {
        (
            Err("assistant settings cannot be rolled back while a prompt is active"@),
            store,
            selected,
        )
    } else {
        (
            Ok(true),
            PreferenceStore { preferences: previous_preferences, ..store },
            previous_profile,
        )
    }
}

/// Takes a profile change back, unless a later switch or change of the settings came between:
/// restores the preferences and the selected profile, and says whether they have to be stored.
pub fn rollback_profile_commit_state(
    store: &mut PreferenceStore,
    switch_is_current: bool,
    selected_profile: &mut ResponseProfilePayload,
    previous_profile: ResponseProfilePayload,
    previous_preferences: AssistantPreferences,
    previous_generation: u64,
) -> (result: Result<bool, String>)
    ensures
        ({
            let applies = switch_is_current && old(store).generation == previous_generation;
            match result {
                Ok(must_be_stored) => {
                    &&& must_be_stored == applies
                    &&& applies ==> !old(store).prompt_active && *final(store)
                        == (PreferenceStore {
                        preferences: previous_preferences,
                        ..*old(store)
                    }) && *final(selected_profile) == previous_profile
                    &&& !applies ==> *final(store) == *old(store) && *final(selected_profile)
                        == *old(selected_profile)
                },
                Err(message) => {
                    &&& applies
                    &&& old(store).prompt_active
                    &&& message@
                        == "assistant settings cannot be rolled back while a prompt is active"@
                    &&& *final(store) == *old(store)
                    &&& *final(selected_profile) == *old(selected_profile)
                },
            }
        }),
        (text::outcome(result), *final(store), *final(selected_profile)) == rolled_back(
            *old(store),
            switch_is_current,
            *old(selected_profile),
            previous_profile,
            previous_preferences,
            previous_generation,
        ),
{
    if !switch_is_current || store.generation != previous_generation {
        return Ok(false);
    }
    if store.prompt_active {
        return Err(
            "assistant settings cannot be rolled back while a prompt is active".to_owned(),
        );
    }
    store.preferences = previous_preferences;
    *selected_profile = previous_profile;
    Ok(true)
}

/// Whether a switch has anything to do.
#[derive(Clone, Copy, Debug, PartialEq, Eq, Structural)]
pub enum SwitchAdmission {
    AlreadySelected,
    Proceed,
}

/// Whether a switch is allowed, and whether it has anything to do.
pub open spec fn admission<G>(
    profile: ResponseProfilePayload,
    current_profile: ResponseProfilePayload,
    supported: Seq<ResponseProfilePayload>,
    startup_state: startup::StartupView<G>,
    runtime_loaded: bool,
    runtime_phase: RuntimePhasePayload,
    prompt_active: bool,
) -> Result<SwitchAdmission, Seq<char>> {
    if !supported.contains(profile) {
        Err("response profile `"@ + profile.name() + "` is not supported"@)
    } else {
        match startup_state {
            startup::StartupView::WarmingModel { .. } => Err(
                "response backend is busy; wait for the active operation to finish"@,
            ),
            startup::StartupView::Error { message } => Err("startup error: "@ + message),
            startup::StartupView::Ready { .. } => if current_profile == profile && runtime_loaded {
                Ok(SwitchAdmission::AlreadySelected)
            } else if !(runtime_phase is Sleeping) {
                Err(
                    "response profile switch is only allowed while runtime is sleeping; current phase is "@
                        + runtime_phase.name(),
                )
            } else if prompt_active {
                Err("response profile cannot change while a prompt is active"@)
            } else {
                Ok(SwitchAdmission::Proceed)
            },
        }
    }
}

/// Decides whether the profile may be switched now.
pub fn admit_profile_switch<G>(
    profile: ResponseProfilePayload,
    current_profile: ResponseProfilePayload,
    supported: &Vec<ResponseProfilePayload>,
    startup_state: &StartupStatePayload<G>,
    runtime_loaded: bool,
    runtime_phase: RuntimePhasePayload,
    prompt_active: bool,
) -> (result: Result<SwitchAdmission, String>)
    ensures
        text::outcome(result) == admission(
            profile,
            current_profile,
            supported@,
            startup_state@,
            runtime_loaded,
            runtime_phase,
            prompt_active,
        ),
{
    if !contains_profile(supported.as_slice(), profile) {
        return Err(concat3("response profile `", profile.as_str(), "` is not supported"));
    }
    match ensure_startup_ready_for_profile_switch(startup_state) {
        Ok(_) => {},
        Err(message) => {
            return Err(message);
        },
    }
    if current_profile == profile && runtime_loaded {
        return Ok(SwitchAdmission::AlreadySelected);
    }
    match ensure_response_profile_switch_runtime_is_idle(runtime_phase) {
        Ok(_) => {},
        Err(message) => {
            return Err(message);
        },
    }
    if prompt_active {
        return Err("response profile cannot change while a prompt is active".to_owned());
    }
    Ok(SwitchAdmission::Proceed)
}

/// A switch that is under way.
pub struct SwitchJob<G> {
    pub requested: ResponseProfilePayload,
    pub previous: ResponseProfilePayload,
    pub snapshot: StartupSnapshot<G>,
}

/// What a switch that may proceed has to load; nothing where answers do not come from a local
/// model.
pub struct SwitchLoad<G> {
    pub model_path: String,
    pub previous_model_path: String,
    pub job: SwitchJob<G>,
    pub warming: StartupStatePayload<G>,
}

/// The model of a profile.
pub open spec fn profile_model(
    profile: ResponseProfilePayload,
    fast: Seq<char>,
    quality: Option<Seq<char>>,
) -> Option<Seq<char>> {
    match profile {
        ResponseProfilePayload::Fast => Some(fast),
        ResponseProfilePayload::Quality => quality,
    }
}

/// Prepares the outside work of a switch: the models of the requested and of the previous
/// profile, what the new startup state takes over, and what is shown meanwhile.
pub fn prepare_profile_switch<G: Copy>(
    profile: ResponseProfilePayload,
    current_profile: ResponseProfilePayload,
    supported: &Vec<ResponseProfilePayload>,
    startup_state: &StartupStatePayload<G>,
    backend: &ResponseBackendConfig,
) -> (result: Result<Option<SwitchLoad<G>>, String>)
    ensures
        match *backend {
            ResponseBackendConfig::LlamaCpp { fast_model_path, quality_model_path, .. } => {
                let quality = text::optional_text(quality_model_path);
                let wanted = profile_model(profile, fast_model_path@, quality);
                let before = profile_model(current_profile, fast_model_path@, quality);
                match result {
                    Ok(load) => {
                        &&& load is Some
                        &&& !(startup_state@ is Error)
                        &&& wanted == Some(load->0.model_path@)
                        &&& before == Some(load->0.previous_model_path@)
                        &&& load->0.job.requested == profile
                        &&& load->0.job.previous == current_profile
                        &&& startup::snapshot_of(
                            load->0.job.snapshot,
                            startup_state@.facts(),
                            supported@,
                        )
                        &&& load->0.warming@ == (startup::StartupView::WarmingModel {
                            facts: startup::StartupFacts {
                                runtime_phase: RuntimePhasePayload::Initializing,
                                selected_response_profile: profile,
                                supported_response_profiles: supported@,
                                prompt_cancellation_available: false,
                                ..startup_state@.facts()
                            },
                            message: "Loading local Gemma model..."@,
                        })
                    },
                    Err(message) => if wanted is None || before is None {
                        message@ == "response profile `quality` is not supported"@
                    } else {
                        startup_state@ is Error && message@
                            == "cannot switch response profile `"@ + profile.name()
                            + "` while startup is in error"@
                    },
                }
            },
            _ => result is Ok && result->Ok_0 is None,
        },
{
    match backend {
        ResponseBackendConfig::LlamaCpp { fast_model_path, quality_model_path, .. } => {
            let quality: Option<&str> = match quality_model_path {
                Some(path) => Some(path.as_str()),
                None => None,
            };
            let model_path = match model_path_for_profile(
                profile,
                fast_model_path.as_str(),
                quality,
            ) {
                Ok(path) => path.to_owned(),
                Err(message) => {
                    return Err(message);
                },
            };
            let previous_model_path = match model_path_for_profile(
                current_profile,
                fast_model_path.as_str(),
                quality,
            ) {
                Ok(path) => path.to_owned(),
                Err(message) => {
                    return Err(message);
                },
            };
            let snapshot = match startup_snapshot_for_profile_switch(
                startup_state,
                profile,
                copy_profiles(supported),
            ) {
                Ok(snapshot) => snapshot,
                Err(message) => {
                    return Err(message);
                },
            };
            let warming = StartupStatePayload::WarmingModel {
                cue_asset_paths: CueAssetPathsPayload {
                    start_listening: snapshot.cue_asset_paths.start_listening.clone(),
                    stop_listening: snapshot.cue_asset_paths.stop_listening.clone(),
                },
                runtime_phase: RuntimePhasePayload::Initializing,
                voice_input_available: snapshot.voice_input_available,
                voice_input_error: copy_text(&snapshot.voice_input_error),
                silence_timeout_ms: snapshot.silence_timeout_ms,
                message: "Loading local Gemma model...".to_owned(),
                selected_response_profile: profile,
                supported_response_profiles: copy_profiles(&snapshot.supported_response_profiles),
                prompt_cancellation_available: false,
                tts_enabled: snapshot.tts_enabled,
                tts_output_gain_db: snapshot.tts_output_gain_db,
                capabilities: copy_capabilities(&snapshot.capabilities),
            };
            Ok(
                Some(
                    SwitchLoad {
                        model_path,
                        previous_model_path,
                        job: SwitchJob { requested: profile, previous: current_profile, snapshot },
                        warming,
                    },
                ),
            )
        },
        ResponseBackendConfig::Opencode | ResponseBackendConfig::Unconfigured => Ok(None),
    }
}

/// How making the requested profile's model the Instant model went.
#[derive(Debug, PartialEq, Eq)]
pub enum SyncReport {
    Committed,
    Superseded,
    Failed(String),
}

/// What happened to the outside work of a switch. `current` says whether no later switch has
/// begun.
#[derive(Debug, PartialEq, Eq)]
pub enum SwitchEvent {
    /// The requested model was started, or not.
    Started { result: Result<&'static str, String>, current: bool },
    /// The preferences were brought in line with the requested profile, or not.
    Synchronized { provider: &'static str, report: SyncReport },
    /// The requested profile was stored on its own, or not.
    Persisted { provider: &'static str, result: Result<(), String> },
    /// The runtime of the requested profile was put in place, or not.
    Stored { provider: &'static str, stored: bool },
    /// The previous model was started again because the preferences could not be changed, and its
    /// runtime was put in place, or not.
    RestoredAfterSync { error: String, result: Result<(&'static str, bool), String> },
    /// The previous model was started again because the requested one did not start, or not.
    Restored { error: String, result: Result<&'static str, String>, current: bool },
    /// The runtime of the previous profile was put in place, or not.
    RestoreStored { error: String, provider: &'static str, stored: bool },
}

/// What a switch does next.
pub enum SwitchStep<G> {
    /// Drop everything: a later switch has begun.
    Abandon,
    /// Bring the preferences in line with the requested profile.
    Synchronize { provider: &'static str },
    /// Store the requested profile on its own.
    PersistProfile { provider: &'static str },
    /// Put the runtime of the requested profile in place.
    StoreRuntime { provider: &'static str },
    /// Stop the requested model and start the previous one.
    RestoreAfterSync { error: String },
    /// Start the previous model.
    Restore { error: String },
    /// Put the runtime of the previous profile in place.
    StoreRestored { error: String, provider: &'static str },
    /// Show the result, after taking the profile change back, or bringing the preferences in line
    /// with the previous profile, where that is asked for.
    Publish {
        state: StartupStatePayload<G>,
        select: Option<ResponseProfilePayload>,
        roll_back: bool,
        synchronize_previous: bool,
        even_if_superseded: bool,
    },
}

/// A step by its contents.
#[verifier::ext_equal]
pub enum StepView<G> {
    Abandon,
    Synchronize { provider: Seq<char> },
    PersistProfile { provider: Seq<char> },
    StoreRuntime { provider: Seq<char> },
    RestoreAfterSync { error: Seq<char> },
    Restore { error: Seq<char> },
    StoreRestored { error: Seq<char>, provider: Seq<char> },
    Publish {
        state: startup::StartupView<G>,
        select: Option<ResponseProfilePayload>,
        roll_back: bool,
        synchronize_previous: bool,
        even_if_superseded: bool,
    },
}

impl<G> View for SwitchStep<G> {
    type V = StepView<G>;

    open spec fn view(&self) -> StepView<G> {
        match *self {
            SwitchStep::Abandon => StepView::Abandon,
            SwitchStep::Synchronize { provider } => StepView::Synchronize { provider: provider@ },
            SwitchStep::PersistProfile { provider } => StepView::PersistProfile {
                provider: provider@,
            },
            SwitchStep::StoreRuntime { provider } => StepView::StoreRuntime {
                provider: provider@,
            },
            SwitchStep::RestoreAfterSync { error } => StepView::RestoreAfterSync { error: error@ },
            SwitchStep::Restore { error } => StepView::Restore { error: error@ },
            SwitchStep::StoreRestored { error, provider } => StepView::StoreRestored {
                error: error@,
                provider: provider@,
            },
            SwitchStep::Publish {
                state,
                select,
                roll_back,
                synchronize_previous,
                even_if_superseded,
            } => StepView::Publish {
                state: state@,
                select,
                roll_back,
                synchronize_previous,
                even_if_superseded,
            },
        }
    }
}

impl<G> SwitchJob<G> {
    /// The state in which the requested profile runs.
    pub open spec fn switched(self, provider: Seq<char>) -> startup::StartupView<G> {
        startup::StartupView::Ready {
            facts: startup::ready_facts(
                self.snapshot,
                self.requested,
                capabilities::provided(
                    capabilities::views(self.snapshot.capabilities@),
                    self.requested.local_capability(),
                    provider,
                ),
            ),
        }
    }

    /// The state in which the previous profile runs again.
    pub open spec fn returned(self, error: Seq<char>, provider: Seq<char>) -> startup::StartupView<
        G,
    > {
        startup::StartupView::Ready {
            facts: startup::ready_facts(
                self.snapshot,
                self.previous,
                capabilities::restored(
                    capabilities::views(self.snapshot.capabilities@),
                    self.requested,
                    self.previous,
                    error,
                    provider,
                ),
            ),
        }
    }

    /// The state in which neither profile runs.
    pub open spec fn stranded(
        self,
        error: Seq<char>,
        restore_error: Seq<char>,
    ) -> startup::StartupView<G> {
        startup::StartupView::Ready {
            facts: startup::ready_facts(
                self.snapshot,
                self.previous,
                startup::unrestored(
                    capabilities::views(self.snapshot.capabilities@),
                    self.requested,
                    self.previous,
                    error,
                    restore_error,
                ),
            ),
        }
    }

    /// Showing a state without anything else.
    pub open spec fn shown(state: startup::StartupView<G>) -> StepView<G> {
        StepView::Publish {
            state,
            select: None,
            roll_back: false,
            synchronize_previous: false,
            even_if_superseded: false,
        }
    }

    /// What a switch does after an event.
    pub open spec fn step(self, event: SwitchEvent) -> StepView<G> {
        match event {
            SwitchEvent::Started { result, current } => if !current {
                StepView::Abandon
            } else {
                match result {
                    Ok(provider) => StepView::Synchronize { provider: provider@ },
                    Err(error) => StepView::Restore { error: error@ },
                }
            },
            SwitchEvent::Synchronized { provider, report } => match report {
                SyncReport::Committed => StepView::StoreRuntime { provider: provider@ },
                SyncReport::Superseded => StepView::PersistProfile { provider: provider@ },
                SyncReport::Failed(error) => StepView::RestoreAfterSync { error: error@ },
            },
            SwitchEvent::Persisted { provider, result } => match result {
                Ok(_) => StepView::StoreRuntime { provider: provider@ },
                Err(error) => StepView::Publish {
                    state: self.stranded("requested profile persistence failed"@, error@),
                    select: None,
                    roll_back: true,
                    synchronize_previous: false,
                    even_if_superseded: true,
                },
            },
            SwitchEvent::Stored { provider, stored } => if !stored {
                StepView::Abandon
            } else {
                StepView::Publish {
                    state: self.switched(provider@),
                    select: Some(self.requested),
                    roll_back: false,
                    synchronize_previous: false,
                    even_if_superseded: false,
                }
            },
            SwitchEvent::RestoredAfterSync { error, result } => match result {
                Ok((provider, stored)) => if stored {
                    StepView::Publish {
                        state: self.returned(error@, provider@),
                        select: None,
                        roll_back: true,
                        synchronize_previous: false,
                        even_if_superseded: false,
                    }
                } else {
                    Self::shown(self.stranded(error@, "profile runtime restore was superseded"@))
                },
                Err(restore_error) => Self::shown(self.stranded(error@, restore_error@)),
            },
            SwitchEvent::Restored { error, result, current } => if !current {
                StepView::Abandon
            } else {
                match result {
                    Ok(provider) => StepView::StoreRestored {
                        error: error@,
                        provider: provider@,
                    },
                    Err(restore_error) => Self::shown(self.stranded(error@, restore_error@)),
                }
            },
            SwitchEvent::RestoreStored { error, provider, stored } => if !stored {
                StepView::Abandon
            } else {
                StepView::Publish {
                    state: self.returned(error@, provider@),
                    select: Some(self.previous),
                    roll_back: false,
                    synchronize_previous: true,
                    even_if_superseded: false,
                }
            },
        }
    }
}

fn stranded_state<G: Copy>(job: &SwitchJob<G>, error: &str, restore_error: &str) -> (state:
    StartupStatePayload<G>)
    ensures
        state@ == job.stranded(error@, restore_error@),
{
    startup_state_after_profile_restore_failure(
        &job.snapshot,
        job.requested,
        job.previous,
        error,
        restore_error,
    )
}

fn state_with_capabilities<G: Copy>(
    job: &SwitchJob<G>,
    selected: ResponseProfilePayload,
    changed: Vec<capabilities::CapabilityPayload>,
) -> (state: StartupStatePayload<G>)
    ensures
        state@ == (startup::StartupView::Ready {
            facts: startup::ready_facts(job.snapshot, selected, capabilities::views(changed@)),
        }),
{
    let snapshot = StartupSnapshot {
        cue_asset_paths: CueAssetPathsPayload {
            start_listening: job.snapshot.cue_asset_paths.start_listening.clone(),
            stop_listening: job.snapshot.cue_asset_paths.stop_listening.clone(),
        },
        voice_input_available: job.snapshot.voice_input_available,
        voice_input_error: copy_text(&job.snapshot.voice_input_error),
        silence_timeout_ms: job.snapshot.silence_timeout_ms,
        tts_enabled: job.snapshot.tts_enabled,
        tts_output_gain_db: job.snapshot.tts_output_gain_db,
        supported_response_profiles: copy_profiles(&job.snapshot.supported_response_profiles),
        capabilities: changed,
    };
    startup_ready_state_from_snapshot(&snapshot, selected)
}

fn returned_state<G: Copy>(job: &SwitchJob<G>, error: &str, provider: &'static str) -> (state:
    StartupStatePayload<G>)
    ensures
        state@ == job.returned(error@, provider@),
{
    let mut changed = copy_capabilities(&job.snapshot.capabilities);
    update_restored_profile_capabilities(
        &mut changed,
        job.requested,
        job.previous,
        error,
        provider,
    );
    state_with_capabilities(job, job.previous, changed)
}

fn show<G>(state: StartupStatePayload<G>) -> (step: SwitchStep<G>)
    ensures
        step@ == SwitchJob::<G>::shown(state@),
{
    SwitchStep::Publish {
        state,
        select: None,
        roll_back: false,
        synchronize_previous: false,
        even_if_superseded: false,
    }
}

/// Decides what a switch does after an event.
pub fn switch_response_profile<G: Copy>(job: &SwitchJob<G>, event: SwitchEvent) -> (step:
    SwitchStep<G>)
    ensures
        step@ == job.step(event),
{
    match event {
        SwitchEvent::Started { result, current } => {
            if !current {
                return SwitchStep::Abandon;
            }
            match result {
                Ok(provider) => SwitchStep::Synchronize { provider },
                Err(error) => SwitchStep::Restore { error },
            }
        },
        SwitchEvent::Synchronized { provider, report } => match report {
            SyncReport::Committed => SwitchStep::StoreRuntime { provider },
            SyncReport::Superseded => SwitchStep::PersistProfile { provider },
            SyncReport::Failed(error) => SwitchStep::RestoreAfterSync { error },
        },
        SwitchEvent::Persisted { provider, result } => match result {
            Ok(_) => SwitchStep::StoreRuntime { provider },
            Err(error) => SwitchStep::Publish {
                state: stranded_state(
                    job,
                    "requested profile persistence failed",
                    error.as_str(),
                ),
                select: None,
                roll_back: true,
                synchronize_previous: false,
                even_if_superseded: true,
            },
        },
        SwitchEvent::Stored { provider, stored } => {
            if !stored {
                return SwitchStep::Abandon;
            }
            let mut changed = copy_capabilities(&job.snapshot.capabilities);
            provide_capability(&mut changed, job.requested.local_capability_id(), provider);
            SwitchStep::Publish {
                state: state_with_capabilities(job, job.requested, changed),
                select: Some(job.requested),
                roll_back: false,
                synchronize_previous: false,
                even_if_superseded: false,
            }
        },
        SwitchEvent::RestoredAfterSync { error, result } => match result {
            Ok((provider, stored)) => if stored {
                SwitchStep::Publish {
                    state: returned_state(job, error.as_str(), provider),
                    select: None,
                    roll_back: true,
                    synchronize_previous: false,
                    even_if_superseded: false,
                }
            } else {
                show(
                    stranded_state(
                        job,
                        error.as_str(),
                        "profile runtime restore was superseded",
                    ),
                )
            },
            Err(restore_error) => show(
                stranded_state(job, error.as_str(), restore_error.as_str()),
            ),
        },
        SwitchEvent::Restored { error, result, current } => {
            if !current {
                return SwitchStep::Abandon;
            }
            match result {
                Ok(provider) => SwitchStep::StoreRestored { error, provider },
                Err(restore_error) => show(
                    stranded_state(job, error.as_str(), restore_error.as_str()),
                ),
            }
        },
        SwitchEvent::RestoreStored { error, provider, stored } => {
            if !stored {
                return SwitchStep::Abandon;
            }
            SwitchStep::Publish {
                state: returned_state(job, error.as_str(), provider),
                select: Some(job.previous),
                roll_back: false,
                synchronize_previous: true,
                even_if_superseded: false,
            }
        },
    }
}

/// Puts a runtime in its place where it is still wanted; hands it back to be shut down elsewhere.
pub fn store_runtime_if_current<R>(
    slot: &mut Option<R>,
    runtime: R,
    generation: u64,
    expected_generation: u64,
) -> (refused: Option<R>)
    ensures
        generation == expected_generation ==> refused is None && *final(slot) == Some(runtime),
        generation != expected_generation ==> refused == Some(runtime) && *final(slot)
            == *old(slot),
{
    if generation != expected_generation {
        return Some(runtime);
    }
    *slot = Some(runtime);
    None
}

/// However a switch ends, the application stays usable: whatever is shown is a ready state, and
/// the profile that it shows is the requested one where its runtime was put in place and the
/// previous one in every other case.
pub proof fn law_switches_end_ready<G>(job: SwitchJob<G>, event: SwitchEvent)
    ensures
        job.step(event) is Publish ==> {
            let state = job.step(event)->Publish_state;
            &&& state is Ready
            &&& state.facts().selected_response_profile == (if event is Stored {
                job.requested
            } else {
                job.previous
            })
            &&& capabilities::ids(state.facts().capabilities) == capabilities::ids(
                capabilities::views(job.snapshot.capabilities@),
            )
            &&& state.facts().tts_enabled == job.snapshot.tts_enabled
        },
{
    let caps = capabilities::views(job.snapshot.capabilities@);
    match event {
        SwitchEvent::Persisted { result: Err(error), .. } => {
            lemma_stranded_ids(job, "requested profile persistence failed"@, error@);
        },
        SwitchEvent::Stored { provider, .. } => {
            capabilities::law_only_the_named_capability_changes(
                caps,
                job.requested.local_capability(),
                capabilities::CapabilityStatePayload::Available,
                "ready"@,
                Some(provider@),
            );
        },
        SwitchEvent::RestoredAfterSync { error, result } => match result {
            Ok((provider, _)) => {
                lemma_returned_ids(job, error@, provider@);
                lemma_stranded_ids(job, error@, "profile runtime restore was superseded"@);
            },
            Err(restore_error) => lemma_stranded_ids(job, error@, restore_error@),
        },
        SwitchEvent::Restored { error, result: Err(restore_error), .. } => {
            lemma_stranded_ids(job, error@, restore_error@);
        },
        SwitchEvent::RestoreStored { error, provider, .. } => {
            lemma_returned_ids(job, error@, provider@);
        },
        _ => {},
    }
}

proof fn lemma_marked_ids(
    caps: Seq<capabilities::CapabilityView>,
    id: Seq<char>,
    state: capabilities::CapabilityStatePayload,
    reason: Seq<char>,
    provider: Option<Seq<char>>,
)
    ensures
        capabilities::ids(capabilities::marked(caps, id, state, reason, provider))
            == capabilities::ids(caps),
{
    capabilities::law_only_the_named_capability_changes(caps, id, state, reason, provider);
}

proof fn lemma_returned_ids<G>(job: SwitchJob<G>, error: Seq<char>, provider: Seq<char>)
    ensures
        capabilities::ids(job.returned(error, provider).facts().capabilities)
            == capabilities::ids(capabilities::views(job.snapshot.capabilities@)),
{
    let caps = capabilities::views(job.snapshot.capabilities@);
    let id = job.requested.local_capability();
    let available = capabilities::CapabilityStatePayload::Available;
    let failed = capabilities::CapabilityStatePayload::Failed;
    let reason = capabilities::requested_failure(job.requested, error);
    lemma_marked_ids(caps, id, available, "ready"@, None);
    lemma_marked_ids(caps, id, failed, reason, None);
    let back = job.previous.local_capability();
    lemma_marked_ids(
        capabilities::marked(caps, id, available, "ready"@, None),
        back,
        available,
        "ready"@,
        Some(provider),
    );
    lemma_marked_ids(
        capabilities::marked(caps, id, failed, reason, None),
        back,
        available,
        "ready"@,
        Some(provider),
    );
}

proof fn lemma_stranded_ids<G>(job: SwitchJob<G>, error: Seq<char>, restore_error: Seq<char>)
    ensures
        capabilities::ids(job.stranded(error, restore_error).facts().capabilities)
            == capabilities::ids(capabilities::views(job.snapshot.capabilities@)),
{
    let caps = capabilities::views(job.snapshot.capabilities@);
    let id = job.requested.local_capability();
    let failed = capabilities::CapabilityStatePayload::Failed;
    let reason = capabilities::requested_failure(job.requested, error);
    lemma_marked_ids(caps, id, failed, reason + "; retry failed: "@ + restore_error, None);
    lemma_marked_ids(caps, id, failed, reason, None);
    lemma_marked_ids(
        capabilities::marked(caps, id, failed, reason, None),
        job.previous.local_capability(),
        failed,
        "failed to restore previous "@ + job.previous.name() + " profile: "@ + restore_error,
        None,
    );
}

} // verus!
