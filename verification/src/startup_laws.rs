//! What holds of the start of the application, whatever it finds on the machine.

use crate::capabilities;
use crate::capabilities::{CapabilityStatePayload, CapabilityView};
use crate::capability_laws;
use crate::config;
use crate::config::{ResponseBackendConfig, RuntimeConfig};
use crate::persisted_state;
use crate::settings::{AgentChoicePayload, AssistantSettingsPayload, ResponseProfilePayload};
use crate::startup;
use crate::startup::{
    RuntimeLoad, RuntimePhasePayload, StartupFindings, StartupSnapshot, StartupView,
};
use crate::text;
use crate::tts::LocalTtsRuntime;
use vstd::prelude::*;
use vstd::string::*;

verus! {

broadcast use vstd::string::group_string_axioms;

/// Voice input can be used exactly where its three runtimes have started, and then nothing is said
/// about it. Otherwise every reason is told, each on a line of its own.
pub proof fn law_every_voice_failure_is_told<G>(findings: StartupFindings<G>)
    ensures
        ({
            let told = startup::voice_errors(findings);
            let awake = findings.wake_word_started;
            let asleep = "wake word runtime is unavailable"@;
            startup::voice_available(findings) == (awake && findings.parakeet is Started
                && findings.voice_activity is Started) && match (
                findings.parakeet,
                findings.voice_activity,
            ) {
                (RuntimeLoad::Failed(one), RuntimeLoad::Failed(two)) => {
                    let both = "failed to initialize parakeet transcriber: "@ + one@ + "\n"@ + (
                    "failed to initialize voice activity detector: "@ + two@);
                    told == Some(
                        if awake {
                            both
                        } else {
                            both + "\n"@ + asleep
                        },
                    )
                },
                (RuntimeLoad::Failed(one), _) => {
                    let line = "failed to initialize parakeet transcriber: "@ + one@;
                    told == Some(
                        if awake {
                            line
                        } else {
                            line + "\n"@ + asleep
                        },
                    )
                },
                (_, RuntimeLoad::Failed(two)) => {
                    let line = "failed to initialize voice activity detector: "@ + two@;
                    told == Some(
                        if awake {
                            line
                        } else {
                            line + "\n"@ + asleep
                        },
                    )
                },
                _ => told == (if awake {
                    None
                } else {
                    Some(asleep)
                }),
            }
        }),
{
}

/// Spoken answers are started exactly where their model is there and they are switched on: as it is
/// stored, or by default where nothing is.
pub proof fn law_speech_is_started_where_it_is_switched_on<G>(
    config: RuntimeConfig,
    findings: StartupFindings<G>,
)
    ensures
        startup::tts_wanted(config, findings) <==> {
            &&& config.tts_model.present
            &&& findings.persisted_tts_enabled == Some(true) || (
            findings.persisted_tts_enabled is None && findings.tts_enabled_by_default)
        },
{
}

/// A voice capability whose files are there but whose runtime did not start has failed and says so;
/// speech that is to be started is warming up; every other capability is as it is configured.
pub proof fn law_voice_capabilities_follow_their_runtimes<G>(
    config: RuntimeConfig,
    findings: StartupFindings<G>,
    i: int,
)
    requires
        0 <= i < 11,
    ensures
        ({
            let before = capabilities::initial_capabilities(config, findings.on_windows)[i];
            let after = startup::started_capabilities(config, findings)[i];
            let failed = |reason: Seq<char>|
                CapabilityView {
                    id: before.id,
                    state: CapabilityStatePayload::Failed,
                    reason,
                    actual_provider: None,
                };
            let deaf = config.wake_word_model.present && !findings.wake_word_started;
            let mute = config.parakeet_model_dir.present && !(findings.parakeet is Started);
            let numb = config.silero_vad_model.present && !(findings.voice_activity is Started);
            let speaks = startup::tts_wanted(config, findings);
            &&& before.id == "wake_word"@ && deaf ==> after == failed(
                "wake word runtime failed to initialize"@,
            )
            &&& before.id == "parakeet"@ && mute ==> after == failed(
                "Parakeet runtime failed to initialize"@,
            )
            &&& before.id == "vad"@ && numb ==> after == failed("VAD runtime failed to initialize"@)
            &&& before.id == "tts"@ && speaks ==> after == (CapabilityView {
                id: "tts"@,
                state: CapabilityStatePayload::Warming,
                reason: "TTS runtime is warming up"@,
                actual_provider: None,
            })
            &&& !(before.id == "wake_word"@ && deaf) && !(before.id == "parakeet"@ && mute) && !(
            before.id == "vad"@ && numb) && !(before.id == "tts"@ && speaks) ==> after == before
            &&& startup::started_capabilities(config, findings).len() == 11
        }),
{
    capability_laws::lemma_names_differ();
    capability_laws::law_every_capability_is_shown_once(config, findings.on_windows);
    let initial = capabilities::initial_capabilities(config, findings.on_windows);
    lemma_started(config, findings, initial);
}

proof fn lemma_started<G>(
    config: RuntimeConfig,
    findings: StartupFindings<G>,
    initial: Seq<CapabilityView>,
)
    requires
        initial == capabilities::initial_capabilities(config, findings.on_windows),
        capabilities::unique(initial),
        initial.len() == 11,
    ensures
        capabilities::unique(startup::started_capabilities(config, findings)),
        startup::started_capabilities(config, findings).len() == 11,
        forall|i: int|
            0 <= i < 11 ==> {
                let before = initial[i];
                let failed = |reason: Seq<char>|
                    CapabilityView {
                        id: before.id,
                        state: CapabilityStatePayload::Failed,
                        reason,
                        actual_provider: None,
                    };
                (#[trigger] startup::started_capabilities(config, findings)[i]) == (if before.id
                    == "wake_word"@ && config.wake_word_model.present
                    && !findings.wake_word_started {
                    failed("wake word runtime failed to initialize"@)
                } else if before.id == "tts"@ && startup::tts_wanted(config, findings) {
                    CapabilityView {
                        id: "tts"@,
                        state: CapabilityStatePayload::Warming,
                        reason: "TTS runtime is warming up"@,
                        actual_provider: None,
                    }
                } else if before.id == "parakeet"@ && config.parakeet_model_dir.present && !(
                findings.parakeet is Started) {
                    failed("Parakeet runtime failed to initialize"@)
                } else if before.id == "vad"@ && config.silero_vad_model.present && !(
                findings.voice_activity is Started) {
                    failed("VAD runtime failed to initialize"@)
                } else {
                    before
                })
            },
{
    capability_laws::lemma_names_differ();
    let failed = CapabilityStatePayload::Failed;
    let reason = "wake word runtime failed to initialize"@;
    capabilities::law_capabilities_are_marked_by_name(initial, "wake_word"@, failed, reason, None);
    let wake = if config.wake_word_model.present && !findings.wake_word_started {
        capabilities::marked(initial, "wake_word"@, failed, reason, None)
    } else {
        initial
    };
    let warming = CapabilityStatePayload::Warming;
    let reason = "TTS runtime is warming up"@;
    capabilities::law_capabilities_are_marked_by_name(wake, "tts"@, warming, reason, None);
    let speech = if startup::tts_wanted(config, findings) {
        capabilities::marked(wake, "tts"@, warming, reason, None)
    } else {
        wake
    };
    let reason = "Parakeet runtime failed to initialize"@;
    capabilities::law_capabilities_are_marked_by_name(speech, "parakeet"@, failed, reason, None);
    let parakeet = if config.parakeet_model_dir.present && !(findings.parakeet is Started) {
        capabilities::marked(speech, "parakeet"@, failed, reason, None)
    } else {
        speech
    };
    let reason = "VAD runtime failed to initialize"@;
    capabilities::law_capabilities_are_marked_by_name(parakeet, "vad"@, failed, reason, None);
}

/// A local model is loaded exactly where answers come from one, there is a system prompt, and the
/// local server and the fast model are there: the quality model where that profile was stored and
/// has a model, and the fast one otherwise.
pub proof fn law_local_models_are_loaded_where_they_can_answer<G>(
    config: RuntimeConfig,
    findings: StartupFindings<G>,
)
    ensures
        ({
            let model = startup::starting_model(config, findings);
            let can = config.response_backend is LlamaCpp && findings.system_prompt is Ok
                && capability_laws::local_is_there(config, false);
            &&& model is Some <==> can
            &&& can ==> match config.response_backend {
                ResponseBackendConfig::LlamaCpp { fast_model_path, quality_model_path, .. } => {
                    let better = findings.persisted_profile == Some(
                        ResponseProfilePayload::Quality,
                    ) && quality_model_path is Some;
                    &&& better ==> model == Some(quality_model_path->0@)
                    &&& !better ==> model == Some(fast_model_path@)
                },
                _ => false,
            }
        }),
{
    capability_laws::lemma_names_differ();
    capability_laws::law_every_capability_is_shown_once(config, findings.on_windows);
    capability_laws::law_capabilities_need_what_they_work_with(config, findings.on_windows);
    let initial = capabilities::initial_capabilities(config, findings.on_windows);
    lemma_started(config, findings, initial);
    let caps = startup::started_capabilities(config, findings);
    let names = capabilities::capability_ids();
    assert(names[2] == "local_fast"@);
    assert(names[4] == "qwen_prediction"@);
    assert(names[2] != names[4]);
    assert(initial[2].id == "local_fast"@) by {
        assert(capabilities::ids(initial)[2] == "local_fast"@);
    }
    assert(names[2] != names[5] && names[2] != names[6] && names[2] != names[7] && names[2]
        != names[8]);
    assert(caps[2] == initial[2]);
    capabilities::law_availability_is_looked_up(caps, "local_fast"@, 2);
    capability_laws::law_configured_capabilities_are_ready(
        config,
        findings.on_windows,
        "local_fast"@,
    );
    assert(initial[2] == capabilities::configured_capability(
        config,
        findings.on_windows,
        initial[2].id,
    ));
    if let ResponseBackendConfig::LlamaCpp { quality_model_path, .. } = config.response_backend {
        law_the_stored_profile_is_used_where_supported(
            config.response_backend,
            findings.persisted_profile,
        );
    }
}

/// The stored profile is used where the backend supports it, and the fast one otherwise. The
/// quality profile is supported only by a local backend that has a model for it.
pub proof fn law_the_stored_profile_is_used_where_supported(
    backend: ResponseBackendConfig,
    stored: Option<ResponseProfilePayload>,
)
    ensures
        ({
            let used = persisted_state::resolved_profile(config::profiles_of(backend), stored);
            let both = backend matches ResponseBackendConfig::LlamaCpp { quality_model_path, .. }
                && quality_model_path is Some;
            &&& used is Quality <==> both && stored == Some(ResponseProfilePayload::Quality)
            &&& config::profiles_of(backend).contains(ResponseProfilePayload::Quality) <==> both
            &&& config::profiles_of(backend).contains(ResponseProfilePayload::Fast)
                <==> !(backend is Unconfigured)
            &&& config::profiles_of(backend).no_duplicates()
        }),
{
    let profiles = config::profiles_of(backend);
    let fast = ResponseProfilePayload::Fast;
    let quality = ResponseProfilePayload::Quality;
    match backend {
        ResponseBackendConfig::LlamaCpp { quality_model_path, .. } => {
            assert(profiles[0] == fast);
            assert(profiles.contains(fast));
            if quality_model_path is Some {
                assert(profiles[1] == quality);
                assert(profiles.contains(quality));
            }
        },
        ResponseBackendConfig::Opencode => {
            assert(profiles[0] == fast);
            assert(profiles.contains(fast));
        },
        ResponseBackendConfig::Unconfigured => {},
    }
}

/// What is shown first: a local model that has to be loaded is awaited, with its capability warming
/// up and prompts not to be cancelled; everything else is ready, asleep, and without profiles where
/// a local backend has no model to run. Speech is off until its runtime has started.
pub proof fn law_the_first_state_shows_what_was_found<G>(
    config: RuntimeConfig,
    findings: StartupFindings<G>,
)
    ensures
        ({
            let shown = startup::starting_view(config, findings);
            let facts = shown.facts();
            let loads = startup::starting_model(config, findings) is Some;
            let local = config.response_backend is LlamaCpp;
            &&& loads ==> shown is WarmingModel && shown->WarmingModel_message
                == "Loading local Gemma model..."@
            &&& !loads ==> shown is Ready
            &&& facts.start_cue == findings.cue_asset_paths.start_listening@
            &&& facts.stop_cue == findings.cue_asset_paths.stop_listening@
            &&& facts.voice_input_available == (findings.wake_word_started && findings.parakeet
                is Started && findings.voice_activity is Started)
            &&& facts.voice_input_error == startup::voice_errors(findings)
            &&& facts.silence_timeout_ms == findings.silence_timeout_ms
            &&& facts.tts_output_gain_db == findings.tts_output_gain_db
            &&& !facts.tts_enabled
            &&& facts.prompt_cancellation_available == !loads
            &&& loads ==> facts.runtime_phase is Initializing
            &&& !loads ==> facts.runtime_phase is Sleeping
            &&& local && !loads ==> facts.supported_response_profiles.len() == 0
            &&& !local || loads ==> facts.supported_response_profiles == config::profiles_of(
                config.response_backend,
            )
            &&& facts.selected_response_profile == startup::starting_profile(config, findings)
        }),
{
}

/// The local capabilities as they are shown first: the one of the profile warms up while its model
/// is loaded, both have failed with the reason where the system prompt is missing, and otherwise
/// nothing is different from what the voice runtimes left.
pub proof fn law_local_capabilities_are_shown_as_they_are<G>(
    config: RuntimeConfig,
    findings: StartupFindings<G>,
    i: int,
)
    requires
        0 <= i < 11,
    ensures
        ({
            let before = startup::started_capabilities(config, findings)[i];
            let after = startup::starting_view(config, findings).facts().capabilities[i];
            let loads = startup::starting_model(config, findings) is Some;
            let local = before.id == "local_fast"@ || before.id == "local_quality"@;
            let chosen = if startup::starting_profile(config, findings) is Fast {
                "local_fast"@
            } else {
                "local_quality"@
            };
            let speechless = config.response_backend is LlamaCpp && findings.system_prompt is Err;
            &&& loads && before.id == chosen ==> after == (CapabilityView {
                id: chosen,
                state: CapabilityStatePayload::Warming,
                reason: "local model is loading"@,
                actual_provider: None,
            })
            &&& speechless && local && before.state is Available ==> after == (CapabilityView {
                id: before.id,
                state: CapabilityStatePayload::Failed,
                reason: "failed to load SOUL.md: "@ + findings.system_prompt->Err_0@,
                actual_provider: None,
            })
            &&& !(loads && before.id == chosen) && !(speechless && local && before.state
                is Available) ==> after == before
        }),
{
    capability_laws::law_every_capability_is_shown_once(config, findings.on_windows);
    let initial = capabilities::initial_capabilities(config, findings.on_windows);
    lemma_started(config, findings, initial);
    let caps = startup::started_capabilities(config, findings);
    capabilities::law_capabilities_are_marked_by_name(
        caps,
        startup::starting_profile(config, findings).local_capability(),
        CapabilityStatePayload::Warming,
        "local model is loading"@,
        None,
    );
    if let Err(error) = findings.system_prompt {
        capability_laws::law_local_models_fail_together(
            caps,
            "failed to load SOUL.md: "@ + error@,
            i,
        );
    }
}

/// Loading ends in a ready, sleeping state of the profile that was loaded, with its capability ready
/// on its provider, or failed with the reason and without profiles to choose from. Nothing changes
/// where the profile is not wanted any more, or after a failed start.
pub proof fn law_loading_ends_ready<G>(
    state: StartupView<G>,
    captured: StartupSnapshot<G>,
    profile: ResponseProfilePayload,
    loaded: Result<Seq<char>, Seq<char>>,
    still_wanted: bool,
    i: int,
)
    requires
        capabilities::unique(state.facts().capabilities),
        0 <= i < state.facts().capabilities.len(),
    ensures
        ({
            let shown = startup::loaded_view(state, captured, profile, loaded, still_wanted);
            let facts = shown.facts();
            let before = state.facts().capabilities[i];
            let served = if profile is Fast {
                "local_fast"@
            } else {
                "local_quality"@
            };
            &&& !still_wanted || state is Error ==> shown == state
            &&& still_wanted && !(state is Error) ==> {
                &&& shown is Ready
                &&& facts.runtime_phase is Sleeping
                &&& facts.prompt_cancellation_available
                &&& facts.selected_response_profile == profile
                &&& facts.tts_enabled == state.facts().tts_enabled
                &&& facts.start_cue == captured.cue_asset_paths.start_listening@
                &&& facts.stop_cue == captured.cue_asset_paths.stop_listening@
                &&& facts.voice_input_available == captured.voice_input_available
                &&& facts.voice_input_error == text::optional_text(captured.voice_input_error)
                &&& facts.silence_timeout_ms == captured.silence_timeout_ms
                &&& facts.tts_output_gain_db == captured.tts_output_gain_db
                &&& loaded is Ok ==> facts.supported_response_profiles
                    == captured.supported_response_profiles@
                &&& loaded is Err ==> facts.supported_response_profiles.len() == 0
                &&& before.id != served ==> facts.capabilities[i] == before
                &&& before.id == served && loaded is Ok ==> facts.capabilities[i] == (
                CapabilityView {
                    id: served,
                    state: CapabilityStatePayload::Available,
                    reason: "ready"@,
                    actual_provider: Some(loaded->Ok_0),
                })
                &&& before.id == served && loaded is Err ==> facts.capabilities[i] == (
                CapabilityView {
                    id: served,
                    state: CapabilityStatePayload::Failed,
                    reason: "failed to initialize local llama.cpp runtime: "@ + loaded->Err_0,
                    actual_provider: None,
                })
            }
        }),
{
    let caps = state.facts().capabilities;
    let id = profile.local_capability();
    match loaded {
        Ok(provider) => capabilities::law_capabilities_are_marked_by_name(
            caps,
            id,
            CapabilityStatePayload::Available,
            "ready"@,
            Some(provider),
        ),
        Err(error) => capabilities::law_capabilities_are_marked_by_name(
            caps,
            id,
            CapabilityStatePayload::Failed,
            "failed to initialize local llama.cpp runtime: "@ + error,
            None,
        ),
    }
}

/// Prompts and switches of the profile are accepted exactly once the start is complete, and the
/// voice runtime sleeps for a switch; otherwise each is told why not.
pub proof fn law_work_begins_once_the_start_is_complete<G>(
    state: StartupView<G>,
    phase: RuntimePhasePayload,
)
    ensures
        startup::prompt_admission(state) is Ok <==> state is Ready,
        startup::switch_admission(state) is Ok <==> state is Ready,
        state is WarmingModel ==> startup::prompt_admission(state) == Err::<(), Seq<char>>(
            "local Gemma model is still warming up"@,
        ),
        state is WarmingModel ==> startup::switch_admission(state) == Err::<(), Seq<char>>(
            "response backend is busy; wait for the active operation to finish"@,
        ),
        state is Error ==> startup::prompt_admission(state) == Err::<(), Seq<char>>(
            "startup error: "@ + state->Error_message,
        ),
        state is Error ==> startup::switch_admission(state) == Err::<(), Seq<char>>(
            "startup error: "@ + state->Error_message,
        ),
        startup::idle_admission(phase) is Ok <==> phase is Sleeping,
        phase is Listening ==> startup::idle_admission(phase) == Err::<(), Seq<char>>(
            "response profile switch is only allowed while runtime is sleeping; current phase is "@
                + "listening"@,
        ),
        phase is Processing ==> startup::idle_admission(phase) == Err::<(), Seq<char>>(
            "response profile switch is only allowed while runtime is sleeping; current phase is "@
                + "processing"@,
        ),
        phase is Executing ==> startup::idle_admission(phase) == Err::<(), Seq<char>>(
            "response profile switch is only allowed while runtime is sleeping; current phase is "@
                + "executing"@,
        ),
        phase is Initializing ==> startup::idle_admission(phase) == Err::<(), Seq<char>>(
            "response profile switch is only allowed while runtime is sleeping; current phase is "@
                + "initializing"@,
        ),
        phase is Error ==> startup::idle_admission(phase) == Err::<(), Seq<char>>(
            "response profile switch is only allowed while runtime is sleeping; current phase is "@
                + "error"@,
        ),
{
}

/// An update is installed only while the start is complete, the voice runtime sleeps, and no
/// prompt, response operation or speech operation runs; any one of them alone stops it.
pub proof fn law_any_work_stops_an_installation(
    ready: bool,
    phase: RuntimePhasePayload,
    prompt: bool,
    response: bool,
    speech: bool,
)
    ensures
        startup::installation_busy(true, RuntimePhasePayload::Sleeping, false, false, false)
            is None,
        startup::installation_busy(false, phase, prompt, response, speech) is Some,
        !(phase is Sleeping) ==> startup::installation_busy(ready, phase, prompt, response, speech)
            is Some,
        startup::installation_busy(ready, phase, true, response, speech) is Some,
        startup::installation_busy(ready, phase, prompt, true, speech) is Some,
        startup::installation_busy(ready, phase, prompt, response, true) is Some,
        startup::installation_busy(ready, phase, prompt, response, speech) matches Some(reason)
            ==> reason == "Update installation requires VoxGolem to be idle."@,
{
}

/// A system prompt is the text of its file without white space around it; a file that holds
/// nothing else is refused by name.
pub proof fn law_system_prompts_hold_text(path: Seq<char>, contents: Seq<char>)
    ensures
        startup::held_prompt(path, contents) is Err <==> (forall|i: int|
            0 <= i < contents.len() ==> text::white(#[trigger] contents[i])),
        startup::held_prompt(path, contents) matches Err(message) ==> message == path
            + " is empty"@,
        startup::held_prompt(path, contents) matches Ok(prompt) ==> exists|from: int, to: int|
            #[trigger] text::trims_to(contents, from, to, prompt),
{
    text::law_trimmed_texts_keep_their_words(contents);
    let (from, to) = choose|from: int, to: int|
        #[trigger] text::trims_to(contents, from, to, text::trimmed(contents));
    if let Ok(prompt) = startup::held_prompt(path, contents) {
        assert(text::trims_to(contents, from, to, prompt));
    }
}

/// A change of the settings is accepted exactly where the start has not failed and everything that
/// the change needs is available; otherwise something that is missing is named.
pub proof fn law_settings_change_where_everything_is_available<G>(
    settings: AssistantSettingsPayload,
    previous: AssistantSettingsPayload,
    state: StartupView<G>,
)
    ensures
        ({
            let required = capabilities::required_capabilities(settings, previous);
            let list = state.facts().capabilities;
            let answer = startup::settings_admission(settings, previous, state);
            &&& state is Error ==> answer == Err::<(), Seq<char>>("startup is not ready"@)
            &&& !(state is Error) ==> (answer is Ok <==> forall|i: int|
                0 <= i < required.len() ==> capabilities::available(list, #[trigger] required[i]))
            &&& !(state is Error) && answer is Err ==> exists|i: int|
                0 <= i < required.len() && !capabilities::available(list, #[trigger] required[i])
                    && answer->Err_0 == "assistant capability `"@ + required[i]
                    + "` is unavailable"@
        }),
{
    let required = capabilities::required_capabilities(settings, previous);
    let list = state.facts().capabilities;
    capability_laws::law_the_first_missing_capability_is_named(list, required);
    if let Some(id) = capabilities::first_unavailable(list, required) {
        let i = choose|i: int| 0 <= i < required.len() && required[i] == id;
        assert(!capabilities::available(list, required[i]));
    }
}

/// Speech that started with the application is switched on and ready on its provider; where it did
/// not start it has failed; where somebody has switched speech since, nothing changes.
pub proof fn law_speech_starts_once<G>(
    before: StartupView<G>,
    current: bool,
    runtime: Option<LocalTtsRuntime>,
    i: int,
)
    requires
        !(before is Error),
        capabilities::unique(before.facts().capabilities),
        0 <= i < before.facts().capabilities.len(),
    ensures
        ({
            let (outcome, after) = startup::after_speech_start(before, current, runtime);
            let old = before.facts().capabilities[i];
            let new = after.facts().capabilities[i];
            &&& outcome is Superseded <==> !current
            &&& outcome is Installed <==> current && runtime is Some
            &&& outcome is Failed <==> current && runtime is None
            &&& !current ==> after == before
            &&& after is Ready <==> before is Ready
            &&& old.id != "tts"@ ==> new == old
            &&& outcome is Installed ==> after.facts().tts_enabled
            &&& outcome is Installed && old.id == "tts"@ ==> new.state is Available && new.reason
                == "ready"@ && new.id == "tts"@
            &&& outcome is Failed ==> after.facts().tts_enabled == before.facts().tts_enabled
            &&& outcome is Failed && old.id == "tts"@ ==> new == (CapabilityView {
                id: "tts"@,
                state: CapabilityStatePayload::Failed,
                reason: "TTS runtime failed to initialize"@,
                actual_provider: None,
            })
            &&& after.facts().selected_response_profile == before.facts().selected_response_profile
            &&& after.facts().runtime_phase == before.facts().runtime_phase
            &&& after.facts().voice_input_available == before.facts().voice_input_available
        }),
{
    let caps = before.facts().capabilities;
    capabilities::law_speech_follows_its_runtime(caps, true, runtime, i);
    capabilities::law_capabilities_are_marked_by_name(
        caps,
        "tts"@,
        CapabilityStatePayload::Failed,
        "TTS runtime failed to initialize"@,
        None,
    );
}

/// After the OpenCode service did not start, other settings are announced exactly where something
/// in them relied on it: its models where a custom provider takes over, the Deep and Review stages
/// where none does.
pub proof fn law_settings_change_with_the_lost_provider<G>(
    before: StartupView<G>,
    settings: AssistantSettingsPayload,
    reason: Seq<char>,
)
    requires
        !(before is Error),
        capabilities::unique(before.facts().capabilities),
    ensures
        ({
            let custom = capabilities::available(before.facts().capabilities, "custom_provider"@);
            let hosted = |model: AgentChoicePayload|
                model is OpenCodeSolHigh || model is OpenCodeLunaLow;
            let uses = settings.instant is OpenCodeSolHigh || settings.instant is OpenCodeLunaLow
                || hosted(settings.deep) || hosted(settings.review);
            let announced = startup::settings_after_opencode(before, settings, reason);
            &&& custom ==> (announced is Some <==> uses)
            &&& !custom ==> (announced is Some <==> settings.deep_enabled
                || settings.review_enabled)
            &&& announced is Some && custom ==> !hosted(announced->0.deep) && !hosted(
                announced->0.review,
            ) && !(announced->0.instant is OpenCodeSolHigh) && !(announced->0.instant
                is OpenCodeLunaLow) && announced->0.deep_enabled == settings.deep_enabled
                && announced->0.review_enabled == settings.review_enabled
            &&& announced is Some && !custom ==> announced->0 == (AssistantSettingsPayload {
                deep_enabled: false,
                review_enabled: false,
                ..settings
            })
        }),
{
    capability_laws::lemma_names_differ();
    capabilities::law_only_the_named_capability_changes(
        before.facts().capabilities,
        "opencode"@,
        CapabilityStatePayload::Failed,
        reason,
        None,
    );
}

} // verus!
