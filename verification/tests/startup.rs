use vox_golem::application::{
    begin_exit_cleanup, register_llama_startup, set_assistant_settings, ExitStep, SettingsEvent,
    SettingsStep,
};
use vox_golem::capabilities::{
    capability_available, CapabilityPayload, CapabilityStatePayload,
};
use vox_golem::config::{
    ConfiguredPath, CustomOpenAiAuthSource, CustomOpenAiConfig, LlamaCppConfig,
    ResponseBackendConfig, RuntimeConfig,
};
use vox_golem::profile_switch::{
    admit_profile_switch, local_instant_model, local_profile_for_model, prepare_profile_switch,
    rollback_profile_commit_state, store_runtime_if_current, switch_response_profile,
    synchronize_local_instant_model_with, PreferenceStore, SwitchAdmission, SwitchEvent, SwitchJob,
    SwitchStep, SyncReport,
};
use vox_golem::settings::{
    AssistantPreferences, AssistantSettingsPayload, InstantChoicePayload, InstantModel,
    ResponseProfilePayload,
};
use vox_golem::startup::{
    build_app_state, build_nonfatal_config_error_app_state, build_startup_error_app_state,
    conclude_local_model_start, conclude_tts_startup,
    ensure_assistant_settings_available, ensure_response_profile_switch_runtime_is_idle,
    ensure_startup_ready_for_profile_switch, ensure_startup_ready_for_prompt,
    fail_opencode_startup, fail_startup_capability, llama_cpp_system_prompt,
    set_startup_capability_provider, set_startup_tts_enabled,
    startup_state_after_profile_restore_failure, update_installation_busy_reason,
    CueAssetPathsPayload, RuntimeLoad, RuntimePhasePayload, StartupFindings, StartupPlan,
    StartupSnapshot, StartupStatePayload, TtsStartup, DEFAULT_SILENCE_TIMEOUT_MS,
};
use vox_golem::tts::LocalTtsRuntime;

fn cues() -> CueAssetPathsPayload {
    CueAssetPathsPayload {
        start_listening: String::from("resources/start-listening.wav"),
        stop_listening: String::from("resources/stop-listening.wav"),
    }
}

fn ready(capabilities: Vec<CapabilityPayload>) -> StartupStatePayload<f32> {
    StartupStatePayload::Ready {
        cue_asset_paths: cues(),
        runtime_phase: RuntimePhasePayload::Sleeping,
        voice_input_available: true,
        voice_input_error: None,
        silence_timeout_ms: DEFAULT_SILENCE_TIMEOUT_MS,
        selected_response_profile: ResponseProfilePayload::Fast,
        supported_response_profiles: vec![
            ResponseProfilePayload::Fast,
            ResponseProfilePayload::Quality,
        ],
        prompt_cancellation_available: false,
        tts_enabled: false,
        tts_output_gain_db: 3.0,
        capabilities,
    }
}

fn capability(id: &'static str, state: CapabilityStatePayload) -> CapabilityPayload {
    CapabilityPayload { id, state, reason: String::from("ready"), actual_provider: None }
}

fn shown(state: &StartupStatePayload<f32>) -> &Vec<CapabilityPayload> {
    match state {
        StartupStatePayload::Ready { capabilities, .. }
        | StartupStatePayload::WarmingModel { capabilities, .. } => capabilities,
        StartupStatePayload::Error { .. } => panic!("a failed start shows no capabilities"),
    }
}

fn snapshot() -> StartupSnapshot<f32> {
    StartupSnapshot {
        cue_asset_paths: CueAssetPathsPayload {
            start_listening: String::from("start"),
            stop_listening: String::from("stop"),
        },
        voice_input_available: true,
        voice_input_error: None,
        silence_timeout_ms: 1_500,
        tts_enabled: true,
        tts_output_gain_db: 0.0,
        supported_response_profiles: vec![ResponseProfilePayload::Fast],
        capabilities: vec![CapabilityPayload {
            id: "local_fast",
            state: CapabilityStatePayload::Available,
            reason: String::from("ready"),
            actual_provider: Some("cuda"),
        }],
    }
}

#[test]
fn update_installation_requires_every_backend_activity_to_be_idle() {
    assert_eq!(
        update_installation_busy_reason(
            true,
            RuntimePhasePayload::Sleeping,
            false,
            false,
            false,
        ),
        None
    );
    for state in [
        (false, RuntimePhasePayload::Sleeping, false, false, false),
        (true, RuntimePhasePayload::Listening, false, false, false),
        (true, RuntimePhasePayload::Sleeping, true, false, false),
        (true, RuntimePhasePayload::Sleeping, false, true, false),
        (true, RuntimePhasePayload::Sleeping, false, false, true),
    ] {
        assert_eq!(
            update_installation_busy_reason(state.0, state.1, state.2, state.3, state.4),
            Some("Update installation requires VoxGolem to be idle.")
        );
    }
}

#[test]
fn failed_same_profile_retry_keeps_shell_ready_with_failed_local_capability() {
    let state = startup_state_after_profile_restore_failure(
        &snapshot(),
        ResponseProfilePayload::Fast,
        ResponseProfilePayload::Fast,
        "first failure",
        "second failure",
    );

    let StartupStatePayload::Ready { selected_response_profile, capabilities, .. } = state else {
        panic!("local retry failure must not disable the shell");
    };
    assert_eq!(selected_response_profile, ResponseProfilePayload::Fast);
    assert_eq!(capabilities[0].state, CapabilityStatePayload::Failed);
    assert!(capabilities[0].reason.contains("second failure"));
    assert_eq!(capabilities[0].actual_provider, None);
}

#[test]
fn contract_response_profile_switch_requires_sleeping_runtime_phase() {
    assert_eq!(
        ensure_response_profile_switch_runtime_is_idle(RuntimePhasePayload::Sleeping),
        Ok(())
    );
    assert_eq!(
        ensure_response_profile_switch_runtime_is_idle(RuntimePhasePayload::Executing),
        Err(String::from(
            "response profile switch is only allowed while runtime is sleeping; current phase is executing"
        ))
    );
}

#[test]
fn contract_response_profile_switch_requires_ready_startup_state() {
    let warming_state: StartupStatePayload<f32> = StartupStatePayload::WarmingModel {
        cue_asset_paths: cues(),
        runtime_phase: RuntimePhasePayload::Initializing,
        voice_input_available: true,
        voice_input_error: None,
        silence_timeout_ms: DEFAULT_SILENCE_TIMEOUT_MS,
        message: String::from("Loading local Gemma model..."),
        selected_response_profile: ResponseProfilePayload::Quality,
        supported_response_profiles: vec![
            ResponseProfilePayload::Fast,
            ResponseProfilePayload::Quality,
        ],
        prompt_cancellation_available: false,
        tts_enabled: false,
        tts_output_gain_db: 3.0,
        capabilities: Vec::new(),
    };

    assert_eq!(
        ensure_startup_ready_for_profile_switch(&warming_state),
        Err(String::from("response backend is busy; wait for the active operation to finish"))
    );
    assert_eq!(
        ensure_startup_ready_for_prompt(&warming_state),
        Err(String::from("local Gemma model is still warming up"))
    );

    assert_eq!(ensure_startup_ready_for_profile_switch(&ready(Vec::new())), Ok(()));
    assert_eq!(ensure_startup_ready_for_prompt(&ready(Vec::new())), Ok(()));
}

#[test]
fn build_startup_error_app_state_tracks_error_runtime_and_no_wake_word_runtime() {
    let state: StartupStatePayload<f32> =
        build_startup_error_app_state("wake word init failed".to_string());

    assert!(matches!(state, StartupStatePayload::Error { .. }));
    assert_eq!(
        ensure_startup_ready_for_prompt(&state),
        Err(String::from("startup error: wake word init failed"))
    );
}

#[test]
fn assistant_settings_ignore_failure_of_existing_optional_capability() {
    let state: StartupStatePayload<f32> = StartupStatePayload::Ready {
        cue_asset_paths: CueAssetPathsPayload {
            start_listening: String::new(),
            stop_listening: String::new(),
        },
        runtime_phase: RuntimePhasePayload::Sleeping,
        voice_input_available: true,
        voice_input_error: None,
        silence_timeout_ms: 1_500,
        selected_response_profile: ResponseProfilePayload::Fast,
        supported_response_profiles: vec![ResponseProfilePayload::Fast],
        prompt_cancellation_available: true,
        tts_enabled: false,
        tts_output_gain_db: 0.0,
        capabilities: vec![CapabilityPayload {
            id: "qwen_prediction",
            state: CapabilityStatePayload::Failed,
            reason: String::from("failed later"),
            actual_provider: None,
        }],
    };
    let previous = AssistantSettingsPayload { completion: true, ..Default::default() };
    let next = AssistantSettingsPayload {
        completion: true,
        prefetch: !previous.prefetch,
        ..previous
    };
    assert!(ensure_assistant_settings_available(&next, &previous, &state).is_ok());
}

#[test]
fn settings_changes_need_their_capabilities() {
    let state = ready(vec![capability("local_fast", CapabilityStatePayload::Available)]);
    let previous = AssistantSettingsPayload::default();
    let next = AssistantSettingsPayload {
        instant: InstantChoicePayload::CustomSolHigh,
        ..previous
    };
    match set_assistant_settings(&next, &previous, &state, SettingsEvent::Requested) {
        SettingsStep::Refuse { error } => {
            assert_eq!(error, "assistant capability `custom_provider` is unavailable")
        }
        _ => panic!("the change should be refused"),
    }
    let failed: StartupStatePayload<f32> = build_startup_error_app_state(String::from("x"));
    assert_eq!(
        ensure_assistant_settings_available(&previous, &previous, &failed),
        Err(String::from("startup is not ready"))
    );
}

#[test]
fn settings_are_taken_back_where_they_cannot_be_stored() {
    let state = ready(Vec::new());
    let settings = AssistantSettingsPayload { completion: false, ..Default::default() };
    let step = |event| set_assistant_settings(&settings, &settings, &state, event);
    assert!(matches!(step(SettingsEvent::Requested), SettingsStep::Hand));
    assert!(matches!(
        step(SettingsEvent::Handed { taken: false }),
        SettingsStep::Refuse { error }
            if error == "assistant settings cannot change while a prompt is active"
    ));
    assert!(matches!(step(SettingsEvent::Handed { taken: true }), SettingsStep::Store));
    assert!(matches!(
        step(SettingsEvent::Stored { result: Err(String::from("disk full")) }),
        SettingsStep::TakeBack { error } if error == "disk full"
    ));
    assert!(matches!(
        step(SettingsEvent::Stored { result: Ok(()) }),
        SettingsStep::Apply { clear_completion: true }
    ));
}

#[test]
fn a_failed_opencode_service_changes_the_settings_that_need_it() {
    let mut state = ready(vec![
        capability("custom_provider", CapabilityStatePayload::Available),
        capability("opencode", CapabilityStatePayload::Available),
    ]);
    let settings = AssistantSettingsPayload {
        instant: InstantChoicePayload::OpenCodeSolHigh,
        ..Default::default()
    };
    let reconciled = fail_opencode_startup(&mut state, settings, String::from("no server"));
    assert_eq!(
        reconciled.expect("other settings").instant,
        InstantChoicePayload::CustomSolHigh
    );
    assert_eq!(shown(&state)[1].state, CapabilityStatePayload::Failed);
    assert_eq!(shown(&state)[1].reason, "no server");

    let mut failed: StartupStatePayload<f32> = build_startup_error_app_state(String::from("x"));
    assert_eq!(fail_opencode_startup(&mut failed, settings, String::from("no server")), None);
}

#[test]
fn speech_that_starts_with_the_application_is_shown() {
    let runtime = LocalTtsRuntime {
        enabled: true,
        sample_rate_hz: 22_050,
        max_duration_ms: 1,
        available: true,
        actual_provider: None,
    };
    let mut state = ready(vec![capability("tts", CapabilityStatePayload::Warming)]);
    assert_eq!(conclude_tts_startup(&mut state, false, Some(&runtime)), TtsStartup::Superseded);
    assert_eq!(shown(&state)[0].state, CapabilityStatePayload::Warming);
    assert_eq!(conclude_tts_startup(&mut state, true, Some(&runtime)), TtsStartup::Installed);
    assert_eq!(shown(&state)[0].state, CapabilityStatePayload::Available);
    assert_eq!(conclude_tts_startup(&mut state, true, None), TtsStartup::Failed);
    assert_eq!(shown(&state)[0].reason, "TTS runtime failed to initialize");
}

#[test]
fn shown_capabilities_follow_their_runtimes() {
    let mut state = ready(vec![capability("qwen_prediction", CapabilityStatePayload::Warming)]);
    set_startup_capability_provider(&mut state, "qwen_prediction", "cuda");
    assert_eq!(shown(&state)[0].actual_provider, Some("cuda"));
    fail_startup_capability(&mut state, "qwen_prediction", String::from("stopped"));
    assert_eq!(shown(&state)[0].state, CapabilityStatePayload::Failed);
    set_startup_tts_enabled(&mut state, true);
    assert!(matches!(state, StartupStatePayload::Ready { tts_enabled: true, .. }));
}

#[test]
fn a_broken_configuration_leaves_the_shell_ready() {
    let state: StartupStatePayload<f32> =
        build_nonfatal_config_error_app_state(cues(), String::from("bad toml"), 1.0);
    assert!(matches!(state, StartupStatePayload::Ready { .. }));
    assert!(shown(&state)
        .iter()
        .all(|capability| capability.state == CapabilityStatePayload::Failed));
}

#[test]
fn load_llama_cpp_system_prompt_reads_soul_file_from_appdata() {
    assert_eq!(
        llama_cpp_system_prompt("SOUL.md", "  You are JARVIS, concise and precise.  "),
        Ok(String::from("You are JARVIS, concise and precise."))
    );
    assert!(llama_cpp_system_prompt("SOUL.md", " \n").is_err());
}

#[test]
fn assistant_runtime_controls_follow_persisted_preferences() {
    let disabled = AssistantSettingsPayload { completion: false, ..Default::default() };
    let mut store = PreferenceStore {
        preferences: AssistantPreferences::from(disabled),
        prompt_active: false,
        generation: 0,
    };
    assert!(!store.preferences.completion_enabled);

    let persisted = std::cell::Cell::new(None);
    synchronize_local_instant_model_with(
        &mut store,
        0,
        ResponseProfilePayload::Quality,
        |profile, settings| {
            persisted.set(Some((profile, settings)));
            Ok(())
        },
    )
    .unwrap()
    .unwrap();
    let (profile, settings) = persisted.get().unwrap();
    assert_eq!(profile, ResponseProfilePayload::Quality);
    assert_eq!(settings.instant, InstantChoicePayload::LocalQuality);
    assert!(!settings.completion);
    assert!(synchronize_local_instant_model_with(
        &mut store,
        0,
        ResponseProfilePayload::Fast,
        |_, _| panic!("stale profile must not persist"),
    )
    .unwrap()
    .is_none());
}

#[test]
fn profile_persistence_failure_does_not_commit_preferences_or_generation() {
    let mut store = PreferenceStore {
        preferences: AssistantPreferences::from(AssistantSettingsPayload::default()),
        prompt_active: false,
        generation: 4,
    };
    let error = synchronize_local_instant_model_with(
        &mut store,
        4,
        ResponseProfilePayload::Quality,
        |_, _| Err(String::from("injected persistence failure")),
    )
    .expect_err("persistence failure must be returned");

    assert_eq!(error, "injected persistence failure");
    assert_eq!(store.generation, 4);
    assert_eq!(store.preferences.instant_model, InstantModel::LocalFast);
}

#[test]
fn profile_changes_are_rolled_back_unless_the_settings_changed() {
    let before = AssistantPreferences::from(AssistantSettingsPayload::default());
    let changed = AssistantPreferences { instant_model: InstantModel::LocalQuality, ..before };
    let mut store = PreferenceStore { preferences: changed, prompt_active: false, generation: 4 };
    let mut selected = ResponseProfilePayload::Quality;
    let mut roll_back = |store: &mut PreferenceStore, generation| {
        rollback_profile_commit_state(
            store,
            true,
            &mut selected,
            ResponseProfilePayload::Fast,
            before,
            generation,
        )
    };
    assert_eq!(roll_back(&mut store, 3), Ok(false));
    assert_eq!(store.preferences, changed);
    let mut busy = PreferenceStore { prompt_active: true, ..store };
    assert_eq!(
        roll_back(&mut busy, 4),
        Err(String::from("assistant settings cannot be rolled back while a prompt is active"))
    );
    assert_eq!(roll_back(&mut store, 4), Ok(true));
    assert_eq!(store.preferences, before);
    assert_eq!(store.generation, 4);
    assert_eq!(selected, ResponseProfilePayload::Fast);
}

#[test]
fn profile_switches_go_from_start_to_publication() {
    let job = SwitchJob {
        requested: ResponseProfilePayload::Quality,
        previous: ResponseProfilePayload::Fast,
        snapshot: snapshot(),
    };
    assert!(matches!(
        switch_response_profile(&job, SwitchEvent::Started { result: Ok("cpu"), current: true }),
        SwitchStep::Synchronize { provider: "cpu" }
    ));
    assert!(matches!(
        switch_response_profile(
            &job,
            SwitchEvent::Synchronized { provider: "cpu", report: SyncReport::Committed }
        ),
        SwitchStep::StoreRuntime { provider: "cpu" }
    ));
    match switch_response_profile(&job, SwitchEvent::Stored { provider: "cpu", stored: true }) {
        SwitchStep::Publish { select, roll_back, .. } => {
            assert_eq!(select, Some(ResponseProfilePayload::Quality));
            assert!(!roll_back);
        }
        _ => panic!("a stored runtime is published"),
    }
    assert!(matches!(
        switch_response_profile(
            &job,
            SwitchEvent::Started { result: Err(String::from("boom")), current: true }
        ),
        SwitchStep::Restore { error } if error == "boom"
    ));
    assert!(matches!(
        switch_response_profile(&job, SwitchEvent::Started { result: Ok("cpu"), current: false }),
        SwitchStep::Abandon
    ));
}

#[test]
fn profile_switches_are_admitted_while_nothing_else_happens() {
    let supported = vec![ResponseProfilePayload::Fast, ResponseProfilePayload::Quality];
    let requested = |profile, phase, prompt_active| {
        admit_profile_switch(
            profile,
            ResponseProfilePayload::Fast,
            &supported,
            &ready(Vec::new()),
            true,
            phase,
            prompt_active,
        )
    };
    assert!(matches!(
        requested(ResponseProfilePayload::Fast, RuntimePhasePayload::Sleeping, false),
        Ok(SwitchAdmission::AlreadySelected)
    ));
    assert!(matches!(
        requested(ResponseProfilePayload::Quality, RuntimePhasePayload::Sleeping, false),
        Ok(SwitchAdmission::Proceed)
    ));
    assert!(requested(ResponseProfilePayload::Quality, RuntimePhasePayload::Executing, false).is_err());
    assert!(requested(ResponseProfilePayload::Quality, RuntimePhasePayload::Sleeping, true).is_err());
}

#[test]
fn stale_runtimes_are_handed_back() {
    let mut slot = None;
    assert_eq!(store_runtime_if_current(&mut slot, 1, 5, 4), Some(1));
    assert_eq!(slot, None);
    assert_eq!(store_runtime_if_current(&mut slot, 1, 5, 5), None);
    assert_eq!(slot, Some(1));
    assert_eq!(
        local_profile_for_model(local_instant_model(ResponseProfilePayload::Quality)),
        Some(ResponseProfilePayload::Quality)
    );
}

#[test]
fn ended_starts_are_handed_back_in_order() {
    let mut registry = vec!["a", "b", "c", "d"];
    let ended = register_llama_startup(&mut registry, &vec![true, false, true, false], "e");
    assert_eq!(ended, vec!["a", "c"]);
    assert_eq!(registry, vec!["b", "d", "e"]);
}

#[test]
fn the_application_is_closed_once() {
    let mut started = false;
    let first = begin_exit_cleanup(&mut started);
    assert_eq!(first.first(), Some(&ExitStep::Prefetch));
    assert_eq!(first.last(), Some(&ExitStep::OpencodeServer));
    assert_eq!(first.len(), 8);
    assert_eq!(begin_exit_cleanup(&mut started), vec![ExitStep::OpencodeServer]);
}

fn local_config(models_present: bool) -> RuntimeConfig {
    let path = |name: &str, present| ConfiguredPath { path: String::from(name), present };
    RuntimeConfig {
        response_backend: ResponseBackendConfig::LlamaCpp {
            server_path: String::from("llama-server"),
            host: String::from("127.0.0.1"),
            port: 11_435,
            fast_model_path: String::from("fast.gguf"),
            quality_model_path: Some(String::from("quality.gguf")),
        },
        opencode: None,
        custom_openai: Some(CustomOpenAiConfig {
            auth_source: CustomOpenAiAuthSource::Native,
            auth_path: path("auth.json", true),
        }),
        llama_cpp: Some(LlamaCppConfig {
            server_path: path("llama-server", true),
            fast_model_path: path("fast.gguf", models_present),
            quality_model_path: Some(path("quality.gguf", models_present)),
        }),
        completion: None,
        wake_word_model: path("wake.onnx", true),
        silero_vad_model: path("vad.onnx", true),
        parakeet_model_dir: path("parakeet", true),
        tts_model: path("voice.onnx", true),
        capability_issues: Vec::new(),
    }
}

fn findings(system_prompt: Result<String, String>) -> StartupFindings<f32> {
    StartupFindings {
        cue_asset_paths: cues(),
        silence_timeout_ms: 1_200,
        tts_output_gain_db: 3.0,
        tts_enabled_by_default: true,
        persisted_profile: Some(ResponseProfilePayload::Quality),
        persisted_settings: None,
        persisted_tts_enabled: None,
        wake_word_started: true,
        parakeet: RuntimeLoad::Started,
        voice_activity: RuntimeLoad::Started,
        system_prompt,
        on_windows: false,
    }
}

fn state_of<'a>(plan: &'a StartupPlan<f32>, id: &str) -> (CapabilityStatePayload, &'a str) {
    shown(&plan.startup_state)
        .iter()
        .find(|capability| capability.id == id)
        .map(|capability| (capability.state, capability.reason.as_str()))
        .expect("every capability is shown")
}

#[test]
fn a_local_model_is_loaded_with_the_application() {
    let plan = build_app_state(&local_config(true), findings(Ok(String::from("be kind"))));
    assert!(matches!(
        plan.startup_state,
        StartupStatePayload::WarmingModel {
            runtime_phase: RuntimePhasePayload::Initializing,
            voice_input_available: true,
            voice_input_error: None,
            silence_timeout_ms: 1_200,
            prompt_cancellation_available: false,
            tts_enabled: false,
            ..
        }
    ));
    assert_eq!(plan.selected_profile, ResponseProfilePayload::Quality);
    assert!(!plan.profile_must_be_stored);
    assert_eq!(plan.settings.instant, InstantChoicePayload::LocalQuality);
    assert!(plan.settings_must_be_stored);
    assert_eq!(plan.system_prompt.as_deref(), Some("be kind"));
    assert_eq!(plan.local_model.as_deref(), Some("quality.gguf"));
    assert!(plan.effective_tts_enabled);
    assert_eq!(
        state_of(&plan, "local_quality"),
        (CapabilityStatePayload::Warming, "local model is loading")
    );
    assert_eq!(
        state_of(&plan, "tts"),
        (CapabilityStatePayload::Warming, "TTS runtime is warming up")
    );
}

#[test]
fn a_missing_system_prompt_disables_only_local_answers() {
    let plan = build_app_state(&local_config(true), findings(Err(String::from("no such file"))));
    assert!(matches!(
        &plan.startup_state,
        StartupStatePayload::Ready {
            runtime_phase: RuntimePhasePayload::Sleeping,
            supported_response_profiles,
            prompt_cancellation_available: true,
            ..
        } if supported_response_profiles.is_empty()
    ));
    for id in ["local_fast", "local_quality"] {
        assert_eq!(
            state_of(&plan, id),
            (CapabilityStatePayload::Failed, "failed to load SOUL.md: no such file")
        );
    }
    for id in ["custom_provider", "wake_word", "vad", "parakeet", "deep", "review"] {
        assert!(capability_available(shown(&plan.startup_state), id));
    }
    assert_eq!(plan.system_prompt, None);
    assert_eq!(plan.local_model, None);
    assert!(ensure_startup_ready_for_prompt(&plan.startup_state).is_ok());
}

#[test]
fn missing_local_models_are_not_waited_for() {
    let plan = build_app_state(&local_config(false), findings(Ok(String::from("be kind"))));
    assert!(matches!(plan.startup_state, StartupStatePayload::Ready { .. }));
    assert_eq!(plan.local_model, None);
    assert_eq!(
        state_of(&plan, "local_fast"),
        (CapabilityStatePayload::NotConfigured, "not configured")
    );
    assert!(capability_available(shown(&plan.startup_state), "custom_provider"));
}

#[test]
fn voice_runtimes_that_do_not_start_are_named() {
    let plan = build_app_state(
        &local_config(true),
        StartupFindings {
            wake_word_started: false,
            parakeet: RuntimeLoad::Failed(String::from("Model")),
            voice_activity: RuntimeLoad::Failed(String::from("Session")),
            ..findings(Ok(String::from("be kind")))
        },
    );
    assert!(!plan.voice_input_available);
    assert!(matches!(
        &plan.startup_state,
        StartupStatePayload::WarmingModel { voice_input_error: Some(error), .. }
            if error == "failed to initialize parakeet transcriber: Model\nfailed to initialize voice activity detector: Session\nwake word runtime is unavailable"
    ));
    assert_eq!(
        state_of(&plan, "parakeet"),
        (CapabilityStatePayload::Failed, "Parakeet runtime failed to initialize")
    );
    assert_eq!(
        state_of(&plan, "vad"),
        (CapabilityStatePayload::Failed, "VAD runtime failed to initialize")
    );
    assert_eq!(
        state_of(&plan, "wake_word"),
        (CapabilityStatePayload::Failed, "wake word runtime failed to initialize")
    );
}

#[test]
fn loading_a_local_model_ends_ready_or_without_it() {
    let warmed = || {
        build_app_state(&local_config(true), findings(Ok(String::from("be kind")))).startup_state
    };
    let mut loaded = warmed();
    conclude_local_model_start(
        &mut loaded,
        &snapshot(),
        ResponseProfilePayload::Quality,
        Ok("cuda"),
        true,
    );
    let quality = shown(&loaded).iter().find(|item| item.id == "local_quality").unwrap();
    assert_eq!(quality.state, CapabilityStatePayload::Available);
    assert_eq!(quality.actual_provider, Some("cuda"));
    let mut failed = warmed();
    conclude_local_model_start(
        &mut failed,
        &snapshot(),
        ResponseProfilePayload::Quality,
        Err(String::from("port in use")),
        true,
    );
    let quality = shown(&failed).iter().find(|item| item.id == "local_quality").unwrap();
    assert_eq!(quality.state, CapabilityStatePayload::Failed);
    assert_eq!(quality.reason, "failed to initialize local llama.cpp runtime: port in use");
    assert!(matches!(
        &failed,
        StartupStatePayload::Ready { supported_response_profiles, .. }
            if supported_response_profiles.is_empty()
    ));
    let mut stale = warmed();
    conclude_local_model_start(
        &mut stale,
        &snapshot(),
        ResponseProfilePayload::Quality,
        Ok("cuda"),
        false,
    );
    assert!(matches!(stale, StartupStatePayload::WarmingModel { .. }));
}

#[test]
fn profile_switches_load_the_model_of_the_profile() {
    let backend = ResponseBackendConfig::LlamaCpp {
        server_path: String::from("llama-server"),
        host: String::from("127.0.0.1"),
        port: 8080,
        fast_model_path: String::from("fast.gguf"),
        quality_model_path: Some(String::from("quality.gguf")),
    };
    let both = vec![ResponseProfilePayload::Fast, ResponseProfilePayload::Quality];
    let load = prepare_profile_switch(
        ResponseProfilePayload::Quality,
        ResponseProfilePayload::Fast,
        &both,
        &ready(Vec::new()),
        &backend,
    )
    .unwrap()
    .unwrap();
    assert_eq!(load.model_path, "quality.gguf");
    assert_eq!(load.previous_model_path, "fast.gguf");
    assert_eq!(load.job.requested, ResponseProfilePayload::Quality);
    assert_eq!(load.job.previous, ResponseProfilePayload::Fast);
    assert_eq!(load.job.snapshot.supported_response_profiles, both);
    match load.warming {
        StartupStatePayload::WarmingModel { message, selected_response_profile, .. } => {
            assert_eq!(message, "Loading local Gemma model...");
            assert_eq!(selected_response_profile, ResponseProfilePayload::Quality);
        }
        _ => panic!("the model should be loading"),
    }
    let refused = prepare_profile_switch(
        ResponseProfilePayload::Quality,
        ResponseProfilePayload::Fast,
        &both,
        &build_startup_error_app_state::<f32>(String::from("broken")),
        &backend,
    );
    assert_eq!(
        refused.err(),
        Some(String::from("cannot switch response profile `quality` while startup is in error"))
    );
    let elsewhere = prepare_profile_switch(
        ResponseProfilePayload::Quality,
        ResponseProfilePayload::Fast,
        &both,
        &ready(Vec::new()),
        &ResponseBackendConfig::Opencode,
    );
    assert!(matches!(elsewhere, Ok(None)));
}
