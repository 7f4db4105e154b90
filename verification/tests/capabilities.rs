use vox_golem::capabilities::{
    all_capability_ids, apply_opencode_startup_failure, capability_available,
    configured_capabilities, failed_capabilities, repair_tts_capability,
    resolve_assistant_settings, update_restored_profile_capabilities, CapabilityPayload,
    CapabilityStatePayload,
};
use vox_golem::config::{
    apply_wsl_custom_auth_resolution, model_path_for_profile, opencode_launch,
    supported_response_profiles, ConfiguredPath, CustomOpenAiAuthSource, CustomOpenAiConfig,
    OpencodeConfig, OpencodeLaunch, OpencodeRuntime, ResponseBackendConfig, RuntimeConfig,
};
use vox_golem::settings::{
    AgentChoicePayload, AssistantSettingsPayload, InstantChoicePayload, ResponseProfilePayload,
};
use vox_golem::tts::{LocalTtsRuntime, TtsActualProvider};

fn path(path: &str, present: bool) -> ConfiguredPath {
    ConfiguredPath { path: String::from(path), present }
}

fn wsl_config() -> RuntimeConfig {
    RuntimeConfig {
        response_backend: ResponseBackendConfig::Opencode,
        opencode: Some(OpencodeConfig { runtime: OpencodeRuntime::Wsl, path: path("", false) }),
        custom_openai: Some(CustomOpenAiConfig {
            auth_source: CustomOpenAiAuthSource::Wsl,
            auth_path: path("", false),
        }),
        llama_cpp: None,
        completion: None,
        wake_word_model: path("wake.onnx", false),
        silero_vad_model: path("vad.onnx", false),
        parakeet_model_dir: path("parakeet", false),
        tts_model: path("voice.onnx", false),
        capability_issues: Vec::new(),
    }
}

#[test]
fn supported_response_profiles_includes_quality_when_configured() {
    let profiles = supported_response_profiles(&ResponseBackendConfig::LlamaCpp {
        server_path: String::from("llama-server.exe"),
        host: String::from("127.0.0.1"),
        port: 11_435,
        fast_model_path: String::from("fast.gguf"),
        quality_model_path: Some(String::from("quality.gguf")),
    });

    assert_eq!(
        profiles,
        vec![ResponseProfilePayload::Fast, ResponseProfilePayload::Quality]
    );
}

#[test]
fn resolved_wsl_auth_enables_only_the_custom_provider() {
    let mut config = wsl_config();

    apply_wsl_custom_auth_resolution(&mut config, Ok(path("auth.json", true)));

    assert_eq!(
        config.custom_openai.as_ref().expect("custom config").auth_path.path,
        "auth.json"
    );
    let capabilities = configured_capabilities(&config, false);
    let custom = capabilities
        .iter()
        .find(|capability| capability.id == "custom_provider")
        .expect("custom capability");
    assert_eq!(custom.state, CapabilityStatePayload::Available);
}

#[test]
fn failed_wsl_auth_resolution_isolated_to_custom_capability() {
    let mut config = wsl_config();

    apply_wsl_custom_auth_resolution(&mut config, Err(String::from("WSL is unavailable")));

    let capabilities = configured_capabilities(&config, false);
    let custom = capabilities
        .iter()
        .find(|capability| capability.id == "custom_provider")
        .expect("custom capability");
    assert_eq!(custom.state, CapabilityStatePayload::Unavailable);
    assert!(custom.reason.contains("WSL is unavailable"));
    assert!(capabilities.iter().any(|capability| {
        capability.id == "wake_word"
            && capability.reason != "failed to resolve WSL OpenCode auth: WSL is unavailable"
    }));
}

#[test]
fn opencode_startup_failure_reconciles_dependent_capabilities_and_settings() {
    let capability = |id, state| CapabilityPayload {
        id,
        state,
        reason: String::from("ready"),
        actual_provider: None,
    };
    let settings = AssistantSettingsPayload {
        instant: InstantChoicePayload::OpenCodeSolHigh,
        deep: AgentChoicePayload::OpenCodeSolHigh,
        review: AgentChoicePayload::OpenCodeLunaLow,
        deep_enabled: true,
        review_enabled: true,
        ..AssistantSettingsPayload::default()
    };

    let mut without_fallback = vec![
        capability("custom_provider", CapabilityStatePayload::NotConfigured),
        capability("opencode", CapabilityStatePayload::Available),
        capability("deep", CapabilityStatePayload::Available),
        capability("review", CapabilityStatePayload::Available),
    ];
    let reconciled = apply_opencode_startup_failure(
        &mut without_fallback,
        settings,
        String::from("OpenCode failed"),
    );
    assert!(!reconciled.deep_enabled);
    assert!(!reconciled.review_enabled);
    for id in ["opencode", "deep", "review"] {
        assert_eq!(
            without_fallback
                .iter()
                .find(|capability| capability.id == id)
                .expect("capability")
                .state,
            CapabilityStatePayload::Failed
        );
    }

    let mut with_custom = vec![
        capability("custom_provider", CapabilityStatePayload::Available),
        capability("opencode", CapabilityStatePayload::Available),
        capability("deep", CapabilityStatePayload::Available),
        capability("review", CapabilityStatePayload::Available),
    ];
    let reconciled = apply_opencode_startup_failure(
        &mut with_custom,
        settings,
        String::from("OpenCode failed"),
    );
    assert_eq!(reconciled.instant, InstantChoicePayload::CustomSolHigh);
    assert_eq!(reconciled.deep, AgentChoicePayload::CustomSolHigh);
    assert_eq!(reconciled.review, AgentChoicePayload::CustomLunaLow);
    assert!(reconciled.deep_enabled);
    assert!(reconciled.review_enabled);
    assert!(with_custom.iter().any(|capability| {
        capability.id == "deep" && capability.state == CapabilityStatePayload::Available
    }));
    assert!(with_custom.iter().any(|capability| {
        capability.id == "review" && capability.state == CapabilityStatePayload::Available
    }));

    let mut with_custom = vec![
        capability("custom_provider", CapabilityStatePayload::Available),
        capability("opencode", CapabilityStatePayload::Available),
    ];
    let reconciled = apply_opencode_startup_failure(
        &mut with_custom,
        AssistantSettingsPayload { instant: InstantChoicePayload::OpenCodeLunaLow, ..settings },
        String::from("OpenCode failed"),
    );
    assert_eq!(reconciled.instant, InstantChoicePayload::CustomLunaLow);
}

#[test]
fn model_path_for_profile_rejects_quality_when_missing() {
    let result = model_path_for_profile(ResponseProfilePayload::Quality, "fast.gguf", None);

    assert_eq!(
        result,
        Err(String::from("response profile `quality` is not supported"))
    );
}

#[test]
fn restored_runtime_marks_requested_profile_failed() {
    let mut capabilities = vec![
        CapabilityPayload {
            id: "local_fast",
            state: CapabilityStatePayload::Available,
            reason: String::from("ready"),
            actual_provider: Some("cpu"),
        },
        CapabilityPayload {
            id: "local_quality",
            state: CapabilityStatePayload::Available,
            reason: String::from("ready"),
            actual_provider: Some("cpu"),
        },
    ];

    update_restored_profile_capabilities(
        &mut capabilities,
        ResponseProfilePayload::Quality,
        ResponseProfilePayload::Fast,
        "boom",
        "cpu",
    );

    assert_eq!(capabilities[0].state, CapabilityStatePayload::Available);
    assert_eq!(capabilities[0].actual_provider, Some("cpu"));
    assert_eq!(capabilities[1].state, CapabilityStatePayload::Failed);
    assert_eq!(
        capabilities[1].reason,
        "failed to initialize requested quality profile: boom"
    );
    assert_eq!(capabilities[1].actual_provider, None);
}

#[test]
fn same_profile_restore_marks_recovered_runtime_available() {
    let mut capabilities = vec![CapabilityPayload {
        id: "local_fast",
        state: CapabilityStatePayload::Failed,
        reason: String::from("old failure"),
        actual_provider: None,
    }];

    update_restored_profile_capabilities(
        &mut capabilities,
        ResponseProfilePayload::Fast,
        ResponseProfilePayload::Fast,
        "transient failure",
        "cuda",
    );

    assert_eq!(capabilities[0].state, CapabilityStatePayload::Available);
    assert_eq!(capabilities[0].reason, "ready");
    assert_eq!(capabilities[0].actual_provider, Some("cuda"));
}

#[test]
fn every_capability_fails_together() {
    let failed = failed_capabilities(String::from("broken"));
    assert_eq!(failed.len(), all_capability_ids().len());
    assert!(failed
        .iter()
        .all(|capability| capability.state == CapabilityStatePayload::Failed
            && capability.reason == "broken"));
    assert!(!capability_available(&failed, "tts"));
}

#[test]
fn speech_is_repaired_where_a_runtime_speaks() {
    let mut capabilities = failed_capabilities(String::from("broken"));
    let runtime = LocalTtsRuntime {
        enabled: true,
        sample_rate_hz: 22_050,
        max_duration_ms: 1000,
        available: true,
        actual_provider: Some(TtsActualProvider::Cuda),
    };
    repair_tts_capability(&mut capabilities, true, Some(&runtime));
    let tts = capabilities.iter().find(|capability| capability.id == "tts").expect("tts");
    assert_eq!(tts.state, CapabilityStatePayload::Available);
    assert_eq!(tts.actual_provider, Some("cuda"));
}

#[test]
fn resolved_settings_do_not_need_what_is_not_there() {
    let capabilities = failed_capabilities(String::from("broken"));
    let wanted = AssistantSettingsPayload {
        deep_enabled: true,
        review_enabled: true,
        completion: true,
        ..AssistantSettingsPayload::default()
    };
    let (settings, must_store) = resolve_assistant_settings(
        &ResponseBackendConfig::Unconfigured,
        &capabilities,
        ResponseProfilePayload::Fast,
        Some(wanted),
    );
    assert!(!settings.deep_enabled);
    assert!(!settings.review_enabled);
    assert!(must_store);
}

#[test]
fn opencode_is_discovered_on_windows_only() {
    assert_eq!(opencode_launch(OpencodeRuntime::Native, false), Ok(OpencodeLaunch::Native));
    assert_eq!(opencode_launch(OpencodeRuntime::Wsl, true), Ok(OpencodeLaunch::Discover));
    assert_eq!(
        opencode_launch(OpencodeRuntime::Wsl, false),
        Err(String::from("WSL OpenCode runtime is only supported by the Windows application"))
    );
}
