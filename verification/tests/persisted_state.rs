use vox_golem::persisted_state::{
    load_assistant_settings, load_persisted_state, load_persisted_tts_enabled,
    load_persisted_ui_text_size, load_persisted_ui_theme, load_selected_response_profile,
    parse_persisted_state, persist_assistant_settings, persist_profile_and_assistant_settings,
    persist_selected_response_profile, persist_state, persist_tts_enabled, persist_ui_text_size,
    persist_ui_theme, resolve_effective_tts_enabled, resolve_selected_response_profile,
    PersistedState,
};
use vox_golem::settings::{
    agent_choice, agent_model, default_response_profile, default_ui_text_size, default_ui_theme,
    AgentChoicePayload, AssistantPreferences, AssistantSettingsPayload, InstantChoicePayload,
    ResponseProfilePayload, UiTextSizePayload, UiThemePayload,
};

#[test]
fn parse_persisted_state_supports_fast_and_quality() {
    assert_eq!(
        parse_persisted_state("selected_response_profile = \"fast\"\n")
            .expect("fast profile should parse")
            .selected_response_profile,
        Some(ResponseProfilePayload::Fast)
    );
    assert_eq!(
        parse_persisted_state("selected_response_profile = \"quality\"\n")
            .expect("quality profile should parse")
            .selected_response_profile,
        Some(ResponseProfilePayload::Quality)
    );
}

#[test]
fn parse_persisted_state_reads_profile_and_tts_flag() {
    let persisted =
        parse_persisted_state("selected_response_profile = \"fast\"\ntts_enabled = true\n")
            .expect("state should parse");

    assert_eq!(persisted.selected_response_profile, Some(ResponseProfilePayload::Fast));
    assert_eq!(persisted.tts_enabled, Some(true));
}

#[test]
fn parse_persisted_state_reads_ui_text_size() {
    let persisted = parse_persisted_state(
        "selected_response_profile = \"fast\"\ntts_enabled = true\nui_text_size = \"extra_large\"\n",
    )
    .expect("state should parse");

    assert_eq!(persisted.ui_text_size, Some(UiTextSizePayload::ExtraLarge));
}

#[test]
fn parse_persisted_state_reads_ui_theme() {
    let persisted = parse_persisted_state(
        "selected_response_profile = \"fast\"\ntts_enabled = true\nui_text_size = \"large\"\nui_theme = \"dark\"\n",
    )
    .expect("state should parse");

    assert_eq!(persisted.ui_theme, Some(UiThemePayload::Dark));
}

#[test]
fn parse_persisted_state_reads_assistant_settings() {
    let state = parse_persisted_state(
        "assistant_instant = \"custom-luna-low\"\nassistant_deep = \"opencode-sol-high\"\nassistant_review = \"custom-sol-high\"\nassistant_deep_enabled = true\nassistant_review_enabled = false\nassistant_prefetch = true\nassistant_completion = false\n",
    )
    .expect("assistant settings should parse");

    assert_eq!(
        state.assistant_settings,
        Some(AssistantSettingsPayload {
            instant: InstantChoicePayload::CustomLunaLow,
            deep: AgentChoicePayload::OpenCodeSolHigh,
            review: AgentChoicePayload::CustomSolHigh,
            deep_enabled: true,
            review_enabled: false,
            prefetch: true,
            completion: false,
        })
    );
}

#[test]
fn persist_assistant_settings_preserves_legacy_profile() {
    let file = persist_selected_response_profile(None, ResponseProfilePayload::Quality)
        .expect("profile should persist");
    let settings = AssistantSettingsPayload {
        instant: InstantChoicePayload::OpenCodeLunaLow,
        completion: false,
        ..AssistantSettingsPayload::default()
    };
    let file = persist_assistant_settings(Some(&file), settings)
        .expect("assistant settings should persist");
    let persisted = load_persisted_state(Some(&file)).expect("state should reload");

    assert_eq!(persisted.selected_response_profile, Some(ResponseProfilePayload::Quality));
    assert_eq!(persisted.assistant_settings, Some(settings));
}

#[test]
fn parse_persisted_state_rejects_invalid_ui_text_size() {
    let result = parse_persisted_state("ui_text_size = \"giant\"\n");

    assert_eq!(
        result,
        Err(String::from("invalid state.toml: unsupported ui_text_size `giant`"))
    );
}

#[test]
fn parse_persisted_state_rejects_invalid_ui_theme() {
    let result = parse_persisted_state("ui_theme = \"sepia\"\n");

    assert_eq!(result, Err(String::from("invalid state.toml: unsupported ui_theme `sepia`")));
}

#[test]
fn load_persisted_tts_enabled_reads_boolean_flag_from_state_file() {
    let file = persist_tts_enabled(None, true).expect("tts flag should be written");
    let persisted = load_persisted_tts_enabled(Some(&file)).expect("tts flag should load");

    assert_eq!(persisted, Some(true));
}

#[test]
fn load_persisted_ui_text_size_reads_text_size_flag_from_state_file() {
    let file =
        persist_ui_text_size(None, UiTextSizePayload::Large).expect("text size should be written");
    let persisted = load_persisted_ui_text_size(Some(&file)).expect("text size should load");

    assert_eq!(persisted, Some(UiTextSizePayload::Large));
}

#[test]
fn load_persisted_ui_theme_reads_theme_flag_from_state_file() {
    let file = persist_ui_theme(None, UiThemePayload::Light).expect("theme should be written");
    let persisted = load_persisted_ui_theme(Some(&file)).expect("theme should load");

    assert_eq!(persisted, Some(UiThemePayload::Light));
}

#[test]
fn persist_selected_response_profile_preserves_tts_enabled_flag() {
    let file = persist_tts_enabled(None, true).expect("tts flag should be written");
    let file = persist_selected_response_profile(Some(&file), ResponseProfilePayload::Quality)
        .expect("profile state should be written");

    let persisted = load_persisted_tts_enabled(Some(&file)).expect("tts flag should load");

    assert_eq!(persisted, Some(true));
}

#[test]
fn persist_ui_text_size_preserves_profile_and_tts_enabled_flags() {
    let file = persist_selected_response_profile(None, ResponseProfilePayload::Quality)
        .expect("profile state should be written");
    let file = persist_tts_enabled(Some(&file), true).expect("tts flag should be written");
    let file = persist_ui_text_size(Some(&file), UiTextSizePayload::Small)
        .expect("text size should be written");
    let persisted = load_persisted_state(Some(&file)).expect("persisted state should load");

    assert_eq!(persisted.selected_response_profile, Some(ResponseProfilePayload::Quality));
    assert_eq!(persisted.tts_enabled, Some(true));
    assert_eq!(persisted.ui_text_size, Some(UiTextSizePayload::Small));
}

#[test]
fn persist_ui_theme_preserves_existing_state_flags() {
    let file = persist_selected_response_profile(None, ResponseProfilePayload::Quality)
        .expect("profile state should be written");
    let file = persist_tts_enabled(Some(&file), true).expect("tts flag should be written");
    let file = persist_ui_text_size(Some(&file), UiTextSizePayload::ExtraLarge)
        .expect("text size should be written");
    let file =
        persist_ui_theme(Some(&file), UiThemePayload::Dark).expect("theme should be written");
    let persisted = load_persisted_state(Some(&file)).expect("persisted state should load");

    assert_eq!(persisted.selected_response_profile, Some(ResponseProfilePayload::Quality));
    assert_eq!(persisted.tts_enabled, Some(true));
    assert_eq!(persisted.ui_text_size, Some(UiTextSizePayload::ExtraLarge));
    assert_eq!(persisted.ui_theme, Some(UiThemePayload::Dark));
}

#[test]
fn resolve_effective_tts_enabled_prefers_persisted_state() {
    let file = persist_tts_enabled(None, true).expect("tts flag should be written");
    let persisted = load_persisted_tts_enabled(Some(&file)).expect("tts flag should load");

    assert!(resolve_effective_tts_enabled(false, true, persisted));
}

#[test]
fn resolve_effective_tts_enabled_ignores_persisted_true_without_model() {
    let file = persist_tts_enabled(None, true).expect("tts flag should be written");
    let persisted = load_persisted_tts_enabled(Some(&file)).expect("tts flag should load");

    assert!(!resolve_effective_tts_enabled(false, false, persisted));
}

#[test]
fn persist_selected_response_profile_writes_state_file_in_appdata() {
    let file = persist_selected_response_profile(None, ResponseProfilePayload::Quality)
        .expect("profile state should be written");

    assert_eq!(file, "selected_response_profile = \"quality\"\n");
}

#[test]
fn default_response_profile_stays_fast() {
    assert_eq!(default_response_profile(), ResponseProfilePayload::Fast);
}

#[test]
fn written_states_are_read_back() {
    let settings = AssistantSettingsPayload {
        instant: InstantChoicePayload::LocalQuality,
        deep: AgentChoicePayload::CustomLunaLow,
        review: AgentChoicePayload::OpenCodeLunaLow,
        deep_enabled: true,
        review_enabled: true,
        prefetch: true,
        completion: true,
    };
    let state = PersistedState {
        selected_response_profile: Some(ResponseProfilePayload::Fast),
        tts_enabled: Some(false),
        ui_text_size: Some(UiTextSizePayload::Medium),
        ui_theme: Some(UiThemePayload::Light),
        assistant_settings: Some(settings),
    };
    let file = persist_state(state);
    let read = parse_persisted_state(&file).expect("a written state");
    assert_eq!(read.tts_enabled, Some(false));
    assert_eq!(read.assistant_settings, Some(settings));
    assert_eq!(load_assistant_settings(Some(&file)), Ok(Some(settings)));
    assert_eq!(
        load_selected_response_profile(Some(&file)),
        Ok(Some(ResponseProfilePayload::Fast))
    );
    assert_eq!(load_assistant_settings(None), Ok(None));
}

#[test]
fn state_files_keep_comments_out_and_reject_what_they_do_not_know() {
    assert_eq!(
        parse_persisted_state("# a remark\n\n").map(|state| state.tts_enabled),
        Ok(None)
    );
    assert!(parse_persisted_state("tts_enabled = maybe\n").is_err());
    assert!(parse_persisted_state("selected_response_profile = \"slow\"\n").is_err());
    assert!(parse_persisted_state("selected_response_profile : fast\n").is_err());
    assert_eq!(
        parse_persisted_state("selected_response_profile = FAST\n")
            .map(|state| state.selected_response_profile),
        Ok(Some(ResponseProfilePayload::Fast))
    );
}

#[test]
fn lines_without_a_known_key_say_nothing() {
    let state = parse_persisted_state("tts_enabled = true\nui_theme = \"dark\"\n");
    assert!(state.is_ok());
    for line in ["", "   ", "# tts_enabled = false", "[ui_theme]", "volume = 11"] {
        let among = format!("tts_enabled = true\n{line}\nui_theme = \"dark\"\n");
        assert_eq!(parse_persisted_state(&among), state);
        let last = format!("tts_enabled = true\nui_theme = \"dark\"\n{line}");
        assert_eq!(parse_persisted_state(&last), state);
    }
}

#[test]
fn both_halves_of_a_profile_change_are_written_together() {
    let settings = AssistantSettingsPayload {
        instant: InstantChoicePayload::LocalQuality,
        ..AssistantSettingsPayload::default()
    };
    let file = persist_profile_and_assistant_settings(
        Some("ui_theme = \"dark\"\n"),
        ResponseProfilePayload::Quality,
        settings,
    )
    .expect("a valid file");
    let read = load_persisted_state(Some(&file)).expect("a written state");
    assert_eq!(read.selected_response_profile, Some(ResponseProfilePayload::Quality));
    assert_eq!(read.assistant_settings, Some(settings));
    assert_eq!(read.ui_theme, Some(UiThemePayload::Dark));
}

#[test]
fn unsupported_stored_profiles_fall_back() {
    let only_fast = [ResponseProfilePayload::Fast];
    assert_eq!(
        resolve_selected_response_profile(&only_fast, Some(ResponseProfilePayload::Quality)),
        (ResponseProfilePayload::Fast, true)
    );
    let both = [ResponseProfilePayload::Fast, ResponseProfilePayload::Quality];
    assert_eq!(
        resolve_selected_response_profile(&both, Some(ResponseProfilePayload::Quality)),
        (ResponseProfilePayload::Quality, false)
    );
}

#[test]
fn assistant_settings_use_pinned_opencode_wire_names() {
    let settings = AssistantSettingsPayload {
        instant: InstantChoicePayload::OpenCodeSolHigh,
        deep: AgentChoicePayload::OpenCodeLunaLow,
        review: AgentChoicePayload::OpenCodeSolHigh,
        ..AssistantSettingsPayload::default()
    };

    assert_eq!(settings.instant.as_str(), "opencode-sol-high");
    assert_eq!(settings.deep.as_str(), "opencode-luna-low");
    assert_eq!(settings.review.as_str(), "opencode-sol-high");
}

#[test]
fn settings_and_preferences_correspond() {
    let settings = AssistantSettingsPayload {
        instant: InstantChoicePayload::CustomSolHigh,
        deep: AgentChoicePayload::OpenCodeLunaLow,
        review_enabled: true,
        ..AssistantSettingsPayload::default()
    };
    let preferences = AssistantPreferences::from(settings);
    assert_eq!(AssistantSettingsPayload::from(&preferences), settings);
    assert_eq!(agent_choice(agent_model(AgentChoicePayload::CustomLunaLow)), AgentChoicePayload::CustomLunaLow);
    assert_eq!(default_ui_text_size(), UiTextSizePayload::Medium);
    assert_eq!(default_ui_theme(), UiThemePayload::Dark);
}
