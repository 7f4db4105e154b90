use vox_golem::playback::{
    after_playback, after_synthesis, begin_speech, cancel_current_tts_playback_state,
    cancel_tts_playback_state, ensure_tts_playback_current,
    finish_tts_playback_state, register_tts_playback, reserve_tts_playback_id, TaskReport,
    TtsPlaybackState,
};
use vox_golem::startup::{
    build_nonfatal_config_error_app_state, ensure_update_installation_is_idle,
    CueAssetPathsPayload, RuntimePhasePayload, StartupStatePayload,
};
use vox_golem::tts_switch::{
    set_tts_enabled, switched_sample_rate_hz, TtsSwitch, TtsSwitchEvent, TtsSwitchStep,
};
use vox_golem::tts::{LocalTtsRuntime, TtsActualProvider};

fn runtime() -> LocalTtsRuntime {
    LocalTtsRuntime {
        enabled: true,
        sample_rate_hz: 22_050,
        max_duration_ms: 300_000,
        available: true,
        actual_provider: Some(TtsActualProvider::Cpu),
    }
}

#[test]
fn stale_tts_cancellation_does_not_cancel_the_current_synthesis() {
    let mut state = TtsPlaybackState::default();
    register_tts_playback(&mut state, 1).expect("register old playback");
    register_tts_playback(&mut state, 2).expect("register current playback");

    assert!(!cancel_tts_playback_state(&mut state, 1).expect("cancel stale playback"));
    assert!(ensure_tts_playback_current(&state, 2).is_ok());

    assert!(cancel_tts_playback_state(&mut state, 2).expect("cancel current playback"));
    assert!(ensure_tts_playback_current(&state, 2).is_err());
}

#[test]
fn native_tts_reservations_survive_renderer_replacement() {
    let mut state = TtsPlaybackState::default();
    let first = reserve_tts_playback_id(&mut state).expect("reserve first playback");
    register_tts_playback(&mut state, first).expect("register first playback");
    finish_tts_playback_state(&mut state, first).expect("finish first playback");

    let replacement = reserve_tts_playback_id(&mut state).expect("reserve replacement");
    assert!(replacement > first);
    register_tts_playback(&mut state, replacement).expect("register replacement playback");
    assert!(register_tts_playback(&mut state, replacement).is_err());

    finish_tts_playback_state(&mut state, first).expect("finish stale playback");
    assert!(ensure_tts_playback_current(&state, replacement).is_ok());
    assert!(!cancel_tts_playback_state(&mut state, first).expect("cancel stale playback"));
    assert!(ensure_tts_playback_current(&state, replacement).is_ok());
}

#[test]
fn concurrent_tts_reservations_are_unique_and_bounded() {
    let mut state = TtsPlaybackState::default();
    let reservations = (0..32)
        .map(|_| reserve_tts_playback_id(&mut state).expect("reserve playback"))
        .collect::<Vec<_>>();
    assert_eq!(reservations, (1..=32).collect::<Vec<_>>());

    state.next_id = 9_007_199_254_740_991;
    assert!(reserve_tts_playback_id(&mut state).is_err());
}

#[test]
fn disabling_tts_invalidates_the_authorized_playback_id() {
    let mut state = TtsPlaybackState::default();
    register_tts_playback(&mut state, 8).expect("register authorized playback");

    assert_eq!(cancel_current_tts_playback_state(&mut state), Some(8));
    assert!(ensure_tts_playback_current(&state, 8).is_err());
    assert!(register_tts_playback(&mut state, 8).is_err());
    register_tts_playback(&mut state, 9).expect("register post-enable playback");
}

#[test]
fn tts_synthesis_and_playback_remain_authoritatively_busy() {
    let startup: StartupStatePayload<f32> = build_nonfatal_config_error_app_state(
        CueAssetPathsPayload {
            start_listening: String::from("start"),
            stop_listening: String::from("stop"),
        },
        String::from("test startup"),
        0.0,
    );
    let mut playback = TtsPlaybackState::default();
    let idle = |playback: &TtsPlaybackState| {
        ensure_update_installation_is_idle(
            &startup,
            RuntimePhasePayload::Sleeping,
            false,
            false,
            playback.current_id.is_some(),
        )
    };
    assert!(idle(&playback).is_ok());

    register_tts_playback(&mut playback, 1).expect("register playback");
    assert!(idle(&playback).is_err());
    finish_tts_playback_state(&mut playback, 1).expect("finish playback");
    assert!(idle(&playback).is_ok());

    register_tts_playback(&mut playback, 2).expect("register old playback");
    register_tts_playback(&mut playback, 3).expect("register current playback");
    finish_tts_playback_state(&mut playback, 2).expect("finish stale playback");
    assert!(idle(&playback).is_err());
    finish_tts_playback_state(&mut playback, 3).expect("finish current playback");
    assert!(idle(&playback).is_ok());
}

#[test]
fn playback_numbers_are_checked() {
    let mut state = TtsPlaybackState::default();
    assert_eq!(
        register_tts_playback(&mut state, 0),
        Err(String::from("TTS playback id is invalid"))
    );
    register_tts_playback(&mut state, 5).expect("register playback");
    assert_eq!(
        register_tts_playback(&mut state, 4),
        Err(String::from("TTS playback was superseded"))
    );
}

#[test]
fn speech_follows_its_playback() {
    let mut state = TtsPlaybackState::default();
    assert!(begin_speech(&mut state, false, 1).is_err());
    begin_speech(&mut state, true, 1).expect("speech should begin");
    assert_eq!(after_synthesis(&mut state, 1, TaskReport::Done(42)), Ok(42));
    assert_eq!(after_playback(&mut state, 1, TaskReport::Done(())), Ok(()));
    assert_eq!(state.current_id, None);

    begin_speech(&mut state, true, 2).expect("speech should begin");
    let lost: Result<u8, String> =
        after_synthesis(&mut state, 2, TaskReport::Lost(String::from("gone")));
    assert!(lost.is_err());
    assert_eq!(state.current_id, None);
}

fn step(enabled: bool, runtime_loaded: bool, event: TtsSwitchEvent) -> TtsSwitchStep {
    set_tts_enabled(TtsSwitch { enabled, runtime_loaded }, event)
}

#[test]
fn spoken_answers_are_switched_on() {
    assert_eq!(
        step(true, false, TtsSwitchEvent::Requested),
        TtsSwitchStep::Prepare { make_runtime: true }
    );
    let proposed = Some(runtime());
    assert_eq!(
        step(true, false, TtsSwitchEvent::Prepared { result: Ok(proposed), current: true }),
        TtsSwitchStep::Store { proposed }
    );
    assert_eq!(
        step(true, false, TtsSwitchEvent::Stored { proposed, result: Ok(()) }),
        TtsSwitchStep::Resume { adopted: proposed }
    );
    assert_eq!(
        step(true, false, TtsSwitchEvent::Resumed { result: Ok(()) }),
        TtsSwitchStep::Publish { unload: false }
    );
    assert_eq!(
        step(true, true, TtsSwitchEvent::Requested),
        TtsSwitchStep::Prepare { make_runtime: false }
    );
    assert_eq!(
        step(true, true, TtsSwitchEvent::Stored { proposed: None, result: Ok(()) }),
        TtsSwitchStep::Resume { adopted: None }
    );
    assert_eq!(switched_sample_rate_hz(&proposed, 7), runtime().sample_rate_hz());
    assert_eq!(switched_sample_rate_hz(&None, 7), 7);
}

#[test]
fn spoken_answers_are_switched_off() {
    assert_eq!(
        step(false, true, TtsSwitchEvent::Stored { proposed: None, result: Ok(()) }),
        TtsSwitchStep::Suspend
    );
    assert_eq!(
        step(false, true, TtsSwitchEvent::Suspended { result: Ok(()) }),
        TtsSwitchStep::Stop
    );
    assert_eq!(
        step(false, true, TtsSwitchEvent::Stopped { result: Ok(()) }),
        TtsSwitchStep::Publish { unload: true }
    );
}

#[test]
fn failed_switches_say_why() {
    let failed = || Err(String::from("gone"));
    let refused = |event| match step(true, false, event) {
        TtsSwitchStep::Refuse { error } => error,
        other => panic!("unexpected step {other:?}"),
    };
    assert_eq!(
        refused(TtsSwitchEvent::Prepared { result: Err(String::from("no model")), current: true }),
        "no model"
    );
    assert_eq!(
        refused(TtsSwitchEvent::Resumed { result: failed() }),
        "failed to resume local tts audio output: gone"
    );
    assert_eq!(
        refused(TtsSwitchEvent::Suspended { result: failed() }),
        "failed to suspend local tts audio output: gone"
    );
    assert_eq!(
        refused(TtsSwitchEvent::Stopped { result: failed() }),
        "failed to cancel local tts playback: gone"
    );
    let proposed = Some(runtime());
    assert_eq!(
        step(true, false, TtsSwitchEvent::Prepared { result: Ok(proposed), current: false }),
        TtsSwitchStep::Discard {
            proposed,
            error: String::from("local tts operation was superseded")
        }
    );
    assert_eq!(
        step(true, false, TtsSwitchEvent::Stored { proposed, result: failed() }),
        TtsSwitchStep::Discard { proposed, error: String::from("gone") }
    );
}
