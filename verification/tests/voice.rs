use std::sync::Arc;
use vox_golem::completion::{store_completion_context, CompletionRequestContext, CompletionState};
use vox_golem::partial_transcription::{
    PartialTranscriptionAction, PartialTranscriptionConfig, PartialTranscriptionScheduler,
};
use vox_golem::prompt_events::CompletionSource;
use vox_golem::startup::{RuntimePhasePayload, DEFAULT_SILENCE_TIMEOUT_MS};
use vox_golem::telemetry::{InferenceProvider, Status};
use vox_golem::voice::{
    actual_inference_provider_name, build_mark_silence_response, current_runtime_phase_response,
    current_silence_deadline, frame_detectors, frame_telemetry, ingest_audio_frame, mark_silence,
    partial_transcription_record, partial_transcription_worker_guard,
    process_voice_activity_frame, process_wake_word_frame, reset_voice_activity_runtime,
    reset_wake_word_runtime, runtime_phase_response_from_state, session_reset, shows_partial_text,
    silence_telemetry, speech_event, telemetry_inference_provider, transcribe_finished_utterance,
    transcription_ready_samples, update_partial_transcription, wake_word_event,
    wake_word_event_timestamp, ActualInferenceProvider, FrameEvent, FrameFailure, FrameReading,
    FrameStep, RuntimeLock, RuntimePhaseResponsePayload, RuntimeTelemetryPayload, SessionReset,
    VoiceEvent, VoiceFacts, VoicePipelineAction, WakeWordDetection, WakeWordReading,
};

fn facts(phase: RuntimePhasePayload) -> VoiceFacts {
    VoiceFacts {
        phase,
        last_activity_ms: None,
        capturing_utterance: false,
        preroll_samples: 0,
        utterance_samples: 0,
    }
}

#[test]
fn current_silence_deadline_uses_refreshed_speech_activity_plus_timeout() {
    let listening = VoiceFacts {
        last_activity_ms: Some(450),
        ..facts(RuntimePhasePayload::Listening)
    };

    assert_eq!(
        current_silence_deadline(&listening, DEFAULT_SILENCE_TIMEOUT_MS),
        DEFAULT_SILENCE_TIMEOUT_MS + 450
    );
    assert_eq!(current_silence_deadline(&facts(RuntimePhasePayload::Sleeping), 7), 7);
    assert_eq!(current_silence_deadline(&listening, u64::MAX), u64::MAX);
}

#[test]
fn invariant_transcription_ready_samples_matches_finished_utterance_length() {
    let action = VoicePipelineAction::FinishedUtterance { samples: vec![0.1, 0.2, 0.3] };

    assert_eq!(transcription_ready_samples(&action), Some(3));
    assert_eq!(transcription_ready_samples(&VoicePipelineAction::<f32>::Nothing), None);
}

#[test]
fn current_runtime_phase_response_reads_single_snapshot() {
    let sleeping = VoiceFacts { preroll_samples: 2, ..facts(RuntimePhasePayload::Sleeping) };

    assert_eq!(
        current_runtime_phase_response(
            &sleeping,
            Some(2),
            Some("draft release notes".to_string()),
        ),
        RuntimePhaseResponsePayload::<f32> {
            runtime_phase: RuntimePhasePayload::Sleeping,
            transcription_ready_samples: Some(2),
            transcript_text: Some("draft release notes".to_string()),
            last_activity_ms: None,
            capturing_utterance: false,
            preroll_samples: 2,
            utterance_samples: 0,
            telemetry: None,
        }
    );
}

#[test]
fn transcribe_finished_utterance_returns_none_for_non_transcription_actions() {
    assert_eq!(
        transcribe_finished_utterance(
            &VoicePipelineAction::<f32>::Nothing,
            None::<RuntimeLock<()>>,
            |_, _| Ok(String::from("never asked")),
        ),
        Ok(None)
    );
}

#[test]
fn build_mark_silence_response_surfaces_transcript_text() {
    let telemetry = RuntimeTelemetryPayload {
        frame_id: Some("frame-2".to_string()),
        backend_ingest_started_ms: None,
        backend_ingest_completed_ms: None,
        wake_detected_ms: None,
        wake_confidence: None::<f32>,
        transcription_started_ms: Some(2000),
        transcription_completed_ms: Some(2100),
    };
    let action = VoicePipelineAction::FinishedUtterance { samples: vec![0.1, 0.2, 0.3] };

    assert_eq!(
        build_mark_silence_response(
            &facts(RuntimePhasePayload::Processing),
            &action,
            Some("draft release notes".to_string()),
            Some(telemetry.clone()),
        ),
        RuntimePhaseResponsePayload {
            runtime_phase: RuntimePhasePayload::Processing,
            transcription_ready_samples: Some(3),
            transcript_text: Some("draft release notes".to_string()),
            last_activity_ms: None,
            capturing_utterance: false,
            preroll_samples: 0,
            utterance_samples: 0,
            telemetry: Some(telemetry),
        }
    );
}

#[test]
fn contract_runtime_phase_response_from_state_surfaces_telemetry() {
    let telemetry = RuntimeTelemetryPayload {
        frame_id: Some("frame-1".to_string()),
        backend_ingest_started_ms: Some(110),
        backend_ingest_completed_ms: Some(120),
        wake_detected_ms: Some(118),
        wake_confidence: Some(0.72_f32),
        transcription_started_ms: None,
        transcription_completed_ms: None,
    };
    let response = runtime_phase_response_from_state(
        &facts(RuntimePhasePayload::Listening),
        None,
        None,
        Some(telemetry.clone()),
    );
    assert_eq!(response.runtime_phase, RuntimePhasePayload::Listening);
    assert_eq!(response.telemetry, Some(telemetry));
}

#[test]
fn process_wake_word_frame_is_a_no_op_without_runtime() {
    assert_eq!(
        process_wake_word_frame(
            None::<RuntimeLock<()>>,
            |_| -> Result<WakeWordReading<f32>, String> { panic!("there is no detector") },
        ),
        Ok((None, None))
    );
}

#[test]
fn process_wake_word_frame_propagates_detector_errors() {
    assert_eq!(
        process_wake_word_frame(
            Some(RuntimeLock::Held(())),
            |_| -> Result<WakeWordReading<f32>, String> {
                Err(String::from("synthetic wake word scorer failure"))
            },
        ),
        Err(String::from("synthetic wake word scorer failure"))
    );
}

#[test]
fn reset_wake_word_runtime_is_a_no_op_without_runtime() {
    let mut absent: Option<RuntimeLock<u8>> = None;
    assert_eq!(reset_wake_word_runtime(&mut absent, |held| held), Ok(()));
    assert!(absent.is_none());
}

#[test]
fn wake_word_event_timestamp_uses_backend_now_ms() {
    assert_eq!(
        wake_word_event_timestamp(
            42_000,
            Some(WakeWordDetection { detected_at_ms: 60, confidence: 0.73 }),
        ),
        Some(42_000)
    );
    assert_eq!(wake_word_event_timestamp::<f32>(42_000, None), None);
}

#[test]
fn detectors_are_used_and_reset_where_they_are_there() {
    let detection = WakeWordDetection { detected_at_ms: 60, confidence: 0.73_f32 };
    let heard = |detection: Option<WakeWordDetection<f32>>| {
        process_wake_word_frame(Some(RuntimeLock::Held(3)), |held| {
            assert_eq!(held, 3);
            Ok(WakeWordReading { detection, latest_confidence: Some(0.1) })
        })
    };
    assert_eq!(heard(Some(detection)), Ok((Some(detection), Some(0.73))));
    assert_eq!(heard(None), Ok((None, Some(0.1))));
    let mut present = Some(RuntimeLock::Held(3));
    assert_eq!(reset_wake_word_runtime(&mut present, |_| 0), Ok(()));
    assert!(matches!(present, Some(RuntimeLock::Held(0))));
    assert_eq!(
        reset_wake_word_runtime(&mut Some(RuntimeLock::<u8>::Poisoned), |held| held),
        Err(String::from("wake word runtime lock is poisoned"))
    );
    assert_eq!(
        reset_voice_activity_runtime(&mut Some(RuntimeLock::<u8>::Poisoned), |held| held),
        Err(String::from("voice activity runtime lock is poisoned"))
    );
    assert_eq!(
        process_voice_activity_frame(None::<RuntimeLock<()>>, |_| Ok(true)),
        Ok(false)
    );
    assert_eq!(
        process_voice_activity_frame(Some(RuntimeLock::Held(())), |_| Err(String::from("Size"))),
        Err(String::from("voice activity detection failed: Size"))
    );
}

#[test]
fn frames_wake_the_runtime_in_sleep_and_refresh_it_while_listening() {
    assert!(frame_detectors(RuntimePhasePayload::Sleeping).wake_word);
    assert!(!frame_detectors(RuntimePhasePayload::Sleeping).speech);
    assert!(frame_detectors(RuntimePhasePayload::Listening).speech);
    assert_eq!(
        wake_word_event(RuntimePhasePayload::Sleeping, Some(100)),
        Some(VoiceEvent::WakeWordDetected { now_ms: 100 })
    );
    assert_eq!(wake_word_event(RuntimePhasePayload::Listening, Some(100)), None);
    assert_eq!(
        speech_event(RuntimePhasePayload::Listening, true, 450),
        Some(VoiceEvent::SpeechDetected { now_ms: 450 })
    );
    assert_eq!(speech_event(RuntimePhasePayload::Processing, true, 450), None);
    assert_eq!(speech_event(RuntimePhasePayload::Listening, false, 450), None);
    assert_eq!(session_reset(RuntimePhasePayload::Sleeping), SessionReset::Detectors);
    assert_eq!(session_reset(RuntimePhasePayload::Executing), SessionReset::Pipeline);
}

#[test]
fn wake_words_begin_voice_sessions() {
    let mut scheduler = PartialTranscriptionScheduler::new(PartialTranscriptionConfig {
        minimum_samples: 2,
        throttle_ms: 100,
        maximum_copied_samples: 4,
    });
    let mut session = 0;
    let mut frame = |available, wake, listening| {
        update_partial_transcription(
            &mut scheduler,
            &mut session,
            available,
            wake,
            listening,
            10,
            &[1, 2, 3],
        )
    };
    assert_eq!(frame(false, Some(5), false), PartialTranscriptionAction::Ignore);
    assert_eq!(frame(true, Some(5), false), PartialTranscriptionAction::Ignore);
    assert_eq!(
        frame(true, None, true),
        PartialTranscriptionAction::StartSnapshot {
            session_id: 1,
            revision: 1,
            samples: vec![1, 2, 3]
        }
    );
    assert_eq!(frame(true, None, false), PartialTranscriptionAction::Ignore);
    assert_eq!(session, 1);
}

#[test]
fn transcriptions_hold_updates_back() {
    let start = PartialTranscriptionAction::StartSnapshot {
        session_id: 1,
        revision: 1,
        samples: vec![0.0],
    };
    assert_eq!(partial_transcription_worker_guard(&start, "guard"), Some("guard"));
    let ignore = PartialTranscriptionAction::<f32>::Ignore;
    assert_eq!(partial_transcription_worker_guard(&ignore, "guard"), None);
    assert!(shows_partial_text(" hi"));
    assert!(!shows_partial_text(" \n"));
    let record = partial_transcription_record(2, 3, 4, 5, false);
    assert_eq!(record.request_id, "partial-2-3");
    assert_eq!(record.status, Status::Error);
}

#[test]
fn finished_utterances_need_a_transcriber() {
    let action = VoicePipelineAction::FinishedUtterance { samples: vec![1, 2] };
    let transcribed = |transcriber| {
        transcribe_finished_utterance(&action, transcriber, |held: u8, samples: &Vec<i32>| {
            if held == 0 {
                Err(String::from("Empty"))
            } else {
                Ok(format!("{} samples", samples.len()))
            }
        })
    };
    assert_eq!(
        transcribed(None),
        Err(String::from("parakeet runtime is not ready"))
    );
    assert_eq!(
        transcribed(Some(RuntimeLock::Poisoned)),
        Err(String::from("parakeet runtime lock is poisoned"))
    );
    assert_eq!(
        transcribed(Some(RuntimeLock::Held(0))),
        Err(String::from("utterance transcription failed: Empty"))
    );
    assert_eq!(
        transcribed(Some(RuntimeLock::Held(1))),
        Ok(Some(String::from("2 samples")))
    );
}

#[test]
fn providers_are_named_and_recorded() {
    assert_eq!(actual_inference_provider_name(ActualInferenceProvider::Cuda), "cuda");
    assert_eq!(
        actual_inference_provider_name(ActualInferenceProvider::RequestedCuda),
        "requested_cuda"
    );
    assert_eq!(
        telemetry_inference_provider(ActualInferenceProvider::RequestedCuda),
        InferenceProvider::AttachedUnknown
    );
}

#[test]
fn runtime_phase_response_from_state_reflects_capture_lengths() {
    let listening = VoiceFacts {
        phase: RuntimePhasePayload::Listening,
        last_activity_ms: Some(100),
        capturing_utterance: true,
        preroll_samples: 3,
        utterance_samples: 2,
    };

    assert_eq!(
        runtime_phase_response_from_state(&listening, None, None, None),
        RuntimePhaseResponsePayload::<f32> {
            runtime_phase: RuntimePhasePayload::Listening,
            transcription_ready_samples: None,
            transcript_text: None,
            last_activity_ms: Some(100),
            capturing_utterance: true,
            preroll_samples: 3,
            utterance_samples: 2,
            telemetry: None,
        }
    );
}

#[test]
fn partial_transcription_guard_survives_reset_and_excludes_installation() {
    let gate = Arc::new(tokio::sync::RwLock::new(()));
    let command_guard = Arc::clone(&gate).try_read_owned().expect("begin ingest command");
    let mut partial = scheduler::<f32>();
    partial.start_session(1);
    let action = partial.request_snapshot(0, &[0.0]);
    assert_eq!(
        action,
        PartialTranscriptionAction::StartSnapshot {
            session_id: 1,
            revision: 1,
            samples: vec![0.0],
        }
    );
    let worker_guard = partial_transcription_worker_guard(&action, command_guard)
        .expect("handoff partial transcription guard");

    partial.reset();
    assert!(Arc::clone(&gate).try_write_owned().is_err());
    drop(worker_guard);

    let installation = Arc::clone(&gate).try_write_owned().expect("begin installation");
    assert!(Arc::clone(&gate).try_read_owned().is_err());
    drop(installation);
}

fn scheduler<S: Copy>() -> PartialTranscriptionScheduler<S> {
    PartialTranscriptionScheduler::new(PartialTranscriptionConfig {
        minimum_samples: 1,
        throttle_ms: 100,
        maximum_copied_samples: 4,
    })
}

fn quiet(started_listening: bool) -> FrameReading<f32> {
    FrameReading {
        started_listening,
        wake_word_now_ms: None,
        wake_confidence: None,
        speech_detected: false,
    }
}

#[test]
fn a_wake_word_frame_starts_listening() {
    let step = |event| ingest_audio_frame(42_000, event);
    assert_eq!(
        step(FrameEvent::Arrived { phase: RuntimePhasePayload::Sleeping }),
        FrameStep::HearWakeWord
    );
    let detection = WakeWordDetection { detected_at_ms: 60, confidence: 0.73_f32 };
    let reading = FrameReading {
        wake_word_now_ms: Some(42_000),
        wake_confidence: Some(0.73),
        ..quiet(false)
    };
    assert_eq!(
        step(FrameEvent::WakeWordHeard { result: Ok((Some(detection), Some(0.73))) }),
        FrameStep::Take {
            before: Some(VoiceEvent::WakeWordDetected { now_ms: 42_000 }),
            reading,
        }
    );
    assert_eq!(
        step(FrameEvent::Taken { reading, result: Ok(RuntimePhasePayload::Listening) }),
        FrameStep::ResetDetector { reading, phase: RuntimePhasePayload::Listening }
    );
    assert_eq!(
        step(FrameEvent::DetectorReset {
            reading,
            phase: RuntimePhasePayload::Listening,
            result: Ok(()),
        }),
        FrameStep::Keep { reading }
    );
    let told = frame_telemetry(Some(String::from("frame-1")), 1, 2, reading);
    assert_eq!(told.wake_detected_ms, Some(42_000));
    assert_eq!(told.wake_confidence, Some(0.73));
    assert_eq!(told.backend_ingest_completed_ms, Some(2));
}

#[test]
fn speech_refreshes_the_voice_runtime_while_it_listens() {
    let step = |event| ingest_audio_frame::<f32>(450, event);
    assert_eq!(
        step(FrameEvent::Arrived { phase: RuntimePhasePayload::Listening }),
        FrameStep::HearSpeech
    );
    let reading = FrameReading { speech_detected: true, ..quiet(true) };
    assert_eq!(
        step(FrameEvent::SpeechHeard { result: Ok(true) }),
        FrameStep::Take { before: None, reading }
    );
    assert_eq!(
        step(FrameEvent::Taken { reading, result: Ok(RuntimePhasePayload::Listening) }),
        FrameStep::NoteSpeech { reading, event: VoiceEvent::SpeechDetected { now_ms: 450 } }
    );
    assert_eq!(
        step(FrameEvent::SpeechNoted { reading, result: Ok(()) }),
        FrameStep::Keep { reading }
    );
    assert_eq!(
        step(FrameEvent::Arrived { phase: RuntimePhasePayload::Executing }),
        FrameStep::Take { before: None, reading: quiet(false) }
    );
}

#[test]
fn failed_frames_say_why() {
    let failed = |event| match ingest_audio_frame::<f32>(1, event) {
        FrameStep::Fail { error } => error,
        other => panic!("unexpected step {other:?}"),
    };
    let gone = || String::from("gone");
    assert_eq!(failed(FrameEvent::WakeWordHeard { result: Err(gone()) }), "gone");
    assert_eq!(failed(FrameEvent::SpeechHeard { result: Err(gone()) }), "gone");
    assert_eq!(
        failed(FrameEvent::Taken {
            reading: quiet(false),
            result: Err(FrameFailure::WakeWord(gone())),
        }),
        "wake word transition failed: gone"
    );
    assert_eq!(
        failed(FrameEvent::Taken {
            reading: quiet(false),
            result: Err(FrameFailure::Frame(gone())),
        }),
        "voice pipeline frame ingestion failed: gone"
    );
    assert_eq!(
        failed(FrameEvent::DetectorReset {
            reading: quiet(false),
            phase: RuntimePhasePayload::Listening,
            result: Err(gone()),
        }),
        "gone"
    );
    assert_eq!(
        failed(FrameEvent::SpeechNoted { reading: quiet(true), result: Err(gone()) }),
        "speech activity transition failed: gone"
    );
}

#[test]
fn a_silence_ends_what_was_being_said() {
    let listening = || {
        let mut scheduler = scheduler::<i32>();
        scheduler.start_session(1);
        scheduler
    };
    let asked = || {
        let mut state = CompletionState {
            runtime_available: true,
            context: None,
            holds_updates: false,
            generation: 1,
        };
        store_completion_context(
            &mut state,
            CompletionRequestContext {
                backend_revision: 1,
                client_revision: 1,
                source: CompletionSource::Voice,
                voice_session_id: Some(1),
                prompt: String::from("what is"),
                started_ms: 0,
            },
        );
        state
    };
    let finished = VoicePipelineAction::FinishedUtterance { samples: vec![1, 2] };
    let (mut partial, mut completion) = (listening(), asked());
    assert!(mark_silence(&mut partial, &mut completion, &finished));
    assert_eq!(
        transcribe_finished_utterance(&finished, Some(RuntimeLock::Held(())), |_, samples| {
            Ok(format!("{} samples", samples.len()))
        }),
        Ok(Some(String::from("2 samples")))
    );
    assert_eq!(completion.context, None);
    assert_eq!(partial.request_snapshot(1_000, &[1, 2]), PartialTranscriptionAction::Ignore);

    let (mut partial, mut completion) = (listening(), asked());
    assert!(!mark_silence(&mut partial, &mut completion, &VoicePipelineAction::Nothing));
    assert_eq!(
        transcribe_finished_utterance(
            &VoicePipelineAction::<i32>::Nothing,
            Some(RuntimeLock::Held(())),
            |_, _| panic!("nothing was said"),
        ),
        Ok(None)
    );
    assert_eq!(completion, asked());
    assert_ne!(partial.request_snapshot(1_000, &[1, 2]), PartialTranscriptionAction::Ignore);

    let told: RuntimeTelemetryPayload<f32> = silence_telemetry(None, &finished, 2000, 2100);
    assert_eq!(told.transcription_started_ms, Some(2000));
    assert_eq!(told.transcription_completed_ms, Some(2100));
    let nothing: RuntimeTelemetryPayload<f32> =
        silence_telemetry(None, &VoicePipelineAction::<i32>::Nothing, 2000, 2100);
    assert_eq!(nothing.transcription_started_ms, None);
}
