//! Listening: which detectors hear a frame, what a frame and a silence lead to, and what is said
//! of the voice runtime.

use crate::completion::{clear_completion_request_state_locked, CompletionState};
use crate::partial_transcription;
use crate::partial_transcription::{PartialTranscriptionAction, PartialTranscriptionScheduler};
use crate::startup::RuntimePhasePayload;
use crate::telemetry;
use crate::text;
use crate::text::{concat2, concat3, decimal_text, trim};
use vstd::prelude::*;
use vstd::string::*;

verus! {

broadcast use vstd::string::group_string_axioms;

/// What is known of the voice runtime.
#[derive(Clone, Copy, Debug, PartialEq, Eq, Structural)]
pub struct VoiceFacts {
    pub phase: RuntimePhasePayload,
    pub last_activity_ms: Option<u64>,
    pub capturing_utterance: bool,
    pub preroll_samples: usize,
    pub utterance_samples: usize,
}

/// When a frame was handled, and what came of it.
#[derive(Clone, Debug, PartialEq)]
pub struct RuntimeTelemetryPayload<C> {
    pub frame_id: Option<String>,
    pub backend_ingest_started_ms: Option<u64>,
    pub backend_ingest_completed_ms: Option<u64>,
    pub wake_detected_ms: Option<u64>,
    pub wake_confidence: Option<C>,
    pub transcription_started_ms: Option<u64>,
    pub transcription_completed_ms: Option<u64>,
}

/// What the user interface is told of the voice runtime.
#[derive(Clone, Debug, PartialEq)]
pub struct RuntimePhaseResponsePayload<C> {
    pub runtime_phase: RuntimePhasePayload,
    pub transcription_ready_samples: Option<usize>,
    pub transcript_text: Option<String>,
    pub last_activity_ms: Option<u64>,
    pub capturing_utterance: bool,
    pub preroll_samples: usize,
    pub utterance_samples: usize,
    pub telemetry: Option<RuntimeTelemetryPayload<C>>,
}

/// What the user interface is told of the voice runtime.
pub open spec fn phase_response<C>(
    facts: VoiceFacts,
    transcription_ready_samples: Option<usize>,
    transcript_text: Option<String>,
    telemetry: Option<RuntimeTelemetryPayload<C>>,
) -> RuntimePhaseResponsePayload<C> {
    RuntimePhaseResponsePayload {
        runtime_phase: facts.phase,
        transcription_ready_samples,
        transcript_text,
        last_activity_ms: facts.last_activity_ms,
        capturing_utterance: facts.capturing_utterance,
        preroll_samples: facts.preroll_samples,
        utterance_samples: facts.utterance_samples,
        telemetry,
    }
}

/// What the user interface is told of the voice runtime.
pub fn runtime_phase_response_from_state<C>(
    facts: &VoiceFacts,
    transcription_ready_samples: Option<usize>,
    transcript_text: Option<String>,
    telemetry: Option<RuntimeTelemetryPayload<C>>,
) -> (response: RuntimePhaseResponsePayload<C>)
    ensures
        response == phase_response(
            *facts,
            transcription_ready_samples,
            transcript_text,
            telemetry,
        ),
{
    RuntimePhaseResponsePayload {
        runtime_phase: facts.phase,
        transcription_ready_samples,
        transcript_text,
        last_activity_ms: facts.last_activity_ms,
        capturing_utterance: facts.capturing_utterance,
        preroll_samples: facts.preroll_samples,
        utterance_samples: facts.utterance_samples,
        telemetry,
    }
}

/// What the user interface is told of the voice runtime between frames.
pub fn current_runtime_phase_response<C>(
    facts: &VoiceFacts,
    transcription_ready_samples: Option<usize>,
    transcript_text: Option<String>,
) -> (response: RuntimePhaseResponsePayload<C>)
    ensures
        response == phase_response::<C>(*facts, transcription_ready_samples, transcript_text, None),
{
    runtime_phase_response_from_state(facts, transcription_ready_samples, transcript_text, None)
}

/// When an utterance ends if nothing more is said.
pub open spec fn silence_deadline(facts: VoiceFacts, silence_timeout_ms: u64) -> int {
    let last = match facts.last_activity_ms {
        Some(last) => last as int,
        None => 0,
    };
    if last + silence_timeout_ms <= u64::MAX {
        last + silence_timeout_ms
    } else {
        u64::MAX as int
    }
}

/// When an utterance ends if nothing more is said.
pub fn current_silence_deadline(facts: &VoiceFacts, silence_timeout_ms: u64) -> (deadline: u64)
    ensures
        deadline == silence_deadline(*facts, silence_timeout_ms),
{
    let last: u64 = match facts.last_activity_ms {
        Some(last) => last,
        None => 0,
    };
    last.saturating_add(silence_timeout_ms)
}

/// A detector that is held for one use, or that cannot be held any more.
pub enum RuntimeLock<R> {
    Held(R),
    Poisoned,
}

/// A wake word that was heard.
#[derive(Clone, Copy, Debug, PartialEq, Eq)]
pub struct WakeWordDetection<C> {
    pub detected_at_ms: u64,
    pub confidence: C,
}

/// What the wake word detector said to a frame: a detection, if there was one, and how sure it was
/// of the last frame that it judged.
#[derive(Clone, Copy, Debug)]
pub struct WakeWordReading<C> {
    pub detection: Option<WakeWordDetection<C>>,
    pub latest_confidence: Option<C>,
}

/// The detection of a reading, and how sure the detector was.
pub open spec fn read_out<C>(reading: WakeWordReading<C>) -> (
    Option<WakeWordDetection<C>>,
    Option<C>,
) {
    (
        reading.detection,
        match reading.detection {
            Some(detection) => Some(detection.confidence),
            None => reading.latest_confidence,
        },
    )
}

/// Lets the wake word detector hear a frame, where there is a detector. `process` hands the frame
/// to it.
pub fn process_wake_word_frame<R, C: Copy, F: FnOnce(R) -> Result<WakeWordReading<C>, String>>(
    runtime: Option<RuntimeLock<R>>,
    process: F,
) -> (result: Result<(Option<WakeWordDetection<C>>, Option<C>), String>)
    requires
        forall|held: R| #[trigger] call_requires(process, (held,)),
    ensures
        match runtime {
            None => result == Ok::<(Option<WakeWordDetection<C>>, Option<C>), String>((None, None)),
            Some(RuntimeLock::Poisoned) => text::outcome(result) == Err::<
                (Option<WakeWordDetection<C>>, Option<C>),
                Seq<char>,
            >("wake word runtime lock is poisoned"@),
            Some(RuntimeLock::Held(held)) => exists|reading: Result<WakeWordReading<C>, String>|
                #[trigger] call_ensures(process, (held,), reading) && result == (match reading {
                    Ok(heard) => Ok(read_out(heard)),
                    Err(error) => Err(error),
                }),
        },
{
    match runtime {
        None => Ok((None, None)),
        Some(RuntimeLock::Poisoned) => Err("wake word runtime lock is poisoned".to_owned()),
        Some(RuntimeLock::Held(held)) => {
            let reading = process(held);
            match reading {
                Ok(heard) => {
                    let confidence = match heard.detection {
                        Some(detection) => Some(detection.confidence),
                        None => heard.latest_confidence,
                    };
                    Ok((heard.detection, confidence))
                },
                Err(error) => Err(error),
            }
        },
    }
}

/// Resets the wake word detector, where there is one. `reset` does it.
pub fn reset_wake_word_runtime<R, F: FnOnce(R) -> R>(
    runtime: &mut Option<RuntimeLock<R>>,
    reset: F,
) -> (result: Result<(), String>)
    requires
        forall|held: R| #[trigger] call_requires(reset, (held,)),
    ensures
        match *old(runtime) {
            None => result == Ok::<(), String>(()) && *final(runtime) is None,
            Some(RuntimeLock::Poisoned) => text::outcome(result) == Err::<(), Seq<char>>(
                "wake word runtime lock is poisoned"@,
            ) && *final(runtime) == *old(runtime),
            Some(RuntimeLock::Held(held)) => {
                &&& result == Ok::<(), String>(())
                &&& *final(runtime) matches Some(RuntimeLock::Held(after))
                &&& call_ensures(reset, (held,), after)
            },
        },
{
    match runtime.take() {
        None => Ok(()),
        Some(RuntimeLock::Poisoned) => {
            *runtime = Some(RuntimeLock::Poisoned);
            Err("wake word runtime lock is poisoned".to_owned())
        },
        Some(RuntimeLock::Held(held)) => {
            *runtime = Some(RuntimeLock::Held(reset(held)));
            Ok(())
        },
    }
}

/// Lets the speech detector hear a frame, where there is a detector. `process` hands the frame to
/// it.
pub fn process_voice_activity_frame<R, F: FnOnce(R) -> Result<bool, String>>(
    runtime: Option<RuntimeLock<R>>,
    process: F,
) -> (result: Result<bool, String>)
    requires
        forall|held: R| #[trigger] call_requires(process, (held,)),
    ensures
        match runtime {
            None => result == Ok::<bool, String>(false),
            Some(RuntimeLock::Poisoned) => text::outcome(result) == Err::<bool, Seq<char>>(
                "voice activity runtime lock is poisoned"@,
            ),
            Some(RuntimeLock::Held(held)) => exists|heard: Result<bool, String>|
                #[trigger] call_ensures(process, (held,), heard) && text::outcome(result) == (
                match heard {
                    Ok(speech) => Ok(speech),
                    Err(error) => Err("voice activity detection failed: "@ + error@),
                }),
        },
{
    match runtime {
        None => Ok(false),
        Some(RuntimeLock::Poisoned) => Err("voice activity runtime lock is poisoned".to_owned()),
        Some(RuntimeLock::Held(held)) => {
            let heard = process(held);
            match heard {
                Ok(speech) => Ok(speech),
                Err(error) => Err(concat2("voice activity detection failed: ", error.as_str())),
            }
        },
    }
}

/// Resets the speech detector, where there is one. `reset` does it.
pub fn reset_voice_activity_runtime<R, F: FnOnce(R) -> R>(
    runtime: &mut Option<RuntimeLock<R>>,
    reset: F,
) -> (result: Result<(), String>)
    requires
        forall|held: R| #[trigger] call_requires(reset, (held,)),
    ensures
        match *old(runtime) {
            None => result == Ok::<(), String>(()) && *final(runtime) is None,
            Some(RuntimeLock::Poisoned) => text::outcome(result) == Err::<(), Seq<char>>(
                "voice activity runtime lock is poisoned"@,
            ) && *final(runtime) == *old(runtime),
            Some(RuntimeLock::Held(held)) => {
                &&& result == Ok::<(), String>(())
                &&& *final(runtime) matches Some(RuntimeLock::Held(after))
                &&& call_ensures(reset, (held,), after)
            },
        },
{
    match runtime.take() {
        None => Ok(()),
        Some(RuntimeLock::Poisoned) => {
            *runtime = Some(RuntimeLock::Poisoned);
            Err("voice activity runtime lock is poisoned".to_owned())
        },
        Some(RuntimeLock::Held(held)) => {
            *runtime = Some(RuntimeLock::Held(reset(held)));
            Ok(())
        },
    }
}

/// When a detected wake word counts as spoken: now.
pub fn wake_word_event_timestamp<C>(
    now_ms: u64,
    wake_word_detection: Option<WakeWordDetection<C>>,
) -> (timestamp: Option<u64>)
    ensures
        timestamp == (match wake_word_detection {
            Some(_) => Some(now_ms),
            None => None,
        }),
{
    match wake_word_detection {
        Some(_) => Some(now_ms),
        None => None,
    }
}

/// Which detectors hear a frame: the wake word is listened for in sleep, speech while listening.
#[derive(Clone, Copy, Debug, PartialEq, Eq, Structural)]
pub struct FrameDetectors {
    pub wake_word: bool,
    pub speech: bool,
}

/// Which detectors hear a frame.
pub fn frame_detectors(phase: RuntimePhasePayload) -> (detectors: FrameDetectors)
    ensures
        detectors.wake_word == (phase is Sleeping),
        detectors.speech == (phase is Listening),
{
    FrameDetectors {
        wake_word: phase == RuntimePhasePayload::Sleeping,
        speech: phase == RuntimePhasePayload::Listening,
    }
}

/// What the voice runtime is told besides the frames.
#[derive(Clone, Copy, Debug, PartialEq, Eq, Structural)]
pub enum VoiceEvent {
    WakeWordDetected { now_ms: u64 },
    SpeechDetected { now_ms: u64 },
}

/// What the voice runtime is told before a frame: that the wake word was spoken, where it sleeps.
pub fn wake_word_event(phase: RuntimePhasePayload, wake_word_now_ms: Option<u64>) -> (event: Option<
    VoiceEvent,
>)
    ensures
        event == (match wake_word_now_ms {
            Some(now_ms) => if phase is Sleeping {
                Some(VoiceEvent::WakeWordDetected { now_ms })
            } else {
                None
            },
            None => None,
        }),
{
    match wake_word_now_ms {
        Some(now_ms) => if phase == RuntimePhasePayload::Sleeping {
            Some(VoiceEvent::WakeWordDetected { now_ms })
        } else {
            None
        },
        None => None,
    }
}

/// What the voice runtime is told after a frame: that speech was heard, where it listens.
pub fn speech_event(phase: RuntimePhasePayload, speech_detected: bool, now_ms: u64) -> (event:
    Option<VoiceEvent>)
    ensures
        event == (if speech_detected && phase is Listening {
            Some(VoiceEvent::SpeechDetected { now_ms })
        } else {
            None
        }),
{
    if speech_detected && phase == RuntimePhasePayload::Listening {
        Some(VoiceEvent::SpeechDetected { now_ms })
    } else {
        None
    }
}

/// What the detectors said of a frame.
#[derive(Clone, Copy, Debug, PartialEq, Eq)]
pub struct FrameReading<C> {
    pub started_listening: bool,
    pub wake_word_now_ms: Option<u64>,
    pub wake_confidence: Option<C>,
    pub speech_detected: bool,
}

/// Why the voice runtime did not take a frame.
#[derive(Clone, Debug, PartialEq, Eq)]
pub enum FrameFailure {
    WakeWord(String),
    Frame(String),
}

/// What happened to a frame.
#[derive(Debug, PartialEq, Eq)]
pub enum FrameEvent<C> {
    /// The frame arrived while the voice runtime was in a phase.
    Arrived { phase: RuntimePhasePayload },
    /// The wake word detector heard the frame, or not.
    WakeWordHeard { result: Result<(Option<WakeWordDetection<C>>, Option<C>), String> },
    /// The speech detector heard the frame, or not.
    SpeechHeard { result: Result<bool, String> },
    /// The voice runtime took the frame and is in a phase now, or did not take it.
    Taken { reading: FrameReading<C>, result: Result<RuntimePhasePayload, FrameFailure> },
    /// The speech detector was reset, or not.
    DetectorReset {
        reading: FrameReading<C>,
        phase: RuntimePhasePayload,
        result: Result<(), String>,
    },
    /// The voice runtime was told of the speech, or did not take that.
    SpeechNoted { reading: FrameReading<C>, result: Result<(), String> },
}

/// What is done with a frame next.
#[derive(Debug, PartialEq, Eq)]
pub enum FrameStep<C> {
    /// Let the wake word detector hear it.
    HearWakeWord,
    /// Let the speech detector hear it.
    HearSpeech,
    /// Hand it to the voice runtime, after `before` where there is something to tell first.
    Take { before: Option<VoiceEvent>, reading: FrameReading<C> },
    /// Reset the speech detector.
    ResetDetector { reading: FrameReading<C>, phase: RuntimePhasePayload },
    /// Tell the voice runtime of the speech.
    NoteSpeech { reading: FrameReading<C>, event: VoiceEvent },
    /// Keep what the voice runtime made of it.
    Keep { reading: FrameReading<C> },
    /// Nothing more: the voice runtime stays as it was.
    Fail { error: String },
}

/// What is done with a frame next, by its characters.
#[verifier::ext_equal]
pub ghost enum FrameView<C> {
    HearWakeWord,
    HearSpeech,
    Take { before: Option<VoiceEvent>, reading: FrameReading<C> },
    ResetDetector { reading: FrameReading<C>, phase: RuntimePhasePayload },
    NoteSpeech { reading: FrameReading<C>, event: VoiceEvent },
    Keep { reading: FrameReading<C> },
    Fail { error: Seq<char> },
}

impl<C> View for FrameStep<C> {
    type V = FrameView<C>;

    open spec fn view(&self) -> FrameView<C> {
        match *self {
            FrameStep::HearWakeWord => FrameView::HearWakeWord,
            FrameStep::HearSpeech => FrameView::HearSpeech,
            FrameStep::Take { before, reading } => FrameView::Take { before, reading },
            FrameStep::ResetDetector { reading, phase } => FrameView::ResetDetector {
                reading,
                phase,
            },
            FrameStep::NoteSpeech { reading, event } => FrameView::NoteSpeech { reading, event },
            FrameStep::Keep { reading } => FrameView::Keep { reading },
            FrameStep::Fail { error } => FrameView::Fail { error: error@ },
        }
    }
}

/// What is done once the voice runtime is in a phase with a frame: it is told of the speech where
/// it listens and there was some.
pub open spec fn speech_step<C>(
    reading: FrameReading<C>,
    phase: RuntimePhasePayload,
    now_ms: u64,
) -> FrameView<C> {
    if reading.speech_detected && phase is Listening {
        FrameView::NoteSpeech { reading, event: VoiceEvent::SpeechDetected { now_ms } }
    } else {
        FrameView::Keep { reading }
    }
}

/// What is done with a frame after an event. `now_ms` is the time at which the frame arrived.
pub open spec fn frame_step<C>(now_ms: u64, event: FrameEvent<C>) -> FrameView<C> {
    match event {
        FrameEvent::Arrived { phase } => if phase is Sleeping {
            FrameView::HearWakeWord
        } else if phase is Listening {
            FrameView::HearSpeech
        } else {
            FrameView::Take {
                before: None,
                reading: FrameReading {
                    started_listening: false,
                    wake_word_now_ms: None,
                    wake_confidence: None,
                    speech_detected: false,
                },
            }
        },
        FrameEvent::WakeWordHeard { result } => match result {
            Err(error) => FrameView::Fail { error: error@ },
            Ok((detection, confidence)) => FrameView::Take {
                before: if detection is Some {
                    Some(VoiceEvent::WakeWordDetected { now_ms })
                } else {
                    None
                },
                reading: FrameReading {
                    started_listening: false,
                    wake_word_now_ms: if detection is Some {
                        Some(now_ms)
                    } else {
                        None
                    },
                    wake_confidence: confidence,
                    speech_detected: false,
                },
            },
        },
        FrameEvent::SpeechHeard { result } => match result {
            Err(error) => FrameView::Fail { error: error@ },
            Ok(speech_detected) => FrameView::Take {
                before: None,
                reading: FrameReading {
                    started_listening: true,
                    wake_word_now_ms: None,
                    wake_confidence: None,
                    speech_detected,
                },
            },
        },
        FrameEvent::Taken { reading, result } => match result {
            Err(FrameFailure::WakeWord(error)) => FrameView::Fail {
                error: "wake word transition failed: "@ + error@,
            },
            Err(FrameFailure::Frame(error)) => FrameView::Fail {
                error: "voice pipeline frame ingestion failed: "@ + error@,
            },
            Ok(phase) => if reading.wake_word_now_ms is Some {
                FrameView::ResetDetector { reading, phase }
            } else {
                speech_step(reading, phase, now_ms)
            },
        },
        FrameEvent::DetectorReset { reading, phase, result } => match result {
            Err(error) => FrameView::Fail { error: error@ },
            Ok(_) => speech_step(reading, phase, now_ms),
        },
        FrameEvent::SpeechNoted { reading, result } => match result {
            Err(error) => FrameView::Fail {
                error: "speech activity transition failed: "@ + error@,
            },
            Ok(_) => FrameView::Keep { reading },
        },
    }
}

fn after_frame<C>(reading: FrameReading<C>, phase: RuntimePhasePayload, now_ms: u64) -> (step:
    FrameStep<C>)
    ensures
        step@ == speech_step(reading, phase, now_ms),
{
    match speech_event(phase, reading.speech_detected, now_ms) {
        Some(event) => FrameStep::NoteSpeech { reading, event },
        None => FrameStep::Keep { reading },
    }
}

/// Decides what is done with a frame after an event. `now_ms` is the time at which the frame
/// arrived.
pub fn ingest_audio_frame<C>(now_ms: u64, event: FrameEvent<C>) -> (step: FrameStep<C>)
    ensures
        step@ == frame_step(now_ms, event),
{
    match event {
        FrameEvent::Arrived { phase } => {
            let detectors = frame_detectors(phase);
            if detectors.wake_word {
                FrameStep::HearWakeWord
            } else if detectors.speech {
                FrameStep::HearSpeech
            } else {
                FrameStep::Take {
                    before: None,
                    reading: FrameReading {
                        started_listening: false,
                        wake_word_now_ms: None,
                        wake_confidence: None,
                        speech_detected: false,
                    },
                }
            }
        },
        FrameEvent::WakeWordHeard { result } => match result {
            Err(error) => FrameStep::Fail { error },
            Ok((detection, confidence)) => {
                let wake_word_now_ms = wake_word_event_timestamp(now_ms, detection);
                FrameStep::Take {
                    before: wake_word_event(RuntimePhasePayload::Sleeping, wake_word_now_ms),
                    reading: FrameReading {
                        started_listening: false,
                        wake_word_now_ms,
                        wake_confidence: confidence,
                        speech_detected: false,
                    },
                }
            },
        },
        FrameEvent::SpeechHeard { result } => match result {
            Err(error) => FrameStep::Fail { error },
            Ok(speech_detected) => FrameStep::Take {
                before: None,
                reading: FrameReading {
                    started_listening: true,
                    wake_word_now_ms: None,
                    wake_confidence: None,
                    speech_detected,
                },
            },
        },
        FrameEvent::Taken { reading, result } => match result {
            Err(FrameFailure::WakeWord(error)) => FrameStep::Fail {
                error: concat2("wake word transition failed: ", error.as_str()),
            },
            Err(FrameFailure::Frame(error)) => FrameStep::Fail {
                error: concat2("voice pipeline frame ingestion failed: ", error.as_str()),
            },
            Ok(phase) => if reading.wake_word_now_ms.is_some() {
                FrameStep::ResetDetector { reading, phase }
            } else {
                after_frame(reading, phase, now_ms)
            },
        },
        FrameEvent::DetectorReset { reading, phase, result } => match result {
            Err(error) => FrameStep::Fail { error },
            Ok(_) => after_frame(reading, phase, now_ms),
        },
        FrameEvent::SpeechNoted { reading, result } => match result {
            Err(error) => FrameStep::Fail {
                error: concat2("speech activity transition failed: ", error.as_str()),
            },
            Ok(_) => FrameStep::Keep { reading },
        },
    }
}

/// What the user interface is told of a frame that was kept.
pub fn frame_telemetry<C>(
    frame_id: Option<String>,
    started_ms: u64,
    completed_ms: u64,
    reading: FrameReading<C>,
) -> (telemetry: RuntimeTelemetryPayload<C>)
    ensures
        telemetry == (RuntimeTelemetryPayload {
            frame_id,
            backend_ingest_started_ms: Some(started_ms),
            backend_ingest_completed_ms: Some(completed_ms),
            wake_detected_ms: reading.wake_word_now_ms,
            wake_confidence: reading.wake_confidence,
            transcription_started_ms: None,
            transcription_completed_ms: None,
        }),
{
    RuntimeTelemetryPayload {
        frame_id,
        backend_ingest_started_ms: Some(started_ms),
        backend_ingest_completed_ms: Some(completed_ms),
        wake_detected_ms: reading.wake_word_now_ms,
        wake_confidence: reading.wake_confidence,
        transcription_started_ms: None,
        transcription_completed_ms: None,
    }
}

/// A frame changes the voice runtime only where everything went well: each failure on the way
/// leaves it as it was, and each step short of keeping the frame comes before all of its outcomes
/// are known.
pub proof fn law_failed_frames_change_nothing<C>(now_ms: u64, event: FrameEvent<C>)
    ensures
        (event matches FrameEvent::WakeWordHeard { result } && result is Err) ==> frame_step(
            now_ms,
            event,
        ) is Fail,
        (event matches FrameEvent::SpeechHeard { result } && result is Err) ==> frame_step(
            now_ms,
            event,
        ) is Fail,
        (event matches FrameEvent::Taken { result, .. } && result is Err) ==> frame_step(
            now_ms,
            event,
        ) is Fail,
        (event matches FrameEvent::DetectorReset { result, .. } && result is Err) ==> frame_step(
            now_ms,
            event,
        ) is Fail,
        (event matches FrameEvent::SpeechNoted { result, .. } && result is Err) ==> frame_step(
            now_ms,
            event,
        ) is Fail,
        frame_step(now_ms, event) is Keep ==> {
            ||| event matches FrameEvent::Taken { result, .. } && result is Ok
            ||| event matches FrameEvent::DetectorReset { result, .. } && result is Ok
            ||| event matches FrameEvent::SpeechNoted { result, .. } && result is Ok
        },
{
}

/// A wake word is listened for in sleep only, where no speech is listened for, and it counts as
/// spoken at the time at which its frame arrived.
pub proof fn law_wake_words_are_heard_in_sleep<C>(
    now_ms: u64,
    phase: RuntimePhasePayload,
    event: FrameEvent<C>,
)
    ensures
        frame_step::<C>(now_ms, FrameEvent::Arrived { phase }) is HearWakeWord <==> phase
            is Sleeping,
        frame_step::<C>(now_ms, FrameEvent::Arrived { phase }) is HearSpeech <==> phase
            is Listening,
        frame_step(now_ms, event) matches FrameView::Take { before, reading } ==> {
            &&& reading.wake_word_now_ms is Some ==> reading.wake_word_now_ms == Some(now_ms)
            &&& before == (match reading.wake_word_now_ms {
                Some(at) => Some(VoiceEvent::WakeWordDetected { now_ms: at }),
                None => None,
            })
            &&& !(reading.wake_word_now_ms is Some && reading.speech_detected)
        },
{
}

/// What a frame leads to for transcribing while somebody speaks: the scheduler, the voice session,
/// and what is to be done.
pub open spec fn partially_transcribed<S>(
    scheduler: partial_transcription::SchedulerView<S>,
    voice_session: int,
    transcriber_available: bool,
    wake_word_now_ms: Option<u64>,
    started_listening: bool,
    now_ms: u64,
    utterance: Seq<S>,
) -> (partial_transcription::SchedulerView<S>, int, partial_transcription::ActionView<S>) {
    if transcriber_available && wake_word_now_ms is Some {
        (
            scheduler.in_session((voice_session + 1) as u64),
            voice_session + 1,
            partial_transcription::ActionView::Ignore,
        )
    } else if transcriber_available && started_listening {
        (
            scheduler.requested(now_ms, utterance),
            voice_session,
            scheduler.request_action(now_ms, utterance),
        )
    } else {
        (scheduler, voice_session, partial_transcription::ActionView::Ignore)
    }
}

/// Takes a frame into account for transcribing while somebody speaks: a wake word begins a new
/// voice session, and what was said so far is offered while listening.
pub fn update_partial_transcription<S: Copy>(
    scheduler: &mut PartialTranscriptionScheduler<S>,
    voice_session: &mut u64,
    transcriber_available: bool,
    wake_word_now_ms: Option<u64>,
    started_listening: bool,
    now_ms: u64,
    utterance: &[S],
) -> (action: PartialTranscriptionAction<S>)
    requires
        transcriber_available && wake_word_now_ms is Some ==> *old(voice_session) < u64::MAX,
    ensures
        if transcriber_available && wake_word_now_ms is Some {
            &&& *final(voice_session) == *old(voice_session) + 1
            &&& final(scheduler)@ == old(scheduler)@.in_session(*final(voice_session))
            &&& action@ is Ignore
        } else if transcriber_available && started_listening {
            &&& *final(voice_session) == *old(voice_session)
            &&& final(scheduler)@ == old(scheduler)@.requested(now_ms, utterance@)
            &&& action@ == old(scheduler)@.request_action(now_ms, utterance@)
        } else {
            &&& *final(voice_session) == *old(voice_session)
            &&& final(scheduler)@ == old(scheduler)@
            &&& action@ is Ignore
        },
        (final(scheduler)@, *final(voice_session) as int, action@) == partially_transcribed(
            old(scheduler)@,
            *old(voice_session) as int,
            transcriber_available,
            wake_word_now_ms,
            started_listening,
            now_ms,
            utterance@,
        ),
{
    if !transcriber_available {
        PartialTranscriptionAction::Ignore
    } else if wake_word_now_ms.is_some() {
        *voice_session = *voice_session + 1;
        scheduler.start_session(*voice_session);
        PartialTranscriptionAction::Ignore
    } else if started_listening {
        scheduler.request_snapshot(now_ms, utterance)
    } else {
        PartialTranscriptionAction::Ignore
    }
}

/// What holds updates back while speech is transcribed: `guard`, where there is something to
/// transcribe.
pub fn partial_transcription_worker_guard<S, G>(
    action: &PartialTranscriptionAction<S>,
    guard: G,
) -> (held: Option<G>)
    ensures
        held == (if action@ is StartSnapshot {
            Some(guard)
        } else {
            None
        }),
{
    match action {
        PartialTranscriptionAction::StartSnapshot { .. } => Some(guard),
        _ => None,
    }
}

/// Whether a text that was transcribed while somebody speaks is shown.
pub fn shows_partial_text(words: &str) -> (shown: bool)
    ensures
        shown == (text::trimmed(words@).len() > 0),
{
    !trim(words).is_empty()
}

/// Whether `record` is the record of a transcription made while somebody speaks.
pub open spec fn partial_recorded(
    record: telemetry::TelemetryMetadata,
    session_id: u64,
    revision: u64,
    timestamp_ms: u64,
    duration_ms: u64,
    succeeded: bool,
) -> bool {
    &&& record.schema_version == telemetry::SCHEMA_VERSION
    &&& record.timestamp_ms == timestamp_ms
    &&& record.request_id@ == "partial-"@ + text::decimal(session_id as nat) + "-"@
        + text::decimal(revision as nat)
    &&& record.generation == revision
    &&& record.input_source is Voice
    &&& record.provider is Local
    &&& record.model@ == "parakeet-v2-int8"@
    &&& record.stage is PartialTranscription
    &&& record.transport is InProcess
    &&& record.inference_provider is Cpu
    &&& record.speculative_origin is System
    &&& record.input_tokens is None
    &&& record.output_tokens is None
    &&& record.duration_ms == Some(duration_ms)
    &&& record.status == (if succeeded {
        telemetry::Status::Success
    } else {
        telemetry::Status::Error
    })
    &&& record.error_category == (if succeeded {
        telemetry::ErrorCategory::Nothing
    } else {
        telemetry::ErrorCategory::Internal
    })
}

/// The record of a transcription made while somebody speaks.
pub fn partial_transcription_record(
    session_id: u64,
    revision: u64,
    timestamp_ms: u64,
    duration_ms: u64,
    succeeded: bool,
) -> (record: telemetry::TelemetryMetadata)
    ensures
        partial_recorded(record, session_id, revision, timestamp_ms, duration_ms, succeeded),
{
    let mut request_id = concat3("partial-", decimal_text(session_id as u128).as_str(), "-");
    request_id.append(decimal_text(revision as u128).as_str());
    telemetry::TelemetryMetadata {
        schema_version: telemetry::SCHEMA_VERSION,
        timestamp_ms,
        request_id,
        generation: revision,
        input_source: telemetry::InputSource::Voice,
        provider: telemetry::Provider::Local,
        model: "parakeet-v2-int8".to_owned(),
        stage: telemetry::Stage::PartialTranscription,
        transport: telemetry::Transport::InProcess,
        inference_provider: telemetry::InferenceProvider::Cpu,
        speculative_origin: telemetry::SpeculativeOrigin::System,
        input_tokens: None,
        output_tokens: None,
        duration_ms: Some(duration_ms),
        status: if succeeded {
            telemetry::Status::Success
        } else {
            telemetry::Status::Error
        },
        error_category: if succeeded {
            telemetry::ErrorCategory::Nothing
        } else {
            telemetry::ErrorCategory::Internal
        },
    }
}

/// What the voice runtime asks for: that a finished utterance be transcribed, or nothing of
/// interest here.
#[derive(Clone, Debug, PartialEq)]
pub enum VoicePipelineAction<S> {
    Nothing,
    FinishedUtterance { samples: Vec<S> },
}

/// How many samples wait to be transcribed, where an utterance was finished.
pub open spec fn ready_samples<S>(action: VoicePipelineAction<S>) -> Option<usize> {
    match action {
        VoicePipelineAction::FinishedUtterance { samples } => Some(samples@.len() as usize),
        VoicePipelineAction::Nothing => None,
    }
}

/// How many samples wait to be transcribed, where an utterance was finished.
pub fn transcription_ready_samples<S>(action: &VoicePipelineAction<S>) -> (samples: Option<usize>)
    ensures
        samples == ready_samples(*action),
{
    match action {
        VoicePipelineAction::FinishedUtterance { samples } => Some(samples.len()),
        VoicePipelineAction::Nothing => None,
    }
}

/// Whether `result` is what transcribing a finished utterance with `transcribe` can give.
pub open spec fn transcribed<S, R, F: FnOnce(R, &Vec<S>) -> Result<String, String>>(
    action: VoicePipelineAction<S>,
    transcriber: Option<RuntimeLock<R>>,
    transcribe: F,
    result: Result<Option<String>, String>,
) -> bool {
    match action {
        VoicePipelineAction::Nothing => result == Ok::<Option<String>, String>(None),
        VoicePipelineAction::FinishedUtterance { samples } => match transcriber {
            None => text::outcome(result) == Err::<Option<String>, Seq<char>>(
                "parakeet runtime is not ready"@,
            ),
            Some(RuntimeLock::Poisoned) => text::outcome(result) == Err::<
                Option<String>,
                Seq<char>,
            >("parakeet runtime lock is poisoned"@),
            Some(RuntimeLock::Held(held)) => exists|reply: Result<String, String>|
                #[trigger] call_ensures(transcribe, (held, &samples), reply) && match reply {
                    Ok(words) => result == Ok::<Option<String>, String>(Some(words)),
                    Err(error) => text::outcome(result) == Err::<Option<String>, Seq<char>>(
                        "utterance transcription failed: "@ + error@,
                    ),
                },
        },
    }
}

/// Transcribes a finished utterance. `transcribe` does it.
pub fn transcribe_finished_utterance<S, R, F: FnOnce(R, &Vec<S>) -> Result<String, String>>(
    action: &VoicePipelineAction<S>,
    transcriber: Option<RuntimeLock<R>>,
    transcribe: F,
) -> (result: Result<Option<String>, String>)
    requires
        forall|held: R, samples: Vec<S>|
            *action == (VoicePipelineAction::FinishedUtterance { samples }) ==> #[trigger]
                call_requires(transcribe, (held, &samples)),
    ensures
        transcribed(*action, transcriber, transcribe, result),
{
    match action {
        VoicePipelineAction::Nothing => Ok(None),
        VoicePipelineAction::FinishedUtterance { samples } => match transcriber {
            None => Err("parakeet runtime is not ready".to_owned()),
            Some(RuntimeLock::Poisoned) => Err("parakeet runtime lock is poisoned".to_owned()),
            Some(RuntimeLock::Held(held)) => {
                let reply = transcribe(held, samples);
                match reply {
                    Ok(words) => Ok(Some(words)),
                    Err(error) => Err(
                        concat2("utterance transcription failed: ", error.as_str()),
                    ),
                }
            },
        },
    }
}

/// What a silence leads to: the scheduler, the completion, and whether the runtime that makes
/// completions has to forget what was asked for.
pub open spec fn silenced<S>(
    scheduler: partial_transcription::SchedulerView<S>,
    completion: CompletionState,
    finished: bool,
) -> (partial_transcription::SchedulerView<S>, CompletionState, bool) {
    if finished {
        (
            scheduler.outside_sessions(),
            CompletionState { context: None, holds_updates: false, ..completion },
            completion.runtime_available,
        )
    } else {
        (scheduler, completion, false)
    }
}

/// Takes a silence into account: a finished utterance ends the transcription made while somebody
/// speaks and the completion of what was said. Says whether the runtime that makes completions has
/// to forget what was asked for. The utterance itself is transcribed afterwards; where that fails,
/// the voice runtime has to be brought back to waiting.
pub fn mark_silence<S: Copy>(
    scheduler: &mut PartialTranscriptionScheduler<S>,
    completion: &mut CompletionState,
    action: &VoicePipelineAction<S>,
) -> (forget_completion: bool)
    ensures
        final(completion).runtime_available == old(completion).runtime_available,
        final(completion).generation == old(completion).generation,
        if action is FinishedUtterance {
            &&& final(scheduler)@ == old(scheduler)@.outside_sessions()
            &&& final(completion).context is None
            &&& !final(completion).holds_updates
            &&& forget_completion == old(completion).runtime_available
        } else {
            &&& final(scheduler)@ == old(scheduler)@
            &&& *final(completion) == *old(completion)
            &&& !forget_completion
        },
        (final(scheduler)@, *final(completion), forget_completion) == silenced(
            old(scheduler)@,
            *old(completion),
            action is FinishedUtterance,
        ),
{
    match action {
        VoicePipelineAction::FinishedUtterance { .. } => {
            scheduler.finalize();
            match clear_completion_request_state_locked(completion, false) {
                Ok(forget) => forget,
                Err(_) => false,
            }
        },
        VoicePipelineAction::Nothing => false,
    }
}

/// When an utterance was transcribed, as the user interface is told; nothing where none was
/// finished.
pub fn silence_telemetry<S, C>(
    frame_id: Option<String>,
    action: &VoicePipelineAction<S>,
    started_ms: u64,
    completed_ms: u64,
) -> (telemetry: RuntimeTelemetryPayload<C>)
    ensures
        telemetry.frame_id == frame_id,
        telemetry.backend_ingest_started_ms is None,
        telemetry.backend_ingest_completed_ms is None,
        telemetry.wake_detected_ms is None,
        telemetry.wake_confidence is None,
        telemetry.transcription_started_ms == (if action is FinishedUtterance {
            Some(started_ms)
        } else {
            None
        }),
        telemetry.transcription_completed_ms == (if action is FinishedUtterance {
            Some(completed_ms)
        } else {
            None
        }),
{
    let measured = match action {
        VoicePipelineAction::FinishedUtterance { .. } => true,
        VoicePipelineAction::Nothing => false,
    };
    RuntimeTelemetryPayload {
        frame_id,
        backend_ingest_started_ms: None,
        backend_ingest_completed_ms: None,
        wake_detected_ms: None,
        wake_confidence: None,
        transcription_started_ms: if measured {
            Some(started_ms)
        } else {
            None
        },
        transcription_completed_ms: if measured {
            Some(completed_ms)
        } else {
            None
        },
    }
}

/// What the user interface is told after a silence.
pub fn build_mark_silence_response<S, C>(
    facts: &VoiceFacts,
    action: &VoicePipelineAction<S>,
    transcript_text: Option<String>,
    telemetry: Option<RuntimeTelemetryPayload<C>>,
) -> (response: RuntimePhaseResponsePayload<C>)
    ensures
        response == phase_response(
            *facts,
            ready_samples(*action),
            transcript_text,
            telemetry,
        ),
{
    runtime_phase_response_from_state(
        facts,
        transcription_ready_samples(action),
        transcript_text,
        telemetry,
    )
}

/// How the voice runtime is brought back to waiting for the wake word.
#[derive(Clone, Copy, Debug, PartialEq, Eq, Structural)]
pub enum SessionReset {
    /// It waits already: only the detectors are reset.
    Detectors,
    /// It does something else: it is reset as a whole.
    Pipeline,
}

/// How the voice runtime is brought back to waiting for the wake word.
pub open spec fn reset_from(phase: RuntimePhasePayload) -> SessionReset {
    if phase is Sleeping {
        SessionReset::Detectors
    } else {
        SessionReset::Pipeline
    }
}

/// How the voice runtime is brought back to waiting for the wake word.
pub fn session_reset(phase: RuntimePhasePayload) -> (reset: SessionReset)
    ensures
        reset == reset_from(phase),
{
    if phase == RuntimePhasePayload::Sleeping {
        SessionReset::Detectors
    } else {
        SessionReset::Pipeline
    }
}

/// What a model really runs on.
#[derive(Clone, Copy, Debug, PartialEq, Eq, Structural)]
pub enum ActualInferenceProvider {
    Cuda,
    Cpu,
    AttachedUnknown,
    RequestedCuda,
}

/// The name of what a model runs on.
pub open spec fn provider_name(provider: ActualInferenceProvider) -> Seq<char> {
    match provider {
        ActualInferenceProvider::Cuda => "cuda"@,
        ActualInferenceProvider::Cpu => "cpu"@,
        ActualInferenceProvider::AttachedUnknown => "attached_unknown"@,
        ActualInferenceProvider::RequestedCuda => "requested_cuda"@,
    }
}

/// The name of what a model runs on.
pub fn actual_inference_provider_name(provider: ActualInferenceProvider) -> (name: &'static str)
    ensures
        name@ == provider_name(provider),
{
    match provider {
        ActualInferenceProvider::Cuda => "cuda",
        ActualInferenceProvider::Cpu => "cpu",
        ActualInferenceProvider::AttachedUnknown => "attached_unknown",
        ActualInferenceProvider::RequestedCuda => "requested_cuda",
    }
}

/// What a model runs on, as it is recorded.
pub open spec fn recorded_on(provider: ActualInferenceProvider) -> telemetry::InferenceProvider {
    match provider {
        ActualInferenceProvider::Cuda => telemetry::InferenceProvider::Cuda,
        ActualInferenceProvider::Cpu => telemetry::InferenceProvider::Cpu,
        ActualInferenceProvider::AttachedUnknown
        | ActualInferenceProvider::RequestedCuda => telemetry::InferenceProvider::AttachedUnknown,
    }
}

/// What a model runs on, as it is recorded: what was only asked for is not known.
pub fn telemetry_inference_provider(provider: ActualInferenceProvider) -> (recorded:
    telemetry::InferenceProvider)
    ensures
        recorded == recorded_on(provider),
{
    match provider {
        ActualInferenceProvider::Cuda => telemetry::InferenceProvider::Cuda,
        ActualInferenceProvider::Cpu => telemetry::InferenceProvider::Cpu,
        ActualInferenceProvider::AttachedUnknown
        | ActualInferenceProvider::RequestedCuda => telemetry::InferenceProvider::AttachedUnknown,
    }
}

/// What is said of the voice runtime is what is known of it, and what was said stays as it was
/// said.
pub proof fn law_the_voice_runtime_is_shown_as_it_is<C>(
    facts: VoiceFacts,
    samples: Option<usize>,
    words: Option<String>,
    telemetry: Option<RuntimeTelemetryPayload<C>>,
)
    ensures
        ({
            let shown = phase_response(facts, samples, words, telemetry);
            &&& shown.runtime_phase == facts.phase
            &&& shown.transcription_ready_samples == samples
            &&& shown.transcript_text == words
            &&& shown.last_activity_ms == facts.last_activity_ms
            &&& shown.capturing_utterance == facts.capturing_utterance
            &&& shown.preroll_samples == facts.preroll_samples
            &&& shown.utterance_samples == facts.utterance_samples
            &&& shown.telemetry == telemetry
        }),
{
}

/// An utterance ends a pause after the last activity, or after the beginning where there was none,
/// as far as the clock goes.
pub proof fn law_pauses_end_utterances(facts: VoiceFacts, pause: u64)
    ensures
        facts.last_activity_ms is None ==> silence_deadline(facts, pause) == pause,
        facts.last_activity_ms matches Some(last) ==> (silence_deadline(facts, pause) - last
            == pause || (silence_deadline(facts, pause) == u64::MAX && last + pause > u64::MAX)),
{
}

/// A detection is handed on with its own confidence; where nothing was detected, the detector still
/// says how sure it was.
pub proof fn law_readings_are_handed_on<C>(reading: WakeWordReading<C>)
    ensures
        read_out(reading).0 == reading.detection,
        reading.detection is Some ==> read_out(reading).1 == Some(reading.detection->0.confidence),
        reading.detection is None ==> read_out(reading).1 == reading.latest_confidence,
{
}

/// A frame is heard by the detector of its phase, and taken by the voice runtime with just what was
/// heard; in every other phase it is taken unheard.
pub proof fn law_frames_are_taken_as_they_were_heard<C>(
    now_ms: u64,
    phase: RuntimePhasePayload,
    detection: Option<WakeWordDetection<C>>,
    confidence: Option<C>,
    speech: bool,
)
    ensures
        !(phase is Sleeping) && !(phase is Listening) ==> frame_step::<C>(
            now_ms,
            FrameEvent::Arrived { phase },
        ) == (FrameView::<C>::Take {
            before: None,
            reading: FrameReading {
                started_listening: false,
                wake_word_now_ms: None,
                wake_confidence: None,
                speech_detected: false,
            },
        }),
        detection is Some ==> frame_step(
            now_ms,
            FrameEvent::WakeWordHeard { result: Ok((detection, confidence)) },
        ) == (FrameView::<C>::Take {
            before: Some(VoiceEvent::WakeWordDetected { now_ms }),
            reading: FrameReading {
                started_listening: false,
                wake_word_now_ms: Some(now_ms),
                wake_confidence: confidence,
                speech_detected: false,
            },
        }),
        detection is None ==> frame_step(
            now_ms,
            FrameEvent::WakeWordHeard { result: Ok((detection, confidence)) },
        ) == (FrameView::<C>::Take {
            before: None,
            reading: FrameReading {
                started_listening: false,
                wake_word_now_ms: None,
                wake_confidence: confidence,
                speech_detected: false,
            },
        }),
        frame_step(now_ms, FrameEvent::<C>::SpeechHeard { result: Ok(speech) }) == (FrameView::<
            C,
        >::Take {
            before: None,
            reading: FrameReading {
                started_listening: true,
                wake_word_now_ms: None,
                wake_confidence: None,
                speech_detected: speech,
            },
        }),
{
}

/// A frame that was taken is kept; the speech detector is reset first where the wake word was
/// spoken, and the voice runtime is told of speech first where there was some and it listens.
pub proof fn law_taken_frames_are_kept<C>(
    now_ms: u64,
    reading: FrameReading<C>,
    phase: RuntimePhasePayload,
)
    ensures
        ({
            let woken = reading.wake_word_now_ms is Some;
            let said = reading.speech_detected && phase is Listening;
            let taken = frame_step(now_ms, FrameEvent::Taken { reading, result: Ok(phase) });
            let reset = frame_step(
                now_ms,
                FrameEvent::DetectorReset { reading, phase, result: Ok(()) },
            );
            let noted = frame_step(now_ms, FrameEvent::SpeechNoted { reading, result: Ok(()) });
            &&& woken ==> taken == (FrameView::ResetDetector { reading, phase })
            &&& !woken ==> taken == reset
            &&& said ==> reset == (FrameView::NoteSpeech {
                reading,
                event: VoiceEvent::SpeechDetected { now_ms },
            })
            &&& !said ==> reset == (FrameView::Keep { reading })
            &&& noted == (FrameView::Keep { reading })
        }),
{
}

/// A frame that fails says where it failed and why.
pub proof fn law_failed_frames_say_why<C>(
    now_ms: u64,
    reading: FrameReading<C>,
    phase: RuntimePhasePayload,
    error: String,
)
    ensures
        frame_step(now_ms, FrameEvent::<C>::WakeWordHeard { result: Err(error) }) == (FrameView::<
            C,
        >::Fail { error: error@ }),
        frame_step(now_ms, FrameEvent::<C>::SpeechHeard { result: Err(error) }) == (FrameView::<
            C,
        >::Fail { error: error@ }),
        frame_step(
            now_ms,
            FrameEvent::Taken { reading, result: Err(FrameFailure::WakeWord(error)) },
        ) == (FrameView::<C>::Fail { error: "wake word transition failed: "@ + error@ }),
        frame_step(now_ms, FrameEvent::Taken { reading, result: Err(FrameFailure::Frame(error)) })
            == (FrameView::<C>::Fail { error: "voice pipeline frame ingestion failed: "@ + error@ }),
        frame_step(now_ms, FrameEvent::DetectorReset { reading, phase, result: Err(error) }) == (
        FrameView::<C>::Fail { error: error@ }),
        frame_step(now_ms, FrameEvent::SpeechNoted { reading, result: Err(error) }) == (
        FrameView::<C>::Fail { error: "speech activity transition failed: "@ + error@ }),
{
}

/// A wake word begins the next voice session and nothing is transcribed yet; what was said so far is
/// offered while listening; without a transcriber, or in between, nothing happens.
pub proof fn law_wake_words_begin_sessions<S>(
    scheduler: partial_transcription::SchedulerView<S>,
    session: int,
    available: bool,
    wake_word_now_ms: Option<u64>,
    listening: bool,
    now_ms: u64,
    utterance: Seq<S>,
)
    requires
        0 <= session < u64::MAX,
    ensures
        ({
            let (after, number, action) = partially_transcribed(
                scheduler,
                session,
                available,
                wake_word_now_ms,
                listening,
                now_ms,
                utterance,
            );
            let woken = available && wake_word_now_ms is Some;
            let heard = available && wake_word_now_ms is None && listening;
            &&& number == (if woken {
                session + 1
            } else {
                session
            })
            &&& woken ==> action is Ignore && after == scheduler.in_session(number as u64)
            &&& heard ==> action == scheduler.request_action(now_ms, utterance) && after
                == scheduler.requested(now_ms, utterance)
            &&& !woken && !heard ==> action is Ignore && after == scheduler
        }),
{
}

/// A finished utterance ends the session and forgets what was to be completed, of which the runtime
/// is told where there is one; a silence that finishes nothing changes nothing.
pub proof fn law_finished_utterances_end_sessions<S>(
    scheduler: partial_transcription::SchedulerView<S>,
    completion: CompletionState,
)
    ensures
        ({
            let (after, state, forget) = silenced(scheduler, completion, true);
            &&& after == scheduler.outside_sessions()
            &&& state.context is None
            &&& !state.holds_updates
            &&& state.runtime_available == completion.runtime_available
            &&& state.generation == completion.generation
            &&& forget <==> completion.runtime_available
        }),
        silenced(scheduler, completion, false) == (scheduler, completion, false),
{
}

/// A finished utterance is transcribed by the transcriber, where there is one that can be held;
/// what it says is handed on, and its error is told. Without a finished utterance there is nothing
/// to transcribe.
pub proof fn law_finished_utterances_are_transcribed<
    S,
    R,
    F: FnOnce(R, &Vec<S>) -> Result<String, String>,
>(
    action: VoicePipelineAction<S>,
    transcriber: Option<RuntimeLock<R>>,
    transcribe: F,
    result: Result<Option<String>, String>,
)
    requires
        transcribed(action, transcriber, transcribe, result),
    ensures
        action is Nothing ==> result is Ok && result->Ok_0 is None,
        action is FinishedUtterance ==> !(result is Ok && result->Ok_0 is None),
        action is FinishedUtterance && transcriber is None ==> result is Err && result->Err_0@
            == "parakeet runtime is not ready"@,
        action is FinishedUtterance && (transcriber matches Some(lock) && lock is Poisoned)
            ==> result is Err && result->Err_0@ == "parakeet runtime lock is poisoned"@,
        action matches VoicePipelineAction::FinishedUtterance { samples } ==> (
        transcriber matches Some(RuntimeLock::Held(held)) ==> {
            ||| exists|words: String|
                #[trigger] call_ensures(transcribe, (held, &samples), Ok::<String, String>(words))
                    && result == Ok::<Option<String>, String>(Some(words))
            ||| exists|error: String|
                #[trigger] call_ensures(transcribe, (held, &samples), Err::<String, String>(error))
                    && result is Err && result->Err_0@ == "utterance transcription failed: "@
                    + error@
        }),
{
}

/// The samples of a finished utterance are counted; a runtime that sleeps has only its detectors
/// reset; what a model runs on is recorded where it is known.
pub proof fn law_voice_facts_are_told<S>(
    samples: Vec<S>,
    phase: RuntimePhasePayload,
    provider: ActualInferenceProvider,
)
    ensures
        ready_samples(VoicePipelineAction::FinishedUtterance { samples }) == Some(
            samples@.len() as usize,
        ),
        ready_samples(VoicePipelineAction::<S>::Nothing) is None,
        reset_from(phase) is Detectors <==> phase is Sleeping,
        recorded_on(provider) is Cuda <==> provider is Cuda,
        recorded_on(provider) is Cpu <==> provider is Cpu,
        recorded_on(provider) is AttachedUnknown <==> provider is AttachedUnknown || provider
            is RequestedCuda,
        provider is Cuda ==> provider_name(provider) == "cuda"@,
        provider is Cpu ==> provider_name(provider) == "cpu"@,
        provider is AttachedUnknown ==> provider_name(provider) == "attached_unknown"@,
        provider is RequestedCuda ==> provider_name(provider) == "requested_cuda"@,
{
}

/// A transcription made while somebody speaks is recorded under its session and revision, as local
/// work that the system began, with how long it took and whether it succeeded.
pub proof fn law_partial_transcriptions_are_recorded(
    record: telemetry::TelemetryMetadata,
    session_id: u64,
    revision: u64,
    timestamp_ms: u64,
    duration_ms: u64,
    succeeded: bool,
)
    requires
        partial_recorded(record, session_id, revision, timestamp_ms, duration_ms, succeeded),
    ensures
        record.request_id@ == "partial-"@ + text::decimal(session_id as nat) + "-"@
            + text::decimal(revision as nat),
        record.generation == revision,
        record.timestamp_ms == timestamp_ms,
        record.duration_ms == Some(duration_ms),
        record.input_source is Voice,
        record.stage is PartialTranscription,
        record.provider is Local,
        record.model@ == "parakeet-v2-int8"@,
        record.inference_provider is Cpu,
        record.transport is InProcess,
        record.speculative_origin is System,
        record.status is Success <==> succeeded,
        record.error_category is Nothing <==> succeeded,
{
}

} // verus!
