use vox_golem::tts::{
    initialize_local_tts_runtime, local_tts_runtime_spec, select_tts_provider,
    synthesize_fake_audio, LocalTtsAudio, LocalTtsConfig, LocalTtsRuntime, LocalTtsRuntimeSpec,
    SynthesisReply, TtsActualProvider, TtsProviderPolicy, WorkerStart, MAX_TTS_INPUT_BYTES,
};
use vox_golem::voice_model::{
    audio_duration_ms, ensure_sample_rate, normalize_tts_text, phoneme_id, phoneme_token_ids,
    piper_model_config_path, resolve_piper_model_contract, select_piper_audio_output, speaker_id,
    strict_windows_espeak_data_directory_from_appdata, tts_cuda_runtime_dlls,
    validate_piper_voice_config, verify_tts_cuda_runtime_dlls_in_dir, PiperVoiceConfig,
};

fn spec(enabled: bool, max_duration_s: u64) -> LocalTtsRuntimeSpec {
    LocalTtsRuntimeSpec {
        enabled,
        model_path: if enabled { Some(String::from("jarvis.onnx")) } else { None },
        worker_count: 1,
        max_queue: 4,
        sample_rate_hz: 22_050,
        max_duration_s,
        provider_policy: TtsProviderPolicy::Auto,
    }
}

fn tone(index: usize, count: usize) -> f32 {
    let step = std::f32::consts::PI * 2.0 * 170.0 / 22_050.0;
    let envelope = if index < count / 10 {
        index as f32 / (count / 10).max(1) as f32
    } else {
        1.0
    };
    (step * index as f32).sin() * 0.12 * envelope
}

fn enabled_runtime(max_duration_s: u64) -> LocalTtsRuntime {
    LocalTtsRuntime::new(
        &spec(true, max_duration_s),
        true,
        vec![WorkerStart::Started(TtsActualProvider::Cpu)],
    )
    .expect("runtime should initialize with fake engine")
}

fn synthesize(runtime: &LocalTtsRuntime, text: &str) -> Result<LocalTtsAudio<f32>, String> {
    let spoken = runtime.begin_synthesis(text)?;
    let reply = match synthesize_fake_audio(&spoken, runtime.sample_rate_hz(), tone) {
        Ok(audio) => SynthesisReply::Audio(audio),
        Err(error) => SynthesisReply::Failed(error),
    };
    runtime.finish_synthesis(reply)
}

#[test]
fn piper_model_config_path_uses_onnx_json_companion() {
    let config_path = piper_model_config_path("models/tts/jarvis-high.onnx");
    assert_eq!(config_path.replace('\\', "/"), "models/tts/jarvis-high.onnx.json");
}

#[test]
fn piper_audio_output_selection_prefers_recognized_non_scalar_name() {
    let outputs = [("metadata", true), ("waveform", true), ("other", true)];

    assert_eq!(select_piper_audio_output(&outputs), Ok("waveform"));
}

#[test]
fn piper_audio_output_selection_accepts_only_unnamed_single_non_scalar_output() {
    let outputs = [("result", true)];

    assert_eq!(select_piper_audio_output(&outputs), Ok("result"));
}

#[test]
fn auto_provider_falls_back_to_cpu() {
    let mut attempts = Vec::new();
    let (runtime, provider) = select_tts_provider(TtsProviderPolicy::Auto, |cuda| {
        attempts.push(cuda);
        if cuda {
            Err(String::from("CUDA unavailable"))
        } else {
            Ok("cpu-runtime")
        }
    })
    .expect("auto policy should fall back to CPU");

    assert_eq!(attempts, [true, false]);
    assert_eq!(runtime, "cpu-runtime");
    assert_eq!(provider, TtsActualProvider::Cpu);
}

#[test]
fn piper_audio_output_selection_rejects_ambiguous_unnamed_outputs() {
    let outputs = [("result_a", true), ("result_b", true)];

    let error = select_piper_audio_output(&outputs)
        .expect_err("multiple unnamed non-scalar outputs must be rejected");
    assert!(error.contains("ambiguous"));
}

#[test]
fn contract_cuda_runtime_dll_check_lists_missing_executable_directory_dlls() {
    let error =
        verify_tts_cuda_runtime_dlls_in_dir("bin", &vec![String::from("cublas64_12.dll")])
            .expect_err("missing CUDA runtime DLLs should fail before provider init");

    assert!(error.contains("local tts CUDA runtime DLLs are missing beside the current executable"));
    assert!(error.contains("cublasLt64_12.dll"));
    assert!(error.contains("cufft64_11.dll"));
    assert!(error.contains("cudart64_12.dll"));
    assert!(error.contains("cudnn64_9.dll"));
    assert!(error.contains("cudnn_ops64_9.dll"));
    assert!(error.contains("onnxruntime_providers_cuda.dll"));
    assert!(error.contains("onnxruntime_providers_shared.dll"));
    assert!(!error.contains("CUDA_PATH"));
    assert!(!error.contains("PATH"));
}

#[test]
fn contract_cuda_runtime_dll_check_accepts_complete_executable_directory() {
    let files: Vec<String> = tts_cuda_runtime_dlls().into_iter().map(String::from).collect();

    verify_tts_cuda_runtime_dlls_in_dir("bin", &files)
        .expect("complete CUDA runtime DLL set should pass preflight");
}

#[test]
fn strict_espeak_path_requires_tts_root_directory() {
    let error =
        strict_windows_espeak_data_directory_from_appdata("root", false, "root/data", false)
            .expect_err("missing strict tts root should fail");

    assert!(error.contains("strict eSpeak directory is missing"));
}

#[test]
fn strict_espeak_path_requires_espeak_ng_data_directory() {
    let error = strict_windows_espeak_data_directory_from_appdata("root", true, "root/data", false)
        .expect_err("missing espeak-ng-data should fail");

    assert!(error.contains("strict eSpeak data directory is missing"));
}

#[test]
fn strict_espeak_path_accepts_expected_directory_layout() {
    let resolved =
        strict_windows_espeak_data_directory_from_appdata("root", true, "root/data", true)
            .expect("expected strict path resolution to succeed");

    assert_eq!(resolved, "root");
}

#[test]
fn disabled_runtime_rejects_synthesis_requests() {
    let runtime = LocalTtsRuntime::new(&spec(false, 300), false, Vec::new())
        .expect("runtime should initialize");

    let error = synthesize(&runtime, "hello").expect_err("disabled runtime should reject synthesis");
    assert_eq!(error, "tts is disabled");
}

#[test]
fn enabled_runtime_generates_audio() {
    let runtime = LocalTtsRuntime::new(
        &LocalTtsRuntimeSpec { worker_count: 2, max_queue: 8, ..spec(true, 300) },
        true,
        vec![
            WorkerStart::Started(TtsActualProvider::Cpu),
            WorkerStart::Started(TtsActualProvider::Cpu),
        ],
    )
    .expect("runtime should initialize with fake engine");

    let audio = synthesize(&runtime, "voice check").expect("synthesis should succeed");

    assert_eq!(audio.sample_rate_hz, 22_050);
    assert!(!audio.pcm_f32.is_empty());
    assert_eq!(audio.duration_ms, 385);
    assert_eq!(audio.pcm_f32.len(), 8489);
    assert_eq!(audio.pcm_f32[0], 0.0);
}

#[test]
fn enabled_runtime_rejects_oversized_text_before_synthesis() {
    let runtime = enabled_runtime(300);

    let error = synthesize(&runtime, &"x".repeat(MAX_TTS_INPUT_BYTES + 1))
        .expect_err("oversized input must be rejected");

    assert!(error.contains("tts text exceeds maximum"));
}

#[test]
fn synthesis_result_is_rejected_when_runtime_is_disabled_in_flight() {
    let mut runtime = enabled_runtime(300);
    let spoken = runtime.begin_synthesis("hello").expect("synthesis should begin");
    let audio = synthesize_fake_audio(&spoken, 22_050, tone).expect("a tone");

    runtime.set_enabled(false);

    let error = runtime
        .finish_synthesis(SynthesisReply::Audio(audio))
        .expect_err("disabled in-flight synthesis must not return audio");
    assert_eq!(error, "tts was disabled during synthesis");
}

#[test]
fn enabled_runtime_surfaces_cuda_provider_init_failure() {
    let error = LocalTtsRuntime::new(
        &spec(true, 300),
        true,
        vec![WorkerStart::Failed(String::from(
            "failed to initialize CUDA execution provider for local tts: unavailable",
        ))],
    )
    .expect_err("runtime should fail when CUDA provider init fails");
    assert!(error.contains("failed to initialize CUDA execution provider for local tts"));
}

#[test]
fn enabled_runtime_rejects_audio_exceeding_max_duration() {
    let runtime = enabled_runtime(1);

    let long_text = "This sentence is intentionally long enough to exceed one second.";
    let error =
        synthesize(&runtime, long_text).expect_err("over-limit synthesis should hard-fail");

    assert!(error.contains("exceeds configured max"));
    assert_eq!(error, "tts synthesized duration 2240ms exceeds configured max 1000ms");
}

#[test]
fn runtimes_are_refused_that_cannot_be_made() {
    let refused = |spec: LocalTtsRuntimeSpec, model_is_file: bool| {
        LocalTtsRuntime::new(&spec, model_is_file, Vec::new()).expect_err("refused")
    };
    assert_eq!(
        refused(LocalTtsRuntimeSpec { worker_count: 0, ..spec(true, 1) }, true),
        "tts worker_count must be greater than zero"
    );
    assert_eq!(
        refused(LocalTtsRuntimeSpec { max_queue: 0, ..spec(true, 1) }, true),
        "tts max_queue must be greater than zero"
    );
    assert_eq!(
        refused(LocalTtsRuntimeSpec { sample_rate_hz: 0, ..spec(true, 1) }, true),
        "tts sample_rate_hz must be greater than zero"
    );
    assert_eq!(refused(spec(true, 0), true), "tts max_duration_s must be greater than zero");
    assert_eq!(
        refused(LocalTtsRuntimeSpec { model_path: None, ..spec(true, 1) }, true),
        "tts model_path is required when enabled"
    );
    assert_eq!(
        refused(spec(true, 1), false),
        "tts model_path must reference an existing file: jarvis.onnx"
    );
    let mixed = LocalTtsRuntime::new(
        &LocalTtsRuntimeSpec { worker_count: 2, ..spec(true, 1) },
        true,
        vec![
            WorkerStart::Started(TtsActualProvider::Cpu),
            WorkerStart::Started(TtsActualProvider::Cuda),
        ],
    );
    assert_eq!(
        mixed.expect_err("mixed"),
        "local tts workers selected inconsistent execution providers"
    );
    let lost = LocalTtsRuntime::new(&spec(true, 1), true, vec![WorkerStart::Lost]);
    assert_eq!(lost.expect_err("lost"), "failed to initialize local tts worker runtime");
}

#[test]
fn replies_that_hold_no_speech_are_named() {
    let runtime = enabled_runtime(700);
    assert!(runtime.is_enabled());
    assert!(runtime.is_available());
    assert_eq!(runtime.actual_provider(), Some(TtsActualProvider::Cpu));
    assert_eq!(runtime.synthesis_wait_ms(), 600_000);
    assert_eq!(enabled_runtime(1).synthesis_wait_ms(), 31_000);
    let refused = |reply: SynthesisReply<f32>| runtime.finish_synthesis(reply).expect_err("refused");
    assert_eq!(refused(SynthesisReply::QueueFull), "local tts synthesis queue is full");
    assert_eq!(
        refused(SynthesisReply::QueueClosed),
        "failed to enqueue local tts synthesis request"
    );
    assert_eq!(refused(SynthesisReply::TimedOut), "local tts synthesis timed out");
    assert_eq!(runtime.begin_synthesis("  \n"), Err(String::from("tts text must not be empty")));
}

#[test]
fn tones_last_as_long_as_their_text_within_bounds() {
    let shape = |words: &str, rate: u32| {
        synthesize_fake_audio(words, rate, |index, _| index)
            .map(|audio| (audio.duration_ms, audio.pcm_f32.len()))
    };
    assert_eq!(shape("", 1000), Ok((220, 220)));
    assert_eq!(shape("1234567", 1000), Ok((245, 245)));
    assert_eq!(shape(&"x".repeat(228), 1000), Ok((7980, 7980)));
    assert_eq!(shape(&"x".repeat(229), 1000), Ok((8000, 8000)));
    assert_eq!(
        shape("x", 4),
        Err(String::from("local tts generated an empty sample buffer"))
    );
}

#[test]
fn speech_starts_as_configured() {
    let config = LocalTtsConfig {
        model_path: String::from("voice.onnx"),
        worker_count: 3,
        max_queue: 5,
        sample_rate_hz: 16_000,
        max_duration_s: 60,
    };
    let spec = local_tts_runtime_spec(&config);
    assert!(spec.enabled);
    assert_eq!(spec.model_path.as_deref(), Some("voice.onnx"));
    assert_eq!((spec.worker_count, spec.max_queue), (3, 5));
    let runtime = enabled_runtime(300);
    assert_eq!(initialize_local_tts_runtime(false, Ok(()), Ok(runtime)), Ok(None));
    assert_eq!(initialize_local_tts_runtime(true, Ok(()), Ok(runtime)), Ok(Some(runtime)));
    assert_eq!(
        initialize_local_tts_runtime(true, Err(String::from("gone")), Ok(runtime)),
        Err(String::from("failed to resolve strict eSpeak data root: gone"))
    );
    assert_eq!(
        initialize_local_tts_runtime(true, Ok(()), Err(String::from("broken"))),
        Err(String::from("failed to initialize local tts runtime: broken"))
    );
}

fn voice() -> PiperVoiceConfig {
    PiperVoiceConfig {
        sample_rate: 22_050,
        voice: String::from("en-us"),
        num_speakers: 1,
        phoneme_id_map: vec![
            ('_', vec![0]),
            ('^', vec![1]),
            ('$', vec![2]),
            ('a', vec![10, 11]),
            (' ', vec![3]),
        ],
        inference_is_finite: true,
    }
}

#[test]
fn token_ids_are_framed_and_padded() {
    assert_eq!(
        phoneme_token_ids(&vec![String::from("a"), String::from("a")], &voice()),
        Ok(vec![1, 10, 0, 3, 0, 10, 0, 2])
    );
    assert_eq!(phoneme_id(&voice().phoneme_id_map, 'a'), Some(10));
    assert_eq!(phoneme_id(&voice().phoneme_id_map, 'z'), None);
}

#[test]
fn entries_of_a_voice_may_stand_in_any_order() {
    let mut reversed = voice();
    reversed.phoneme_id_map.reverse();
    let parts = vec![String::from("a"), String::from("a")];
    assert_eq!(phoneme_token_ids(&parts, &reversed), phoneme_token_ids(&parts, &voice()));
    for (phoneme, ids) in &voice().phoneme_id_map {
        assert_eq!(phoneme_id(&reversed.phoneme_id_map, *phoneme), ids.first().copied());
    }
}

#[test]
fn voice_configurations_are_checked() {
    assert_eq!(validate_piper_voice_config(&voice()), Ok(()));
    let silent = PiperVoiceConfig { sample_rate: 0, ..voice() };
    assert_eq!(
        validate_piper_voice_config(&silent),
        Err(String::from(
            "local tts model config is invalid: audio.sample_rate must be greater than zero"
        ))
    );
    assert_eq!(ensure_sample_rate(&voice(), 22_050), Ok(()));
    assert_eq!(
        ensure_sample_rate(&voice(), 16_000),
        Err(String::from(
            "tts sample_rate_hz 16000 does not match Piper model config sample rate 22050"
        ))
    );
}

#[test]
fn voice_models_are_held_to_their_interface() {
    let inputs = [
        ("input", Some(2)),
        ("input_lengths", Some(1)),
        ("scales", Some(1)),
    ];
    let contract = resolve_piper_model_contract(&inputs, &[("output", true)], 1)
        .expect("a model with one speaker");
    assert!(!contract.has_speaker_input);
    assert_eq!(contract.output_name, "output");
    assert!(resolve_piper_model_contract(&inputs[..2], &[("output", true)], 1).is_err());
    assert_eq!(speaker_id(2, Some(7)), 7);
    assert_eq!(speaker_id(0, Some(7)), 0);
    assert_eq!(speaker_id(2, None), 0);
}

#[test]
fn spoken_text_is_squeezed() {
    assert_eq!(normalize_tts_text(" a \n\t b "), Ok(String::from("a b")));
    assert!(normalize_tts_text(" \n ").is_err());
    assert_eq!(audio_duration_ms(22_050, 22_050), Ok(1000));
    assert_eq!(audio_duration_ms(1, 22_050), Ok(1));
    assert!(audio_duration_ms(0, 22_050).is_err());
}

#[test]
fn workers_that_do_not_report_are_lost() {
    let two = LocalTtsRuntimeSpec { worker_count: 2, ..spec(true, 300) };
    let lost = Err(String::from("failed to initialize local tts worker runtime"));
    assert_eq!(LocalTtsRuntime::new(&two, true, Vec::new()), lost);
    let one = vec![WorkerStart::Started(TtsActualProvider::Cpu)];
    assert_eq!(LocalTtsRuntime::new(&two, true, one), lost);
}

#[test]
fn policies_try_no_other_provider() {
    let mut tried: Vec<bool> = Vec::new();
    let refused = select_tts_provider(TtsProviderPolicy::Cuda, |cuda| -> Result<(), String> {
        tried.push(cuda);
        Err(String::from("no graphics card"))
    });
    assert_eq!(refused, Err(String::from("no graphics card")));
    assert_eq!(tried, vec![true]);
    tried.clear();
    let started = select_tts_provider(TtsProviderPolicy::Cpu, |cuda| -> Result<(), String> {
        tried.push(cuda);
        Ok(())
    });
    assert_eq!(started, Ok(((), TtsActualProvider::Cpu)));
    assert_eq!(tried, vec![false]);
}
