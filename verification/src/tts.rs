//! Local speech: which runtimes may start, what may be spoken, and how a voice model is used.

use crate::text;
use crate::text::{byte_len, concat2, concat3, decimal_text, trim};
use vstd::prelude::*;
use vstd::string::*;

verus! {

broadcast use vstd::string::group_string_axioms;

/// How large a text may be to be spoken.
pub const MAX_TTS_INPUT_BYTES: usize = 4096;

/// How long a caller waits for speech at most.
pub const MAX_SYNTHESIS_WAIT_MS: u64 = 600000;

/// What a speech runtime is asked to be.
#[derive(Debug, Clone)]
pub struct LocalTtsRuntimeSpec {
    pub enabled: bool,
    pub model_path: Option<String>,
    pub worker_count: usize,
    pub max_queue: usize,
    pub sample_rate_hz: u32,
    pub max_duration_s: u64,
    pub provider_policy: TtsProviderPolicy,
}

/// What speech may be computed on.
#[derive(Debug, Clone, Copy, PartialEq, Eq, Structural)]
pub enum TtsProviderPolicy {
    Auto,
    Cuda,
    Cpu,
}

/// What speech is computed on.
#[derive(Debug, Clone, Copy, PartialEq, Eq, Structural)]
pub enum TtsActualProvider {
    Cuda,
    Cpu,
}

/// Spoken text.
#[derive(Debug, Clone, PartialEq)]
pub struct LocalTtsAudio<S> {
    pub pcm_f32: Vec<S>,
    pub sample_rate_hz: u32,
    pub duration_ms: u64,
}

/// A speech runtime: whether it speaks, and within which bounds.
#[derive(Debug, Clone, Copy, PartialEq, Eq, Structural)]
pub struct LocalTtsRuntime {
    pub enabled: bool,
    pub sample_rate_hz: u32,
    pub max_duration_ms: u64,
    pub available: bool,
    pub actual_provider: Option<TtsActualProvider>,
}

/// What a worker reported when it was started.
pub enum WorkerStart {
    Started(TtsActualProvider),
    Failed(String),
    Lost,
}

/// What became of a text that was handed to the workers.
pub enum SynthesisReply<S> {
    QueueFull,
    QueueClosed,
    TimedOut,
    Failed(String),
    Audio(LocalTtsAudio<S>),
}

/// Why a runtime cannot be made as asked, where it cannot.
pub open spec fn spec_refusal(spec: LocalTtsRuntimeSpec, model_is_file: bool) -> Option<
    Seq<char>,
> {
    if spec.worker_count == 0 {
        Some("tts worker_count must be greater than zero"@)
    } else if spec.max_queue == 0 {
        Some("tts max_queue must be greater than zero"@)
    } else if spec.sample_rate_hz == 0 {
        Some("tts sample_rate_hz must be greater than zero"@)
    } else if spec.max_duration_s == 0 {
        Some("tts max_duration_s must be greater than zero"@)
    } else if spec.enabled && spec.model_path is None {
        Some("tts model_path is required when enabled"@)
    } else if spec.enabled && !model_is_file {
        Some("tts model_path must reference an existing file: "@ + spec.model_path->0@)
    } else {
        None
    }
}

/// A number of seconds in milliseconds, as far as there are so many.
pub open spec fn thousandfold(number: u64) -> u64 {
    if number * 1000 <= u64::MAX {
        (number * 1000) as u64
    } else {
        u64::MAX
    }
}

/// A number of seconds in milliseconds, as far as there are so many.
pub fn times_thousand(number: u64) -> (result: u64)
    ensures
        result == thousandfold(number),
{
    match number.checked_mul(1000) {
        Some(product) => product,
        None => u64::MAX,
    }
}

/// The provider that all workers agree on: the first report that is not a start, or the first
/// start that differs from those before it, decides against the runtime.
pub open spec fn agreed_provider(
    selected: Option<TtsActualProvider>,
    reports: Seq<WorkerStart>,
) -> Result<Option<TtsActualProvider>, Seq<char>>
    decreases reports.len(),
{
    if reports.len() == 0 {
        Ok(selected)
    } else {
        match reports[0] {
            WorkerStart::Lost => Err("failed to initialize local tts worker runtime"@),
            WorkerStart::Failed(error) => Err(error@),
            WorkerStart::Started(provider) => if selected is Some && selected->0 != provider {
                Err("local tts workers selected inconsistent execution providers"@)
            } else {
                agreed_provider(Some(provider), reports.skip(1))
            },
        }
    }
}

/// The reports of `count` workers: a worker whose report did not come is lost.
pub open spec fn awaited(reports: Seq<WorkerStart>, count: nat) -> Seq<WorkerStart> {
    Seq::new(
        count,
        |i: int|
            if i < reports.len() {
                reports[i]
            } else {
                WorkerStart::Lost
            },
    )
}

impl LocalTtsRuntimeSpec {
    /// Accepts a runtime that can be made as asked; `model_is_file` says whether there is a file
    /// at the model's path.
    pub fn validate(&self, model_is_file: bool) -> (result: Result<(), String>)
        ensures
            match result {
                Ok(_) => spec_refusal(*self, model_is_file) is None,
                Err(message) => spec_refusal(*self, model_is_file) == Some(message@),
            },
    {
        if self.worker_count == 0 {
            return Err("tts worker_count must be greater than zero".to_owned());
        }
        if self.max_queue == 0 {
            return Err("tts max_queue must be greater than zero".to_owned());
        }
        if self.sample_rate_hz == 0 {
            return Err("tts sample_rate_hz must be greater than zero".to_owned());
        }
        if self.max_duration_s == 0 {
            return Err("tts max_duration_s must be greater than zero".to_owned());
        }
        if self.enabled {
            match &self.model_path {
                None => {
                    return Err("tts model_path is required when enabled".to_owned());
                },
                Some(model_path) => {
                    if !model_is_file {
                        return Err(
                            concat2(
                                "tts model_path must reference an existing file: ",
                                model_path.as_str(),
                            ),
                        );
                    }
                },
            }
        }
        Ok(())
    }
}

impl LocalTtsRuntime {
    /// The runtime that was asked for: a silent one where it is disabled, else one that speaks
    /// with the provider that all of its workers report. `workers` holds the reports that came.
    pub fn new(spec: &LocalTtsRuntimeSpec, model_is_file: bool, workers: Vec<WorkerStart>) -> (
        result: Result<Self, String>)
        ensures
            text::outcome(result) == (match spec_refusal(*spec, model_is_file) {
                Some(message) => Err(message),
                None => if !spec.enabled {
                    Ok(
                        LocalTtsRuntime {
                            enabled: false,
                            sample_rate_hz: spec.sample_rate_hz,
                            max_duration_ms: thousandfold(spec.max_duration_s),
                            available: false,
                            actual_provider: None,
                        },
                    )
                } else {
                    match agreed_provider(None, awaited(workers@, spec.worker_count as nat)) {
                        Err(message) => Err(message),
                        Ok(provider) => Ok(
                            LocalTtsRuntime {
                                enabled: true,
                                sample_rate_hz: spec.sample_rate_hz,
                                max_duration_ms: thousandfold(spec.max_duration_s),
                                available: true,
                                actual_provider: provider,
                            },
                        ),
                    }
                },
            }),
    {
        match spec.validate(model_is_file) {
            Ok(_) => {},
            Err(message) => {
                return Err(message);
            },
        }
        let max_duration_ms: u64 = times_thousand(spec.max_duration_s);
        if !spec.enabled {
            return Ok(
                LocalTtsRuntime {
                    enabled: false,
                    sample_rate_hz: spec.sample_rate_hz,
                    max_duration_ms,
                    available: false,
                    actual_provider: None,
                },
            );
        }
        let mut actual_provider: Option<TtsActualProvider> = None;
        let mut i: usize = 0;
        let ghost reports = awaited(workers@, spec.worker_count as nat);
        proof {
            assert(reports.skip(0) == reports);
        }
        while i < spec.worker_count
            invariant
                i <= spec.worker_count,
                reports == awaited(workers@, spec.worker_count as nat),
                agreed_provider(actual_provider, reports.skip(i as int)) == agreed_provider(
                    None,
                    reports,
                ),
                spec.enabled,
                spec_refusal(*spec, model_is_file) is None,
            decreases spec.worker_count - i,
        {
            proof {
                assert(reports.skip(i as int)[0] == reports[i as int]);
                assert(reports.skip(i as int).skip(1) == reports.skip(i + 1));
            }
            if i >= workers.len() {
                return Err("failed to initialize local tts worker runtime".to_owned());
            }
            match &workers[i] {
                WorkerStart::Lost => {
                    return Err("failed to initialize local tts worker runtime".to_owned());
                },
                WorkerStart::Failed(error) => {
                    return Err(error.clone());
                },
                WorkerStart::Started(provider) => {
                    if let Some(selected) = actual_provider {
                        if selected != *provider {
                            return Err(
                                "local tts workers selected inconsistent execution providers".to_owned(),
                            );
                        }
                    }
                    actual_provider = Some(*provider);
                },
            }
            i += 1;
        }
        Ok(
            LocalTtsRuntime {
                enabled: true,
                sample_rate_hz: spec.sample_rate_hz,
                max_duration_ms,
                available: true,
                actual_provider,
            },
        )
    }

    /// Whether the runtime speaks.
    pub fn is_enabled(&self) -> (enabled: bool)
        ensures
            enabled == self.enabled,
    {
        self.enabled
    }

    /// How many samples a second of speech has.
    pub fn sample_rate_hz(&self) -> (sample_rate_hz: u32)
        ensures
            sample_rate_hz == self.sample_rate_hz,
    {
        self.sample_rate_hz
    }

    /// Whether the runtime has workers.
    pub fn is_available(&self) -> (available: bool)
        ensures
            available == self.available,
    {
        self.available
    }

    /// What speech is computed on.
    pub fn actual_provider(&self) -> (provider: Option<TtsActualProvider>)
        ensures
            provider == self.actual_provider,
    {
        self.actual_provider
    }

    /// Switches the runtime.
    pub fn set_enabled(&mut self, enabled: bool)
        ensures
            *final(self) == (LocalTtsRuntime { enabled, ..*old(self) }),
    {
        self.enabled = enabled;
    }

    /// What the workers are to speak, or why nothing is spoken.
    pub open spec fn job(self, words: Seq<char>) -> Result<Seq<char>, Seq<char>> {
        let spoken = text::trimmed(words);
        if !self.enabled {
            Err("tts is disabled"@)
        } else if spoken.len() == 0 {
            Err("tts text must not be empty"@)
        } else if text::byte_count(spoken) > MAX_TTS_INPUT_BYTES {
            Err("tts text exceeds maximum of 4096 bytes"@)
        } else if !self.available {
            Err("tts runtime is not available"@)
        } else {
            Ok(spoken)
        }
    }

    /// What the workers are to speak, or why nothing is spoken.
    pub fn begin_synthesis(&self, words: &str) -> (result: Result<String, String>)
        ensures
            text::text_outcome(result) == self.job(words@),
    {
        if !self.enabled {
            return Err("tts is disabled".to_owned());
        }
        let spoken = trim(words);
        if spoken.is_empty() {
            return Err("tts text must not be empty".to_owned());
        }
        if byte_len(spoken) > MAX_TTS_INPUT_BYTES {
            return Err("tts text exceeds maximum of 4096 bytes".to_owned());
        }
        if !self.available {
            return Err("tts runtime is not available".to_owned());
        }
        Ok(spoken.to_owned())
    }

    /// How long the caller waits for the workers: the longest allowed speech and half a minute,
    /// and ten minutes at most.
    pub fn synthesis_wait_ms(&self) -> (wait_ms: u64)
        ensures
            wait_ms == patience(self.max_duration_ms),
    {
        let wanted: u64 = self.max_duration_ms.saturating_add(30000);
        if wanted <= MAX_SYNTHESIS_WAIT_MS {
            wanted
        } else {
            MAX_SYNTHESIS_WAIT_MS
        }
    }

    /// Why a reply of the workers is not played, where it is not.
    pub open spec fn reply_refusal<S>(self, reply: SynthesisReply<S>) -> Option<Seq<char>> {
        match reply {
            SynthesisReply::QueueFull => Some("local tts synthesis queue is full"@),
            SynthesisReply::QueueClosed => Some("failed to enqueue local tts synthesis request"@),
            SynthesisReply::TimedOut => Some("local tts synthesis timed out"@),
            SynthesisReply::Failed(error) => Some(error@),
            SynthesisReply::Audio(audio) => if audio.duration_ms > self.max_duration_ms {
                Some(
                    "tts synthesized duration "@ + text::decimal(audio.duration_ms as nat)
                        + "ms exceeds configured max "@ + text::decimal(
                        self.max_duration_ms as nat,
                    ) + "ms"@,
                )
            } else if !self.enabled {
                Some("tts was disabled during synthesis"@)
            } else {
                None
            },
        }
    }

    /// The speech that a reply of the workers holds, where it may be played now.
    pub fn finish_synthesis<S>(&self, reply: SynthesisReply<S>) -> (result: Result<
        LocalTtsAudio<S>,
        String,
    >)
        ensures
            match result {
                Ok(audio) => self.reply_refusal(reply) is None && reply == SynthesisReply::Audio(
                    audio,
                ),
                Err(message) => self.reply_refusal(reply) == Some(message@),
            },
    {
        match reply {
            SynthesisReply::QueueFull => Err("local tts synthesis queue is full".to_owned()),
            SynthesisReply::QueueClosed => Err(
                "failed to enqueue local tts synthesis request".to_owned(),
            ),
            SynthesisReply::TimedOut => Err("local tts synthesis timed out".to_owned()),
            SynthesisReply::Failed(error) => Err(error),
            SynthesisReply::Audio(audio) => {
                if audio.duration_ms > self.max_duration_ms {
                    let mut message = concat3(
                        "tts synthesized duration ",
                        decimal_text(audio.duration_ms as u128).as_str(),
                        "ms exceeds configured max ",
                    );
                    message.append(decimal_text(self.max_duration_ms as u128).as_str());
                    message.append("ms");
                    return Err(message);
                }
                if !self.enabled {
                    return Err("tts was disabled during synthesis".to_owned());
                }
                Ok(audio)
            },
        }
    }
}

/// Nothing is spoken, and nothing that was spoken is played, while the runtime is disabled; and
/// nothing is played that is longer than allowed.
pub proof fn law_disabled_runtimes_are_silent<S>(
    runtime: LocalTtsRuntime,
    words: Seq<char>,
    reply: SynthesisReply<S>,
)
    ensures
        !runtime.enabled ==> runtime.job(words) is Err,
        !runtime.enabled ==> runtime.reply_refusal(reply) is Some,
        runtime.reply_refusal(reply) is None ==> reply is Audio
            && reply->Audio_0.duration_ms <= runtime.max_duration_ms,
        runtime.job(words) is Ok ==> 0 < runtime.job(words)->Ok_0.len() && text::byte_count(
            runtime.job(words)->Ok_0,
        ) <= MAX_TTS_INPUT_BYTES,
{
}

/// Whether `result` is what comes of starting speech with `initialize` under a policy.
pub open spec fn provider_selected<T, F: FnMut(bool) -> Result<T, String>>(
    policy: TtsProviderPolicy,
    initialize: F,
    result: Result<(T, TtsActualProvider), String>,
) -> bool {
    let attempted = |cuda: bool|
        match result {
            Ok((runtime, provider)) => {
                &&& call_ensures(initialize, (cuda,), Ok(runtime))
                &&& provider == (if cuda {
                    TtsActualProvider::Cuda
                } else {
                    TtsActualProvider::Cpu
                })
            },
            Err(error) => call_ensures(initialize, (cuda,), Err(error)),
        };
    match policy {
        TtsProviderPolicy::Cpu => attempted(false),
        TtsProviderPolicy::Cuda => attempted(true),
        TtsProviderPolicy::Auto => if result is Ok && result->Ok_0.1 is Cuda {
            attempted(true)
        } else {
            &&& exists|error: String| call_ensures(initialize, (true,), Err::<T, String>(error))
            &&& attempted(false)
        },
    }
}

/// Starts speech on the provider that the policy names; with `Auto`, on the graphics card where
/// it starts there and on the processor otherwise.
pub fn select_tts_provider<T, F: FnMut(bool) -> Result<T, String>>(
    policy: TtsProviderPolicy,
    mut initialize: F,
) -> (result: Result<(T, TtsActualProvider), String>)
    requires
        !(policy is Cpu) ==> call_requires(initialize, (true,)),
        policy is Cpu ==> call_requires(initialize, (false,)),
        policy is Auto ==> forall|error: String| #[trigger]
            call_ensures(initialize, (true,), Err::<T, String>(error)) ==> call_requires(
                initialize,
                (false,),
            ),
    ensures
        provider_selected(policy, initialize, result),
{
    match policy {
        TtsProviderPolicy::Cpu => match initialize(false) {
            Ok(runtime) => Ok((runtime, TtsActualProvider::Cpu)),
            Err(error) => Err(error),
        },
        TtsProviderPolicy::Cuda => match initialize(true) {
            Ok(runtime) => Ok((runtime, TtsActualProvider::Cuda)),
            Err(error) => Err(error),
        },
        TtsProviderPolicy::Auto => match initialize(true) {
            Ok(runtime) => Ok((runtime, TtsActualProvider::Cuda)),
            Err(_) => match initialize(false) {
                Ok(runtime) => Ok((runtime, TtsActualProvider::Cpu)),
                Err(error) => Err(error),
            },
        },
    }
}

/// How speech is configured.
#[derive(Debug, Clone, PartialEq, Eq)]
pub struct LocalTtsConfig {
    pub model_path: String,
    pub worker_count: usize,
    pub max_queue: usize,
    pub sample_rate_hz: u32,
    pub max_duration_s: u64,
}

/// The runtime that is asked for where speech is switched on.
pub fn local_tts_runtime_spec(config: &LocalTtsConfig) -> (spec: LocalTtsRuntimeSpec)
    ensures
        spec.enabled,
        text::optional_text(spec.model_path) == Some(config.model_path@),
        spec.worker_count == config.worker_count,
        spec.max_queue == config.max_queue,
        spec.sample_rate_hz == config.sample_rate_hz,
        spec.max_duration_s == config.max_duration_s,
        spec.provider_policy is Auto,
{
    LocalTtsRuntimeSpec {
        enabled: true,
        model_path: Some(config.model_path.as_str().to_owned()),
        worker_count: config.worker_count,
        max_queue: config.max_queue,
        sample_rate_hz: config.sample_rate_hz,
        max_duration_s: config.max_duration_s,
        provider_policy: TtsProviderPolicy::Auto,
    }
}

/// Whether speech is wanted, whether its data can be found, and what came of making a runtime.
pub open spec fn initialized(
    enabled: bool,
    speech_data: Result<(), Seq<char>>,
    started: Result<LocalTtsRuntime, Seq<char>>,
) -> Result<Option<LocalTtsRuntime>, Seq<char>> {
    if !enabled {
        Ok(None)
    } else {
        match (speech_data, started) {
            (Err(error), _) => Err("failed to resolve strict eSpeak data root: "@ + error),
            (Ok(_), Err(error)) => Err("failed to initialize local tts runtime: "@ + error),
            (Ok(_), Ok(runtime)) => Ok(Some(runtime)),
        }
    }
}

/// Ends the start of the speech runtime, or skips it where speech is switched off.
pub fn initialize_local_tts_runtime(
    enabled: bool,
    speech_data: Result<(), String>,
    started: Result<LocalTtsRuntime, String>,
) -> (result: Result<Option<LocalTtsRuntime>, String>)
    ensures
        text::outcome(result) == initialized(
            enabled,
            text::outcome(speech_data),
            text::outcome(started),
        ),
{
    if !enabled {
        return Ok(None);
    }
    match speech_data {
        Err(error) => Err(
            concat2("failed to resolve strict eSpeak data root: ", error.as_str()),
        ),
        Ok(_) => match started {
            Err(error) => Err(
                concat2("failed to initialize local tts runtime: ", error.as_str()),
            ),
            Ok(runtime) => Ok(Some(runtime)),
        },
    }
}

/// How long a tone lasts that stands for a text: so many milliseconds per character, within
/// bounds.
pub open spec fn tone_duration_ms(words: Seq<char>) -> int {
    let wanted = 35 * if words.len() == 0 {
        1
    } else {
        words.len() as int
    };
    if wanted < 220 {
        220
    } else if wanted > 8000 {
        8000
    } else {
        wanted
    }
}

/// How many samples the tone that stands for a text has.
pub open spec fn tone_samples(words: Seq<char>, sample_rate_hz: u32) -> int {
    sample_rate_hz * tone_duration_ms(words) / 1000
}

/// A tone that stands for a text. `tone` gives the sample at an index out of so many.
pub fn synthesize_fake_audio<S, F: Fn(usize, usize) -> S>(
    words: &str,
    sample_rate_hz: u32,
    tone: F,
) -> (result: Result<LocalTtsAudio<S>, String>)
    requires
        sample_rate_hz * 8 <= usize::MAX,
        forall|index: usize, count: usize| #[trigger] call_requires(tone, (index, count)),
    ensures
        match result {
            Ok(audio) => {
                let count = tone_samples(words@, sample_rate_hz);
                &&& count > 0
                &&& audio.pcm_f32@.len() == count
                &&& forall|i: int|
                    0 <= i < count ==> call_ensures(
                        tone,
                        (i as usize, count as usize),
                        #[trigger] audio.pcm_f32@[i],
                    )
                &&& audio.sample_rate_hz == sample_rate_hz
                &&& audio.duration_ms == tone_duration_ms(words@)
            },
            Err(message) => tone_samples(words@, sample_rate_hz) == 0 && message@
                == "local tts generated an empty sample buffer"@,
        },
{
    let count: usize = words.unicode_len();
    let duration_ms: u64 = if count <= 6 {
        220
    } else if count >= 229 {
        8000
    } else {
        count as u64 * 35
    };
    proof {
        assert(duration_ms == tone_duration_ms(words@));
        assert(sample_rate_hz as int * duration_ms as int <= sample_rate_hz * 8000)
            by (nonlinear_arith)
            requires
                duration_ms <= 8000,
                sample_rate_hz >= 0,
        ;
        assert(sample_rate_hz as int * duration_ms as int >= 0) by (nonlinear_arith);
    }
    let samples: u64 = sample_rate_hz as u64 * duration_ms / 1000;
    proof {
        assert(samples == tone_samples(words@, sample_rate_hz));
        assert(samples <= sample_rate_hz * 8);
    }
    let sample_count: usize = samples as usize;
    if sample_count == 0 {
        return Err("local tts generated an empty sample buffer".to_owned());
    }
    let mut pcm: Vec<S> = Vec::new();
    let mut index: usize = 0;
    while index < sample_count
        invariant
            index <= sample_count,
            pcm@.len() == index,
            forall|at: usize, of: usize| #[trigger] call_requires(tone, (at, of)),
            forall|i: int|
                0 <= i < index ==> call_ensures(
                    tone,
                    (i as usize, sample_count),
                    #[trigger] pcm@[i],
                ),
        decreases sample_count - index,
    {
        pcm.push(tone(index, sample_count));
        index += 1;
    }
    Ok(LocalTtsAudio { pcm_f32: pcm, sample_rate_hz, duration_ms })
}

/// A runtime can be made exactly where it has workers, room to wait, a rate and a longest duration,
/// and, where it is to speak, a model that is a file; the first of these that is missing is told.
pub proof fn law_runtimes_need_what_they_work_with(
    spec: LocalTtsRuntimeSpec,
    model_is_file: bool,
)
    ensures
        ({
            let reason = spec_refusal(spec, model_is_file);
            let counted = spec.worker_count > 0 && spec.max_queue > 0 && spec.sample_rate_hz > 0
                && spec.max_duration_s > 0;
            &&& reason is None <==> counted && (spec.enabled ==> spec.model_path is Some
                && model_is_file)
            &&& spec.worker_count == 0 ==> reason == Some(
                "tts worker_count must be greater than zero"@,
            )
            &&& spec.worker_count > 0 && spec.max_queue == 0 ==> reason == Some(
                "tts max_queue must be greater than zero"@,
            )
            &&& spec.worker_count > 0 && spec.max_queue > 0 && spec.sample_rate_hz == 0 ==> reason
                == Some("tts sample_rate_hz must be greater than zero"@)
            &&& spec.worker_count > 0 && spec.max_queue > 0 && spec.sample_rate_hz > 0
                && spec.max_duration_s == 0 ==> reason == Some(
                "tts max_duration_s must be greater than zero"@,
            )
            &&& counted && spec.enabled && spec.model_path is None ==> reason == Some(
                "tts model_path is required when enabled"@,
            )
            &&& counted && spec.enabled && spec.model_path is Some && !model_is_file ==> reason
                == Some(
                "tts model_path must reference an existing file: "@ + spec.model_path->0@,
            )
        }),
{
}

/// Workers that all started on one provider agree on it.
pub proof fn law_equal_workers_agree(
    reports: Seq<WorkerStart>,
    selected: Option<TtsActualProvider>,
    provider: TtsActualProvider,
)
    requires
        reports.len() > 0,
        selected is None || selected == Some(provider),
        forall|i: int| 0 <= i < reports.len() ==> #[trigger] reports[i] == WorkerStart::Started(
            provider,
        ),
    ensures
        agreed_provider(selected, reports) == Ok::<Option<TtsActualProvider>, Seq<char>>(
            Some(provider),
        ),
    decreases reports.len(),
{
    let rest = reports.skip(1);
    assert(reports[0] == WorkerStart::Started(provider));
    if rest.len() > 0 {
        assert forall|i: int| 0 <= i < rest.len() implies #[trigger] rest[i]
            == WorkerStart::Started(provider) by {
            assert(rest[i] == reports[i + 1]);
        }
        law_equal_workers_agree(rest, Some(provider), provider);
    }
}

/// The first worker that did not start, or that started on another provider than those before it,
/// decides against the runtime, and says why.
pub proof fn law_one_worker_decides_against_the_runtime(
    reports: Seq<WorkerStart>,
    selected: Option<TtsActualProvider>,
    provider: TtsActualProvider,
    i: int,
)
    requires
        0 <= i < reports.len(),
        selected is None || selected == Some(provider),
        forall|j: int| 0 <= j < i ==> #[trigger] reports[j] == WorkerStart::Started(provider),
    ensures
        reports[i] is Lost ==> agreed_provider(selected, reports) == Err::<
            Option<TtsActualProvider>,
            Seq<char>,
        >("failed to initialize local tts worker runtime"@),
        reports[i] matches WorkerStart::Failed(error) ==> agreed_provider(selected, reports)
            == Err::<Option<TtsActualProvider>, Seq<char>>(error@),
        (i > 0 || selected is Some) ==> (reports[i] matches WorkerStart::Started(other) && other
            != provider ==> agreed_provider(selected, reports) == Err::<
            Option<TtsActualProvider>,
            Seq<char>,
        >("local tts workers selected inconsistent execution providers"@)),
    decreases i,
{
    if i > 0 {
        let rest = reports.skip(1);
        assert(reports[0] == WorkerStart::Started(provider));
        assert(rest[i - 1] == reports[i]);
        assert forall|j: int| 0 <= j < i - 1 implies #[trigger] rest[j] == WorkerStart::Started(
            provider,
        ) by {
            assert(rest[j] == reports[j + 1]);
        }
        law_one_worker_decides_against_the_runtime(rest, Some(provider), provider, i - 1);
    }
}

/// As many reports are judged as there are workers: those that came, in their order, and a lost
/// worker in the place of each that did not.
pub proof fn law_every_worker_is_judged(reports: Seq<WorkerStart>, count: nat, i: int)
    requires
        0 <= i < count,
    ensures
        awaited(reports, count).len() == count,
        i < reports.len() ==> awaited(reports, count)[i] == reports[i],
        i >= reports.len() ==> awaited(reports, count)[i] is Lost,
{
}

/// A text is spoken, without the white space around it, exactly where the runtime speaks and has
/// workers and the text says something in at most 4096 bytes; otherwise the first of these that is
/// missing is told.
pub proof fn law_texts_are_spoken_where_possible(runtime: LocalTtsRuntime, words: Seq<char>)
    ensures
        ({
            let job = runtime.job(words);
            let spoken = text::trimmed(words);
            let large = vstd::utf8::encode_utf8(spoken).len() > 4096;
            let blank = spoken.len() == 0;
            &&& runtime.enabled && runtime.available && !blank && !large <==> job is Ok
            &&& job is Ok ==> job->Ok_0 == spoken
            &&& !runtime.enabled ==> job == Err::<Seq<char>, Seq<char>>("tts is disabled"@)
            &&& runtime.enabled && blank ==> job == Err::<Seq<char>, Seq<char>>(
                "tts text must not be empty"@,
            )
            &&& runtime.enabled && !blank && large ==> job == Err::<Seq<char>, Seq<char>>(
                "tts text exceeds maximum of 4096 bytes"@,
            )
            &&& runtime.enabled && !blank && !large && !runtime.available ==> job == Err::<
                Seq<char>,
                Seq<char>,
            >("tts runtime is not available"@)
        }),
{
}

/// Sound is played exactly where it came, is not longer than allowed, and the runtime still
/// speaks; every other reply says why there is none.
pub proof fn law_sound_is_played_where_it_came<S>(
    runtime: LocalTtsRuntime,
    reply: SynthesisReply<S>,
)
    ensures
        ({
            let refusal = runtime.reply_refusal(reply);
            let came = reply matches SynthesisReply::Audio(audio) && audio.duration_ms
                <= runtime.max_duration_ms;
            &&& refusal is None <==> came && runtime.enabled
            &&& came && !runtime.enabled ==> refusal == Some("tts was disabled during synthesis"@)
            &&& reply is QueueFull ==> refusal == Some("local tts synthesis queue is full"@)
            &&& reply is QueueClosed ==> refusal == Some(
                "failed to enqueue local tts synthesis request"@,
            )
            &&& reply is TimedOut ==> refusal == Some("local tts synthesis timed out"@)
            &&& reply matches SynthesisReply::Failed(error) ==> refusal == Some(error@)
            &&& (reply matches SynthesisReply::Audio(audio) && audio.duration_ms
                > runtime.max_duration_ms) ==> refusal == Some(
                "tts synthesized duration "@ + text::decimal(
                    reply->Audio_0.duration_ms as nat,
                ) + "ms exceeds configured max "@ + text::decimal(runtime.max_duration_ms as nat)
                    + "ms"@,
            )
        }),
{
}

/// Seconds are a thousand milliseconds each, as far as there are so many; a tone lasts thirty-five
/// milliseconds for each character, and between 220 and 8000 in all.
pub proof fn law_durations_are_counted_in_milliseconds(number: u64, words: Seq<char>, rate: u32)
    ensures
        number <= 18446744073709551 ==> thousandfold(number) == 1000 * number,
        number > 18446744073709551 ==> thousandfold(number) == u64::MAX,
        7 <= words.len() <= 228 ==> tone_duration_ms(words) == 35 * words.len(),
        words.len() < 7 ==> tone_duration_ms(words) == 220,
        words.len() > 228 ==> tone_duration_ms(words) == 8000,
        1000 * tone_samples(words, rate) <= rate * tone_duration_ms(words) < 1000 * tone_samples(
            words,
            rate,
        ) + 1000,
{
}

/// Speech that is switched off is not started; speech that is switched on is the runtime that was
/// made, or the reason why there is none, its data being looked for first.
pub proof fn law_speech_starts_where_it_is_wanted(
    data: Result<(), Seq<char>>,
    started: Result<LocalTtsRuntime, Seq<char>>,
)
    ensures
        initialized(false, data, started) == Ok::<Option<LocalTtsRuntime>, Seq<char>>(None),
        data is Ok && started is Ok ==> initialized(true, data, started) == Ok::<
            Option<LocalTtsRuntime>,
            Seq<char>,
        >(Some(started->Ok_0)),
        data is Err ==> initialized(true, data, started) == Err::<
            Option<LocalTtsRuntime>,
            Seq<char>,
        >("failed to resolve strict eSpeak data root: "@ + data->Err_0),
        data is Ok && started is Err ==> initialized(true, data, started) == Err::<
            Option<LocalTtsRuntime>,
            Seq<char>,
        >("failed to initialize local tts runtime: "@ + started->Err_0),
{
}

/// Speech runs on what the policy asks for; where the machine is to choose, it runs on the graphics
/// card unless that failed, and then on the processor. What is reported is what it runs on, and an
/// error is that of the last attempt.
pub proof fn law_speech_runs_on_what_is_reported<T, F: FnMut(bool) -> Result<T, String>>(
    policy: TtsProviderPolicy,
    initialize: F,
    result: Result<(T, TtsActualProvider), String>,
)
    requires
        provider_selected(policy, initialize, result),
    ensures
        result matches Ok((runtime, provider)) ==> {
            &&& provider is Cuda ==> call_ensures(initialize, (true,), Ok::<T, String>(runtime))
            &&& provider is Cpu ==> call_ensures(initialize, (false,), Ok::<T, String>(runtime))
            &&& policy is Cpu ==> provider is Cpu
            &&& policy is Cuda ==> provider is Cuda
            &&& policy is Auto && provider is Cpu ==> exists|error: String|
                call_ensures(initialize, (true,), Err::<T, String>(error))
        },
        result matches Err(error) ==> {
            &&& policy is Cuda ==> call_ensures(initialize, (true,), Err::<T, String>(error))
            &&& !(policy is Cuda) ==> call_ensures(initialize, (false,), Err::<T, String>(error))
            &&& policy is Auto ==> exists|first: String|
                call_ensures(initialize, (true,), Err::<T, String>(first))
        },
{
}

/// How long the workers may take for speech that may last so long.
pub open spec fn patience(max_duration_ms: u64) -> int {
    if max_duration_ms + 30000 <= MAX_SYNTHESIS_WAIT_MS {
        max_duration_ms + 30000
    } else {
        MAX_SYNTHESIS_WAIT_MS as int
    }
}

/// Workers are given half a minute more than what they make may last, and never more than ten
/// minutes.
pub proof fn law_workers_are_waited_for(max_duration_ms: u64)
    ensures
        max_duration_ms <= 570000 ==> patience(max_duration_ms) == max_duration_ms + 30000,
        max_duration_ms >= 570000 ==> patience(max_duration_ms) == 600000,
{
}

} // verus!
