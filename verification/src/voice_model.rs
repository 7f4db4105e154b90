//! The voice model: its configuration, the tensors it has to have, and the token ids it is fed.

use crate::text;
use crate::text::{
    chars_of, concat2, concat3, decimal_text, is_white, same_text, text_of, trim,
};
use crate::tts;
use vstd::prelude::*;
use vstd::string::*;

verus! {

broadcast use vstd::string::group_string_axioms;

/// What a voice's configuration says, as far as it is read here. `inference_is_finite` says
/// whether all of its inference scales are finite numbers.
#[derive(Debug, Clone)]
pub struct PiperVoiceConfig {
    pub sample_rate: u32,
    pub voice: String,
    pub num_speakers: u32,
    pub phoneme_id_map: Vec<(char, Vec<i64>)>,
    pub inference_is_finite: bool,
}

/// Whether a map has at most one entry for each phoneme.
pub open spec fn unique_phonemes(map: Seq<(char, Vec<i64>)>) -> bool {
    forall|i: int, j: int|
        #![trigger map[i], map[j]]
        0 <= i < j < map.len() ==> map[i].0 != map[j].0
}

impl PiperVoiceConfig {
    /// The configuration has at most one entry for each phoneme.
    pub open spec fn well_formed(self) -> bool {
        unique_phonemes(self.phoneme_id_map@)
    }
}

/// How a voice model is called.
#[derive(Debug, Clone, PartialEq, Eq)]
pub struct PiperModelContract {
    pub has_speaker_input: bool,
    pub output_name: String,
}

/// The path of the configuration beside a model.
pub fn piper_model_config_path(model_path: &str) -> (path: String)
    ensures
        path@ == model_path@ + ".json"@,
{
    concat2(model_path, ".json")
}

/// The first one of some ids.
pub open spec fn head(ids: Seq<i64>) -> Option<i64> {
    if ids.len() > 0 {
        Some(ids[0])
    } else {
        None
    }
}

/// The first id that a map gives a phoneme: the first one of the first entry for it.
pub open spec fn first_id(map: Seq<(char, Vec<i64>)>, phoneme: char) -> Option<i64>
    decreases map.len(),
{
    if map.len() == 0 {
        None
    } else if map[0].0 == phoneme {
        head(map[0].1@)
    } else {
        first_id(map.skip(1), phoneme)
    }
}

/// The first id that a map gives a phoneme.
pub fn phoneme_id(map: &Vec<(char, Vec<i64>)>, phoneme: char) -> (id: Option<i64>)
    ensures
        id == first_id(map@, phoneme),
{
    let mut i: usize = 0;
    proof {
        assert(map@.skip(0) == map@);
    }
    while i < map.len()
        invariant
            i <= map.len(),
            first_id(map@.skip(i as int), phoneme) == first_id(map@, phoneme),
        decreases map.len() - i,
    {
        proof {
            assert(map@.skip(i as int)[0] == map@[i as int]);
            assert(map@.skip(i as int).skip(1) == map@.skip(i + 1));
        }
        if map[i].0 == phoneme {
            if map[i].1.len() > 0 {
                return Some(map[i].1[0]);
            }
            return None;
        }
        i += 1;
    }
    None
}

/// The message for a configuration whose map lacks a phoneme that every voice needs.
pub open spec fn missing_phoneme(phoneme: Seq<char>) -> Seq<char> {
    "local tts model config is invalid: phoneme_id_map must include `"@ + phoneme + "`"@
}

/// Why a voice's configuration cannot be used, where it cannot.
pub open spec fn config_refusal(config: PiperVoiceConfig) -> Option<Seq<char>> {
    if config.sample_rate == 0 {
        Some("local tts model config is invalid: audio.sample_rate must be greater than zero"@)
    } else if text::trimmed(config.voice@).len() == 0 {
        Some("local tts model config is invalid: espeak.voice must not be empty"@)
    } else if config.phoneme_id_map@.len() == 0 {
        Some("local tts model config is invalid: phoneme_id_map must not be empty"@)
    } else if first_id(config.phoneme_id_map@, '^') is None {
        Some(missing_phoneme("^"@))
    } else if first_id(config.phoneme_id_map@, '$') is None {
        Some(missing_phoneme("$"@))
    } else if first_id(config.phoneme_id_map@, '_') is None {
        Some(missing_phoneme("_"@))
    } else if !config.inference_is_finite {
        Some("local tts model config is invalid: inference values must be finite numbers"@)
    } else {
        None
    }
}

fn missing_phoneme_message(phoneme: &str) -> (message: String)
    ensures
        message@ == missing_phoneme(phoneme@),
{
    concat3("local tts model config is invalid: phoneme_id_map must include `", phoneme, "`")
}

/// Accepts a configuration that can be used.
pub fn validate_piper_voice_config(config: &PiperVoiceConfig) -> (result: Result<(), String>)
    ensures
        match result {
            Ok(_) => config_refusal(*config) is None,
            Err(message) => config_refusal(*config) == Some(message@),
        },
{
    if config.sample_rate == 0 {
        return Err(
            "local tts model config is invalid: audio.sample_rate must be greater than zero".to_owned(),
        );
    }
    if trim(config.voice.as_str()).is_empty() {
        return Err(
            "local tts model config is invalid: espeak.voice must not be empty".to_owned(),
        );
    }
    if config.phoneme_id_map.len() == 0 {
        return Err(
            "local tts model config is invalid: phoneme_id_map must not be empty".to_owned(),
        );
    }
    if phoneme_id(&config.phoneme_id_map, '^').is_none() {
        return Err(missing_phoneme_message("^"));
    }
    if phoneme_id(&config.phoneme_id_map, '$').is_none() {
        return Err(missing_phoneme_message("$"));
    }
    if phoneme_id(&config.phoneme_id_map, '_').is_none() {
        return Err(missing_phoneme_message("_"));
    }
    if !config.inference_is_finite {
        return Err(
            "local tts model config is invalid: inference values must be finite numbers".to_owned(),
        );
    }
    Ok(())
}

/// Whether a configuration has the sample rate that is asked for.
pub open spec fn rate_admission(configured: u32, asked: u32) -> Result<(), Seq<char>> {
    if configured == asked {
        Ok(())
    } else {
        Err(
            "tts sample_rate_hz "@ + text::decimal(asked as nat)
                + " does not match Piper model config sample rate "@ + text::decimal(
                configured as nat,
            ),
        )
    }
}

/// Accepts a configuration whose sample rate is the one that is asked for.
pub fn ensure_sample_rate(config: &PiperVoiceConfig, sample_rate_hz: u32) -> (result: Result<
    (),
    String,
>)
    ensures
        text::outcome(result) == rate_admission(config.sample_rate, sample_rate_hz),
{
    if config.sample_rate != sample_rate_hz {
        let mut message = concat3(
            "tts sample_rate_hz ",
            decimal_text(sample_rate_hz as u128).as_str(),
            " does not match Piper model config sample rate ",
        );
        message.append(decimal_text(config.sample_rate as u128).as_str());
        return Err(message);
    }
    Ok(())
}

/// Whether an output has one of the names under which models give their audio.
pub open spec fn recognized_name(name: Seq<char>) -> bool {
    name == "audio"@ || name == "waveform"@ || name == "wav"@ || name == "output"@
}

fn is_recognized_name(name: &str) -> (result: bool)
    ensures
        result == recognized_name(name@),
{
    same_text(name, "audio") || same_text(name, "waveform") || same_text(name, "wav") || same_text(
        name,
        "output",
    )
}

/// The position of the first output at or after `from` that is not scalar and, where `named`, has
/// a recognised name; the number of outputs where there is none.
pub open spec fn next_output(outputs: Seq<(&str, bool)>, from: int, named: bool) -> int
    decreases outputs.len() - from,
{
    if from < 0 || from >= outputs.len() {
        outputs.len() as int
    } else if outputs[from].1 && (!named || recognized_name(outputs[from].0@)) {
        from
    } else {
        next_output(outputs, from + 1, named)
    }
}

/// The output that holds the audio: the first one with a recognised name, or else the only one
/// that is not scalar.
pub open spec fn audio_output(outputs: Seq<(&str, bool)>) -> Result<int, Seq<char>> {
    let named = next_output(outputs, 0, true);
    let first = next_output(outputs, 0, false);
    if named < outputs.len() {
        Ok(named)
    } else if first >= outputs.len() {
        Err(
            "local tts model contract is unsupported: expected a non-scalar audio output tensor"@,
        )
    } else if next_output(outputs, first + 1, false) < outputs.len() {
        Err(
            "local tts model contract is unsupported: ambiguous unnamed non-scalar audio outputs"@,
        )
    } else {
        Ok(first)
    }
}

fn find_output(outputs: &[(&str, bool)], from: usize, named: bool) -> (index: usize)
    requires
        from <= outputs.len(),
    ensures
        index == next_output(outputs@, from as int, named),
        from <= index <= outputs.len(),
{
    let mut i: usize = from;
    while i < outputs.len()
        invariant
            from <= i <= outputs.len(),
            next_output(outputs@, i as int, named) == next_output(outputs@, from as int, named),
        decreases outputs.len() - i,
    {
        if outputs[i].1 && (!named || is_recognized_name(outputs[i].0)) {
            return i;
        }
        i += 1;
    }
    i
}

/// The name of the output that holds the audio. Each output is given by its name and whether it
/// is not scalar.
pub fn select_piper_audio_output<'a>(outputs: &[(&'a str, bool)]) -> (result: Result<
    &'a str,
    String,
>)
    ensures
        match result {
            Ok(name) => {
                &&& audio_output(outputs@) is Ok
                &&& 0 <= audio_output(outputs@)->Ok_0 < outputs@.len()
                &&& name@ == outputs@[audio_output(outputs@)->Ok_0].0@
            },
            Err(message) => audio_output(outputs@) == Err::<int, Seq<char>>(message@),
        },
{
    let named: usize = find_output(outputs, 0, true);
    if named < outputs.len() {
        return Ok(outputs[named].0);
    }
    let first: usize = find_output(outputs, 0, false);
    if first >= outputs.len() {
        return Err(
            "local tts model contract is unsupported: expected a non-scalar audio output tensor".to_owned(),
        );
    }
    if find_output(outputs, first + 1, false) < outputs.len() {
        return Err(
            "local tts model contract is unsupported: ambiguous unnamed non-scalar audio outputs".to_owned(),
        );
    }
    Ok(outputs[first].0)
}

/// Why an input cannot be fed, where it cannot; an input is given by its name and, where it is a
/// tensor, its number of dimensions.
pub open spec fn input_refusal(input: (&str, Option<usize>)) -> Option<Seq<char>> {
    match input.1 {
        None => Some(
            "local tts model contract is unsupported: input `"@ + input.0@ + "` is not a tensor"@,
        ),
        Some(rank) => if rank == 0 {
            Some(
                "local tts model contract is unsupported: input `"@ + input.0@
                    + "` must not be scalar"@,
            )
        } else {
            None
        },
    }
}

/// Why one of `inputs` cannot be fed: the reason of the first one that cannot.
pub open spec fn inputs_refusal(inputs: Seq<(&str, Option<usize>)>) -> Option<Seq<char>>
    decreases inputs.len(),
{
    if inputs.len() == 0 {
        None
    } else if input_refusal(inputs[0]) is Some {
        input_refusal(inputs[0])
    } else {
        inputs_refusal(inputs.skip(1))
    }
}

/// How a model with these inputs and outputs is called, or why it is not.
pub open spec fn model_contract(
    inputs: Seq<(&str, Option<usize>)>,
    outputs: Seq<(&str, bool)>,
    num_speakers: u32,
) -> Result<(bool, int), Seq<char>> {
    if inputs.len() != 3 && inputs.len() != 4 {
        Err(
            "local tts model contract is unsupported: expected 3 or 4 input tensors for Piper model, got "@
                + text::decimal(inputs.len()),
        )
    } else if inputs_refusal(inputs) is Some {
        Err(inputs_refusal(inputs)->0)
    } else if num_speakers > 1 && inputs.len() != 4 {
        Err(
            "local tts model contract is unsupported: multi-speaker config requires 4 model inputs"@,
        )
    } else if num_speakers <= 1 && inputs.len() == 4 {
        Err(
            "local tts model contract is unsupported: single-speaker config does not expect speaker input"@,
        )
    } else {
        match audio_output(outputs) {
            Ok(output) => Ok((inputs.len() == 4, output)),
            Err(message) => Err(message),
        }
    }
}

/// How a model is called, given its inputs with their numbers of dimensions and its outputs.
pub fn resolve_piper_model_contract(
    inputs: &[(&str, Option<usize>)],
    outputs: &[(&str, bool)],
    num_speakers: u32,
) -> (result: Result<PiperModelContract, String>)
    ensures
        match result {
            Ok(contract) => {
                let expected = model_contract(inputs@, outputs@, num_speakers);
                &&& expected is Ok
                &&& contract.has_speaker_input == expected->Ok_0.0
                &&& contract.output_name@ == outputs@[expected->Ok_0.1].0@
            },
            Err(message) => model_contract(inputs@, outputs@, num_speakers) == Err::<
                (bool, int),
                Seq<char>,
            >(message@),
        },
{
    let count: usize = inputs.len();
    if count != 3 && count != 4 {
        return Err(
            concat2(
                "local tts model contract is unsupported: expected 3 or 4 input tensors for Piper model, got ",
                decimal_text(count as u128).as_str(),
            ),
        );
    }
    let mut i: usize = 0;
    proof {
        assert(inputs@.skip(0) == inputs@);
    }
    while i < inputs.len()
        invariant
            i <= inputs.len(),
            inputs_refusal(inputs@.skip(i as int)) == inputs_refusal(inputs@),
            inputs@.len() == 3 || inputs@.len() == 4,
        decreases inputs.len() - i,
    {
        proof {
            assert(inputs@.skip(i as int)[0] == inputs@[i as int]);
            assert(inputs@.skip(i as int).skip(1) == inputs@.skip(i + 1));
        }
        match inputs[i].1 {
            None => {
                return Err(
                    concat3(
                        "local tts model contract is unsupported: input `",
                        inputs[i].0,
                        "` is not a tensor",
                    ),
                );
            },
            Some(rank) => {
                if rank == 0 {
                    return Err(
                        concat3(
                            "local tts model contract is unsupported: input `",
                            inputs[i].0,
                            "` must not be scalar",
                        ),
                    );
                }
            },
        }
        i += 1;
    }
    let has_speaker_input = count == 4;
    if num_speakers > 1 && !has_speaker_input {
        return Err(
            "local tts model contract is unsupported: multi-speaker config requires 4 model inputs".to_owned(),
        );
    }
    if num_speakers <= 1 && has_speaker_input {
        return Err(
            "local tts model contract is unsupported: single-speaker config does not expect speaker input".to_owned(),
        );
    }
    match select_piper_audio_output(outputs) {
        Ok(name) => Ok(PiperModelContract { has_speaker_input, output_name: name.to_owned() }),
        Err(message) => Err(message),
    }
}

/// The speaker that a model is asked for.
pub open spec fn asked_speaker(num_speakers: u32, named: Option<i64>) -> i64 {
    if num_speakers > 0 && named is Some {
        named->0
    } else {
        0
    }
}

/// The speaker that a model with several speakers is asked for: one of those that it names, or
/// the first one.
pub fn speaker_id(num_speakers: u32, named: Option<i64>) -> (id: i64)
    ensures
        id == asked_speaker(num_speakers, named),
{
    match named {
        Some(id) => if num_speakers > 0 {
            id
        } else {
            0
        },
        None => 0,
    }
}

/// A text with one space in place of each run of white space between words, and none at the ends.
pub open spec fn squeezed(words: Seq<char>) -> Seq<char>
    decreases words.len(),
{
    if words.len() == 0 {
        seq![]
    } else {
        let before = squeezed(words.drop_last());
        if text::white(words.last()) {
            before
        } else if before.len() > 0 && text::white(words[words.len() - 2]) {
            before.push(' ').push(words.last())
        } else {
            before.push(words.last())
        }
    }
}

/// The text to be turned into phonemes, or why there is none.
pub open spec fn speakable(words: Seq<char>) -> Result<Seq<char>, Seq<char>> {
    if squeezed(words).len() == 0 {
        Err("tts text must not be empty"@)
    } else {
        Ok(squeezed(words))
    }
}

/// The text to be turned into phonemes: one space between words, and at least one word.
pub fn normalize_tts_text(words: &str) -> (result: Result<String, String>)
    ensures
        text::text_outcome(result) == speakable(words@),
{
    let chars = chars_of(words);
    let mut normalized: Vec<char> = Vec::new();
    let mut i: usize = 0;
    while i < chars.len()
        invariant
            chars@ == words@,
            i <= chars.len(),
            normalized@ == squeezed(words@.take(i as int)),
        decreases chars.len() - i,
    {
        proof {
            assert(words@.take(i + 1).drop_last() == words@.take(i as int));
        }
        if !is_white(chars[i]) {
            if normalized.len() > 0 && i > 0 && is_white(chars[i - 1]) {
                normalized.push(' ');
            }
            normalized.push(chars[i]);
        }
        i += 1;
    }
    proof {
        assert(words@.take(words@.len() as int) == words@);
    }
    if normalized.len() == 0 {
        return Err("tts text must not be empty".to_owned());
    }
    Ok(text_of(normalized.as_slice()))
}

/// Texts with one space between each two.
pub open spec fn spaced(parts: Seq<String>) -> Seq<char>
    decreases parts.len(),
{
    if parts.len() == 0 {
        seq![]
    } else if parts.len() == 1 {
        parts[0]@
    } else {
        spaced(parts.drop_last()) + " "@ + parts.last()@
    }
}

/// Texts with one space between each two.
fn join_spaced(parts: &Vec<String>) -> (joined: String)
    ensures
        joined@ == spaced(parts@),
{
    let mut joined = String::new();
    let mut i: usize = 0;
    while i < parts.len()
        invariant
            i <= parts.len(),
            joined@ == spaced(parts@.take(i as int)),
        decreases parts.len() - i,
    {
        proof {
            let grown = parts@.take(i + 1);
            assert(grown.drop_last() == parts@.take(i as int));
            assert(grown.last() == parts@[i as int]);
            assert(Seq::<char>::empty() + parts@[i as int]@ == parts@[i as int]@);
        }
        if i > 0 {
            joined.append(" ");
        }
        joined.append(parts[i].as_str());
        i += 1;
    }
    proof {
        assert(parts@.take(parts@.len() as int) == parts@);
    }
    joined
}

/// The ids of phonemes that the map knows, each followed by the padding id.
pub open spec fn padded_ids(
    map: Seq<(char, Vec<i64>)>,
    pad: i64,
    phonemes: Seq<char>,
) -> Seq<i64>
    decreases phonemes.len(),
{
    if phonemes.len() == 0 {
        seq![]
    } else {
        let before = padded_ids(map, pad, phonemes.drop_last());
        match first_id(map, phonemes.last()) {
            Some(id) => before.push(id).push(pad),
            None => before,
        }
    }
}

/// The message for a map that lacks the id of a mark.
pub open spec fn missing_mapping(mark: Seq<char>) -> Seq<char> {
    "local tts model config is invalid: missing `"@ + mark + "` phoneme mapping"@
}

/// The token ids for phonemes: the beginning mark, the padded ids and the end mark.
pub open spec fn token_ids(map: Seq<(char, Vec<i64>)>, phonemes: Seq<char>) -> Result<
    Seq<i64>,
    Seq<char>,
> {
    if text::trimmed(phonemes).len() == 0 {
        Err("local tts phonemization produced no tokens"@)
    } else if first_id(map, '_') is None {
        Err(missing_mapping("_"@))
    } else if first_id(map, '^') is None {
        Err(missing_mapping("^"@))
    } else if first_id(map, '$') is None {
        Err(missing_mapping("$"@))
    } else {
        let body = padded_ids(map, first_id(map, '_')->0, phonemes);
        if body.len() == 0 {
            Err("local tts phoneme map produced no model token ids"@)
        } else {
            Ok(seq![first_id(map, '^')->0] + body + seq![first_id(map, '$')->0])
        }
    }
}

fn missing_mapping_message(mark: &str) -> (message: String)
    ensures
        message@ == missing_mapping(mark@),
{
    concat3("local tts model config is invalid: missing `", mark, "` phoneme mapping")
}

/// The token ids for the phonemes of a text, which come in parts.
pub fn phoneme_token_ids(parts: &Vec<String>, config: &PiperVoiceConfig) -> (result: Result<
    Vec<i64>,
    String,
>)
    ensures
        match result {
            Ok(ids) => token_ids(config.phoneme_id_map@, spaced(parts@)) == Ok::<
                Seq<i64>,
                Seq<char>,
            >(ids@),
            Err(message) => token_ids(config.phoneme_id_map@, spaced(parts@)) == Err::<
                Seq<i64>,
                Seq<char>,
            >(message@),
        },
{
    let phonemes = join_spaced(parts);
    if trim(phonemes.as_str()).is_empty() {
        return Err("local tts phonemization produced no tokens".to_owned());
    }
    let pad: i64 = match phoneme_id(&config.phoneme_id_map, '_') {
        Some(id) => id,
        None => {
            return Err(missing_mapping_message("_"));
        },
    };
    let beginning: i64 = match phoneme_id(&config.phoneme_id_map, '^') {
        Some(id) => id,
        None => {
            return Err(missing_mapping_message("^"));
        },
    };
    let end: i64 = match phoneme_id(&config.phoneme_id_map, '$') {
        Some(id) => id,
        None => {
            return Err(missing_mapping_message("$"));
        },
    };
    let chars = chars_of(phonemes.as_str());
    let mut ids: Vec<i64> = Vec::new();
    ids.push(beginning);
    let mut i: usize = 0;
    while i < chars.len()
        invariant
            i <= chars.len(),
            chars@ == phonemes@,
            ids@ == seq![beginning] + padded_ids(
                config.phoneme_id_map@,
                pad,
                phonemes@.take(i as int),
            ),
        decreases chars.len() - i,
    {
        proof {
            assert(phonemes@.take(i + 1).drop_last() == phonemes@.take(i as int));
        }
        if let Some(id) = phoneme_id(&config.phoneme_id_map, chars[i]) {
            ids.push(id);
            ids.push(pad);
        }
        i += 1;
    }
    proof {
        assert(phonemes@.take(phonemes@.len() as int) == phonemes@);
    }
    ids.push(end);
    proof {
        let body = padded_ids(config.phoneme_id_map@, pad, phonemes@);
        assert(ids@ == seq![beginning] + body + seq![end]);
    }
    if ids.len() <= 2 {
        return Err("local tts phoneme map produced no model token ids".to_owned());
    }
    Ok(ids)
}

/// How long audio of so many samples lasts, in milliseconds.
pub open spec fn lasting(sample_count: u64, sample_rate_hz: u64) -> Result<u64, Seq<char>> {
    if sample_count == 0 {
        Err("local tts model produced an empty audio buffer"@)
    } else {
        let duration = tts::thousandfold(sample_count) / sample_rate_hz;
        Ok(
            if duration == 0 {
                1u64
            } else {
                duration
            },
        )
    }
}

/// How long audio of so many samples lasts, in milliseconds and at least one; a model that gave
/// no samples is refused.
pub fn audio_duration_ms(sample_count: usize, sample_rate_hz: u32) -> (result: Result<u64, String>)
    requires
        sample_rate_hz > 0,
    ensures
        text::outcome(result) == lasting(sample_count as u64, sample_rate_hz as u64),
{
    if sample_count == 0 {
        return Err("local tts model produced an empty audio buffer".to_owned());
    }
    let duration: u64 = tts::times_thousand(sample_count as u64) / (sample_rate_hz as u64);
    Ok(
        if duration == 0 {
            1u64
        } else {
            duration
        },
    )
}

/// The libraries that speech on the graphics card needs beside the executable.
pub open spec fn cuda_runtime_dlls() -> Seq<Seq<char>> {
    seq![
        "cublasLt64_12.dll"@,
        "cublas64_12.dll"@,
        "cufft64_11.dll"@,
        "cudart64_12.dll"@,
        "cudnn64_9.dll"@,
        "cudnn_adv64_9.dll"@,
        "cudnn_cnn64_9.dll"@,
        "cudnn_engines_precompiled64_9.dll"@,
        "cudnn_engines_runtime_compiled64_9.dll"@,
        "cudnn_graph64_9.dll"@,
        "cudnn_heuristic64_9.dll"@,
        "cudnn_ops64_9.dll"@,
        "onnxruntime_providers_cuda.dll"@,
        "onnxruntime_providers_shared.dll"@,
    ]
}

/// The libraries that speech on the graphics card needs beside the executable.
pub fn tts_cuda_runtime_dlls() -> (names: Vec<&'static str>)
    ensures
        text::texts(names@) == cuda_runtime_dlls(),
{
    let names: Vec<&'static str> = vec![
        "cublasLt64_12.dll",
        "cublas64_12.dll",
        "cufft64_11.dll",
        "cudart64_12.dll",
        "cudnn64_9.dll",
        "cudnn_adv64_9.dll",
        "cudnn_cnn64_9.dll",
        "cudnn_engines_precompiled64_9.dll",
        "cudnn_engines_runtime_compiled64_9.dll",
        "cudnn_graph64_9.dll",
        "cudnn_heuristic64_9.dll",
        "cudnn_ops64_9.dll",
        "onnxruntime_providers_cuda.dll",
        "onnxruntime_providers_shared.dll",
    ];
    proof {
        assert(text::texts(names@) =~= cuda_runtime_dlls());
    }
    names
}

/// Whether a name is among the files that were found.
pub open spec fn found(files: Seq<String>, name: Seq<char>) -> bool {
    exists|i: int| 0 <= i < files.len() && (#[trigger] files[i])@ == name
}

/// Those of `names` that were not found, with a comma and a space between each two.
pub open spec fn missing_list(files: Seq<String>, names: Seq<Seq<char>>) -> Seq<char>
    decreases names.len(),
{
    if names.len() == 0 {
        seq![]
    } else {
        let before = missing_list(files, names.drop_last());
        if found(files, names.last()) {
            before
        } else if all_found(files, names.drop_last()) {
            names.last()
        } else {
            before + ", "@ + names.last()
        }
    }
}

/// Whether all of `names` were found.
pub open spec fn all_found(files: Seq<String>, names: Seq<Seq<char>>) -> bool {
    forall|i: int| 0 <= i < names.len() ==> found(files, #[trigger] names[i])
}

fn is_found(files: &Vec<String>, name: &str) -> (result: bool)
    ensures
        result == found(files@, name@),
{
    let mut i: usize = 0;
    while i < files.len()
        invariant
            i <= files.len(),
            forall|j: int| 0 <= j < i ==> (#[trigger] files@[j])@ != name@,
        decreases files.len() - i,
    {
        if same_text(files[i].as_str(), name) {
            proof {
                assert(files@[i as int]@ == name@);
            }
            return true;
        }
        i += 1;
    }
    false
}

/// Whether a directory holds every library that speech on the graphics card needs.
pub open spec fn libraries_admission(directory: Seq<char>, files: Seq<String>) -> Result<
    (),
    Seq<char>,
> {
    if all_found(files, cuda_runtime_dlls()) {
        Ok(())
    } else {
        Err(
            "local tts CUDA runtime DLLs are missing beside the current executable in "@ + directory
                + ": "@ + missing_list(files, cuda_runtime_dlls())
                + ". Copy the missing DLLs into that directory before starting VoxGolem."@,
        )
    }
}

/// Accepts a directory that holds every library that speech on the graphics card needs, given the
/// names of the files in it; the others are named in the message.
pub fn verify_tts_cuda_runtime_dlls_in_dir(executable_dir: &str, files: &Vec<String>) -> (result:
    Result<(), String>)
    ensures
        text::outcome(result) == libraries_admission(executable_dir@, files@),
{
    let names = tts_cuda_runtime_dlls();
    let ghost all = cuda_runtime_dlls();
    let mut missing = String::new();
    let mut complete = true;
    let mut i: usize = 0;
    proof {
        assert(all.take(0) == Seq::<Seq<char>>::empty());
    }
    while i < names.len()
        invariant
            i <= names.len(),
            all == text::texts(names@),
            complete == all_found(files@, all.take(i as int)),
            missing@ == missing_list(files@, all.take(i as int)),
            complete ==> missing@.len() == 0,
        decreases names.len() - i,
    {
        let ghost grown = all.take(i + 1);
        proof {
            assert(grown.drop_last() == all.take(i as int));
            assert(grown.last() == names@[i as int]@);
        }
        let present = is_found(files, names[i]);
        proof {
            assert(all_found(files@, grown) == (complete && present)) by {
                assert forall|j: int| 0 <= j < i implies all.take(i as int)[j] == grown[j] by {}
                if complete && present {
                    assert forall|j: int| 0 <= j < grown.len() implies found(
                        files@,
                        #[trigger] grown[j],
                    ) by {
                        if j < i {
                            assert(found(files@, all.take(i as int)[j]));
                        }
                    }
                } else if !present {
                    assert(!found(files@, grown[i as int]));
                } else {
                    let j = choose|j: int|
                        0 <= j < i && !found(files@, #[trigger] all.take(i as int)[j]);
                    assert(!found(files@, grown[j]));
                }
            }
        }
        if !present {
            if !complete {
                missing.append(", ");
            }
            missing.append(names[i]);
            complete = false;
            proof {
                assert(Seq::<char>::empty() + names@[i as int]@ == names@[i as int]@);
            }
        }
        i += 1;
    }
    proof {
        assert(all.take(names@.len() as int) == all);
    }
    if complete {
        return Ok(());
    }
    let mut message = concat3(
        "local tts CUDA runtime DLLs are missing beside the current executable in ",
        executable_dir,
        ": ",
    );
    message.append(missing.as_str());
    message.append(". Copy the missing DLLs into that directory before starting VoxGolem.");
    Err(message)
}

/// The directory from which phoneme data is read, or what is missing.
pub open spec fn data_directory(
    root: Seq<char>,
    root_is_dir: bool,
    data: Seq<char>,
    data_is_dir: bool,
) -> Result<Seq<char>, Seq<char>> {
    if !root_is_dir {
        Err("strict eSpeak directory is missing: "@ + root)
    } else if !data_is_dir {
        Err("strict eSpeak data directory is missing: "@ + data)
    } else {
        Ok(root)
    }
}

/// The directory from which phoneme data is read, where both it and the data in it exist.
pub fn strict_windows_espeak_data_directory_from_appdata(
    tts_root: &str,
    tts_root_is_dir: bool,
    espeak_data_dir: &str,
    espeak_data_is_dir: bool,
) -> (result: Result<String, String>)
    ensures
        text::text_outcome(result) == data_directory(
            tts_root@,
            tts_root_is_dir,
            espeak_data_dir@,
            espeak_data_is_dir,
        ),
{
    if !tts_root_is_dir {
        return Err(concat2("strict eSpeak directory is missing: ", tts_root));
    }
    if !espeak_data_is_dir {
        return Err(concat2("strict eSpeak data directory is missing: ", espeak_data_dir));
    }
    Ok(tts_root.to_owned())
}

/// The entries of a map, whatever their order.
pub open spec fn entries(map: Seq<(char, Vec<i64>)>) -> Set<(char, Seq<i64>)> {
    map.map_values(|entry: (char, Vec<i64>)| (entry.0, entry.1@)).to_set()
}

/// In a configuration with at most one entry for each phoneme, the id that is found for a phoneme
/// is that of the only entry for it.
pub proof fn law_found_ids_are_the_only_ones(config: PiperVoiceConfig, i: int)
    requires
        config.well_formed(),
        0 <= i < config.phoneme_id_map@.len(),
    ensures
        first_id(config.phoneme_id_map@, config.phoneme_id_map@[i].0) == head(
            config.phoneme_id_map@[i].1@,
        ),
        forall|j: int|
            0 <= j < config.phoneme_id_map@.len() && (#[trigger] config.phoneme_id_map@[j]).0
                == config.phoneme_id_map@[i].0 ==> j == i,
{
    lemma_first_id_at(config.phoneme_id_map@, i);
}

proof fn lemma_first_id_at(map: Seq<(char, Vec<i64>)>, i: int)
    requires
        unique_phonemes(map),
        0 <= i < map.len(),
    ensures
        first_id(map, map[i].0) == head(map[i].1@),
    decreases i,
{
    if i > 0 {
        let rest = map.skip(1);
        assert(map[0].0 != map[i].0);
        assert(rest[i - 1] == map[i]);
        assert forall|j: int, k: int|
            #![trigger rest[j], rest[k]]
            0 <= j < k < rest.len() implies rest[j].0 != rest[k].0 by {
            assert(map[j + 1].0 != map[k + 1].0);
        }
        lemma_first_id_at(rest, i - 1);
    }
}

proof fn lemma_first_id_without_entry(map: Seq<(char, Vec<i64>)>, phoneme: char)
    requires
        forall|i: int| 0 <= i < map.len() ==> (#[trigger] map[i]).0 != phoneme,
    ensures
        first_id(map, phoneme) is None,
    decreases map.len(),
{
    if map.len() > 0 {
        assert(map[0].0 != phoneme);
        lemma_first_id_without_entry(map.skip(1), phoneme);
    }
}

proof fn lemma_same_first_id(
    one: Seq<(char, Vec<i64>)>,
    other: Seq<(char, Vec<i64>)>,
    phoneme: char,
)
    requires
        unique_phonemes(one),
        unique_phonemes(other),
        entries(one) == entries(other),
    ensures
        first_id(one, phoneme) == first_id(other, phoneme),
{
    let views = |entry: (char, Vec<i64>)| (entry.0, entry.1@);
    if exists|i: int| 0 <= i < one.len() && (#[trigger] one[i]).0 == phoneme {
        let i = choose|i: int| 0 <= i < one.len() && (#[trigger] one[i]).0 == phoneme;
        assert(one.map_values(views)[i] == (phoneme, one[i].1@));
        assert(entries(one).contains((phoneme, one[i].1@)));
        let j = choose|j: int|
            0 <= j < other.len() && other.map_values(views)[j] == (phoneme, one[i].1@);
        assert(other.map_values(views)[j] == (other[j].0, other[j].1@));
        lemma_first_id_at(one, i);
        lemma_first_id_at(other, j);
    } else {
        assert forall|j: int| 0 <= j < other.len() implies (#[trigger] other[j]).0 != phoneme by {
            if other[j].0 == phoneme {
                assert(other.map_values(views)[j] == (phoneme, other[j].1@));
                assert(entries(other).contains((phoneme, other[j].1@)));
                let i = choose|i: int|
                    0 <= i < one.len() && one.map_values(views)[i] == (phoneme, other[j].1@);
                assert(one.map_values(views)[i] == (one[i].0, one[i].1@));
            }
        }
        lemma_first_id_without_entry(one, phoneme);
        lemma_first_id_without_entry(other, phoneme);
    }
}

/// The order in which the entries of a configuration are listed does not matter: the same ones
/// give the same token ids.
pub proof fn law_entries_may_stand_in_any_order(
    one: PiperVoiceConfig,
    other: PiperVoiceConfig,
    phonemes: Seq<char>,
)
    requires
        one.well_formed(),
        other.well_formed(),
        entries(one.phoneme_id_map@) == entries(other.phoneme_id_map@),
    ensures
        token_ids(one.phoneme_id_map@, phonemes) == token_ids(other.phoneme_id_map@, phonemes),
{
    let map = one.phoneme_id_map@;
    let listed = other.phoneme_id_map@;
    lemma_same_first_id(map, listed, '_');
    lemma_same_first_id(map, listed, '^');
    lemma_same_first_id(map, listed, '$');
    lemma_same_padded_ids(map, listed, first_id(map, '_')->0, phonemes);
}

proof fn lemma_same_padded_ids(
    one: Seq<(char, Vec<i64>)>,
    other: Seq<(char, Vec<i64>)>,
    pad: i64,
    phonemes: Seq<char>,
)
    requires
        unique_phonemes(one),
        unique_phonemes(other),
        entries(one) == entries(other),
    ensures
        padded_ids(one, pad, phonemes) == padded_ids(other, pad, phonemes),
    decreases phonemes.len(),
{
    if phonemes.len() > 0 {
        lemma_same_padded_ids(one, other, pad, phonemes.drop_last());
        lemma_same_first_id(one, other, phonemes.last());
    }
}

/// What is fed to a model begins and ends with the marks of the beginning and the end, holds at
/// least one phoneme, and has an even number of ids: every phoneme is followed by padding.
pub proof fn law_token_ids_are_framed_and_padded(
    map: Seq<(char, Vec<i64>)>,
    phonemes: Seq<char>,
)
    requires
        token_ids(map, phonemes) is Ok,
    ensures
        token_ids(map, phonemes)->Ok_0.len() >= 4,
        token_ids(map, phonemes)->Ok_0.len() % 2 == 0,
        Some(token_ids(map, phonemes)->Ok_0[0]) == first_id(map, '^'),
        Some(token_ids(map, phonemes)->Ok_0.last()) == first_id(map, '$'),
        forall|i: int|
            2 <= i < token_ids(map, phonemes)->Ok_0.len() - 1 && i % 2 == 0 ==> Some(
                #[trigger] token_ids(map, phonemes)->Ok_0[i],
            ) == first_id(map, '_'),
{
    let pad = first_id(map, '_')->0;
    let body = padded_ids(map, pad, phonemes);
    lemma_padded_ids(map, pad, phonemes);
    let ids = token_ids(map, phonemes)->Ok_0;
    assert forall|i: int| 2 <= i < ids.len() - 1 && i % 2 == 0 implies Some(#[trigger] ids[i])
        == first_id(map, '_') by {
        assert(ids[i] == body[i - 1]);
    }
}

proof fn lemma_padded_ids(map: Seq<(char, Vec<i64>)>, pad: i64, phonemes: Seq<char>)
    ensures
        padded_ids(map, pad, phonemes).len() % 2 == 0,
        forall|i: int|
            0 <= i < padded_ids(map, pad, phonemes).len() && i % 2 == 1
                ==> #[trigger] padded_ids(map, pad, phonemes)[i] == pad,
    decreases phonemes.len(),
{
    if phonemes.len() > 0 {
        lemma_padded_ids(map, pad, phonemes.drop_last());
    }
}

} // verus!
