//! What holds of every voice model, and of what is fed to it.

use crate::text;
use crate::voice_model;
use crate::voice_model::PiperVoiceConfig;
use vstd::prelude::*;
use vstd::string::*;

verus! {

broadcast use vstd::string::group_string_axioms;

/// A configuration is refused exactly where it lacks something: a sample rate, a voice, a map with
/// the three marks, or finite scales; the first thing that it lacks is named.
pub proof fn law_configurations_are_refused_for_what_they_lack(config: PiperVoiceConfig)
    ensures
        ({
            let map = config.phoneme_id_map@;
            let refusal = voice_model::config_refusal(config);
            let voiced = exists|i: int|
                0 <= i < config.voice@.len() && !text::white(#[trigger] config.voice@[i]);
            let marked = |c: char| voice_model::first_id(map, c) is Some;
            let lacks = |mark: Seq<char>|
                "local tts model config is invalid: phoneme_id_map must include `"@ + mark + "`"@;
            let sounds = config.sample_rate > 0 && voiced;
            &&& refusal is None <==> sounds && map.len() > 0 && marked('^') && marked('$')
                && marked('_') && config.inference_is_finite
            &&& config.sample_rate == 0 ==> refusal == Some(
                "local tts model config is invalid: audio.sample_rate must be greater than zero"@,
            )
            &&& config.sample_rate > 0 && !voiced ==> refusal == Some(
                "local tts model config is invalid: espeak.voice must not be empty"@,
            )
            &&& sounds && map.len() == 0 ==> refusal == Some(
                "local tts model config is invalid: phoneme_id_map must not be empty"@,
            )
            &&& sounds && map.len() > 0 && !marked('^') ==> refusal == Some(lacks("^"@))
            &&& sounds && map.len() > 0 && marked('^') && !marked('$') ==> refusal == Some(
                lacks("$"@),
            )
            &&& sounds && map.len() > 0 && marked('^') && marked('$') && !marked('_') ==> refusal
                == Some(lacks("_"@))
            &&& sounds && map.len() > 0 && marked('^') && marked('$') && marked('_')
                && !config.inference_is_finite ==> refusal == Some(
                "local tts model config is invalid: inference values must be finite numbers"@,
            )
        }),
{
    text::law_trimmed_texts_keep_their_words(config.voice@);
}

/// Sample rates have to be equal, and both are named where they are not. A speaker that is named is
/// asked for where the model has speakers, and the first one otherwise.
pub proof fn law_rates_have_to_agree(
    configured: u32,
    asked: u32,
    speakers: u32,
    named: Option<i64>,
)
    ensures
        voice_model::rate_admission(configured, asked) is Ok <==> configured == asked,
        configured != asked ==> voice_model::rate_admission(configured, asked) == Err::<
            (),
            Seq<char>,
        >(
            "tts sample_rate_hz "@ + text::decimal(asked as nat)
                + " does not match Piper model config sample rate "@ + text::decimal(
                configured as nat,
            ),
        ),
        speakers > 0 && named is Some ==> Some(voice_model::asked_speaker(speakers, named)) == named,
        speakers == 0 || named is None ==> voice_model::asked_speaker(speakers, named) == 0,
{
}

/// Whether an output can hold the audio: it is not scalar, and has one of four names where a name is
/// asked for.
pub open spec fn can_hold_audio(output: (&str, bool), named: bool) -> bool {
    output.1 && (!named || output.0@ == "audio"@ || output.0@ == "waveform"@ || output.0@ == "wav"@
        || output.0@ == "output"@)
}

proof fn lemma_next_output(outputs: Seq<(&str, bool)>, from: int, named: bool)
    requires
        0 <= from <= outputs.len(),
    ensures
        ({
            let next = voice_model::next_output(outputs, from, named);
            &&& from <= next <= outputs.len()
            &&& next < outputs.len() ==> can_hold_audio(outputs[next], named)
            &&& forall|i: int| from <= i < next ==> !can_hold_audio(#[trigger] outputs[i], named)
        }),
    decreases outputs.len() - from,
{
    if from < outputs.len() && !can_hold_audio(outputs[from], named) {
        lemma_next_output(outputs, from + 1, named);
    }
}

/// The audio is in the first output that has one of the known names and is not scalar, or else in
/// the only one that is not scalar; where there is none, or more than one, the model is refused.
pub proof fn law_audio_is_in_its_output(outputs: Seq<(&str, bool)>)
    ensures
        ({
            let chosen = voice_model::audio_output(outputs);
            let named = exists|i: int|
                0 <= i < outputs.len() && can_hold_audio(#[trigger] outputs[i], true);
            let any = exists|i: int|
                0 <= i < outputs.len() && can_hold_audio(#[trigger] outputs[i], false);
            &&& chosen matches Ok(at) ==> 0 <= at < outputs.len() && can_hold_audio(
                outputs[at],
                named,
            )
            &&& named ==> chosen is Ok && forall|i: int|
                0 <= i < chosen->Ok_0 ==> !can_hold_audio(#[trigger] outputs[i], true)
            &&& !named && chosen is Ok ==> forall|i: int|
                0 <= i < outputs.len() && i != chosen->Ok_0 ==> !can_hold_audio(
                    #[trigger] outputs[i],
                    false,
                )
            &&& !any ==> chosen == Err::<int, Seq<char>>(
                "local tts model contract is unsupported: expected a non-scalar audio output tensor"@,
            )
            &&& !named && any && chosen is Err ==> chosen->Err_0
                == "local tts model contract is unsupported: ambiguous unnamed non-scalar audio outputs"@
                && exists|i: int, j: int|
                #![trigger outputs[i], outputs[j]]
                0 <= i < j < outputs.len() && can_hold_audio(outputs[i], false) && can_hold_audio(
                    outputs[j],
                    false,
                )
        }),
{
    lemma_next_output(outputs, 0, true);
    lemma_next_output(outputs, 0, false);
    let first = voice_model::next_output(outputs, 0, false);
    if first < outputs.len() {
        lemma_next_output(outputs, first + 1, false);
        let second = voice_model::next_output(outputs, first + 1, false);
        if second < outputs.len() {
            assert(can_hold_audio(outputs[first], false) && can_hold_audio(outputs[second], false));
        }
        assert(can_hold_audio(outputs[first], false));
    }
    let named = voice_model::next_output(outputs, 0, true);
    if named < outputs.len() {
        assert(can_hold_audio(outputs[named], true));
    }
}

/// Whether an input can be fed: it is a tensor with dimensions.
pub open spec fn can_be_fed(input: (&str, Option<usize>)) -> bool {
    input.1 matches Some(rank) && rank > 0
}

proof fn lemma_inputs_refusal(inputs: Seq<(&str, Option<usize>)>)
    ensures
        voice_model::inputs_refusal(inputs) is None <==> (forall|i: int|
            0 <= i < inputs.len() ==> can_be_fed(#[trigger] inputs[i])),
    decreases inputs.len(),
{
    if inputs.len() > 0 {
        let rest = inputs.skip(1);
        lemma_inputs_refusal(rest);
        assert forall|i: int| 0 <= i < rest.len() implies rest[i] == inputs[i + 1] by {}
        if can_be_fed(inputs[0]) && voice_model::inputs_refusal(rest) is None {
            assert forall|i: int| 0 <= i < inputs.len() implies can_be_fed(#[trigger] inputs[i]) by {
                if i > 0 {
                    assert(can_be_fed(rest[i - 1]));
                }
            }
        } else if can_be_fed(inputs[0]) {
            let i = choose|i: int| 0 <= i < rest.len() && !can_be_fed(#[trigger] rest[i]);
            assert(!can_be_fed(inputs[i + 1]));
        } else {
            assert(!can_be_fed(inputs[0]));
        }
    }
}

/// A model is called exactly where it has three inputs, or four with several speakers, all of them
/// can be fed, and its audio is found; it is told the speaker exactly where it has four.
pub proof fn law_models_are_called_as_they_are_made(
    inputs: Seq<(&str, Option<usize>)>,
    outputs: Seq<(&str, bool)>,
    speakers: u32,
)
    ensures
        ({
            let contract = voice_model::model_contract(inputs, outputs, speakers);
            let counted = inputs.len() == 3 || inputs.len() == 4;
            let fed = forall|i: int| 0 <= i < inputs.len() ==> can_be_fed(#[trigger] inputs[i]);
            let audio = voice_model::audio_output(outputs);
            &&& contract is Ok <==> counted && fed && (inputs.len() == 4 <==> speakers > 1)
                && audio is Ok
            &&& contract matches Ok((speaker, output)) ==> speaker == (inputs.len() == 4)
                && audio == Ok::<int, Seq<char>>(output)
            &&& !counted ==> contract == Err::<(bool, int), Seq<char>>(
                "local tts model contract is unsupported: expected 3 or 4 input tensors for Piper model, got "@
                    + text::decimal(inputs.len()),
            )
            &&& counted && fed && speakers > 1 && inputs.len() == 3 ==> contract == Err::<
                (bool, int),
                Seq<char>,
            >(
                "local tts model contract is unsupported: multi-speaker config requires 4 model inputs"@,
            )
            &&& counted && fed && speakers <= 1 && inputs.len() == 4 ==> contract == Err::<
                (bool, int),
                Seq<char>,
            >(
                "local tts model contract is unsupported: single-speaker config does not expect speaker input"@,
            )
        }),
{
    lemma_inputs_refusal(inputs);
}

/// The first input that cannot be fed is named, with what is wrong with it.
pub proof fn law_the_first_bad_input_is_named(inputs: Seq<(&str, Option<usize>)>, i: int)
    requires
        0 <= i < inputs.len(),
        !can_be_fed(inputs[i]),
        forall|j: int| 0 <= j < i ==> can_be_fed(#[trigger] inputs[j]),
    ensures
        voice_model::inputs_refusal(inputs) == Some(
            "local tts model contract is unsupported: input `"@ + inputs[i].0@ + (if inputs[i].1
                is None {
                "` is not a tensor"@
            } else {
                "` must not be scalar"@
            }),
        ),
    decreases i,
{
    if i > 0 {
        let rest = inputs.skip(1);
        assert(can_be_fed(inputs[0]));
        assert(rest[i - 1] == inputs[i]);
        assert forall|j: int| 0 <= j < i - 1 implies can_be_fed(#[trigger] rest[j]) by {
            assert(rest[j] == inputs[j + 1]);
        }
        law_the_first_bad_input_is_named(rest, i - 1);
    }
}

/// Words are spoken as they are written, one space apart: a character of a word is kept, white space
/// only parts words, and a text of white space alone is refused.
pub proof fn law_words_are_spoken_one_space_apart(before: Seq<char>, c: char)
    ensures
        ({
            let said = voice_model::squeezed(before);
            let grown = voice_model::squeezed(before.push(c));
            let apart = before.len() > 0 && text::white(before.last());
            &&& voice_model::squeezed(Seq::<char>::empty()).len() == 0
            &&& text::white(c) ==> grown == said
            &&& !text::white(c) && said.len() > 0 && apart ==> grown == said + seq![' ', c]
            &&& !text::white(c) && !(said.len() > 0 && apart) ==> grown == said.push(c)
            &&& voice_model::speakable(before) is Err <==> (forall|i: int|
                0 <= i < before.len() ==> text::white(#[trigger] before[i]))
            &&& voice_model::speakable(before) matches Err(message) ==> message
                == "tts text must not be empty"@
            &&& voice_model::speakable(before) matches Ok(words) ==> words == said
        }),
{
    let longer = before.push(c);
    assert(longer.drop_last() == before);
    if before.len() > 0 {
        assert(longer[longer.len() - 2] == before.last());
    }
    let said = voice_model::squeezed(before);
    assert(said.push(' ').push(c) == said + seq![' ', c]);
    lemma_squeezed_away(before);
}

proof fn lemma_squeezed_away(words: Seq<char>)
    ensures
        voice_model::squeezed(words).len() == 0 <==> (forall|i: int|
            0 <= i < words.len() ==> text::white(#[trigger] words[i])),
    decreases words.len(),
{
    if words.len() > 0 {
        let shorter = words.drop_last();
        lemma_squeezed_away(shorter);
        if voice_model::squeezed(words).len() == 0 {
            assert forall|i: int| 0 <= i < words.len() implies text::white(#[trigger] words[i]) by {
                if i < shorter.len() {
                    assert(text::white(shorter[i]));
                }
            }
        } else if forall|i: int| 0 <= i < words.len() ==> text::white(#[trigger] words[i]) {
            assert(text::white(words.last()));
            assert forall|i: int| 0 <= i < shorter.len() implies text::white(
                #[trigger] shorter[i],
            ) by {
                assert(shorter[i] == words[i]);
            }
        }
    }
}

/// Phonemes that come in parts are put together in their order, one space apart.
pub proof fn law_parts_are_put_together(before: Seq<String>, part: String)
    ensures
        voice_model::spaced(Seq::<String>::empty()).len() == 0,
        before.len() == 0 ==> voice_model::spaced(before.push(part)) == part@,
        before.len() > 0 ==> voice_model::spaced(before.push(part)) == voice_model::spaced(before)
            + " "@ + part@,
{
    assert(before.push(part).drop_last() == before);
}

/// Every phoneme that the map knows is fed with its id and padding behind it, in its order; one that
/// it does not know is left out.
pub proof fn law_every_known_phoneme_is_fed(
    map: Seq<(char, Vec<i64>)>,
    pad: i64,
    before: Seq<char>,
    phoneme: char,
)
    ensures
        ({
            let fed = voice_model::padded_ids(map, pad, before);
            let grown = voice_model::padded_ids(map, pad, before.push(phoneme));
            &&& voice_model::padded_ids(map, pad, Seq::<char>::empty()).len() == 0
            &&& voice_model::first_id(map, phoneme) matches Some(id) ==> grown == fed + seq![id, pad]
            &&& voice_model::first_id(map, phoneme) is None ==> grown == fed
        }),
{
    assert(before.push(phoneme).drop_last() == before);
    let fed = voice_model::padded_ids(map, pad, before);
    if let Some(id) = voice_model::first_id(map, phoneme) {
        assert(fed.push(id).push(pad) == fed + seq![id, pad]);
    }
}

/// A model is fed exactly where there are phonemes, the map knows the three marks, and it knows one
/// of the phonemes; what is fed is all of them between the marks.
pub proof fn law_models_are_fed_between_the_marks(
    map: Seq<(char, Vec<i64>)>,
    phonemes: Seq<char>,
)
    ensures
        ({
            let ids = voice_model::token_ids(map, phonemes);
            let mark = |c: char| voice_model::first_id(map, c);
            let blank = forall|i: int|
                0 <= i < phonemes.len() ==> text::white(#[trigger] phonemes[i]);
            let marked = mark('_') is Some && mark('^') is Some && mark('$') is Some;
            let body = voice_model::padded_ids(map, mark('_')->0, phonemes);
            let lacks = |c: Seq<char>|
                "local tts model config is invalid: missing `"@ + c + "` phoneme mapping"@;
            &&& ids is Ok <==> !blank && marked && body.len() > 0
            &&& ids matches Ok(fed) ==> fed == seq![mark('^')->0] + body + seq![mark('$')->0]
            &&& blank ==> ids == Err::<Seq<i64>, Seq<char>>(
                "local tts phonemization produced no tokens"@,
            )
            &&& !blank && mark('_') is None ==> ids == Err::<Seq<i64>, Seq<char>>(lacks("_"@))
            &&& !blank && mark('_') is Some && mark('^') is None ==> ids == Err::<
                Seq<i64>,
                Seq<char>,
            >(lacks("^"@))
            &&& !blank && mark('_') is Some && mark('^') is Some && mark('$') is None ==> ids
                == Err::<Seq<i64>, Seq<char>>(lacks("$"@))
            &&& !blank && marked && body.len() == 0 ==> ids == Err::<Seq<i64>, Seq<char>>(
                "local tts phoneme map produced no model token ids"@,
            )
        }),
{
    text::law_trimmed_texts_keep_their_words(phonemes);
}

/// Audio lasts as many whole milliseconds as its samples fill at their rate, and at least one; no
/// samples are no audio.
pub proof fn law_audio_lasts_as_long_as_its_samples(samples: u64, rate: u64)
    requires
        rate > 0,
        samples <= 18446744073709551,
    ensures
        voice_model::lasting(samples, rate) is Err <==> samples == 0,
        voice_model::lasting(samples, rate) matches Err(message) ==> message
            == "local tts model produced an empty audio buffer"@,
        voice_model::lasting(samples, rate) matches Ok(duration) ==> {
            &&& duration > 0
            &&& 1000 * samples >= rate ==> duration * rate <= 1000 * samples < (duration + 1) * rate
            &&& 1000 * samples < rate ==> duration == 1
        },
{
    let total = 1000 * samples;
    let duration = total / rate as int;
    assert(duration * rate <= total < (duration + 1) * rate) by (nonlinear_arith)
        requires
            rate > 0,
            total >= 0,
            duration == total / (rate as int),
    ;
    if total < rate {
        assert(duration == 0) by (nonlinear_arith)
            requires
                0 <= total < rate,
                duration == total / (rate as int),
        ;
    } else {
        assert(duration > 0) by (nonlinear_arith)
            requires
                total >= rate,
                rate > 0,
                duration == total / (rate as int),
        ;
    }
}

/// Every library that is missing is named, in the order of the list, and only those; nothing is
/// missing exactly where all are there.
pub proof fn law_missing_libraries_are_named(
    directory: Seq<char>,
    files: Seq<String>,
    before: Seq<Seq<char>>,
    name: Seq<char>,
)
    ensures
        ({
            let there = exists|i: int| 0 <= i < files.len() && (#[trigger] files[i])@ == name;
            let complete = voice_model::all_found(files, before);
            let list = voice_model::missing_list(files, before);
            let grown = voice_model::missing_list(files, before.push(name));
            &&& there ==> grown == list
            &&& !there && complete ==> grown == name
            &&& !there && !complete ==> grown == list + ", "@ + name
        }),
        ({
            let names = voice_model::cuda_runtime_dlls();
            let answer = voice_model::libraries_admission(directory, files);
            &&& answer is Ok <==> (forall|i: int|
                0 <= i < names.len() ==> exists|j: int|
                    0 <= j < files.len() && (#[trigger] files[j])@ == #[trigger] names[i])
            &&& answer matches Err(message) ==> message
                == "local tts CUDA runtime DLLs are missing beside the current executable in "@
                + directory + ": "@ + voice_model::missing_list(files, names)
                + ". Copy the missing DLLs into that directory before starting VoxGolem."@
        }),
{
    assert(before.push(name).drop_last() == before);
    assert(before.push(name).last() == name);
    let names = voice_model::cuda_runtime_dlls();
    if voice_model::all_found(files, names) {
        assert forall|i: int| 0 <= i < names.len() implies exists|j: int|
            0 <= j < files.len() && (#[trigger] files[j])@ == #[trigger] names[i] by {
            assert(voice_model::found(files, names[i]));
        }
    }
}

/// Speech on the graphics card needs the libraries of its mathematics, of its runtime and of the
/// engine that uses them.
pub proof fn law_the_graphics_card_needs_its_libraries()
    ensures
        voice_model::cuda_runtime_dlls() == seq![
            "cublasLt64_12.dll"@,
            "cublas64_12.dll"@,
            "cufft64_11.dll"@,
            "cudart64_12.dll"@,
            "cudnn64_9.dll"@,
            "cudnn_adv64_9.dll"@,
            "cudnn_cnn64_9.dll"@,
            "cudnn_engines_precompiled64_9.dll"@,
            "cudnn_engines_runtime_compiled64_9.dll"@,
            "cudnn_graph64_9.dll"@,
            "cudnn_heuristic64_9.dll"@,
            "cudnn_ops64_9.dll"@,
            "onnxruntime_providers_cuda.dll"@,
            "onnxruntime_providers_shared.dll"@,
        ],
{
}

/// Phoneme data is read from its directory exactly where that and the data in it are there; what is
/// missing is named.
pub proof fn law_phoneme_data_has_to_be_there(
    root: Seq<char>,
    root_is_dir: bool,
    data: Seq<char>,
    data_is_dir: bool,
)
    ensures
        ({
            let answer = voice_model::data_directory(root, root_is_dir, data, data_is_dir);
            &&& answer is Ok <==> root_is_dir && data_is_dir
            &&& answer matches Ok(path) ==> path == root
            &&& !root_is_dir ==> answer == Err::<Seq<char>, Seq<char>>(
                "strict eSpeak directory is missing: "@ + root,
            )
            &&& root_is_dir && !data_is_dir ==> answer == Err::<Seq<char>, Seq<char>>(
                "strict eSpeak data directory is missing: "@ + data,
            )
        }),
{
}

} // verus!
