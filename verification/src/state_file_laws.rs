//! What reading and writing the state file have to do with each other.

use crate::persisted_state;
use crate::persisted_state::{Draft, PersistedState, StateField};
use crate::settings::{
    AgentChoicePayload, AssistantSettingsPayload, InstantChoicePayload, ResponseProfilePayload,
    UiTextSizePayload, UiThemePayload,
};
use crate::text;
use vstd::prelude::*;

verus! {

broadcast use vstd::string::group_string_axioms;

proof fn lemma_line_end_shift(whole: Seq<char>, k: int, from: int)
    requires
        0 <= k,
        0 <= from,
        from + k <= whole.len(),
    ensures
        text::line_end(whole, from + k) == text::line_end(whole.skip(k), from) + k,
    decreases whole.len() - from,
{
    if from + k < whole.len() {
        assert(whole.skip(k)[from] == whole[from + k]);
        if whole[from + k] != '\n' {
            lemma_line_end_shift(whole, k, from + 1);
        }
    }
}

proof fn lemma_lines_shift(whole: Seq<char>, k: int, from: int)
    requires
        0 <= k,
        0 <= from,
        from + k <= whole.len(),
    ensures
        text::lines_from(whole, from + k) == text::lines_from(whole.skip(k), from),
    decreases whole.len() - from,
{
    let tail = whole.skip(k);
    if from + k < whole.len() {
        lemma_line_end_shift(whole, k, from);
        text::lemma_line_end(whole, from + k);
        let end = text::line_end(whole, from + k);
        if end < whole.len() {
            assert(whole.subrange(from + k, end) == tail.subrange(from, end - k));
            lemma_lines_shift(whole, k, end - k + 1);
        } else {
            assert(whole.subrange(from + k, whole.len() as int) == tail.subrange(
                from,
                tail.len() as int,
            ));
        }
    }
}

/// A line that a text can hold and give back: without a line feed, and without a carriage return
/// at its end.
pub open spec fn plain_line(line: Seq<char>) -> bool {
    &&& forall|i: int| 0 <= i < line.len() ==> line[i] != '\n'
    &&& line.len() > 0 ==> line.last() != '\r'
}

proof fn lemma_lines_cons(line: Seq<char>, rest: Seq<char>)
    requires
        plain_line(line),
    ensures
        text::lines_of(line + "\n"@ + rest) == seq![line] + text::lines_of(rest),
{
    reveal_strlit("\n");
    let whole = line + "\n"@ + rest;
    let n = line.len() as int;
    assert(whole[n] == '\n');
    lemma_line_end_is(whole, 0, n);
    assert(whole.subrange(0, n) == line);
    assert(whole.skip(n + 1) == rest);
    lemma_lines_shift(whole, n + 1, 0);
}

proof fn lemma_line_end_is(whole: Seq<char>, from: int, n: int)
    requires
        0 <= from <= n < whole.len(),
        whole[n] == '\n',
        forall|i: int| from <= i < n ==> whole[i] != '\n',
    ensures
        text::line_end(whole, from) == n,
    decreases n - from,
{
    if from < n {
        lemma_line_end_is(whole, from + 1, n);
    }
}

proof fn lemma_joined_cons(line: Seq<char>, rest: Seq<Seq<char>>)
    ensures
        persisted_state::joined(seq![line] + rest) == line + "\n"@ + persisted_state::joined(rest),
    decreases rest.len(),
{
    let all = seq![line] + rest;
    if rest.len() == 0 {
        assert(all.drop_last() == Seq::<Seq<char>>::empty());
        assert(persisted_state::joined(all.drop_last()) == Seq::<char>::empty());
        assert(persisted_state::joined(all) == line + "\n"@ + persisted_state::joined(rest));
    } else {
        assert(all.drop_last() == seq![line] + rest.drop_last());
        assert(all.last() == rest.last());
        lemma_joined_cons(line, rest.drop_last());
        assert(persisted_state::joined(all) == line + "\n"@ + persisted_state::joined(rest));
    }
}

/// Lines that are written one after the other are read back as they were.
pub proof fn law_lines_of_joined(lines: Seq<Seq<char>>)
    requires
        forall|i: int| 0 <= i < lines.len() ==> plain_line(#[trigger] lines[i]),
    ensures
        text::lines_of(persisted_state::joined(lines)) == lines,
    decreases lines.len(),
{
    if lines.len() > 0 {
        let rest = lines.skip(1);
        assert(lines == seq![lines[0]] + rest);
        assert forall|i: int| 0 <= i < rest.len() implies plain_line(#[trigger] rest[i]) by {
            assert(rest[i] == lines[i + 1]);
        }
        lemma_joined_cons(lines[0], rest);
        law_lines_of_joined(rest);
        assert(plain_line(lines[0]));
        lemma_lines_cons(lines[0], persisted_state::joined(rest));
    }
}

proof fn lemma_parse_append(draft: Draft, first: Seq<Seq<char>>, second: Seq<Seq<char>>)
    ensures
        persisted_state::parse_lines(draft, first + second) == (
        match persisted_state::parse_lines(draft, first) {
            Ok(next) => persisted_state::parse_lines(next, second),
            Err(message) => Err(message),
        }),
    decreases first.len(),
{
    if first.len() == 0 {
        assert(first + second == second);
    } else {
        assert((first + second)[0] == first[0]);
        assert((first + second).skip(1) == first.skip(1) + second);
        match persisted_state::parse_line(draft, first[0]) {
            Ok(next) => lemma_parse_append(next, first.skip(1), second),
            Err(_) => {},
        }
    }
}

proof fn lemma_parse_push(draft: Draft, lines: Seq<Seq<char>>, line: Seq<char>)
    ensures
        persisted_state::parse_lines(draft, lines.push(line)) == (
        match persisted_state::parse_lines(draft, lines) {
            Ok(next) => persisted_state::parse_line(next, line),
            Err(message) => Err(message),
        }),
{
    lemma_parse_append(draft, lines, seq![line]);
    assert(lines + seq![line] == lines.push(line));
    assert(seq![line].skip(1) == Seq::<Seq<char>>::empty());
    match persisted_state::parse_lines(draft, lines) {
        Ok(next) => {
            assert(seq![line][0] == line);
            match persisted_state::parse_line(next, line) {
                Ok(last) => {
                    assert(persisted_state::parse_lines(last, seq![line].skip(1)) == Ok::<
                        Draft,
                        Seq<char>,
                    >(last));
                },
                Err(_) => {},
            }
        },
        Err(_) => {},
    }
}

proof fn lemma_not_prefix(whole: Seq<char>, prefix: Seq<char>, i: int)
    requires
        0 <= i < prefix.len(),
        i < whole.len(),
        whole[i] != prefix[i],
    ensures
        !text::has_prefix(whole, prefix),
{
    if text::has_prefix(whole, prefix) {
        assert(whole.take(prefix.len() as int)[i] == whole[i]);
    }
}

/// The key that tells a field from those whose lines are recognised before it.
proof fn lemma_field_of(field: StateField, tail: Seq<char>)
    requires
        tail.len() > 0,
        tail[0] != '_',
    ensures
        persisted_state::field_of(field.key() + tail) == Some(field),
        !persisted_state::skipped(field.key() + tail),
        !text::white(field.key()[0]),
        field.key().len() > 0,
        plain_line(field.key()),
{
    reveal_strlit("selected_response_profile");
    reveal_strlit("tts_enabled");
    reveal_strlit("ui_text_size");
    reveal_strlit("ui_theme");
    reveal_strlit("assistant_instant");
    reveal_strlit("assistant_deep_enabled");
    reveal_strlit("assistant_deep");
    reveal_strlit("assistant_review_enabled");
    reveal_strlit("assistant_review");
    reveal_strlit("assistant_prefetch");
    reveal_strlit("assistant_completion");
    reveal_strlit("#");
    reveal_strlit("[");
    let key = field.key();
    let line = key + tail;
    assert(line.take(key.len() as int) == key);
    assert(line[0] == key[0]);
    lemma_not_prefix(line, "#"@, 0);
    lemma_not_prefix(line, "["@, 0);
    if !(field is Profile) {
        lemma_not_prefix(line, StateField::Profile.key(), 0);
        if !(field is TtsEnabled) {
            lemma_not_prefix(line, StateField::TtsEnabled.key(), 0);
            if field is UiTheme {
                assert(line[4] == key[4]);
                lemma_not_prefix(line, StateField::UiTextSize.key(), 4);
            } else if !(field is UiTextSize) {
                assert(line[10] == key[10]);
                lemma_not_prefix(line, StateField::UiTextSize.key(), 0);
                lemma_not_prefix(line, StateField::UiTheme.key(), 0);
                if !(field is Instant) {
                    lemma_not_prefix(line, StateField::Instant.key(), 10);
                    if field is Deep {
                        assert(line[14] == tail[0]);
                        lemma_not_prefix(line, StateField::DeepEnabled.key(), 14);
                    } else if !(field is DeepEnabled) {
                        lemma_not_prefix(line, StateField::DeepEnabled.key(), 10);
                        lemma_not_prefix(line, StateField::Deep.key(), 10);
                        if field is Review {
                            assert(line[16] == tail[0]);
                            lemma_not_prefix(line, StateField::ReviewEnabled.key(), 16);
                        } else if !(field is ReviewEnabled) {
                            lemma_not_prefix(line, StateField::ReviewEnabled.key(), 10);
                            lemma_not_prefix(line, StateField::Review.key(), 10);
                            if field is Completion {
                                lemma_not_prefix(line, StateField::Prefetch.key(), 10);
                            }
                        }
                    }
                }
            }
        }
    }
}

/// A value that a line can hold: not empty, and with neither white space nor a quotation mark at
/// either end.
pub open spec fn plain_value(value: Seq<char>) -> bool {
    &&& value.len() > 0
    &&& !text::white(value[0])
    &&& !text::white(value.last())
    &&& value[0] != '"'
    &&& value.last() != '"'
    &&& forall|i: int| 0 <= i < value.len() ==> value[i] != '\n'
}

proof fn lemma_line(draft: Draft, field: StateField, shown: Seq<char>, value: Seq<char>)
    requires
        plain_value(value),
        shown == value || shown == "\""@ + value + "\""@,
    ensures
        persisted_state::parse_line(draft, field.key() + " = "@ + shown)
            == persisted_state::set_field(draft, field, " = "@ + shown),
        persisted_state::assigned(" = "@ + shown) == Some(value),
        plain_line(field.key() + " = "@ + shown),
{
    reveal(persisted_state::parse_line);
    reveal_strlit(" = ");
    reveal_strlit("=");
    reveal_strlit("\"");
    let key = field.key();
    let tail = " = "@ + shown;
    let line = key + " = "@ + shown;
    assert(line == key + tail);
    lemma_field_of(field, tail);
    assert(line[0] == key[0]);
    assert(line.last() == shown.last());
    assert(shown.last() == value.last() || shown.last() == '"');
    assert(text::trimmed(line) == line);
    assert(line.skip(key.len() as int) == tail);
    assert forall|i: int| 0 <= i < line.len() implies line[i] != '\n' by {
        if i < key.len() {
            assert(line[i] == key[i]);
        } else if i < key.len() + 3 {
            assert(line[i] == " = "@[i - key.len()]);
        } else {
            assert(line[i] == shown[i - key.len() - 3]);
        }
    }
    let after_space = "="@ + (" "@ + shown);
    reveal_strlit(" ");
    assert(tail.skip(1) == after_space);
    assert(text::white(tail[0]));
    assert(!text::white(after_space[0]));
    assert(text::trimmed_start(tail) == text::trimmed_start(tail.skip(1)));
    assert(text::trimmed_start(after_space) == after_space);
    assert(after_space.take(1) == "="@);
    let assigned_text = " "@ + shown;
    assert(after_space.skip(1) == assigned_text);
    assert(assigned_text.skip(1) == shown);
    assert(text::trimmed_start(assigned_text) == text::trimmed_start(shown));
    assert(shown[0] == value[0] || shown[0] == '"');
    assert(text::trimmed_start(shown) == shown);
    assert(text::trimmed_end(shown) == shown);
    if shown != value {
        let open = value + "\""@;
        assert(shown.skip(1) == open);
        assert(text::stripped_start(shown, '"') == text::stripped_start(open, '"'));
        assert(open[0] == value[0]);
        assert(text::stripped_start(open, '"') == open);
        assert(open.drop_last() == value);
        assert(text::stripped_end(open, '"') == text::stripped_end(value, '"'));
    } else {
        assert(text::stripped_start(shown, '"') == shown);
    }
    assert(text::stripped_end(value, '"') == value);
}

proof fn lemma_lowered_names()
    ensures
        forall|profile: ResponseProfilePayload|
            #![trigger profile.name()]
            plain_value(profile.name()) && text::lowered(profile.name()) == profile.name(),
        forall|size: UiTextSizePayload|
            #![trigger size.name()]
            plain_value(size.name()) && text::lowered(size.name()) == size.name(),
        forall|theme: UiThemePayload|
            #![trigger theme.name()]
            plain_value(theme.name()) && text::lowered(theme.name()) == theme.name(),
        forall|b: bool|
            #![trigger persisted_state::bool_name(b)]
            plain_value(persisted_state::bool_name(b)) && text::lowered(
                persisted_state::bool_name(b),
            ) == persisted_state::bool_name(b),
        "fast"@ != "quality"@,
        "true"@ != "false"@,
        "light"@ != "dark"@,
        "small"@ != "medium"@,
        "small"@ != "large"@,
        "medium"@ != "large"@,
        "small"@ != "extra_large"@,
        "medium"@ != "extra_large"@,
        "large"@ != "extra_large"@,
{
    reveal_strlit("fast");
    reveal_strlit("quality");
    reveal_strlit("true");
    reveal_strlit("false");
    reveal_strlit("light");
    reveal_strlit("dark");
    reveal_strlit("small");
    reveal_strlit("medium");
    reveal_strlit("large");
    reveal_strlit("extra_large");
    assert forall|profile: ResponseProfilePayload|
        #![trigger profile.name()]
        plain_value(profile.name()) && text::lowered(profile.name()) == profile.name() by {
        assert(text::lowered(profile.name()) =~= profile.name());
    }
    assert forall|size: UiTextSizePayload|
        #![trigger size.name()]
        plain_value(size.name()) && text::lowered(size.name()) == size.name() by {
        assert(text::lowered(size.name()) =~= size.name());
    }
    assert forall|theme: UiThemePayload|
        #![trigger theme.name()]
        plain_value(theme.name()) && text::lowered(theme.name()) == theme.name() by {
        assert(text::lowered(theme.name()) =~= theme.name());
    }
    assert forall|b: bool|
        #![trigger persisted_state::bool_name(b)]
        plain_value(persisted_state::bool_name(b)) && text::lowered(persisted_state::bool_name(b))
            == persisted_state::bool_name(b) by {
        assert(text::lowered(persisted_state::bool_name(b)) =~= persisted_state::bool_name(b));
    }
    assert("fast"@.len() != "quality"@.len());
    assert("true"@.len() != "false"@.len());
    assert("light"@.len() != "dark"@.len());
    assert("small"@[0] != "large"@[0]);
    assert("small"@.len() != "medium"@.len());
    assert("medium"@.len() != "large"@.len());
    assert("small"@.len() != "extra_large"@.len());
    assert("medium"@.len() != "extra_large"@.len());
    assert("large"@.len() != "extra_large"@.len());
}

proof fn lemma_choice_names()
    ensures
        forall|choice: InstantChoicePayload| plain_value(#[trigger] choice.name()),
        forall|choice: AgentChoicePayload| plain_value(#[trigger] choice.name()),
        forall|a: InstantChoicePayload, b: InstantChoicePayload|
            #![trigger a.name(), b.name()]
            a.name() == b.name() ==> a == b,
        forall|a: AgentChoicePayload, b: AgentChoicePayload|
            #![trigger a.name(), b.name()]
            a.name() == b.name() ==> a == b,
{
    reveal_strlit("local-fast");
    reveal_strlit("local-quality");
    reveal_strlit("custom-sol-high");
    reveal_strlit("custom-luna-low");
    reveal_strlit("opencode-sol-high");
    reveal_strlit("opencode-luna-low");
    assert forall|a: InstantChoicePayload, b: InstantChoicePayload|
        #![trigger a.name(), b.name()]
        a.name() == b.name() implies a == b by {
        assert(a.name().len() == b.name().len());
        assert(a.name()[7] == b.name()[7]);
        assert(a.name()[9] == b.name()[9]);
    }
    assert forall|a: AgentChoicePayload, b: AgentChoicePayload|
        #![trigger a.name(), b.name()]
        a.name() == b.name() implies a == b by {
        assert(a.name().len() == b.name().len());
        assert(a.name()[7] == b.name()[7]);
        assert(a.name()[9] == b.name()[9]);
    }
}

proof fn lemma_profile_line(draft: Draft, v: ResponseProfilePayload)
    ensures
        persisted_state::parse_line(
            draft,
            persisted_state::quoted_line(StateField::Profile.key(), v.name()),
        ) == Ok::<Draft, Seq<char>>(
            Draft {
                state: PersistedState { selected_response_profile: Some(v), ..draft.state },
                ..draft
            },
        ),
        plain_line(persisted_state::quoted_line(StateField::Profile.key(), v.name())),
{
    lemma_lowered_names();
    lemma_line(draft, StateField::Profile, "\""@ + v.name() + "\""@, v.name());
}

proof fn lemma_tts_line(draft: Draft, v: bool)
    ensures
        persisted_state::parse_line(
            draft,
            persisted_state::bare_line(
                StateField::TtsEnabled.key(),
                persisted_state::bool_name(v),
            ),
        ) == Ok::<Draft, Seq<char>>(
            Draft { state: PersistedState { tts_enabled: Some(v), ..draft.state }, ..draft },
        ),
        plain_line(
            persisted_state::bare_line(
                StateField::TtsEnabled.key(),
                persisted_state::bool_name(v),
            ),
        ),
{
    lemma_lowered_names();
    lemma_line(
        draft,
        StateField::TtsEnabled,
        persisted_state::bool_name(v),
        persisted_state::bool_name(v),
    );
}

proof fn lemma_size_line(draft: Draft, v: UiTextSizePayload)
    ensures
        persisted_state::parse_line(
            draft,
            persisted_state::quoted_line(StateField::UiTextSize.key(), v.name()),
        ) == Ok::<Draft, Seq<char>>(
            Draft { state: PersistedState { ui_text_size: Some(v), ..draft.state }, ..draft },
        ),
        plain_line(persisted_state::quoted_line(StateField::UiTextSize.key(), v.name())),
{
    lemma_lowered_names();
    lemma_line(draft, StateField::UiTextSize, "\""@ + v.name() + "\""@, v.name());
}

proof fn lemma_theme_line(draft: Draft, v: UiThemePayload)
    ensures
        persisted_state::parse_line(
            draft,
            persisted_state::quoted_line(StateField::UiTheme.key(), v.name()),
        ) == Ok::<Draft, Seq<char>>(
            Draft { state: PersistedState { ui_theme: Some(v), ..draft.state }, ..draft },
        ),
        plain_line(persisted_state::quoted_line(StateField::UiTheme.key(), v.name())),
{
    lemma_lowered_names();
    lemma_line(draft, StateField::UiTheme, "\""@ + v.name() + "\""@, v.name());
}

proof fn lemma_instant_line(draft: Draft, v: InstantChoicePayload)
    ensures
        persisted_state::parse_line(
            draft,
            persisted_state::quoted_line(StateField::Instant.key(), v.name()),
        ) == Ok::<Draft, Seq<char>>(
            persisted_state::with_settings(
                draft,
                AssistantSettingsPayload { instant: v, ..draft.settings },
            ),
        ),
        plain_line(persisted_state::quoted_line(StateField::Instant.key(), v.name())),
{
    lemma_choice_names();
    lemma_line(draft, StateField::Instant, "\""@ + v.name() + "\""@, v.name());
    let rest = " = "@ + ("\""@ + v.name() + "\""@);
    assert(InstantChoicePayload::LocalFast.name() == "local-fast"@);
    assert(InstantChoicePayload::LocalQuality.name() == "local-quality"@);
    assert(InstantChoicePayload::CustomSolHigh.name() == "custom-sol-high"@);
    assert(InstantChoicePayload::CustomLunaLow.name() == "custom-luna-low"@);
    assert(InstantChoicePayload::OpenCodeSolHigh.name() == "opencode-sol-high"@);
    assert(InstantChoicePayload::OpenCodeLunaLow.name() == "opencode-luna-low"@);
    assert(persisted_state::spec_instant(rest) == Ok::<InstantChoicePayload, Seq<char>>(v));
}

proof fn lemma_agent_value(rest: Seq<char>, field: Seq<char>, v: AgentChoicePayload)
    requires
        persisted_state::assigned(rest) == Some(v.name()),
    ensures
        persisted_state::spec_agent(rest, field) == Ok::<AgentChoicePayload, Seq<char>>(v),
{
    lemma_choice_names();
    assert(AgentChoicePayload::CustomSolHigh.name() == "custom-sol-high"@);
    assert(AgentChoicePayload::CustomLunaLow.name() == "custom-luna-low"@);
    assert(AgentChoicePayload::OpenCodeSolHigh.name() == "opencode-sol-high"@);
    assert(AgentChoicePayload::OpenCodeLunaLow.name() == "opencode-luna-low"@);
}

proof fn lemma_agent_line(draft: Draft, field: StateField, v: AgentChoicePayload)
    requires
        field is Deep || field is Review,
    ensures
        persisted_state::parse_line(draft, persisted_state::quoted_line(field.key(), v.name()))
            == Ok::<Draft, Seq<char>>(
            persisted_state::with_settings(
                draft,
                if field is Deep {
                    AssistantSettingsPayload { deep: v, ..draft.settings }
                } else {
                    AssistantSettingsPayload { review: v, ..draft.settings }
                },
            ),
        ),
        plain_line(persisted_state::quoted_line(field.key(), v.name())),
{
    lemma_choice_names();
    lemma_line(draft, field, "\""@ + v.name() + "\""@, v.name());
    lemma_agent_value(" = "@ + ("\""@ + v.name() + "\""@), field.key(), v);
}

proof fn lemma_bool_line(draft: Draft, field: StateField, v: bool)
    requires
        field is DeepEnabled || field is ReviewEnabled || field is Prefetch || field is Completion,
    ensures
        persisted_state::parse_line(
            draft,
            persisted_state::bare_line(field.key(), persisted_state::bool_name(v)),
        ) == Ok::<Draft, Seq<char>>(
            persisted_state::with_settings(
                draft,
                match field {
                    StateField::DeepEnabled => AssistantSettingsPayload {
                        deep_enabled: v,
                        ..draft.settings
                    },
                    StateField::ReviewEnabled => AssistantSettingsPayload {
                        review_enabled: v,
                        ..draft.settings
                    },
                    StateField::Prefetch => AssistantSettingsPayload {
                        prefetch: v,
                        ..draft.settings
                    },
                    _ => AssistantSettingsPayload { completion: v, ..draft.settings },
                },
            ),
        ),
        plain_line(persisted_state::bare_line(field.key(), persisted_state::bool_name(v))),
{
    lemma_lowered_names();
    lemma_line(draft, field, persisted_state::bool_name(v), persisted_state::bool_name(v));
}

/// Lines that lead from one draft to the next, all the way.
proof fn lemma_parse_run(lines: Seq<Seq<char>>, drafts: Seq<Draft>)
    requires
        drafts.len() == lines.len() + 1,
        forall|i: int|
            0 <= i < lines.len() ==> persisted_state::parse_line(drafts[i], #[trigger] lines[i])
                == Ok::<Draft, Seq<char>>(drafts[i + 1]),
    ensures
        persisted_state::parse_lines(drafts[0], lines) == Ok::<Draft, Seq<char>>(drafts.last()),
    decreases lines.len(),
{
    if lines.len() > 0 {
        let rest = lines.skip(1);
        let next = drafts.skip(1);
        assert forall|i: int| 0 <= i < rest.len() implies persisted_state::parse_line(
            next[i],
            #[trigger] rest[i],
        ) == Ok::<Draft, Seq<char>>(next[i + 1]) by {
            assert(rest[i] == lines[i + 1]);
        }
        assert(persisted_state::parse_line(drafts[0], lines[0]) == Ok::<Draft, Seq<char>>(
            drafts[1],
        ));
        lemma_parse_run(rest, next);
    }
}

/// The draft after the first `count` of the lines that write assistant settings.
spec fn settings_draft(draft: Draft, settings: AssistantSettingsPayload, count: int) -> Draft {
    Draft {
        state: draft.state,
        settings: AssistantSettingsPayload {
            instant: if count > 0 {
                settings.instant
            } else {
                draft.settings.instant
            },
            deep: if count > 1 {
                settings.deep
            } else {
                draft.settings.deep
            },
            review: if count > 2 {
                settings.review
            } else {
                draft.settings.review
            },
            deep_enabled: if count > 3 {
                settings.deep_enabled
            } else {
                draft.settings.deep_enabled
            },
            review_enabled: if count > 4 {
                settings.review_enabled
            } else {
                draft.settings.review_enabled
            },
            prefetch: if count > 5 {
                settings.prefetch
            } else {
                draft.settings.prefetch
            },
            completion: if count > 6 {
                settings.completion
            } else {
                draft.settings.completion
            },
        },
        settings_seen: draft.settings_seen || count > 0,
    }
}

proof fn lemma_settings_line(draft: Draft, settings: AssistantSettingsPayload, i: int)
    requires
        0 <= i < 7,
    ensures
        persisted_state::parse_line(
            settings_draft(draft, settings, i),
            persisted_state::settings_lines(settings)[i],
        ) == Ok::<Draft, Seq<char>>(settings_draft(draft, settings, i + 1)),
        plain_line(persisted_state::settings_lines(settings)[i]),
{
    let before = settings_draft(draft, settings, i);
    if i == 0 {
        lemma_instant_line(before, settings.instant);
    } else if i == 1 {
        lemma_agent_line(before, StateField::Deep, settings.deep);
    } else if i == 2 {
        lemma_agent_line(before, StateField::Review, settings.review);
    } else if i == 3 {
        lemma_bool_line(before, StateField::DeepEnabled, settings.deep_enabled);
    } else if i == 4 {
        lemma_bool_line(before, StateField::ReviewEnabled, settings.review_enabled);
    } else if i == 5 {
        lemma_bool_line(before, StateField::Prefetch, settings.prefetch);
    } else {
        lemma_bool_line(before, StateField::Completion, settings.completion);
    }
}

proof fn lemma_settings_lines(draft: Draft, settings: AssistantSettingsPayload)
    ensures
        persisted_state::parse_lines(draft, persisted_state::settings_lines(settings)) == Ok::<
            Draft,
            Seq<char>,
        >(persisted_state::with_settings(draft, settings)),
        forall|i: int|
            0 <= i < persisted_state::settings_lines(settings).len() ==> plain_line(
                #[trigger] persisted_state::settings_lines(settings)[i],
            ),
{
    let lines = persisted_state::settings_lines(settings);
    let drafts = Seq::new(8, |i: int| settings_draft(draft, settings, i));
    assert forall|i: int| 0 <= i < lines.len() implies plain_line(#[trigger] lines[i])
        && persisted_state::parse_line(drafts[i], lines[i]) == Ok::<Draft, Seq<char>>(
        drafts[i + 1],
    ) by {
        lemma_settings_line(draft, settings, i);
    }
    lemma_parse_run(lines, drafts);
    assert(drafts[0] == draft);
}

/// What is written to the state file is what is read from it: the file that holds a state says
/// that state and nothing else.
pub proof fn law_written_state_is_read_back(state: PersistedState)
    ensures
        persisted_state::parsed(persisted_state::rendered(state)) == Ok::<
            PersistedState,
            Seq<char>,
        >(state),
{
    let d0 = persisted_state::empty_draft();
    let l0 = Seq::<Seq<char>>::empty();
    let (l1, d1) = match state.selected_response_profile {
        Some(v) => {
            lemma_profile_line(d0, v);
            let line = persisted_state::quoted_line(StateField::Profile.key(), v.name());
            lemma_parse_push(d0, l0, line);
            (
                l0.push(line),
                Draft {
                    state: PersistedState { selected_response_profile: Some(v), ..d0.state },
                    ..d0
                },
            )
        },
        None => (l0, d0),
    };
    assert(persisted_state::parse_lines(d0, l1) == Ok::<Draft, Seq<char>>(d1));
    let (l2, d2) = match state.tts_enabled {
        Some(v) => {
            lemma_tts_line(d1, v);
            let line = persisted_state::bare_line(
                StateField::TtsEnabled.key(),
                persisted_state::bool_name(v),
            );
            lemma_parse_push(d0, l1, line);
            (
                l1.push(line),
                Draft { state: PersistedState { tts_enabled: Some(v), ..d1.state }, ..d1 },
            )
        },
        None => (l1, d1),
    };
    assert(persisted_state::parse_lines(d0, l2) == Ok::<Draft, Seq<char>>(d2));
    let (l3, d3) = match state.ui_text_size {
        Some(v) => {
            lemma_size_line(d2, v);
            let line = persisted_state::quoted_line(StateField::UiTextSize.key(), v.name());
            lemma_parse_push(d0, l2, line);
            (
                l2.push(line),
                Draft { state: PersistedState { ui_text_size: Some(v), ..d2.state }, ..d2 },
            )
        },
        None => (l2, d2),
    };
    assert(persisted_state::parse_lines(d0, l3) == Ok::<Draft, Seq<char>>(d3));
    let (l4, d4) = match state.ui_theme {
        Some(v) => {
            lemma_theme_line(d3, v);
            let line = persisted_state::quoted_line(StateField::UiTheme.key(), v.name());
            lemma_parse_push(d0, l3, line);
            (
                l3.push(line),
                Draft { state: PersistedState { ui_theme: Some(v), ..d3.state }, ..d3 },
            )
        },
        None => (l3, d3),
    };
    assert(persisted_state::parse_lines(d0, l4) == Ok::<Draft, Seq<char>>(d4));
    let (l5, d5) = match state.assistant_settings {
        Some(v) => {
            lemma_settings_lines(d4, v);
            lemma_parse_append(d0, l4, persisted_state::settings_lines(v));
            (l4 + persisted_state::settings_lines(v), persisted_state::with_settings(d4, v))
        },
        None => (l4, d4),
    };
    assert(persisted_state::parse_lines(d0, l5) == Ok::<Draft, Seq<char>>(d5));
    assert(l5 == persisted_state::state_lines(state));
    law_lines_of_joined(l5);
    assert(persisted_state::finished(d5) == state);
}

/// Replacing one value of a state file leaves every other value as it was: the file written
/// after a change says what the file before it said, with that change.
pub proof fn law_replaced_value_keeps_the_others(
    before: PersistedState,
    profile: ResponseProfilePayload,
    tts_enabled: bool,
    text_size: UiTextSizePayload,
    theme: UiThemePayload,
    settings: AssistantSettingsPayload,
)
    ensures
        persisted_state::loaded(
            Some(
                persisted_state::rendered(
                    PersistedState { selected_response_profile: Some(profile), ..before },
                ),
            ),
        ) == Ok::<PersistedState, Seq<char>>(
            PersistedState { selected_response_profile: Some(profile), ..before },
        ),
        persisted_state::loaded(
            Some(
                persisted_state::rendered(
                    PersistedState { tts_enabled: Some(tts_enabled), ..before },
                ),
            ),
        ) == Ok::<PersistedState, Seq<char>>(
            PersistedState { tts_enabled: Some(tts_enabled), ..before },
        ),
        persisted_state::loaded(
            Some(
                persisted_state::rendered(
                    PersistedState { ui_text_size: Some(text_size), ..before },
                ),
            ),
        ) == Ok::<PersistedState, Seq<char>>(
            PersistedState { ui_text_size: Some(text_size), ..before },
        ),
        persisted_state::loaded(
            Some(persisted_state::rendered(PersistedState { ui_theme: Some(theme), ..before })),
        ) == Ok::<PersistedState, Seq<char>>(PersistedState { ui_theme: Some(theme), ..before }),
        persisted_state::loaded(
            Some(
                persisted_state::rendered(
                    PersistedState { assistant_settings: Some(settings), ..before },
                ),
            ),
        ) == Ok::<PersistedState, Seq<char>>(
            PersistedState { assistant_settings: Some(settings), ..before },
        ),
        persisted_state::loaded(
            Some(
                persisted_state::rendered(
                    PersistedState {
                        selected_response_profile: Some(profile),
                        assistant_settings: Some(settings),
                        ..before
                    },
                ),
            ),
        ) == Ok::<PersistedState, Seq<char>>(
            PersistedState {
                selected_response_profile: Some(profile),
                assistant_settings: Some(settings),
                ..before
            },
        ),
{
    law_written_state_is_read_back(
        PersistedState { selected_response_profile: Some(profile), ..before },
    );
    law_written_state_is_read_back(PersistedState { tts_enabled: Some(tts_enabled), ..before });
    law_written_state_is_read_back(PersistedState { ui_text_size: Some(text_size), ..before });
    law_written_state_is_read_back(PersistedState { ui_theme: Some(theme), ..before });
    law_written_state_is_read_back(PersistedState { assistant_settings: Some(settings), ..before });
    law_written_state_is_read_back(
        PersistedState {
            selected_response_profile: Some(profile),
            assistant_settings: Some(settings),
            ..before
        },
    );
}

/// A line that says nothing: a blank one, a comment, the head of a section, or one that begins
/// with no key.
pub open spec fn says_nothing(line: Seq<char>) -> bool {
    let words = text::trimmed(line);
    persisted_state::skipped(words) || persisted_state::field_of(words) is None
}

/// Blank lines, comments, heads of sections and lines with other keys change nothing, wherever
/// they stand: a state file says the same with such a line and without it.
pub proof fn law_other_lines_say_nothing(
    with_line: Seq<char>,
    without_line: Seq<char>,
    before: Seq<Seq<char>>,
    line: Seq<char>,
    after: Seq<Seq<char>>,
)
    requires
        says_nothing(line),
        text::lines_of(with_line) == before.push(line) + after,
        text::lines_of(without_line) == before + after,
    ensures
        persisted_state::parsed(with_line) == persisted_state::parsed(without_line),
{
    reveal(persisted_state::parse_line);
    let draft = persisted_state::empty_draft();
    lemma_parse_append(draft, before.push(line), after);
    lemma_parse_push(draft, before, line);
    lemma_parse_append(draft, before, after);
}

/// A value of the state file is stored under the same key always.
pub proof fn law_values_have_their_keys()
    ensures
        StateField::Profile.key() == "selected_response_profile"@,
        StateField::TtsEnabled.key() == "tts_enabled"@,
        StateField::UiTextSize.key() == "ui_text_size"@,
        StateField::UiTheme.key() == "ui_theme"@,
        StateField::Instant.key() == "assistant_instant"@,
        StateField::Deep.key() == "assistant_deep"@,
        StateField::Review.key() == "assistant_review"@,
        StateField::DeepEnabled.key() == "assistant_deep_enabled"@,
        StateField::ReviewEnabled.key() == "assistant_review_enabled"@,
        StateField::Prefetch.key() == "assistant_prefetch"@,
        StateField::Completion.key() == "assistant_completion"@,
{
}

/// A line ends at a line feed, with or without a carriage return before it; the last line may end
/// with the text, and an empty rest is no line.
pub proof fn law_lines_end_at_line_feeds(line: Seq<char>, rest: Seq<char>)
    requires
        !line.contains('\n'),
    ensures
        line.len() == 0 || line.last() != '\r' ==> text::lines_of(line + "\n"@ + rest) == seq![line]
            + text::lines_of(rest),
        text::lines_of(line + "\r\n"@ + rest) == seq![line] + text::lines_of(rest),
        line.len() == 0 ==> text::lines_of(line).len() == 0,
        line.len() > 0 ==> text::lines_of(line) == seq![line],
{
    reveal_strlit("\n");
    reveal_strlit("\r\n");
    assert forall|i: int| 0 <= i < line.len() implies line[i] != '\n' by {
        assert(line.contains(line[i]));
    }
    if line.len() == 0 || line.last() != '\r' {
        lemma_lines_cons(line, rest);
    }
    let whole = line + "\r\n"@ + rest;
    let n = line.len() as int;
    assert(whole[n] == '\r');
    assert(whole[n + 1] == '\n');
    assert forall|i: int| 0 <= i < n + 1 implies whole[i] != '\n' by {
        if i < n {
            assert(whole[i] == line[i]);
        }
    }
    lemma_line_end_is(whole, 0, n + 1);
    assert(whole.subrange(0, n + 1).drop_last() == line);
    assert(whole.subrange(0, n + 1).last() == '\r');
    assert(whole.skip(n + 2) == rest);
    lemma_lines_shift(whole, n + 2, 0);
    if line.len() > 0 {
        text::lemma_line_end(line, 0);
        assert(line.subrange(0, line.len() as int) == line);
    }
}

/// A state file is read from its first line to its last: each line goes on from what the ones
/// before it have set, and the first one that is refused refuses the file.
pub proof fn law_lines_are_read_in_order(
    draft: Draft,
    before: Seq<Seq<char>>,
    line: Seq<char>,
    after: Seq<Seq<char>>,
)
    ensures
        persisted_state::parse_lines(draft, Seq::<Seq<char>>::empty()) == Ok::<Draft, Seq<char>>(
            draft,
        ),
        persisted_state::parse_lines(draft, before) matches Err(message)
            ==> persisted_state::parse_lines(draft, before.push(line) + after) == Err::<
            Draft,
            Seq<char>,
        >(message),
        persisted_state::parse_lines(draft, before) matches Ok(next) ==> (
        match persisted_state::parse_line(next, line) {
            Err(message) => persisted_state::parse_lines(draft, before.push(line) + after) == Err::<
                Draft,
                Seq<char>,
            >(message),
            Ok(last) => persisted_state::parse_lines(draft, before.push(line) + after)
                == persisted_state::parse_lines(last, after),
        }),
{
    lemma_parse_append(draft, before.push(line), after);
    lemma_parse_push(draft, before, line);
}

/// A line sets the value whose key it begins with, whatever white space stands around it, unless
/// the key goes on.
pub proof fn law_lines_set_the_value_of_their_key(
    draft: Draft,
    raw: Seq<char>,
    field: StateField,
    tail: Seq<char>,
)
    requires
        text::trimmed(raw) == field.key() + tail,
        tail.len() > 0,
        tail[0] != '_',
    ensures
        persisted_state::parse_line(draft, raw) == persisted_state::set_field(draft, field, tail),
{
    reveal(persisted_state::parse_line);
    lemma_field_of(field, tail);
    assert((field.key() + tail).skip(field.key().len() as int) == tail);
}

/// A value is assigned by an equals sign, with or without white space around it and around the
/// value, and with or without quotation marks around that; without an equals sign there is none.
pub proof fn law_values_are_assigned(space: Seq<char>, rest: Seq<char>)
    requires
        forall|i: int| 0 <= i < space.len() ==> text::white(#[trigger] space[i]),
    ensures
        persisted_state::assigned(space + "="@ + rest) == Some(
            text::stripped(text::trimmed(rest), '"'),
        ),
        rest.len() == 0 || (rest[0] != '=' && !text::white(rest[0])) ==> persisted_state::assigned(
            space + rest,
        ) is None,
{
    reveal_strlit("=");
    let sign = "="@ + rest;
    assert(space + "="@ + rest == space + sign);
    lemma_trimmed_start_skips(space, sign);
    lemma_trimmed_start_skips(space, rest);
    assert(sign.take(1) == "="@);
    assert(sign.skip(1) == rest);
    if rest.len() > 0 && rest[0] != '=' {
        lemma_not_prefix(rest, "="@, 0);
    }
}

proof fn lemma_trimmed_start_skips(space: Seq<char>, rest: Seq<char>)
    requires
        forall|i: int| 0 <= i < space.len() ==> text::white(#[trigger] space[i]),
    ensures
        text::trimmed_start(space + rest) == text::trimmed_start(rest),
    decreases space.len(),
{
    if space.len() == 0 {
        assert(space + rest == rest);
    } else {
        let shorter = space.skip(1);
        assert((space + rest)[0] == space[0]);
        assert((space + rest).skip(1) == shorter + rest);
        assert forall|i: int| 0 <= i < shorter.len() implies text::white(#[trigger] shorter[i]) by {
            assert(shorter[i] == space[i + 1]);
        }
        lemma_trimmed_start_skips(shorter, rest);
    }
}

/// Profiles, text sizes, themes and the switch for speech are told by their names, in any case; any
/// other value is refused and named.
pub proof fn law_names_are_read_in_any_case(rest: Seq<char>, raw: Seq<char>)
    requires
        persisted_state::assigned(rest) == Some(raw),
    ensures
        ({
            let name = text::lowered(raw);
            let refused = |field: Seq<char>|
                "invalid state.toml: unsupported "@ + field + " `"@ + name + "`"@;
            let profile = persisted_state::spec_profile(rest);
            let size = persisted_state::spec_text_size(rest);
            let theme = persisted_state::spec_theme(rest);
            let speech = persisted_state::spec_tts_enabled(rest);
            &&& profile == Ok::<ResponseProfilePayload, Seq<char>>(ResponseProfilePayload::Fast)
                <==> name == "fast"@
            &&& profile == Ok::<ResponseProfilePayload, Seq<char>>(ResponseProfilePayload::Quality)
                <==> name == "quality"@
            &&& profile matches Err(message) ==> message == refused("selected_response_profile"@)
            &&& size == Ok::<UiTextSizePayload, Seq<char>>(UiTextSizePayload::Small) <==> name
                == "small"@
            &&& size == Ok::<UiTextSizePayload, Seq<char>>(UiTextSizePayload::Medium) <==> name
                == "medium"@
            &&& size == Ok::<UiTextSizePayload, Seq<char>>(UiTextSizePayload::Large) <==> name
                == "large"@
            &&& size == Ok::<UiTextSizePayload, Seq<char>>(UiTextSizePayload::ExtraLarge) <==> name
                == "extra_large"@
            &&& size matches Err(message) ==> message == refused("ui_text_size"@)
            &&& theme == Ok::<UiThemePayload, Seq<char>>(UiThemePayload::Light) <==> name
                == "light"@
            &&& theme == Ok::<UiThemePayload, Seq<char>>(UiThemePayload::Dark) <==> name == "dark"@
            &&& theme matches Err(message) ==> message == refused("ui_theme"@)
            &&& speech == Ok::<bool, Seq<char>>(true) <==> name == "true"@
            &&& speech == Ok::<bool, Seq<char>>(false) <==> name == "false"@
            &&& speech matches Err(message) ==> message == refused("tts_enabled"@)
        }),
{
    lemma_lowered_names();
}

/// Models and the assistant's switches are told by their names as they are written; any other value
/// is refused and named.
pub proof fn law_choices_are_read_as_written(rest: Seq<char>, name: Seq<char>, field: Seq<char>)
    requires
        persisted_state::assigned(rest) == Some(name),
    ensures
        ({
            let instant = persisted_state::spec_instant(rest);
            let agent = persisted_state::spec_agent(rest, field);
            let switch = persisted_state::spec_bool(rest, field);
            &&& instant matches Ok(choice) ==> choice.name() == name
            &&& instant is Err <==> name != "local-fast"@ && name != "local-quality"@ && name
                != "custom-sol-high"@ && name != "custom-luna-low"@ && name != "opencode-sol-high"@
                && name != "opencode-luna-low"@
            &&& instant matches Err(message) ==> message == "invalid state.toml: unsupported "@
                + "assistant_instant"@ + " `"@ + name + "`"@
            &&& agent matches Ok(choice) ==> choice.name() == name
            &&& agent is Err <==> name != "custom-sol-high"@ && name != "custom-luna-low"@ && name
                != "opencode-sol-high"@ && name != "opencode-luna-low"@
            &&& agent matches Err(message) ==> message == "invalid state.toml: unsupported "@
                + field + " `"@ + name + "`"@
            &&& switch == Ok::<bool, Seq<char>>(true) <==> name == "true"@
            &&& switch == Ok::<bool, Seq<char>>(false) <==> name == "false"@
            &&& switch matches Err(message) ==> message == "invalid state.toml: unsupported "@
                + field + " `"@ + name + "`"@
        }),
{
    lemma_lowered_names();
}

/// A line that names a value without assigning one is refused, with the form that was expected.
pub proof fn law_assignments_are_expected(rest: Seq<char>, field: Seq<char>)
    requires
        persisted_state::assigned(rest) is None,
    ensures
        persisted_state::spec_profile(rest) == Err::<ResponseProfilePayload, Seq<char>>(
            "invalid state.toml: expected `selected_response_profile = \"...\"`"@,
        ),
        persisted_state::spec_tts_enabled(rest) == Err::<bool, Seq<char>>(
            "invalid state.toml: expected `tts_enabled = true|false`"@,
        ),
        persisted_state::spec_text_size(rest) == Err::<UiTextSizePayload, Seq<char>>(
            "invalid state.toml: expected `ui_text_size = \"...\"`"@,
        ),
        persisted_state::spec_theme(rest) == Err::<UiThemePayload, Seq<char>>(
            "invalid state.toml: expected `ui_theme = \"...\"`"@,
        ),
        persisted_state::spec_instant(rest) == Err::<InstantChoicePayload, Seq<char>>(
            "invalid state.toml: expected `"@ + "assistant_instant"@ + " = ...`"@,
        ),
        persisted_state::spec_agent(rest, field) == Err::<AgentChoicePayload, Seq<char>>(
            "invalid state.toml: expected `"@ + field + " = ...`"@,
        ),
        persisted_state::spec_bool(rest, field) == Err::<bool, Seq<char>>(
            "invalid state.toml: expected `"@ + field + " = ...`"@,
        ),
{
}

/// A line sets its own value and leaves every other one as it was. Assistant settings are there
/// once a line has named one of them; those that no line names are the usual ones.
pub proof fn law_lines_set_one_value(draft: Draft, field: StateField, rest: Seq<char>, next: Draft)
    requires
        persisted_state::set_field(draft, field, rest) == Ok::<Draft, Seq<char>>(next),
    ensures
        ({
            let general = field is Profile || field is TtsEnabled || field is UiTextSize || field
                is UiTheme;
            &&& field is Profile ==> persisted_state::spec_profile(rest) == Ok::<
                ResponseProfilePayload,
                Seq<char>,
            >(next.state.selected_response_profile->0) && next.state.selected_response_profile
                is Some
            &&& !(field is Profile) ==> next.state.selected_response_profile
                == draft.state.selected_response_profile
            &&& field is TtsEnabled ==> persisted_state::spec_tts_enabled(rest) == Ok::<
                bool,
                Seq<char>,
            >(next.state.tts_enabled->0) && next.state.tts_enabled is Some
            &&& !(field is TtsEnabled) ==> next.state.tts_enabled == draft.state.tts_enabled
            &&& field is UiTextSize ==> persisted_state::spec_text_size(rest) == Ok::<
                UiTextSizePayload,
                Seq<char>,
            >(next.state.ui_text_size->0) && next.state.ui_text_size is Some
            &&& !(field is UiTextSize) ==> next.state.ui_text_size == draft.state.ui_text_size
            &&& field is UiTheme ==> persisted_state::spec_theme(rest) == Ok::<
                UiThemePayload,
                Seq<char>,
            >(next.state.ui_theme->0) && next.state.ui_theme is Some
            &&& !(field is UiTheme) ==> next.state.ui_theme == draft.state.ui_theme
            &&& general ==> next.settings == draft.settings && next.settings_seen
                == draft.settings_seen
            &&& !general ==> next.settings_seen
            &&& field is Instant ==> persisted_state::spec_instant(rest) == Ok::<
                InstantChoicePayload,
                Seq<char>,
            >(next.settings.instant)
            &&& !(field is Instant) ==> next.settings.instant == draft.settings.instant
            &&& field is Deep ==> persisted_state::spec_agent(rest, "assistant_deep"@) == Ok::<
                AgentChoicePayload,
                Seq<char>,
            >(next.settings.deep)
            &&& !(field is Deep) ==> next.settings.deep == draft.settings.deep
            &&& field is Review ==> persisted_state::spec_agent(rest, "assistant_review"@) == Ok::<
                AgentChoicePayload,
                Seq<char>,
            >(next.settings.review)
            &&& !(field is Review) ==> next.settings.review == draft.settings.review
            &&& field is DeepEnabled ==> persisted_state::spec_bool(
                rest,
                "assistant_deep_enabled"@,
            ) == Ok::<bool, Seq<char>>(next.settings.deep_enabled)
            &&& !(field is DeepEnabled) ==> next.settings.deep_enabled
                == draft.settings.deep_enabled
            &&& field is ReviewEnabled ==> persisted_state::spec_bool(
                rest,
                "assistant_review_enabled"@,
            ) == Ok::<bool, Seq<char>>(next.settings.review_enabled)
            &&& !(field is ReviewEnabled) ==> next.settings.review_enabled
                == draft.settings.review_enabled
            &&& field is Prefetch ==> persisted_state::spec_bool(rest, "assistant_prefetch"@)
                == Ok::<bool, Seq<char>>(next.settings.prefetch)
            &&& !(field is Prefetch) ==> next.settings.prefetch == draft.settings.prefetch
            &&& field is Completion ==> persisted_state::spec_bool(rest, "assistant_completion"@)
                == Ok::<bool, Seq<char>>(next.settings.completion)
            &&& !(field is Completion) ==> next.settings.completion == draft.settings.completion
        }),
        persisted_state::finished(draft).assistant_settings is Some <==> draft.settings_seen,
        draft.settings_seen ==> persisted_state::finished(draft).assistant_settings == Some(
            draft.settings,
        ),
        persisted_state::finished(draft).selected_response_profile
            == draft.state.selected_response_profile,
        persisted_state::finished(draft).tts_enabled == draft.state.tts_enabled,
        persisted_state::finished(draft).ui_text_size == draft.state.ui_text_size,
        persisted_state::finished(draft).ui_theme == draft.state.ui_theme,
{
}

/// A file that does not exist, or is empty, says nothing.
pub proof fn law_empty_files_say_nothing()
    ensures
        persisted_state::loaded(None) == Ok::<PersistedState, Seq<char>>(
            persisted_state::no_state(),
        ),
        persisted_state::parsed(Seq::<char>::empty()) == persisted_state::loaded(None),
        persisted_state::no_state().selected_response_profile is None,
        persisted_state::no_state().tts_enabled is None,
        persisted_state::no_state().ui_text_size is None,
        persisted_state::no_state().ui_theme is None,
        persisted_state::no_state().assistant_settings is None,
{
    assert(text::lines_of(Seq::<char>::empty()) == Seq::<Seq<char>>::empty());
}

/// A value that was stored is read back, and every other value is read as before; a file that
/// cannot be read is not overwritten, and its message is told.
pub proof fn law_stored_values_are_read_back(
    contents: Option<Seq<char>>,
    profile: ResponseProfilePayload,
    enabled: bool,
    size: UiTextSizePayload,
    theme: UiThemePayload,
    settings: AssistantSettingsPayload,
)
    ensures
        persisted_state::loaded(contents) matches Err(message) ==> {
            let refused = Err::<Seq<char>, Seq<char>>(message);
            &&& persisted_state::profile_stored(contents, profile) == refused
            &&& persisted_state::choices_stored(contents, profile, settings) == refused
            &&& persisted_state::speech_stored(contents, enabled) == refused
            &&& persisted_state::text_size_stored(contents, size) == refused
            &&& persisted_state::theme_stored(contents, theme) == refused
            &&& persisted_state::settings_stored(contents, settings) == refused
            &&& persisted_state::said_profile(contents) == Err::<
                Option<ResponseProfilePayload>,
                Seq<char>,
            >(message)
            &&& persisted_state::said_speech(contents) == Err::<Option<bool>, Seq<char>>(message)
            &&& persisted_state::said_text_size(contents) == Err::<
                Option<UiTextSizePayload>,
                Seq<char>,
            >(message)
            &&& persisted_state::said_theme(contents) == Err::<Option<UiThemePayload>, Seq<char>>(
                message,
            )
            &&& persisted_state::said_settings(contents) == Err::<
                Option<AssistantSettingsPayload>,
                Seq<char>,
            >(message)
        },
        persisted_state::loaded(contents) is Ok ==> {
            &&& reads_back(
                contents,
                persisted_state::profile_stored(contents, profile),
                Some(profile),
                None,
                None,
                None,
                None,
            )
            &&& reads_back(
                contents,
                persisted_state::choices_stored(contents, profile, settings),
                Some(profile),
                None,
                None,
                None,
                Some(settings),
            )
            &&& reads_back(
                contents,
                persisted_state::speech_stored(contents, enabled),
                None,
                Some(enabled),
                None,
                None,
                None,
            )
            &&& reads_back(
                contents,
                persisted_state::text_size_stored(contents, size),
                None,
                None,
                Some(size),
                None,
                None,
            )
            &&& reads_back(
                contents,
                persisted_state::theme_stored(contents, theme),
                None,
                None,
                None,
                Some(theme),
                None,
            )
            &&& reads_back(
                contents,
                persisted_state::settings_stored(contents, settings),
                None,
                None,
                None,
                None,
                Some(settings),
            )
        },
{
    if let Ok(before) = persisted_state::loaded(contents) {
        law_replaced_value_keeps_the_others(before, profile, enabled, size, theme, settings);
    }
}

/// Whether a file that was written says the given values, and of every other value what the file
/// before it said.
pub open spec fn reads_back(
    before: Option<Seq<char>>,
    written: Result<Seq<char>, Seq<char>>,
    profile: Option<ResponseProfilePayload>,
    enabled: Option<bool>,
    size: Option<UiTextSizePayload>,
    theme: Option<UiThemePayload>,
    settings: Option<AssistantSettingsPayload>,
) -> bool {
    let after = Some(written->Ok_0);
    &&& written is Ok
    &&& persisted_state::said_profile(after) == (if profile is Some {
        Ok(profile)
    } else {
        persisted_state::said_profile(before)
    })
    &&& persisted_state::said_speech(after) == (if enabled is Some {
        Ok(enabled)
    } else {
        persisted_state::said_speech(before)
    })
    &&& persisted_state::said_text_size(after) == (if size is Some {
        Ok(size)
    } else {
        persisted_state::said_text_size(before)
    })
    &&& persisted_state::said_theme(after) == (if theme is Some {
        Ok(theme)
    } else {
        persisted_state::said_theme(before)
    })
    &&& persisted_state::said_settings(after) == (if settings is Some {
        Ok(settings)
    } else {
        persisted_state::said_settings(before)
    })
}

/// The state file holds a line for each value that is there, in a fixed order: names in quotation
/// marks, switches without.
pub proof fn law_every_value_has_its_line(state: PersistedState)
    ensures
        ({
            let named = |key: Seq<char>, name: Seq<char>|
                key + " = "@ + ("\""@ + name + "\""@) + "\n"@;
            let switch = |key: Seq<char>, on: bool|
                key + " = "@ + (if on {
                    "true"@
                } else {
                    "false"@
                }) + "\n"@;
            let nothing = Seq::<char>::empty();
            let profile = match state.selected_response_profile {
                Some(v) => named("selected_response_profile"@, v.name()),
                None => nothing,
            };
            let speech = match state.tts_enabled {
                Some(v) => switch("tts_enabled"@, v),
                None => nothing,
            };
            let size = match state.ui_text_size {
                Some(v) => named("ui_text_size"@, v.name()),
                None => nothing,
            };
            let theme = match state.ui_theme {
                Some(v) => named("ui_theme"@, v.name()),
                None => nothing,
            };
            let settings = match state.assistant_settings {
                Some(v) => named("assistant_instant"@, v.instant.name()) + named(
                    "assistant_deep"@,
                    v.deep.name(),
                ) + named("assistant_review"@, v.review.name()) + switch(
                    "assistant_deep_enabled"@,
                    v.deep_enabled,
                ) + switch("assistant_review_enabled"@, v.review_enabled) + switch(
                    "assistant_prefetch"@,
                    v.prefetch,
                ) + switch("assistant_completion"@, v.completion),
                None => nothing,
            };
            persisted_state::rendered(state) == profile + speech + size + theme + settings
        }),
{
    let l0 = Seq::<Seq<char>>::empty();
    let profile = match state.selected_response_profile {
        Some(v) => Some(persisted_state::quoted_line(StateField::Profile.key(), v.name())),
        None => None,
    };
    let speech = match state.tts_enabled {
        Some(v) => Some(
            persisted_state::bare_line(
                StateField::TtsEnabled.key(),
                persisted_state::bool_name(v),
            ),
        ),
        None => None,
    };
    let size = match state.ui_text_size {
        Some(v) => Some(persisted_state::quoted_line(StateField::UiTextSize.key(), v.name())),
        None => None,
    };
    let theme = match state.ui_theme {
        Some(v) => Some(persisted_state::quoted_line(StateField::UiTheme.key(), v.name())),
        None => None,
    };
    lemma_joined_with(l0, profile);
    let l1 = with_line(l0, profile);
    lemma_joined_with(l1, speech);
    let l2 = with_line(l1, speech);
    lemma_joined_with(l2, size);
    let l3 = with_line(l2, size);
    lemma_joined_with(l3, theme);
    let l4 = with_line(l3, theme);
    let written = match profile {
        Some(line) => line + "\n"@,
        None => Seq::<char>::empty(),
    };
    assert(persisted_state::joined(l0) + written == written);
    match state.assistant_settings {
        Some(v) => {
            lemma_joined_seven(l4, persisted_state::settings_lines(v));
            assert(persisted_state::state_lines(state) == l4 + persisted_state::settings_lines(v));
        },
        None => {
            assert(persisted_state::state_lines(state) == l4);
            assert(persisted_state::joined(l4) + Seq::<char>::empty() == persisted_state::joined(
                l4,
            ));
        },
    }
}

spec fn with_line(before: Seq<Seq<char>>, line: Option<Seq<char>>) -> Seq<Seq<char>> {
    match line {
        Some(present) => before.push(present),
        None => before,
    }
}

proof fn lemma_joined_with(before: Seq<Seq<char>>, line: Option<Seq<char>>)
    ensures
        persisted_state::joined(with_line(before, line)) == persisted_state::joined(before) + (
        match line {
            Some(present) => present + "\n"@,
            None => Seq::<char>::empty(),
        }),
{
    if let Some(present) = line {
        lemma_joined_push(before, present);
    }
}

proof fn lemma_joined_push(before: Seq<Seq<char>>, line: Seq<char>)
    ensures
        persisted_state::joined(before.push(line)) == persisted_state::joined(before) + (line
            + "\n"@),
{
    assert(before.push(line).drop_last() == before);
    assert(persisted_state::joined(before) + line + "\n"@ == persisted_state::joined(before) + (line
        + "\n"@));
}

proof fn lemma_joined_seven(before: Seq<Seq<char>>, lines: Seq<Seq<char>>)
    requires
        lines.len() == 7,
    ensures
        persisted_state::joined(before + lines) == persisted_state::joined(before) + ((lines[0]
            + "\n"@) + (lines[1] + "\n"@) + (lines[2] + "\n"@) + (lines[3] + "\n"@) + (lines[4]
            + "\n"@) + (lines[5] + "\n"@) + (lines[6] + "\n"@)),
{
    let all = before.push(lines[0]).push(lines[1]).push(lines[2]).push(lines[3]).push(
        lines[4],
    ).push(lines[5]).push(lines[6]);
    assert(before + lines == all);
    lemma_joined_push(before, lines[0]);
    let b1 = before.push(lines[0]);
    lemma_joined_push(b1, lines[1]);
    let b2 = b1.push(lines[1]);
    lemma_joined_push(b2, lines[2]);
    let b3 = b2.push(lines[2]);
    lemma_joined_push(b3, lines[3]);
    let b4 = b3.push(lines[3]);
    lemma_joined_push(b4, lines[4]);
    let b5 = b4.push(lines[4]);
    lemma_joined_push(b5, lines[5]);
    let b6 = b5.push(lines[5]);
    lemma_joined_push(b6, lines[6]);
}

} // verus!
