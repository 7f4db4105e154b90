//! The state file: what it says, how it is written, and how one value of it is replaced.

use crate::settings::{
    default_response_profile, AgentChoicePayload, AssistantSettingsPayload, InstantChoicePayload,
    ResponseProfilePayload, UiTextSizePayload, UiThemePayload,
};
use crate::settings;
use crate::text;
use crate::text::{
    concat3, lines, same_text, starts_with, strip_prefix, to_ascii_lowercase, trim,
    trim_matches, trim_start,
};
use vstd::prelude::*;
use vstd::string::*;

verus! {

/// What the state file holds; a value that it does not name is absent.
#[derive(Debug, Clone, Copy, PartialEq, Eq, Structural)]
pub struct PersistedState {
    pub selected_response_profile: Option<ResponseProfilePayload>,
    pub tts_enabled: Option<bool>,
    pub ui_text_size: Option<UiTextSizePayload>,
    pub ui_theme: Option<UiThemePayload>,
    pub assistant_settings: Option<AssistantSettingsPayload>,
}

/// The state of an installation without a state file.
pub open spec fn no_state() -> PersistedState {
    PersistedState {
        selected_response_profile: None,
        tts_enabled: None,
        ui_text_size: None,
        ui_theme: None,
        assistant_settings: None,
    }
}

impl Default for PersistedState {
    fn default() -> (state: Self)
        ensures
            state == no_state(),
    {
        PersistedState {
            selected_response_profile: None,
            tts_enabled: None,
            ui_text_size: None,
            ui_theme: None,
            assistant_settings: None,
        }
    }
}

/// The values that a line of the state file can set.
pub enum StateField {
    Profile,
    TtsEnabled,
    UiTextSize,
    UiTheme,
    Instant,
    DeepEnabled,
    Deep,
    ReviewEnabled,
    Review,
    Prefetch,
    Completion,
}

impl StateField {
    /// The word with which a line that sets the value begins.
    pub open spec fn key(self) -> Seq<char> {
        match self {
            StateField::Profile => "selected_response_profile"@,
            StateField::TtsEnabled => "tts_enabled"@,
            StateField::UiTextSize => "ui_text_size"@,
            StateField::UiTheme => "ui_theme"@,
            StateField::Instant => "assistant_instant"@,
            StateField::DeepEnabled => "assistant_deep_enabled"@,
            StateField::Deep => "assistant_deep"@,
            StateField::ReviewEnabled => "assistant_review_enabled"@,
            StateField::Review => "assistant_review"@,
            StateField::Prefetch => "assistant_prefetch"@,
            StateField::Completion => "assistant_completion"@,
        }
    }
}

/// The value that a line sets: the first one, in this order, whose key the line begins with.
pub open spec fn field_of(line: Seq<char>) -> Option<StateField> {
    if text::has_prefix(line, StateField::Profile.key()) {
        Some(StateField::Profile)
    } else if text::has_prefix(line, StateField::TtsEnabled.key()) {
        Some(StateField::TtsEnabled)
    } else if text::has_prefix(line, StateField::UiTextSize.key()) {
        Some(StateField::UiTextSize)
    } else if text::has_prefix(line, StateField::UiTheme.key()) {
        Some(StateField::UiTheme)
    } else if text::has_prefix(line, StateField::Instant.key()) {
        Some(StateField::Instant)
    } else if text::has_prefix(line, StateField::DeepEnabled.key()) {
        Some(StateField::DeepEnabled)
    } else if text::has_prefix(line, StateField::Deep.key()) {
        Some(StateField::Deep)
    } else if text::has_prefix(line, StateField::ReviewEnabled.key()) {
        Some(StateField::ReviewEnabled)
    } else if text::has_prefix(line, StateField::Review.key()) {
        Some(StateField::Review)
    } else if text::has_prefix(line, StateField::Prefetch.key()) {
        Some(StateField::Prefetch)
    } else if text::has_prefix(line, StateField::Completion.key()) {
        Some(StateField::Completion)
    } else {
        None
    }
}

/// The value that `rest`, what follows a key, assigns: what stands behind the equals sign,
/// without white space and then without quotation marks around it.
pub open spec fn assigned(rest: Seq<char>) -> Option<Seq<char>> {
    match text::after_prefix(text::trimmed_start(rest), "="@) {
        Some(value) => Some(text::stripped(text::trimmed(value), '"')),
        None => None,
    }
}

/// The message for a value that a field does not take.
pub open spec fn unsupported(field: Seq<char>, value: Seq<char>) -> Seq<char> {
    "invalid state.toml: unsupported "@ + field + " `"@ + value + "`"@
}

/// The value that `rest` assigns to `field`, or the message that an assignment was expected.
pub open spec fn spec_persisted_value(rest: Seq<char>, field: Seq<char>) -> Result<
    Seq<char>,
    Seq<char>,
> {
    match assigned(rest) {
        Some(value) => Ok(value),
        None => Err("invalid state.toml: expected `"@ + field + " = ...`"@),
    }
}

/// The response profile that `rest` assigns.
pub open spec fn spec_profile(rest: Seq<char>) -> Result<ResponseProfilePayload, Seq<char>> {
    match assigned(rest) {
        None => Err("invalid state.toml: expected `selected_response_profile = \"...\"`"@),
        Some(raw) => {
            let value = text::lowered(raw);
            if value == "fast"@ {
                Ok(ResponseProfilePayload::Fast)
            } else if value == "quality"@ {
                Ok(ResponseProfilePayload::Quality)
            } else {
                Err(unsupported("selected_response_profile"@, value))
            }
        },
    }
}

/// Whether `rest` switches spoken answers on.
pub open spec fn spec_tts_enabled(rest: Seq<char>) -> Result<bool, Seq<char>> {
    match assigned(rest) {
        None => Err("invalid state.toml: expected `tts_enabled = true|false`"@),
        Some(raw) => {
            let value = text::lowered(raw);
            if value == "true"@ {
                Ok(true)
            } else if value == "false"@ {
                Ok(false)
            } else {
                Err(unsupported("tts_enabled"@, value))
            }
        },
    }
}

/// The text size that `rest` assigns.
pub open spec fn spec_text_size(rest: Seq<char>) -> Result<UiTextSizePayload, Seq<char>> {
    match assigned(rest) {
        None => Err("invalid state.toml: expected `ui_text_size = \"...\"`"@),
        Some(raw) => {
            let value = text::lowered(raw);
            if value == "small"@ {
                Ok(UiTextSizePayload::Small)
            } else if value == "medium"@ {
                Ok(UiTextSizePayload::Medium)
            } else if value == "large"@ {
                Ok(UiTextSizePayload::Large)
            } else if value == "extra_large"@ {
                Ok(UiTextSizePayload::ExtraLarge)
            } else {
                Err(unsupported("ui_text_size"@, value))
            }
        },
    }
}

/// The theme that `rest` assigns.
pub open spec fn spec_theme(rest: Seq<char>) -> Result<UiThemePayload, Seq<char>> {
    match assigned(rest) {
        None => Err("invalid state.toml: expected `ui_theme = \"...\"`"@),
        Some(raw) => {
            let value = text::lowered(raw);
            if value == "light"@ {
                Ok(UiThemePayload::Light)
            } else if value == "dark"@ {
                Ok(UiThemePayload::Dark)
            } else {
                Err(unsupported("ui_theme"@, value))
            }
        },
    }
}

/// The Instant model that `rest` assigns.
pub open spec fn spec_instant(rest: Seq<char>) -> Result<InstantChoicePayload, Seq<char>> {
    match spec_persisted_value(rest, "assistant_instant"@) {
        Err(message) => Err(message),
        Ok(value) => if value == "local-fast"@ {
            Ok(InstantChoicePayload::LocalFast)
        } else if value == "local-quality"@ {
            Ok(InstantChoicePayload::LocalQuality)
        } else if value == "custom-sol-high"@ {
            Ok(InstantChoicePayload::CustomSolHigh)
        } else if value == "custom-luna-low"@ {
            Ok(InstantChoicePayload::CustomLunaLow)
        } else if value == "opencode-sol-high"@ {
            Ok(InstantChoicePayload::OpenCodeSolHigh)
        } else if value == "opencode-luna-low"@ {
            Ok(InstantChoicePayload::OpenCodeLunaLow)
        } else {
            Err(unsupported("assistant_instant"@, value))
        },
    }
}

/// The Deep or Review model that `rest` assigns.
pub open spec fn spec_agent(rest: Seq<char>, field: Seq<char>) -> Result<
    AgentChoicePayload,
    Seq<char>,
> {
    match spec_persisted_value(rest, field) {
        Err(message) => Err(message),
        Ok(value) => if value == "custom-sol-high"@ {
            Ok(AgentChoicePayload::CustomSolHigh)
        } else if value == "custom-luna-low"@ {
            Ok(AgentChoicePayload::CustomLunaLow)
        } else if value == "opencode-sol-high"@ {
            Ok(AgentChoicePayload::OpenCodeSolHigh)
        } else if value == "opencode-luna-low"@ {
            Ok(AgentChoicePayload::OpenCodeLunaLow)
        } else {
            Err(unsupported(field, value))
        },
    }
}

/// The switch that `rest` assigns.
pub open spec fn spec_bool(rest: Seq<char>, field: Seq<char>) -> Result<bool, Seq<char>> {
    match spec_persisted_value(rest, field) {
        Err(message) => Err(message),
        Ok(value) => if value == "true"@ {
            Ok(true)
        } else if value == "false"@ {
            Ok(false)
        } else {
            Err(unsupported(field, value))
        },
    }
}

/// What the lines read so far have set.
pub struct Draft {
    pub state: PersistedState,
    pub settings: AssistantSettingsPayload,
    pub settings_seen: bool,
}

/// What no line has set yet.
pub open spec fn empty_draft() -> Draft {
    Draft { state: no_state(), settings: settings::default_settings(), settings_seen: false }
}

/// The state that the lines have set: assistant settings only where a line named one of them.
pub open spec fn finished(draft: Draft) -> PersistedState {
    PersistedState {
        assistant_settings: if draft.settings_seen {
            Some(draft.settings)
        } else {
            None
        },
        ..draft.state
    }
}

/// The draft after new assistant settings.
pub open spec fn with_settings(draft: Draft, settings: AssistantSettingsPayload) -> Draft {
    Draft { state: draft.state, settings, settings_seen: true }
}

/// The draft after a line that assigns `rest` to `field`.
pub open spec fn set_field(draft: Draft, field: StateField, rest: Seq<char>) -> Result<
    Draft,
    Seq<char>,
> {
    match field {
        StateField::Profile => match spec_profile(rest) {
            Ok(v) => Ok(
                Draft {
                    state: PersistedState { selected_response_profile: Some(v), ..draft.state },
                    ..draft
                },
            ),
            Err(e) => Err(e),
        },
        StateField::TtsEnabled => match spec_tts_enabled(rest) {
            Ok(v) => Ok(
                Draft { state: PersistedState { tts_enabled: Some(v), ..draft.state }, ..draft },
            ),
            Err(e) => Err(e),
        },
        StateField::UiTextSize => match spec_text_size(rest) {
            Ok(v) => Ok(
                Draft { state: PersistedState { ui_text_size: Some(v), ..draft.state }, ..draft },
            ),
            Err(e) => Err(e),
        },
        StateField::UiTheme => match spec_theme(rest) {
            Ok(v) => Ok(
                Draft { state: PersistedState { ui_theme: Some(v), ..draft.state }, ..draft },
            ),
            Err(e) => Err(e),
        },
        StateField::Instant => match spec_instant(rest) {
            Ok(v) => Ok(
                with_settings(draft, AssistantSettingsPayload { instant: v, ..draft.settings }),
            ),
            Err(e) => Err(e),
        },
        StateField::DeepEnabled => match spec_bool(rest, "assistant_deep_enabled"@) {
            Ok(v) => Ok(
                with_settings(
                    draft,
                    AssistantSettingsPayload { deep_enabled: v, ..draft.settings },
                ),
            ),
            Err(e) => Err(e),
        },
        StateField::Deep => match spec_agent(rest, "assistant_deep"@) {
            Ok(v) => Ok(
                with_settings(draft, AssistantSettingsPayload { deep: v, ..draft.settings }),
            ),
            Err(e) => Err(e),
        },
        StateField::ReviewEnabled => match spec_bool(rest, "assistant_review_enabled"@) {
            Ok(v) => Ok(
                with_settings(
                    draft,
                    AssistantSettingsPayload { review_enabled: v, ..draft.settings },
                ),
            ),
            Err(e) => Err(e),
        },
        StateField::Review => match spec_agent(rest, "assistant_review"@) {
            Ok(v) => Ok(
                with_settings(draft, AssistantSettingsPayload { review: v, ..draft.settings }),
            ),
            Err(e) => Err(e),
        },
        StateField::Prefetch => match spec_bool(rest, "assistant_prefetch"@) {
            Ok(v) => Ok(
                with_settings(draft, AssistantSettingsPayload { prefetch: v, ..draft.settings }),
            ),
            Err(e) => Err(e),
        },
        StateField::Completion => match spec_bool(rest, "assistant_completion"@) {
            Ok(v) => Ok(
                with_settings(draft, AssistantSettingsPayload { completion: v, ..draft.settings }),
            ),
            Err(e) => Err(e),
        },
    }
}

/// Whether a line, already without white space around it, is empty, a comment or a table header.
pub open spec fn skipped(line: Seq<char>) -> bool {
    line.len() == 0 || text::has_prefix(line, "#"@) || text::has_prefix(line, "["@)
}

/// The draft after one more line.
#[verifier::opaque]
pub open spec fn parse_line(draft: Draft, raw: Seq<char>) -> Result<Draft, Seq<char>> {
    let line = text::trimmed(raw);
    if skipped(line) {
        Ok(draft)
    } else {
        match field_of(line) {
            Some(field) => set_field(draft, field, line.skip(field.key().len() as int)),
            None => Ok(draft),
        }
    }
}

/// The draft after all of `lines`, or the message of the first line that is refused.
pub open spec fn parse_lines(draft: Draft, lines: Seq<Seq<char>>) -> Result<Draft, Seq<char>>
    decreases lines.len(),
{
    if lines.len() == 0 {
        Ok(draft)
    } else {
        match parse_line(draft, lines[0]) {
            Ok(next) => parse_lines(next, lines.skip(1)),
            Err(message) => Err(message),
        }
    }
}

/// What a state file with these contents says.
pub open spec fn parsed(contents: Seq<char>) -> Result<PersistedState, Seq<char>> {
    match parse_lines(empty_draft(), text::lines_of(contents)) {
        Ok(draft) => Ok(finished(draft)),
        Err(message) => Err(message),
    }
}

/// The message for a value that `field` does not take.
fn unsupported_message(field: &str, value: &str) -> (message: String)
    ensures
        message@ == unsupported(field@, value@),
{
    let mut message = concat3("invalid state.toml: unsupported ", field, " `");
    message.append(value);
    message.append("`");
    message
}

/// What `rest` assigns, where an equals sign follows.
fn assigned_value<'a>(rest: &'a str) -> (value: Option<&'a str>)
    ensures
        text::optional_str(value) == assigned(rest@),
{
    match strip_prefix(trim_start(rest), "=") {
        Some(value) => Some(trim_matches(trim(value), '"')),
        None => None,
    }
}

/// The value that `value`, what follows a key in a line, assigns to `field`.
pub fn persisted_value<'a>(value: &'a str, field: &str) -> (result: Result<&'a str, String>)
    ensures
        match result {
            Ok(text) => spec_persisted_value(value@, field@) == Ok::<Seq<char>, Seq<char>>(text@),
            Err(message) => spec_persisted_value(value@, field@) == Err::<Seq<char>, Seq<char>>(
                message@,
            ),
        },
{
    match assigned_value(value) {
        Some(text) => Ok(text),
        None => Err(concat3("invalid state.toml: expected `", field, " = ...`")),
    }
}

/// The response profile that `rest` assigns.
fn parse_response_profile(rest: &str) -> (result: Result<ResponseProfilePayload, String>)
    ensures
        text::outcome(result) == spec_profile(rest@),
{
    match assigned_value(rest) {
        None => Err(
            "invalid state.toml: expected `selected_response_profile = \"...\"`".to_owned(),
        ),
        Some(raw) => {
            let value = to_ascii_lowercase(raw);
            if same_text(value.as_str(), "fast") {
                Ok(ResponseProfilePayload::Fast)
            } else if same_text(value.as_str(), "quality") {
                Ok(ResponseProfilePayload::Quality)
            } else {
                Err(unsupported_message("selected_response_profile", value.as_str()))
            }
        },
    }
}

/// Whether `rest` switches spoken answers on.
fn parse_tts_enabled(rest: &str) -> (result: Result<bool, String>)
    ensures
        text::outcome(result) == spec_tts_enabled(rest@),
{
    match assigned_value(rest) {
        None => Err("invalid state.toml: expected `tts_enabled = true|false`".to_owned()),
        Some(raw) => {
            let value = to_ascii_lowercase(raw);
            if same_text(value.as_str(), "true") {
                Ok(true)
            } else if same_text(value.as_str(), "false") {
                Ok(false)
            } else {
                Err(unsupported_message("tts_enabled", value.as_str()))
            }
        },
    }
}

/// The text size that `rest` assigns.
fn parse_ui_text_size(rest: &str) -> (result: Result<UiTextSizePayload, String>)
    ensures
        text::outcome(result) == spec_text_size(rest@),
{
    match assigned_value(rest) {
        None => Err("invalid state.toml: expected `ui_text_size = \"...\"`".to_owned()),
        Some(raw) => {
            let value = to_ascii_lowercase(raw);
            if same_text(value.as_str(), "small") {
                Ok(UiTextSizePayload::Small)
            } else if same_text(value.as_str(), "medium") {
                Ok(UiTextSizePayload::Medium)
            } else if same_text(value.as_str(), "large") {
                Ok(UiTextSizePayload::Large)
            } else if same_text(value.as_str(), "extra_large") {
                Ok(UiTextSizePayload::ExtraLarge)
            } else {
                Err(unsupported_message("ui_text_size", value.as_str()))
            }
        },
    }
}

/// The theme that `rest` assigns.
fn parse_ui_theme(rest: &str) -> (result: Result<UiThemePayload, String>)
    ensures
        text::outcome(result) == spec_theme(rest@),
{
    match assigned_value(rest) {
        None => Err("invalid state.toml: expected `ui_theme = \"...\"`".to_owned()),
        Some(raw) => {
            let value = to_ascii_lowercase(raw);
            if same_text(value.as_str(), "light") {
                Ok(UiThemePayload::Light)
            } else if same_text(value.as_str(), "dark") {
                Ok(UiThemePayload::Dark)
            } else {
                Err(unsupported_message("ui_theme", value.as_str()))
            }
        },
    }
}

/// The Instant model that `value`, what follows the key in a line, assigns.
pub fn parse_instant_choice(value: &str) -> (result: Result<InstantChoicePayload, String>)
    ensures
        text::outcome(result) == spec_instant(value@),
{
    match persisted_value(value, "assistant_instant") {
        Err(message) => Err(message),
        Ok(name) => if same_text(name, "local-fast") {
            Ok(InstantChoicePayload::LocalFast)
        } else if same_text(name, "local-quality") {
            Ok(InstantChoicePayload::LocalQuality)
        } else if same_text(name, "custom-sol-high") {
            Ok(InstantChoicePayload::CustomSolHigh)
        } else if same_text(name, "custom-luna-low") {
            Ok(InstantChoicePayload::CustomLunaLow)
        } else if same_text(name, "opencode-sol-high") {
            Ok(InstantChoicePayload::OpenCodeSolHigh)
        } else if same_text(name, "opencode-luna-low") {
            Ok(InstantChoicePayload::OpenCodeLunaLow)
        } else {
            Err(unsupported_message("assistant_instant", name))
        },
    }
}

/// The Deep or Review model that `value`, what follows the key in a line, assigns to `field`.
pub fn parse_agent_choice(value: &str, field: &str) -> (result: Result<AgentChoicePayload, String>)
    ensures
        text::outcome(result) == spec_agent(value@, field@),
{
    match persisted_value(value, field) {
        Err(message) => Err(message),
        Ok(name) => if same_text(name, "custom-sol-high") {
            Ok(AgentChoicePayload::CustomSolHigh)
        } else if same_text(name, "custom-luna-low") {
            Ok(AgentChoicePayload::CustomLunaLow)
        } else if same_text(name, "opencode-sol-high") {
            Ok(AgentChoicePayload::OpenCodeSolHigh)
        } else if same_text(name, "opencode-luna-low") {
            Ok(AgentChoicePayload::OpenCodeLunaLow)
        } else {
            Err(unsupported_message(field, name))
        },
    }
}

/// The switch that `value`, what follows the key in a line, assigns to `field`.
pub fn parse_persisted_bool(value: &str, field: &str) -> (result: Result<bool, String>)
    ensures
        text::outcome(result) == spec_bool(value@, field@),
{
    match persisted_value(value, field) {
        Err(message) => Err(message),
        Ok(name) => if same_text(name, "true") {
            Ok(true)
        } else if same_text(name, "false") {
            Ok(false)
        } else {
            Err(unsupported_message(field, name))
        },
    }
}

/// Reads one line into the draft.
fn read_line(draft: &mut Draft, raw: &str) -> (result: Result<(), String>)
    ensures
        match result {
            Ok(_) => parse_line(*old(draft), raw@) == Ok::<Draft, Seq<char>>(*final(draft)),
            Err(message) => parse_line(*old(draft), raw@) == Err::<Draft, Seq<char>>(message@),
        },
{
    proof {
        reveal(parse_line);
    }
    let line = trim(raw);
    if line.is_empty() || starts_with(line, "#") || starts_with(line, "[") {
        return Ok(());
    }
    if let Some(rest) = strip_prefix(line, "selected_response_profile") {
        draft.state.selected_response_profile = Some(parse_response_profile(rest)?);
        return Ok(());
    }
    if let Some(rest) = strip_prefix(line, "tts_enabled") {
        draft.state.tts_enabled = Some(parse_tts_enabled(rest)?);
        return Ok(());
    }
    if let Some(rest) = strip_prefix(line, "ui_text_size") {
        draft.state.ui_text_size = Some(parse_ui_text_size(rest)?);
        return Ok(());
    }
    if let Some(rest) = strip_prefix(line, "ui_theme") {
        draft.state.ui_theme = Some(parse_ui_theme(rest)?);
        return Ok(());
    }
    if let Some(rest) = strip_prefix(line, "assistant_instant") {
        draft.settings.instant = parse_instant_choice(rest)?;
        draft.settings_seen = true;
        return Ok(());
    }
    if let Some(rest) = strip_prefix(line, "assistant_deep_enabled") {
        draft.settings.deep_enabled = parse_persisted_bool(rest, "assistant_deep_enabled")?;
        draft.settings_seen = true;
        return Ok(());
    }
    if let Some(rest) = strip_prefix(line, "assistant_deep") {
        draft.settings.deep = parse_agent_choice(rest, "assistant_deep")?;
        draft.settings_seen = true;
        return Ok(());
    }
    if let Some(rest) = strip_prefix(line, "assistant_review_enabled") {
        draft.settings.review_enabled = parse_persisted_bool(rest, "assistant_review_enabled")?;
        draft.settings_seen = true;
        return Ok(());
    }
    if let Some(rest) = strip_prefix(line, "assistant_review") {
        draft.settings.review = parse_agent_choice(rest, "assistant_review")?;
        draft.settings_seen = true;
        return Ok(());
    }
    if let Some(rest) = strip_prefix(line, "assistant_prefetch") {
        draft.settings.prefetch = parse_persisted_bool(rest, "assistant_prefetch")?;
        draft.settings_seen = true;
        return Ok(());
    }
    if let Some(rest) = strip_prefix(line, "assistant_completion") {
        draft.settings.completion = parse_persisted_bool(rest, "assistant_completion")?;
        draft.settings_seen = true;
    }
    Ok(())
}

/// What a state file with these contents says, or why it is refused.
pub fn parse_persisted_state(contents: &str) -> (result: Result<PersistedState, String>)
    ensures
        text::outcome(result) == parsed(contents@),
{
    let all = lines(contents);
    let mut draft = Draft {
        state: PersistedState::default(),
        settings: AssistantSettingsPayload::default(),
        settings_seen: false,
    };
    let mut i: usize = 0;
    proof {
        assert(text::texts(all@).skip(0) == text::texts(all@));
    }
    while i < all.len()
        invariant
            i <= all.len(),
            text::texts(all@) == text::lines_of(contents@),
            parse_lines(draft, text::texts(all@).skip(i as int)) == parse_lines(
                empty_draft(),
                text::lines_of(contents@),
            ),
        decreases all.len() - i,
    {
        proof {
            let rest = text::texts(all@).skip(i as int);
            assert(rest[0] == all@[i as int]@);
            assert(rest.skip(1) == text::texts(all@).skip(i + 1));
        }
        match read_line(&mut draft, all[i]) {
            Ok(_) => {},
            Err(message) => {
                return Err(message);
            },
        }
        i += 1;
    }
    draft.state.assistant_settings = if draft.settings_seen {
        Some(draft.settings)
    } else {
        None
    };
    Ok(draft.state)
}

/// The text of a switch.
pub open spec fn bool_name(value: bool) -> Seq<char> {
    if value {
        "true"@
    } else {
        "false"@
    }
}

/// A line that sets `key` to a quoted value.
pub open spec fn quoted_line(key: Seq<char>, value: Seq<char>) -> Seq<char> {
    key + " = "@ + ("\""@ + value + "\""@)
}

/// A line that sets `key` to a bare value.
pub open spec fn bare_line(key: Seq<char>, value: Seq<char>) -> Seq<char> {
    key + " = "@ + value
}

/// The lines that write assistant settings.
pub open spec fn settings_lines(settings: AssistantSettingsPayload) -> Seq<Seq<char>> {
    seq![
        quoted_line(StateField::Instant.key(), settings.instant.name()),
        quoted_line(StateField::Deep.key(), settings.deep.name()),
        quoted_line(StateField::Review.key(), settings.review.name()),
        bare_line(StateField::DeepEnabled.key(), bool_name(settings.deep_enabled)),
        bare_line(StateField::ReviewEnabled.key(), bool_name(settings.review_enabled)),
        bare_line(StateField::Prefetch.key(), bool_name(settings.prefetch)),
        bare_line(StateField::Completion.key(), bool_name(settings.completion)),
    ]
}

/// The lines that write `state`.
pub open spec fn state_lines(state: PersistedState) -> Seq<Seq<char>> {
    let profile = match state.selected_response_profile {
        Some(v) => seq![quoted_line(StateField::Profile.key(), v.name())],
        None => seq![],
    };
    let tts = match state.tts_enabled {
        Some(v) => profile.push(bare_line(StateField::TtsEnabled.key(), bool_name(v))),
        None => profile,
    };
    let size = match state.ui_text_size {
        Some(v) => tts.push(quoted_line(StateField::UiTextSize.key(), v.name())),
        None => tts,
    };
    let theme = match state.ui_theme {
        Some(v) => size.push(quoted_line(StateField::UiTheme.key(), v.name())),
        None => size,
    };
    match state.assistant_settings {
        Some(v) => theme + settings_lines(v),
        None => theme,
    }
}

/// `lines`, each followed by a line feed.
pub open spec fn joined(lines: Seq<Seq<char>>) -> Seq<char>
    decreases lines.len(),
{
    if lines.len() == 0 {
        seq![]
    } else {
        joined(lines.drop_last()) + lines.last() + "\n"@
    }
}

/// The contents of the state file that holds `state`.
pub open spec fn rendered(state: PersistedState) -> Seq<char> {
    joined(state_lines(state))
}

/// Appends a line that sets `key` to a quoted value.
fn push_quoted(contents: &mut String, key: &str, value: &str, Ghost(before): Ghost<Seq<Seq<char>>>)
    requires
        old(contents)@ == joined(before),
    ensures
        final(contents)@ == joined(before.push(quoted_line(key@, value@))),
{
    contents.append(key);
    contents.append(" = ");
    contents.append("\"");
    contents.append(value);
    contents.append("\"");
    contents.append("\n");
    proof {
        let line = quoted_line(key@, value@);
        assert(before.push(line).drop_last() == before);
        assert(contents@ == joined(before) + line + "\n"@);
    }
}

/// Appends a line that sets `key` to a switch.
fn push_bool(contents: &mut String, key: &str, value: bool, Ghost(before): Ghost<Seq<Seq<char>>>)
    requires
        old(contents)@ == joined(before),
    ensures
        final(contents)@ == joined(before.push(bare_line(key@, bool_name(value)))),
{
    contents.append(key);
    contents.append(" = ");
    contents.append(
        if value {
            "true"
        } else {
            "false"
        },
    );
    contents.append("\n");
    proof {
        let line = bare_line(key@, bool_name(value));
        assert(before.push(line).drop_last() == before);
        assert(contents@ == joined(before) + line + "\n"@);
    }
}

/// Appends the lines that write assistant settings.
fn push_settings(
    contents: &mut String,
    settings: AssistantSettingsPayload,
    Ghost(before): Ghost<Seq<Seq<char>>>,
)
    requires
        old(contents)@ == joined(before),
    ensures
        final(contents)@ == joined(before + settings_lines(settings)),
{
    let ghost mut done = before;
    push_quoted(contents, "assistant_instant", settings.instant.as_str(), Ghost(done));
    proof {
        done = done.push(quoted_line(StateField::Instant.key(), settings.instant.name()));
    }
    push_quoted(contents, "assistant_deep", settings.deep.as_str(), Ghost(done));
    proof {
        done = done.push(quoted_line(StateField::Deep.key(), settings.deep.name()));
    }
    push_quoted(contents, "assistant_review", settings.review.as_str(), Ghost(done));
    proof {
        done = done.push(quoted_line(StateField::Review.key(), settings.review.name()));
    }
    push_bool(contents, "assistant_deep_enabled", settings.deep_enabled, Ghost(done));
    proof {
        done =
        done.push(bare_line(StateField::DeepEnabled.key(), bool_name(settings.deep_enabled)));
    }
    push_bool(contents, "assistant_review_enabled", settings.review_enabled, Ghost(done));
    proof {
        done =
        done.push(
            bare_line(StateField::ReviewEnabled.key(), bool_name(settings.review_enabled)),
        );
    }
    push_bool(contents, "assistant_prefetch", settings.prefetch, Ghost(done));
    proof {
        done = done.push(bare_line(StateField::Prefetch.key(), bool_name(settings.prefetch)));
    }
    push_bool(contents, "assistant_completion", settings.completion, Ghost(done));
    proof {
        done =
        done.push(bare_line(StateField::Completion.key(), bool_name(settings.completion)));
        assert(done == before + settings_lines(settings));
    }
}

/// The contents of the state file that persists `state`: a line for each value that is present.
pub fn persist_state(state: PersistedState) -> (contents: String)
    ensures
        contents@ == rendered(state),
{
    let mut contents = String::new();
    let ghost mut done: Seq<Seq<char>> = seq![];
    if let Some(profile) = state.selected_response_profile {
        push_quoted(&mut contents, "selected_response_profile", profile.as_str(), Ghost(done));
        proof {
            done = done.push(quoted_line(StateField::Profile.key(), profile.name()));
            assert(done == seq![quoted_line(StateField::Profile.key(), profile.name())]);
        }
    }
    if let Some(tts_enabled) = state.tts_enabled {
        push_bool(&mut contents, "tts_enabled", tts_enabled, Ghost(done));
        proof {
            done = done.push(bare_line(StateField::TtsEnabled.key(), bool_name(tts_enabled)));
        }
    }
    if let Some(ui_text_size) = state.ui_text_size {
        push_quoted(&mut contents, "ui_text_size", ui_text_size.as_str(), Ghost(done));
        proof {
            done = done.push(quoted_line(StateField::UiTextSize.key(), ui_text_size.name()));
        }
    }
    if let Some(ui_theme) = state.ui_theme {
        push_quoted(&mut contents, "ui_theme", ui_theme.as_str(), Ghost(done));
        proof {
            done = done.push(quoted_line(StateField::UiTheme.key(), ui_theme.name()));
        }
    }
    if let Some(settings) = state.assistant_settings {
        push_settings(&mut contents, settings, Ghost(done));
        proof {
            done = done + settings_lines(settings);
        }
    }
    proof {
        assert(done == state_lines(state));
    }
    contents
}

/// What the state file says, where `None` stands for a file that does not exist.
pub open spec fn loaded(contents: Option<Seq<char>>) -> Result<PersistedState, Seq<char>> {
    match contents {
        Some(text) => parsed(text),
        None => Ok(no_state()),
    }
}

/// The contents that a state file gets by one change to what it said before.
pub open spec fn rewritten(before: Result<PersistedState, Seq<char>>, after: PersistedState) -> Result<
    Seq<char>,
    Seq<char>,
> {
    match before {
        Ok(_) => Ok(rendered(after)),
        Err(message) => Err(message),
    }
}

/// What the state file says; a file that does not exist says nothing.
pub fn load_persisted_state(contents: Option<&str>) -> (result: Result<PersistedState, String>)
    ensures
        text::outcome(result) == loaded(text::optional_str(contents)),
{
    match contents {
        Some(present) => parse_persisted_state(present),
        None => Ok(PersistedState::default()),
    }
}

/// The response profile that a state file says.
pub open spec fn said_profile(contents: Option<Seq<char>>) -> Result<
    Option<ResponseProfilePayload>,
    Seq<char>,
> {
    match loaded(contents) {
        Ok(state) => Ok(state.selected_response_profile),
        Err(message) => Err(message),
    }
}

/// The response profile in the state file.
pub fn load_selected_response_profile(contents: Option<&str>) -> (result: Result<
    Option<ResponseProfilePayload>,
    String,
>)
    ensures
        text::outcome(result) == said_profile(text::optional_str(contents)),
{
    match load_persisted_state(contents) {
        Ok(state) => Ok(state.selected_response_profile),
        Err(message) => Err(message),
    }
}

/// The switch for spoken answers that a state file says.
pub open spec fn said_speech(contents: Option<Seq<char>>) -> Result<
    Option<bool>,
    Seq<char>,
> {
    match loaded(contents) {
        Ok(state) => Ok(state.tts_enabled),
        Err(message) => Err(message),
    }
}

/// The switch for spoken answers in the state file.
pub fn load_persisted_tts_enabled(contents: Option<&str>) -> (result: Result<Option<bool>, String>)
    ensures
        text::outcome(result) == said_speech(text::optional_str(contents)),
{
    match load_persisted_state(contents) {
        Ok(state) => Ok(state.tts_enabled),
        Err(message) => Err(message),
    }
}

/// The text size that a state file says.
pub open spec fn said_text_size(contents: Option<Seq<char>>) -> Result<
    Option<UiTextSizePayload>,
    Seq<char>,
> {
    match loaded(contents) {
        Ok(state) => Ok(state.ui_text_size),
        Err(message) => Err(message),
    }
}

/// The text size in the state file.
pub fn load_persisted_ui_text_size(contents: Option<&str>) -> (result: Result<
    Option<UiTextSizePayload>,
    String,
>)
    ensures
        text::outcome(result) == said_text_size(text::optional_str(contents)),
{
    match load_persisted_state(contents) {
        Ok(state) => Ok(state.ui_text_size),
        Err(message) => Err(message),
    }
}

/// The theme that a state file says.
pub open spec fn said_theme(contents: Option<Seq<char>>) -> Result<
    Option<UiThemePayload>,
    Seq<char>,
> {
    match loaded(contents) {
        Ok(state) => Ok(state.ui_theme),
        Err(message) => Err(message),
    }
}

/// The theme in the state file.
pub fn load_persisted_ui_theme(contents: Option<&str>) -> (result: Result<
    Option<UiThemePayload>,
    String,
>)
    ensures
        text::outcome(result) == said_theme(text::optional_str(contents)),
{
    match load_persisted_state(contents) {
        Ok(state) => Ok(state.ui_theme),
        Err(message) => Err(message),
    }
}

/// The assistant settings that a state file says.
pub open spec fn said_settings(contents: Option<Seq<char>>) -> Result<
    Option<AssistantSettingsPayload>,
    Seq<char>,
> {
    match loaded(contents) {
        Ok(state) => Ok(state.assistant_settings),
        Err(message) => Err(message),
    }
}

/// The assistant settings in the state file.
pub fn load_assistant_settings(contents: Option<&str>) -> (result: Result<
    Option<AssistantSettingsPayload>,
    String,
>)
    ensures
        text::outcome(result) == said_settings(text::optional_str(contents)),
{
    match load_persisted_state(contents) {
        Ok(state) => Ok(state.assistant_settings),
        Err(message) => Err(message),
    }
}

/// The contents after the response profile changed.
pub open spec fn profile_stored(
    contents: Option<Seq<char>>,
    profile: ResponseProfilePayload,
) -> Result<Seq<char>, Seq<char>> {
    let before = loaded(contents);
    rewritten(
        before,
        PersistedState {
            selected_response_profile: Some(profile),
            ..before->Ok_0
        },
    )
}

/// The contents of the state file after the response profile changed.
pub fn persist_selected_response_profile(
    contents: Option<&str>,
    profile: ResponseProfilePayload,
) -> (result: Result<String, String>)
    ensures
        text::text_outcome(result) == profile_stored(text::optional_str(contents), profile),
{
    match load_persisted_state(contents) {
        Ok(mut state) => {
            state.selected_response_profile = Some(profile);
            Ok(persist_state(state))
        },
        Err(message) => Err(message),
    }
}

/// The contents after response profile and assistant settings changed together.
pub open spec fn choices_stored(
    contents: Option<Seq<char>>,
    profile: ResponseProfilePayload,
    settings: AssistantSettingsPayload,
) -> Result<Seq<char>, Seq<char>> {
    let before = loaded(contents);
    rewritten(
        before,
        PersistedState {
            selected_response_profile: Some(profile),
            assistant_settings: Some(settings),
            ..before->Ok_0
        },
    )
}

/// The contents of the state file after response profile and assistant settings changed together.
pub fn persist_profile_and_assistant_settings(
    contents: Option<&str>,
    profile: ResponseProfilePayload,
    settings: AssistantSettingsPayload,
) -> (result: Result<String, String>)
    ensures
        text::text_outcome(result) == choices_stored(text::optional_str(contents), profile, settings),
{
    match load_persisted_state(contents) {
        Ok(mut state) => {
            state.selected_response_profile = Some(profile);
            state.assistant_settings = Some(settings);
            Ok(persist_state(state))
        },
        Err(message) => Err(message),
    }
}

/// The contents after spoken answers were switched.
pub open spec fn speech_stored(
    contents: Option<Seq<char>>,
    enabled: bool,
) -> Result<Seq<char>, Seq<char>> {
    let before = loaded(contents);
    rewritten(
        before,
        PersistedState {
            tts_enabled: Some(enabled),
            ..before->Ok_0
        },
    )
}

/// The contents of the state file after spoken answers were switched.
pub fn persist_tts_enabled(contents: Option<&str>, enabled: bool) -> (result: Result<
    String,
    String,
>)
    ensures
        text::text_outcome(result) == speech_stored(text::optional_str(contents), enabled),
{
    match load_persisted_state(contents) {
        Ok(mut state) => {
            state.tts_enabled = Some(enabled);
            Ok(persist_state(state))
        },
        Err(message) => Err(message),
    }
}

/// The contents after the text size changed.
pub open spec fn text_size_stored(
    contents: Option<Seq<char>>,
    text_size: UiTextSizePayload,
) -> Result<Seq<char>, Seq<char>> {
    let before = loaded(contents);
    rewritten(
        before,
        PersistedState {
            ui_text_size: Some(text_size),
            ..before->Ok_0
        },
    )
}

/// The contents of the state file after the text size changed.
pub fn persist_ui_text_size(contents: Option<&str>, text_size: UiTextSizePayload) -> (result:
    Result<String, String>)
    ensures
        text::text_outcome(result) == text_size_stored(text::optional_str(contents), text_size),
{
    match load_persisted_state(contents) {
        Ok(mut state) => {
            state.ui_text_size = Some(text_size);
            Ok(persist_state(state))
        },
        Err(message) => Err(message),
    }
}

/// The contents after the theme changed.
pub open spec fn theme_stored(
    contents: Option<Seq<char>>,
    theme: UiThemePayload,
) -> Result<Seq<char>, Seq<char>> {
    let before = loaded(contents);
    rewritten(
        before,
        PersistedState {
            ui_theme: Some(theme),
            ..before->Ok_0
        },
    )
}

/// The contents of the state file after the theme changed.
pub fn persist_ui_theme(contents: Option<&str>, theme: UiThemePayload) -> (result: Result<
    String,
    String,
>)
    ensures
        text::text_outcome(result) == theme_stored(text::optional_str(contents), theme),
{
    match load_persisted_state(contents) {
        Ok(mut state) => {
            state.ui_theme = Some(theme);
            Ok(persist_state(state))
        },
        Err(message) => Err(message),
    }
}

/// The contents after the assistant settings changed.
pub open spec fn settings_stored(
    contents: Option<Seq<char>>,
    settings: AssistantSettingsPayload,
) -> Result<Seq<char>, Seq<char>> {
    let before = loaded(contents);
    rewritten(
        before,
        PersistedState {
            assistant_settings: Some(settings),
            ..before->Ok_0
        },
    )
}

/// The contents of the state file after the assistant settings changed.
pub fn persist_assistant_settings(
    contents: Option<&str>,
    settings: AssistantSettingsPayload,
) -> (result: Result<String, String>)
    ensures
        text::text_outcome(result) == settings_stored(text::optional_str(contents), settings),
{
    match load_persisted_state(contents) {
        Ok(mut state) => {
            state.assistant_settings = Some(settings);
            Ok(persist_state(state))
        },
        Err(message) => Err(message),
    }
}

/// The profile to run with: the stored one where it is supported, else the default.
pub open spec fn resolved_profile(
    supported: Seq<ResponseProfilePayload>,
    persisted: Option<ResponseProfilePayload>,
) -> ResponseProfilePayload {
    if persisted is Some && supported.contains(persisted->0) {
        persisted->0
    } else {
        ResponseProfilePayload::Fast
    }
}

/// The profile to run with, and whether it has to be stored: it has where another one or none is.
pub fn resolve_selected_response_profile(
    supported_response_profiles: &[ResponseProfilePayload],
    persisted: Option<ResponseProfilePayload>,
) -> (result: (ResponseProfilePayload, bool))
    ensures
        result.0 == resolved_profile(supported_response_profiles@, persisted),
        result.1 == (persisted != Some(result.0)),
{
    let mut selected = default_response_profile();
    if let Some(profile) = persisted {
        if contains_profile(supported_response_profiles, profile) {
            selected = profile;
        }
    }
    let stored = match persisted {
        Some(profile) => profile == selected,
        None => false,
    };
    (selected, !stored)
}

/// Whether `profiles` holds `profile`.
pub fn contains_profile(profiles: &[ResponseProfilePayload], profile: ResponseProfilePayload) -> (
    result: bool)
    ensures
        result == profiles@.contains(profile),
{
    let mut i: usize = 0;
    while i < profiles.len()
        invariant
            i <= profiles.len(),
            forall|j: int| 0 <= j < i ==> profiles@[j] != profile,
        decreases profiles.len() - i,
    {
        if profiles[i] == profile {
            return true;
        }
        i += 1;
    }
    false
}

/// Whether spoken answers are on: never without a model, else as stored, else as configured.
pub fn resolve_effective_tts_enabled(
    default_enabled: bool,
    tts_available: bool,
    persisted: Option<bool>,
) -> (enabled: bool)
    ensures
        enabled == (tts_available && (match persisted {
            Some(stored) => stored,
            None => default_enabled,
        })),
{
    if !tts_available {
        return false;
    }
    match persisted {
        Some(stored) => stored,
        None => default_enabled,
    }
}

} // verus!
