//! The choices a user makes: response profile, assistant models, text size and theme.

use vstd::prelude::*;

verus! {

/// The speed and quality trade-off of local answers.
#[derive(Clone, Copy, Debug, PartialEq, Eq, Structural)]
pub enum ResponseProfilePayload {
    Fast,
    Quality,
}

impl ResponseProfilePayload {
    /// The name under which the profile is stored and shown.
    pub open spec fn name(self) -> Seq<char> {
        match self {
            ResponseProfilePayload::Fast => "fast"@,
            ResponseProfilePayload::Quality => "quality"@,
        }
    }

    /// The name under which the profile is stored and shown.
    pub fn as_str(self) -> (name: &'static str)
        ensures
            name@ == self.name(),
    {
        match self {
            ResponseProfilePayload::Fast => "fast",
            ResponseProfilePayload::Quality => "quality",
        }
    }

    /// The capability that serves the profile.
    pub open spec fn local_capability(self) -> Seq<char> {
        match self {
            ResponseProfilePayload::Fast => "local_fast"@,
            ResponseProfilePayload::Quality => "local_quality"@,
        }
    }

    /// The capability that serves the profile.
    pub fn local_capability_id(self) -> (id: &'static str)
        ensures
            id@ == self.local_capability(),
    {
        match self {
            ResponseProfilePayload::Fast => "local_fast",
            ResponseProfilePayload::Quality => "local_quality",
        }
    }
}

/// The model that gives the first answer.
#[derive(Clone, Copy, Debug, PartialEq, Eq, Structural)]
pub enum InstantChoicePayload {
    LocalFast,
    LocalQuality,
    CustomSolHigh,
    CustomLunaLow,
    OpenCodeSolHigh,
    OpenCodeLunaLow,
}

impl InstantChoicePayload {
    /// The name under which the choice is stored.
    pub open spec fn name(self) -> Seq<char> {
        match self {
            InstantChoicePayload::LocalFast => "local-fast"@,
            InstantChoicePayload::LocalQuality => "local-quality"@,
            InstantChoicePayload::CustomSolHigh => "custom-sol-high"@,
            InstantChoicePayload::CustomLunaLow => "custom-luna-low"@,
            InstantChoicePayload::OpenCodeSolHigh => "opencode-sol-high"@,
            InstantChoicePayload::OpenCodeLunaLow => "opencode-luna-low"@,
        }
    }

    /// The name under which the choice is stored.
    pub fn as_str(self) -> (name: &'static str)
        ensures
            name@ == self.name(),
    {
        match self {
            InstantChoicePayload::LocalFast => "local-fast",
            InstantChoicePayload::LocalQuality => "local-quality",
            InstantChoicePayload::CustomSolHigh => "custom-sol-high",
            InstantChoicePayload::CustomLunaLow => "custom-luna-low",
            InstantChoicePayload::OpenCodeSolHigh => "opencode-sol-high",
            InstantChoicePayload::OpenCodeLunaLow => "opencode-luna-low",
        }
    }

    /// The capability that the choice needs.
    pub open spec fn capability(self) -> Seq<char> {
        match self {
            InstantChoicePayload::LocalFast => "local_fast"@,
            InstantChoicePayload::LocalQuality => "local_quality"@,
            InstantChoicePayload::CustomSolHigh
            | InstantChoicePayload::CustomLunaLow => "custom_provider"@,
            InstantChoicePayload::OpenCodeSolHigh
            | InstantChoicePayload::OpenCodeLunaLow => "opencode"@,
        }
    }

    /// The capability that the choice needs.
    pub fn capability_id(self) -> (id: &'static str)
        ensures
            id@ == self.capability(),
    {
        match self {
            InstantChoicePayload::LocalFast => "local_fast",
            InstantChoicePayload::LocalQuality => "local_quality",
            InstantChoicePayload::CustomSolHigh
            | InstantChoicePayload::CustomLunaLow => "custom_provider",
            InstantChoicePayload::OpenCodeSolHigh
            | InstantChoicePayload::OpenCodeLunaLow => "opencode",
        }
    }

    /// Whether the choice is one of the local models.
    pub open spec fn local(self) -> bool {
        self == InstantChoicePayload::LocalFast || self == InstantChoicePayload::LocalQuality
    }

    /// The local model of a response profile.
    pub open spec fn of_profile(profile: ResponseProfilePayload) -> InstantChoicePayload {
        match profile {
            ResponseProfilePayload::Fast => InstantChoicePayload::LocalFast,
            ResponseProfilePayload::Quality => InstantChoicePayload::LocalQuality,
        }
    }

    /// The local model of a response profile.
    pub fn for_profile(profile: ResponseProfilePayload) -> (choice: InstantChoicePayload)
        ensures
            choice == InstantChoicePayload::of_profile(profile),
    {
        match profile {
            ResponseProfilePayload::Fast => InstantChoicePayload::LocalFast,
            ResponseProfilePayload::Quality => InstantChoicePayload::LocalQuality,
        }
    }
}

/// The model of the Deep or Review stage.
#[derive(Clone, Copy, Debug, PartialEq, Eq, Structural)]
pub enum AgentChoicePayload {
    CustomSolHigh,
    CustomLunaLow,
    OpenCodeSolHigh,
    OpenCodeLunaLow,
}

impl AgentChoicePayload {
    /// The name under which the choice is stored.
    pub open spec fn name(self) -> Seq<char> {
        match self {
            AgentChoicePayload::CustomSolHigh => "custom-sol-high"@,
            AgentChoicePayload::CustomLunaLow => "custom-luna-low"@,
            AgentChoicePayload::OpenCodeSolHigh => "opencode-sol-high"@,
            AgentChoicePayload::OpenCodeLunaLow => "opencode-luna-low"@,
        }
    }

    /// The name under which the choice is stored.
    pub fn as_str(self) -> (name: &'static str)
        ensures
            name@ == self.name(),
    {
        match self {
            AgentChoicePayload::CustomSolHigh => "custom-sol-high",
            AgentChoicePayload::CustomLunaLow => "custom-luna-low",
            AgentChoicePayload::OpenCodeSolHigh => "opencode-sol-high",
            AgentChoicePayload::OpenCodeLunaLow => "opencode-luna-low",
        }
    }

    /// The capability that the choice needs.
    pub open spec fn capability(self) -> Seq<char> {
        match self {
            AgentChoicePayload::CustomSolHigh
            | AgentChoicePayload::CustomLunaLow => "custom_provider"@,
            AgentChoicePayload::OpenCodeSolHigh
            | AgentChoicePayload::OpenCodeLunaLow => "opencode"@,
        }
    }

    /// The capability that the choice needs.
    pub fn capability_id(self) -> (id: &'static str)
        ensures
            id@ == self.capability(),
    {
        match self {
            AgentChoicePayload::CustomSolHigh
            | AgentChoicePayload::CustomLunaLow => "custom_provider",
            AgentChoicePayload::OpenCodeSolHigh | AgentChoicePayload::OpenCodeLunaLow => "opencode",
        }
    }
}

/// The assistant's models and switches, as the user sees and stores them.
#[derive(Clone, Copy, Debug, PartialEq, Eq, Structural)]
pub struct AssistantSettingsPayload {
    pub instant: InstantChoicePayload,
    pub deep: AgentChoicePayload,
    pub review: AgentChoicePayload,
    pub deep_enabled: bool,
    pub review_enabled: bool,
    pub prefetch: bool,
    pub completion: bool,
}

/// The settings of an installation that has stored none.
pub open spec fn default_settings() -> AssistantSettingsPayload {
    AssistantSettingsPayload {
        instant: InstantChoicePayload::LocalFast,
        deep: AgentChoicePayload::OpenCodeSolHigh,
        review: AgentChoicePayload::OpenCodeSolHigh,
        deep_enabled: false,
        review_enabled: false,
        prefetch: false,
        completion: true,
    }
}

impl Default for AssistantSettingsPayload {
    fn default() -> (settings: Self)
        ensures
            settings == default_settings(),
    {
        AssistantSettingsPayload {
            instant: InstantChoicePayload::LocalFast,
            deep: AgentChoicePayload::OpenCodeSolHigh,
            review: AgentChoicePayload::OpenCodeSolHigh,
            deep_enabled: false,
            review_enabled: false,
            prefetch: false,
            completion: true,
        }
    }
}

/// The model of the Instant stage, as the assistant runs it.
#[derive(Clone, Copy, Debug, PartialEq, Eq, Structural)]
pub enum InstantModel {
    LocalFast,
    LocalQuality,
    CustomSolHigh,
    CustomLunaLow,
    OpenCodeSolHigh,
    OpenCodeLunaLow,
}

/// The model of the Deep or Review stage, as the assistant runs it.
#[derive(Clone, Copy, Debug, PartialEq, Eq, Structural)]
pub enum AgentModel {
    CustomSolHigh,
    CustomLunaLow,
    OpenCodeSolHigh,
    OpenCodeLunaLow,
}

/// The assistant's models and switches, as the assistant runs them.
#[derive(Clone, Copy, Debug, PartialEq, Eq, Structural)]
pub struct AssistantPreferences {
    pub instant_model: InstantModel,
    pub deep_model: AgentModel,
    pub review_model: AgentModel,
    pub deep_enabled: bool,
    pub review_enabled: bool,
    pub prefetch_enabled: bool,
    pub completion_enabled: bool,
}

/// The model behind a stored Instant choice.
pub open spec fn instant_model_of(choice: InstantChoicePayload) -> InstantModel {
    match choice {
        InstantChoicePayload::LocalFast => InstantModel::LocalFast,
        InstantChoicePayload::LocalQuality => InstantModel::LocalQuality,
        InstantChoicePayload::CustomSolHigh => InstantModel::CustomSolHigh,
        InstantChoicePayload::CustomLunaLow => InstantModel::CustomLunaLow,
        InstantChoicePayload::OpenCodeSolHigh => InstantModel::OpenCodeSolHigh,
        InstantChoicePayload::OpenCodeLunaLow => InstantModel::OpenCodeLunaLow,
    }
}

/// The model behind a stored Deep or Review choice.
pub open spec fn agent_model_of(choice: AgentChoicePayload) -> AgentModel {
    match choice {
        AgentChoicePayload::CustomSolHigh => AgentModel::CustomSolHigh,
        AgentChoicePayload::CustomLunaLow => AgentModel::CustomLunaLow,
        AgentChoicePayload::OpenCodeSolHigh => AgentModel::OpenCodeSolHigh,
        AgentChoicePayload::OpenCodeLunaLow => AgentModel::OpenCodeLunaLow,
    }
}

/// The preferences that stand for `settings`.
pub open spec fn preferences_of(settings: AssistantSettingsPayload) -> AssistantPreferences {
    AssistantPreferences {
        instant_model: instant_model_of(settings.instant),
        deep_model: agent_model_of(settings.deep),
        review_model: agent_model_of(settings.review),
        deep_enabled: settings.deep_enabled,
        review_enabled: settings.review_enabled,
        prefetch_enabled: settings.prefetch,
        completion_enabled: settings.completion,
    }
}

/// The model behind a stored Deep or Review choice.
pub fn agent_model(choice: AgentChoicePayload) -> (model: AgentModel)
    ensures
        model == agent_model_of(choice),
{
    match choice {
        AgentChoicePayload::CustomSolHigh => AgentModel::CustomSolHigh,
        AgentChoicePayload::CustomLunaLow => AgentModel::CustomLunaLow,
        AgentChoicePayload::OpenCodeSolHigh => AgentModel::OpenCodeSolHigh,
        AgentChoicePayload::OpenCodeLunaLow => AgentModel::OpenCodeLunaLow,
    }
}

/// The stored choice of a Deep or Review model.
pub fn agent_choice(model: AgentModel) -> (choice: AgentChoicePayload)
    ensures
        agent_model_of(choice) == model,
{
    match model {
        AgentModel::CustomSolHigh => AgentChoicePayload::CustomSolHigh,
        AgentModel::CustomLunaLow => AgentChoicePayload::CustomLunaLow,
        AgentModel::OpenCodeSolHigh => AgentChoicePayload::OpenCodeSolHigh,
        AgentModel::OpenCodeLunaLow => AgentChoicePayload::OpenCodeLunaLow,
    }
}

impl vstd::std_specs::convert::FromSpecImpl<AssistantSettingsPayload> for AssistantPreferences {
    open spec fn obeys_from_spec() -> bool {
        true
    }

    open spec fn from_spec(settings: AssistantSettingsPayload) -> Self {
        preferences_of(settings)
    }
}

impl From<AssistantSettingsPayload> for AssistantPreferences {
    fn from(settings: AssistantSettingsPayload) -> Self {
        AssistantPreferences {
            instant_model: match settings.instant {
                InstantChoicePayload::LocalFast => InstantModel::LocalFast,
                InstantChoicePayload::LocalQuality => InstantModel::LocalQuality,
                InstantChoicePayload::CustomSolHigh => InstantModel::CustomSolHigh,
                InstantChoicePayload::CustomLunaLow => InstantModel::CustomLunaLow,
                InstantChoicePayload::OpenCodeSolHigh => InstantModel::OpenCodeSolHigh,
                InstantChoicePayload::OpenCodeLunaLow => InstantModel::OpenCodeLunaLow,
            },
            deep_model: agent_model(settings.deep),
            review_model: agent_model(settings.review),
            deep_enabled: settings.deep_enabled,
            review_enabled: settings.review_enabled,
            prefetch_enabled: settings.prefetch,
            completion_enabled: settings.completion,
        }
    }
}

/// The settings that stand for `preferences`.
pub open spec fn settings_of(preferences: AssistantPreferences) -> AssistantSettingsPayload {
    AssistantSettingsPayload {
        instant: match preferences.instant_model {
            InstantModel::LocalFast => InstantChoicePayload::LocalFast,
            InstantModel::LocalQuality => InstantChoicePayload::LocalQuality,
            InstantModel::CustomSolHigh => InstantChoicePayload::CustomSolHigh,
            InstantModel::CustomLunaLow => InstantChoicePayload::CustomLunaLow,
            InstantModel::OpenCodeSolHigh => InstantChoicePayload::OpenCodeSolHigh,
            InstantModel::OpenCodeLunaLow => InstantChoicePayload::OpenCodeLunaLow,
        },
        deep: choice_of_agent(preferences.deep_model),
        review: choice_of_agent(preferences.review_model),
        deep_enabled: preferences.deep_enabled,
        review_enabled: preferences.review_enabled,
        prefetch: preferences.prefetch_enabled,
        completion: preferences.completion_enabled,
    }
}

/// The stored choice of a Deep or Review model.
pub open spec fn choice_of_agent(model: AgentModel) -> AgentChoicePayload {
    match model {
        AgentModel::CustomSolHigh => AgentChoicePayload::CustomSolHigh,
        AgentModel::CustomLunaLow => AgentChoicePayload::CustomLunaLow,
        AgentModel::OpenCodeSolHigh => AgentChoicePayload::OpenCodeSolHigh,
        AgentModel::OpenCodeLunaLow => AgentChoicePayload::OpenCodeLunaLow,
    }
}

impl<'a> vstd::std_specs::convert::FromSpecImpl<&'a AssistantPreferences> for AssistantSettingsPayload {
    open spec fn obeys_from_spec() -> bool {
        true
    }

    open spec fn from_spec(preferences: &'a AssistantPreferences) -> Self {
        settings_of(*preferences)
    }
}

impl<'a> From<&'a AssistantPreferences> for AssistantSettingsPayload {
    fn from(preferences: &'a AssistantPreferences) -> Self {
        AssistantSettingsPayload {
            instant: match preferences.instant_model {
                InstantModel::LocalFast => InstantChoicePayload::LocalFast,
                InstantModel::LocalQuality => InstantChoicePayload::LocalQuality,
                InstantModel::CustomSolHigh => InstantChoicePayload::CustomSolHigh,
                InstantModel::CustomLunaLow => InstantChoicePayload::CustomLunaLow,
                InstantModel::OpenCodeSolHigh => InstantChoicePayload::OpenCodeSolHigh,
                InstantModel::OpenCodeLunaLow => InstantChoicePayload::OpenCodeLunaLow,
            },
            deep: agent_choice(preferences.deep_model),
            review: agent_choice(preferences.review_model),
            deep_enabled: preferences.deep_enabled,
            review_enabled: preferences.review_enabled,
            prefetch: preferences.prefetch_enabled,
            completion: preferences.completion_enabled,
        }
    }
}

/// Settings survive the way to preferences and back, and preferences the way to settings and
/// back.
pub proof fn law_settings_and_preferences_correspond(
    settings: AssistantSettingsPayload,
    preferences: AssistantPreferences,
)
    ensures
        settings_of(preferences_of(settings)) == settings,
        preferences_of(settings_of(preferences)) == preferences,
{
}

/// The size of the text on screen.
#[derive(Clone, Copy, Debug, PartialEq, Eq, Structural)]
pub enum UiTextSizePayload {
    Small,
    Medium,
    Large,
    ExtraLarge,
}

impl UiTextSizePayload {
    /// The name under which the size is stored.
    pub open spec fn name(self) -> Seq<char> {
        match self {
            UiTextSizePayload::Small => "small"@,
            UiTextSizePayload::Medium => "medium"@,
            UiTextSizePayload::Large => "large"@,
            UiTextSizePayload::ExtraLarge => "extra_large"@,
        }
    }

    /// The name under which the size is stored.
    pub fn as_str(self) -> (name: &'static str)
        ensures
            name@ == self.name(),
    {
        match self {
            UiTextSizePayload::Small => "small",
            UiTextSizePayload::Medium => "medium",
            UiTextSizePayload::Large => "large",
            UiTextSizePayload::ExtraLarge => "extra_large",
        }
    }
}

/// The colours on screen.
#[derive(Clone, Copy, Debug, PartialEq, Eq, Structural)]
pub enum UiThemePayload {
    Light,
    Dark,
}

impl UiThemePayload {
    /// The name under which the theme is stored.
    pub open spec fn name(self) -> Seq<char> {
        match self {
            UiThemePayload::Light => "light"@,
            UiThemePayload::Dark => "dark"@,
        }
    }

    /// The name under which the theme is stored.
    pub fn as_str(self) -> (name: &'static str)
        ensures
            name@ == self.name(),
    {
        match self {
            UiThemePayload::Light => "light",
            UiThemePayload::Dark => "dark",
        }
    }
}

/// The profile of an installation that has stored none.
pub fn default_response_profile() -> (profile: ResponseProfilePayload)
    ensures
        profile == ResponseProfilePayload::Fast,
{
    ResponseProfilePayload::Fast
}

/// The text size of an installation that has stored none.
pub fn default_ui_text_size() -> (size: UiTextSizePayload)
    ensures
        size == UiTextSizePayload::Medium,
{
    UiTextSizePayload::Medium
}

/// The theme of an installation that has stored none.
pub fn default_ui_theme() -> (theme: UiThemePayload)
    ensures
        theme == UiThemePayload::Dark,
{
    UiThemePayload::Dark
}

/// Every choice is stored under a name of its own, which says whose model it is.
pub proof fn law_choices_are_stored_under_their_names(
    profile: ResponseProfilePayload,
    size: UiTextSizePayload,
    theme: UiThemePayload,
)
    ensures
        profile is Fast ==> profile.name() == "fast"@,
        profile is Quality ==> profile.name() == "quality"@,
        InstantChoicePayload::LocalFast.name() == "local-fast"@,
        InstantChoicePayload::LocalQuality.name() == "local-quality"@,
        InstantChoicePayload::CustomSolHigh.name() == "custom-sol-high"@,
        InstantChoicePayload::CustomLunaLow.name() == "custom-luna-low"@,
        InstantChoicePayload::OpenCodeSolHigh.name() == "opencode-sol-high"@,
        InstantChoicePayload::OpenCodeLunaLow.name() == "opencode-luna-low"@,
        AgentChoicePayload::CustomSolHigh.name() == InstantChoicePayload::CustomSolHigh.name(),
        AgentChoicePayload::CustomLunaLow.name() == InstantChoicePayload::CustomLunaLow.name(),
        AgentChoicePayload::OpenCodeSolHigh.name() == InstantChoicePayload::OpenCodeSolHigh.name(),
        AgentChoicePayload::OpenCodeLunaLow.name() == InstantChoicePayload::OpenCodeLunaLow.name(),
        size is Small ==> size.name() == "small"@,
        size is Medium ==> size.name() == "medium"@,
        size is Large ==> size.name() == "large"@,
        size is ExtraLarge ==> size.name() == "extra_large"@,
        theme is Light ==> theme.name() == "light"@,
        theme is Dark ==> theme.name() == "dark"@,
{
}

/// A choice needs the capability of whoever runs its model: each local model its own, every other
/// one that of its provider.
pub proof fn law_choices_need_who_runs_them(
    profile: ResponseProfilePayload,
    instant: InstantChoicePayload,
    agent: AgentChoicePayload,
)
    ensures
        instant is LocalFast ==> instant.capability() == "local_fast"@,
        instant is LocalQuality ==> instant.capability() == "local_quality"@,
        instant is CustomSolHigh || instant is CustomLunaLow ==> instant.capability()
            == "custom_provider"@,
        instant is OpenCodeSolHigh || instant is OpenCodeLunaLow ==> instant.capability()
            == "opencode"@,
        agent is CustomSolHigh || agent is CustomLunaLow ==> agent.capability()
            == "custom_provider"@,
        agent is OpenCodeSolHigh || agent is OpenCodeLunaLow ==> agent.capability() == "opencode"@,
        InstantChoicePayload::of_profile(profile).capability() == profile.local_capability(),
        InstantChoicePayload::of_profile(profile).local(),
        profile is Fast <==> InstantChoicePayload::of_profile(profile) is LocalFast,
        profile is Quality <==> InstantChoicePayload::of_profile(profile) is LocalQuality,
        instant.local() <==> instant is LocalFast || instant is LocalQuality,
        profile is Fast ==> profile.local_capability() == "local_fast"@,
        profile is Quality ==> profile.local_capability() == "local_quality"@,
{
}

/// The assistant runs just the models and the switches that are set.
pub proof fn law_settings_are_run_as_they_are_set(settings: AssistantSettingsPayload)
    ensures
        ({
            let run = preferences_of(settings);
            let same = |choice: AgentChoicePayload, model: AgentModel|
                {
                    &&& choice is CustomSolHigh <==> model is CustomSolHigh
                    &&& choice is CustomLunaLow <==> model is CustomLunaLow
                    &&& choice is OpenCodeSolHigh <==> model is OpenCodeSolHigh
                    &&& choice is OpenCodeLunaLow <==> model is OpenCodeLunaLow
                };
            &&& settings.instant is LocalFast <==> run.instant_model is LocalFast
            &&& settings.instant is LocalQuality <==> run.instant_model is LocalQuality
            &&& settings.instant is CustomSolHigh <==> run.instant_model is CustomSolHigh
            &&& settings.instant is CustomLunaLow <==> run.instant_model is CustomLunaLow
            &&& settings.instant is OpenCodeSolHigh <==> run.instant_model is OpenCodeSolHigh
            &&& settings.instant is OpenCodeLunaLow <==> run.instant_model is OpenCodeLunaLow
            &&& same(settings.deep, run.deep_model)
            &&& same(settings.review, run.review_model)
            &&& run.deep_enabled == settings.deep_enabled
            &&& run.review_enabled == settings.review_enabled
            &&& run.prefetch_enabled == settings.prefetch
            &&& run.completion_enabled == settings.completion
        }),
{
}

/// An installation that has stored nothing answers with the fast local model alone and predicts how
/// prompts go on.
pub proof fn law_nothing_but_prediction_is_on_by_default()
    ensures
        default_settings().instant is LocalFast,
        default_settings().deep is OpenCodeSolHigh,
        default_settings().review is OpenCodeSolHigh,
        !default_settings().deep_enabled,
        !default_settings().review_enabled,
        !default_settings().prefetch,
        default_settings().completion,
{
}

} // verus!
