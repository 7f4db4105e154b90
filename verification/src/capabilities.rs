//! What the application can do: the list of capabilities, how it is built from the configuration,
//! and how events change it.

use crate::config;
use crate::config::{
    CapabilityConfigIssue, OpencodeRuntime, ResponseBackendConfig, RuntimeConfig,
};
use crate::settings;
use crate::settings::{
    AgentChoicePayload, AssistantSettingsPayload, InstantChoicePayload, ResponseProfilePayload,
};
use crate::text;
use crate::text::{concat2, concat3, same_text};
use crate::tts::{LocalTtsRuntime, TtsActualProvider};
use vstd::prelude::*;
use vstd::string::*;

verus! {

broadcast use vstd::string::group_string_axioms;

/// One thing that the application can do, or why it cannot.
#[derive(Clone, Debug, PartialEq, Eq)]
pub struct CapabilityPayload {
    pub id: &'static str,
    pub state: CapabilityStatePayload,
    pub reason: String,
    pub actual_provider: Option<&'static str>,
}

/// Whether a capability can be used.
#[derive(Clone, Copy, Debug, PartialEq, Eq, Structural)]
pub enum CapabilityStatePayload {
    Available,
    Warming,
    NotConfigured,
    Unavailable,
    Failed,
}

/// A capability by its contents.
#[verifier::ext_equal]
pub struct CapabilityView {
    pub id: Seq<char>,
    pub state: CapabilityStatePayload,
    pub reason: Seq<char>,
    pub actual_provider: Option<Seq<char>>,
}

impl View for CapabilityPayload {
    type V = CapabilityView;

    open spec fn view(&self) -> CapabilityView {
        CapabilityView {
            id: self.id@,
            state: self.state,
            reason: self.reason@,
            actual_provider: text::optional_str(self.actual_provider),
        }
    }
}

/// Capabilities by their contents.
pub open spec fn views(capabilities: Seq<CapabilityPayload>) -> Seq<CapabilityView> {
    capabilities.map_values(|capability: CapabilityPayload| capability@)
}

/// The names of capabilities, in order.
pub open spec fn ids(capabilities: Seq<CapabilityView>) -> Seq<Seq<char>> {
    capabilities.map_values(|capability: CapabilityView| capability.id)
}

/// The position of the first capability of a name at or after `from`, or the number of
/// capabilities.
pub open spec fn index_from(capabilities: Seq<CapabilityView>, id: Seq<char>, from: int) -> int
    decreases capabilities.len() - from,
{
    if from < 0 || from >= capabilities.len() {
        capabilities.len() as int
    } else if capabilities[from].id == id {
        from
    } else {
        index_from(capabilities, id, from + 1)
    }
}

/// The position of the first capability of a name, or the number of capabilities.
pub open spec fn index_of(capabilities: Seq<CapabilityView>, id: Seq<char>) -> int {
    index_from(capabilities, id, 0)
}

/// The capabilities after the first one of a name was put into a state.
pub open spec fn marked(
    capabilities: Seq<CapabilityView>,
    id: Seq<char>,
    state: CapabilityStatePayload,
    reason: Seq<char>,
    actual_provider: Option<Seq<char>>,
) -> Seq<CapabilityView> {
    let index = index_of(capabilities, id);
    if 0 <= index < capabilities.len() {
        capabilities.update(index, CapabilityView { id, state, reason, actual_provider })
    } else {
        capabilities
    }
}

/// The capabilities after the first one of a name came to run on a provider.
pub open spec fn provided(
    capabilities: Seq<CapabilityView>,
    id: Seq<char>,
    actual_provider: Seq<char>,
) -> Seq<CapabilityView> {
    marked(
        capabilities,
        id,
        CapabilityStatePayload::Available,
        "ready"@,
        Some(actual_provider),
    )
}

/// Whether some capability of a name is available.
pub open spec fn available(capabilities: Seq<CapabilityView>, id: Seq<char>) -> bool {
    exists|i: int|
        0 <= i < capabilities.len() && (#[trigger] capabilities[i]).id == id
            && capabilities[i].state is Available
}

proof fn lemma_index(capabilities: Seq<CapabilityView>, id: Seq<char>, from: int)
    requires
        0 <= from <= capabilities.len(),
    ensures
        from <= index_from(capabilities, id, from) <= capabilities.len(),
        index_from(capabilities, id, from) < capabilities.len() ==> capabilities[index_from(
            capabilities,
            id,
            from,
        )].id == id,
        forall|i: int|
            from <= i < index_from(capabilities, id, from) ==> (#[trigger] capabilities[i]).id
                != id,
    decreases capabilities.len() - from,
{
    if from < capabilities.len() && capabilities[from].id != id {
        lemma_index(capabilities, id, from + 1);
    }
}

/// Changing a capability leaves every other one, and the order of all, as it was.
pub proof fn law_only_the_named_capability_changes(
    capabilities: Seq<CapabilityView>,
    id: Seq<char>,
    state: CapabilityStatePayload,
    reason: Seq<char>,
    actual_provider: Option<Seq<char>>,
)
    ensures
        ids(marked(capabilities, id, state, reason, actual_provider)) == ids(capabilities),
        forall|i: int|
            0 <= i < capabilities.len() && (#[trigger] capabilities[i]).id != id ==> marked(
                capabilities,
                id,
                state,
                reason,
                actual_provider,
            )[i] == capabilities[i],
        forall|other: Seq<char>|
            other != id ==> #[trigger] available(
                marked(capabilities, id, state, reason, actual_provider),
                other,
            ) == available(capabilities, other),
{
    lemma_index(capabilities, id, 0);
    let after = marked(capabilities, id, state, reason, actual_provider);
    assert(ids(after) =~= ids(capabilities));
    assert forall|other: Seq<char>| other != id implies #[trigger] available(after, other)
        == available(capabilities, other) by {
        if available(capabilities, other) {
            let i = choose|i: int|
                0 <= i < capabilities.len() && (#[trigger] capabilities[i]).id == other
                    && capabilities[i].state is Available;
            assert(after[i] == capabilities[i]);
        }
        if available(after, other) {
            let i = choose|i: int|
                0 <= i < after.len() && (#[trigger] after[i]).id == other
                    && after[i].state is Available;
            assert(after[i] == capabilities[i]);
        }
    }
}

/// The position of the first capability of a name.
fn find(capabilities: &Vec<CapabilityPayload>, id: &str) -> (index: Option<usize>)
    ensures
        match index {
            Some(i) => i < capabilities@.len() && i == index_of(views(capabilities@), id@)
                && capabilities@[i as int]@.id == id@,
            None => index_of(views(capabilities@), id@) == capabilities@.len(),
        },
{
    let mut i: usize = 0;
    while i < capabilities.len()
        invariant
            i <= capabilities.len(),
            index_from(views(capabilities@), id@, i as int) == index_of(
                views(capabilities@),
                id@,
            ),
        decreases capabilities.len() - i,
    {
        proof {
            assert(views(capabilities@)[i as int] == capabilities@[i as int]@);
        }
        if same_text(capabilities[i].id, id) {
            return Some(i);
        }
        i += 1;
    }
    None
}

/// Puts the first capability of a name into a state.
fn set_capability(
    capabilities: &mut Vec<CapabilityPayload>,
    id: &str,
    state: CapabilityStatePayload,
    reason: String,
    actual_provider: Option<&'static str>,
)
    ensures
        views(final(capabilities)@) == marked(
            views(old(capabilities)@),
            id@,
            state,
            reason@,
            text::optional_str(actual_provider),
        ),
{
    if let Some(i) = find(capabilities, id) {
        let name: &'static str = capabilities[i].id;
        let ghost before = views(capabilities@);
        let changed = CapabilityPayload { id: name, state, reason, actual_provider };
        let ghost shown = changed@;
        capabilities.set(i, changed);
        proof {
            assert(views(capabilities@) =~= before.update(i as int, shown));
        }
    }
}

/// Whether some capability of a name is available.
pub fn capability_available(capabilities: &Vec<CapabilityPayload>, id: &str) -> (result: bool)
    ensures
        result == available(views(capabilities@), id@),
{
    let mut i: usize = 0;
    while i < capabilities.len()
        invariant
            i <= capabilities.len(),
            forall|j: int|
                0 <= j < i ==> !((#[trigger] views(capabilities@)[j]).id == id@ && views(
                    capabilities@,
                )[j].state is Available),
        decreases capabilities.len() - i,
    {
        proof {
            assert(views(capabilities@)[i as int] == capabilities@[i as int]@);
        }
        if same_text(capabilities[i].id, id) && capabilities[i].state
            == CapabilityStatePayload::Available {
            return true;
        }
        i += 1;
    }
    false
}

/// Puts the first capability of a name into a state, without a provider.
pub fn mark_capability(
    capabilities: &mut Vec<CapabilityPayload>,
    id: &str,
    state: CapabilityStatePayload,
    reason: String,
)
    ensures
        views(final(capabilities)@) == marked(
            views(old(capabilities)@),
            id@,
            state,
            reason@,
            None,
        ),
{
    set_capability(capabilities, id, state, reason, None);
}

/// The capabilities without local models: each local one that was available has failed.
pub open spec fn without_local_models(
    capabilities: Seq<CapabilityView>,
    reason: Seq<char>,
) -> Seq<CapabilityView> {
    let failed = CapabilityStatePayload::Failed;
    let slower = if available(capabilities, "local_fast"@) {
        marked(capabilities, "local_fast"@, failed, reason, None)
    } else {
        capabilities
    };
    if available(slower, "local_quality"@) {
        marked(slower, "local_quality"@, failed, reason, None)
    } else {
        slower
    }
}

/// Records that no local model can answer.
pub fn disable_local_models(capabilities: &mut Vec<CapabilityPayload>, reason: &str)
    ensures
        views(final(capabilities)@) == without_local_models(views(old(capabilities)@), reason@),
{
    if capability_available(capabilities, "local_fast") {
        mark_capability(
            capabilities,
            "local_fast",
            CapabilityStatePayload::Failed,
            reason.to_owned(),
        );
    }
    if capability_available(capabilities, "local_quality") {
        mark_capability(
            capabilities,
            "local_quality",
            CapabilityStatePayload::Failed,
            reason.to_owned(),
        );
    }
}

/// Records that the first capability of a name runs on a provider.
pub fn provide_capability(
    capabilities: &mut Vec<CapabilityPayload>,
    id: &str,
    actual_provider: &'static str,
)
    ensures
        views(final(capabilities)@) == provided(
            views(old(capabilities)@),
            id@,
            actual_provider@,
        ),
{
    set_capability(
        capabilities,
        id,
        CapabilityStatePayload::Available,
        "ready".to_owned(),
        Some(actual_provider),
    );
}

/// The name of what speech is computed on.
pub open spec fn tts_provider_name(provider: TtsActualProvider) -> Seq<char> {
    match provider {
        TtsActualProvider::Cuda => "cuda"@,
        TtsActualProvider::Cpu => "cpu"@,
    }
}

/// The speech capability once spoken answers were switched: it runs on what the runtime runs on,
/// and is ready where there is a runtime and it is on.
pub open spec fn tts_repaired(
    capability: CapabilityView,
    enabled: bool,
    runtime: Option<LocalTtsRuntime>,
) -> CapabilityView {
    let ready = enabled && runtime is Some;
    CapabilityView {
        id: capability.id,
        state: if ready {
            CapabilityStatePayload::Available
        } else {
            capability.state
        },
        reason: if ready {
            "ready"@
        } else {
            capability.reason
        },
        actual_provider: if ready && runtime->0.actual_provider is Some {
            Some(tts_provider_name(runtime->0.actual_provider->0))
        } else {
            None
        },
    }
}

/// Capabilities whose speech capability is in line with the runtime.
pub open spec fn repaired(
    capabilities: Seq<CapabilityView>,
    enabled: bool,
    runtime: Option<LocalTtsRuntime>,
) -> Seq<CapabilityView> {
    let index = index_of(capabilities, "tts"@);
    if 0 <= index < capabilities.len() {
        capabilities.update(index, tts_repaired(capabilities[index], enabled, runtime))
    } else {
        capabilities
    }
}

/// Brings the speech capability in line with the runtime.
pub fn repair_tts_capability(
    capabilities: &mut Vec<CapabilityPayload>,
    enabled: bool,
    runtime: Option<&LocalTtsRuntime>,
)
    ensures
        views(final(capabilities)@) == repaired(
            views(old(capabilities)@),
            enabled,
            match runtime {
                Some(present) => Some(*present),
                None => None,
            },
        ),
{
    if let Some(i) = find(capabilities, "tts") {
        let provider: Option<&'static str> = match runtime {
            Some(present) => match present.actual_provider() {
                Some(TtsActualProvider::Cuda) => Some("cuda"),
                Some(TtsActualProvider::Cpu) => Some("cpu"),
                None => None,
            },
            None => None,
        };
        let ready = enabled && runtime.is_some();
        let ghost before = views(capabilities@);
        let changed = CapabilityPayload {
            id: capabilities[i].id,
            state: if ready {
                CapabilityStatePayload::Available
            } else {
                capabilities[i].state
            },
            reason: if ready {
                "ready".to_owned()
            } else {
                capabilities[i].reason.clone()
            },
            actual_provider: if enabled {
                provider
            } else {
                None
            },
        };
        let ghost shown = changed@;
        capabilities.set(i, changed);
        proof {
            assert(views(capabilities@) =~= before.update(i as int, shown));
            assert(before[i as int].id == "tts"@);
        }
    }
}

/// The names of all capabilities, in the order in which they are listed.
pub open spec fn capability_ids() -> Seq<Seq<char>> {
    seq![
        "custom_provider"@,
        "opencode"@,
        "local_fast"@,
        "local_quality"@,
        "qwen_prediction"@,
        "wake_word"@,
        "vad"@,
        "parakeet"@,
        "tts"@,
        "deep"@,
        "review"@,
    ]
}

/// The names of all capabilities, in the order in which they are listed.
pub fn all_capability_ids() -> (names: Vec<&'static str>)
    ensures
        text::texts(names@) == capability_ids(),
{
    let names: Vec<&'static str> = vec![
        "custom_provider",
        "opencode",
        "local_fast",
        "local_quality",
        "qwen_prediction",
        "wake_word",
        "vad",
        "parakeet",
        "tts",
        "deep",
        "review",
    ];
    proof {
        assert(text::texts(names@) =~= capability_ids());
    }
    names
}

/// The list in which every capability has failed for the same reason.
pub fn failed_capabilities(reason: String) -> (capabilities: Vec<CapabilityPayload>)
    ensures
        views(capabilities@) == capability_ids().map_values(
            |id: Seq<char>|
                CapabilityView {
                    id,
                    state: CapabilityStatePayload::Failed,
                    reason: reason@,
                    actual_provider: None,
                },
        ),
{
    let names = all_capability_ids();
    let mut capabilities: Vec<CapabilityPayload> = Vec::new();
    let ghost failed = |id: Seq<char>|
        CapabilityView {
            id,
            state: CapabilityStatePayload::Failed,
            reason: reason@,
            actual_provider: None,
        };
    let mut i: usize = 0;
    while i < names.len()
        invariant
            i <= names.len(),
            text::texts(names@) == capability_ids(),
            failed == (|id: Seq<char>|
                CapabilityView {
                    id,
                    state: CapabilityStatePayload::Failed,
                    reason: reason@,
                    actual_provider: None,
                }),
            views(capabilities@) == capability_ids().take(i as int).map_values(failed),
        decreases names.len() - i,
    {
        let ghost before = views(capabilities@);
        let capability = CapabilityPayload {
            id: names[i],
            state: CapabilityStatePayload::Failed,
            reason: reason.clone(),
            actual_provider: None,
        };
        let ghost shown = capability@;
        capabilities.push(capability);
        proof {
            assert(views(capabilities@) =~= before.push(shown));
            assert(capability_ids()[i as int] == names@[i as int]@);
            assert(capability_ids().take(i + 1).map_values(failed) =~= before.push(shown));
        }
        i += 1;
    }
    proof {
        assert(capability_ids().take(names@.len() as int) =~= capability_ids());
    }
    capabilities
}

/// Whether an issue speaks of a capability: it names it, or all providers of answers at once.
pub open spec fn concerns(issue: config::IssueView, id: Seq<char>) -> bool {
    issue.capability == id || (issue.capability == "response_provider"@ && (id
        == "custom_provider"@ || id == "opencode"@ || id == "local_fast"@ || id
        == "local_quality"@))
}

/// What the first issue that speaks of a capability says.
pub open spec fn first_issue(issues: Seq<config::IssueView>, id: Seq<char>) -> Option<Seq<char>>
    decreases issues.len(),
{
    if issues.len() == 0 {
        None
    } else if concerns(issues[0], id) {
        Some(issues[0].reason)
    } else {
        first_issue(issues.skip(1), id)
    }
}

/// Whether some issue names exactly this capability.
pub open spec fn has_issue(issues: Seq<config::IssueView>, id: Seq<char>) -> bool {
    exists|i: int| 0 <= i < issues.len() && (#[trigger] issues[i]).capability == id
}

/// Whether the OpenCode service can be started.
pub open spec fn opencode_configured(config: RuntimeConfig, on_windows: bool) -> bool {
    config.opencode is Some && (match config.opencode->0.runtime {
        OpencodeRuntime::Native => config.opencode->0.path.present,
        OpencodeRuntime::Wsl => on_windows,
    })
}

/// Whether the custom provider can be asked.
pub open spec fn custom_configured(config: RuntimeConfig) -> bool {
    config.custom_openai is Some && config.custom_openai->0.auth_path.present && !has_issue(
        config::issue_views(config.capability_issues@),
        "custom_provider"@,
    )
}

/// Whether everything that a capability needs is configured and there.
pub open spec fn configured(config: RuntimeConfig, on_windows: bool, id: Seq<char>) -> bool {
    if id == "custom_provider"@ {
        custom_configured(config)
    } else if id == "opencode"@ {
        opencode_configured(config, on_windows)
    } else if id == "local_fast"@ {
        config.llama_cpp is Some && config.llama_cpp->0.server_path.present
            && config.llama_cpp->0.fast_model_path.present
    } else if id == "local_quality"@ {
        config.llama_cpp is Some && config.llama_cpp->0.server_path.present
            && config.llama_cpp->0.quality_model_path is Some
            && config.llama_cpp->0.quality_model_path->0.present
    } else if id == "qwen_prediction"@ {
        config.completion is Some && config.completion->0.server_path.present
            && config.completion->0.model_path.present
    } else if id == "wake_word"@ {
        config.wake_word_model.present
    } else if id == "vad"@ {
        config.silero_vad_model.present
    } else if id == "parakeet"@ {
        config.parakeet_model_dir.present
    } else if id == "tts"@ {
        config.tts_model.present
    } else if id == "deep"@ || id == "review"@ {
        custom_configured(config) || opencode_configured(config, on_windows)
    } else {
        false
    }
}

/// A capability as the configuration leaves it.
pub open spec fn configured_capability(
    config: RuntimeConfig,
    on_windows: bool,
    id: Seq<char>,
) -> CapabilityView {
    let issue = first_issue(config::issue_views(config.capability_issues@), id);
    if configured(config, on_windows, id) {
        CapabilityView {
            id,
            state: if id == "qwen_prediction"@ {
                CapabilityStatePayload::Warming
            } else {
                CapabilityStatePayload::Available
            },
            reason: if id == "qwen_prediction"@ {
                "completion model is loading"@
            } else {
                "ready"@
            },
            actual_provider: if id == "wake_word"@ || id == "vad"@ || id == "parakeet"@ {
                Some("cpu"@)
            } else {
                None
            },
        }
    } else {
        CapabilityView {
            id,
            state: if issue is Some && issue->0 != "not configured"@ {
                CapabilityStatePayload::Unavailable
            } else {
                CapabilityStatePayload::NotConfigured
            },
            reason: match issue {
                Some(reason) => reason,
                None => "not configured"@,
            },
            actual_provider: None,
        }
    }
}

fn is_custom_configured(config: &RuntimeConfig) -> (result: bool)
    ensures
        result == custom_configured(*config),
{
    let present = match &config.custom_openai {
        Some(custom) => custom.auth_path.present,
        None => false,
    };
    if !present {
        return false;
    }
    let ghost issues = config::issue_views(config.capability_issues@);
    let mut i: usize = 0;
    while i < config.capability_issues.len()
        invariant
            i <= config.capability_issues.len(),
            issues == config::issue_views(config.capability_issues@),
            forall|j: int|
                0 <= j < i ==> (#[trigger] issues[j]).capability != "custom_provider"@,
            present == (config.custom_openai is Some && config.custom_openai->0.auth_path.present),
            present,
        decreases config.capability_issues.len() - i,
    {
        proof {
            assert(issues[i as int] == config.capability_issues@[i as int]@);
        }
        if same_text(config.capability_issues[i].capability, "custom_provider") {
            return false;
        }
        i += 1;
    }
    true
}

fn is_opencode_configured(config: &RuntimeConfig, on_windows: bool) -> (result: bool)
    ensures
        result == opencode_configured(*config, on_windows),
{
    match &config.opencode {
        Some(opencode) => match opencode.runtime {
            OpencodeRuntime::Native => opencode.path.present,
            OpencodeRuntime::Wsl => on_windows,
        },
        None => false,
    }
}

fn is_configured(config: &RuntimeConfig, on_windows: bool, id: &str) -> (result: bool)
    ensures
        result == configured(*config, on_windows, id@),
{
    if same_text(id, "custom_provider") {
        is_custom_configured(config)
    } else if same_text(id, "opencode") {
        is_opencode_configured(config, on_windows)
    } else if same_text(id, "local_fast") {
        match &config.llama_cpp {
            Some(llama) => llama.server_path.present && llama.fast_model_path.present,
            None => false,
        }
    } else if same_text(id, "local_quality") {
        match &config.llama_cpp {
            Some(llama) => match &llama.quality_model_path {
                Some(path) => llama.server_path.present && path.present,
                None => false,
            },
            None => false,
        }
    } else if same_text(id, "qwen_prediction") {
        match &config.completion {
            Some(completion) => completion.server_path.present && completion.model_path.present,
            None => false,
        }
    } else if same_text(id, "wake_word") {
        config.wake_word_model.present
    } else if same_text(id, "vad") {
        config.silero_vad_model.present
    } else if same_text(id, "parakeet") {
        config.parakeet_model_dir.present
    } else if same_text(id, "tts") {
        config.tts_model.present
    } else if same_text(id, "deep") || same_text(id, "review") {
        is_custom_configured(config) || is_opencode_configured(config, on_windows)
    } else {
        false
    }
}

fn find_issue(issues: &Vec<CapabilityConfigIssue>, id: &str) -> (reason: Option<String>)
    ensures
        text::optional_text(reason) == first_issue(config::issue_views(issues@), id@),
{
    let answers = same_text(id, "custom_provider") || same_text(id, "opencode") || same_text(
        id,
        "local_fast",
    ) || same_text(id, "local_quality");
    let ghost all = config::issue_views(issues@);
    let mut i: usize = 0;
    proof {
        assert(all.skip(0) == all);
    }
    while i < issues.len()
        invariant
            i <= issues.len(),
            all == config::issue_views(issues@),
            answers == (id@ == "custom_provider"@ || id@ == "opencode"@ || id@ == "local_fast"@
                || id@ == "local_quality"@),
            first_issue(all.skip(i as int), id@) == first_issue(all, id@),
        decreases issues.len() - i,
    {
        proof {
            assert(all.skip(i as int)[0] == issues@[i as int]@);
            assert(all.skip(i as int).skip(1) == all.skip(i + 1));
        }
        if same_text(issues[i].capability, id) || (answers && same_text(
            issues[i].capability,
            "response_provider",
        )) {
            return Some(issues[i].reason.clone());
        }
        i += 1;
    }
    None
}

fn capability_of(config: &RuntimeConfig, on_windows: bool, id: &'static str) -> (capability:
    CapabilityPayload)
    ensures
        capability@ == configured_capability(*config, on_windows, id@),
{
    let predicts = same_text(id, "qwen_prediction");
    let local = same_text(id, "wake_word") || same_text(id, "vad") || same_text(id, "parakeet");
    if is_configured(config, on_windows, id) {
        return CapabilityPayload {
            id,
            state: if predicts {
                CapabilityStatePayload::Warming
            } else {
                CapabilityStatePayload::Available
            },
            reason: if predicts {
                "completion model is loading".to_owned()
            } else {
                "ready".to_owned()
            },
            actual_provider: if local {
                Some("cpu")
            } else {
                None
            },
        };
    }
    match find_issue(&config.capability_issues, id) {
        Some(reason) => CapabilityPayload {
            id,
            state: if same_text(reason.as_str(), "not configured") {
                CapabilityStatePayload::NotConfigured
            } else {
                CapabilityStatePayload::Unavailable
            },
            reason,
            actual_provider: None,
        },
        None => CapabilityPayload {
            id,
            state: CapabilityStatePayload::NotConfigured,
            reason: "not configured".to_owned(),
            actual_provider: None,
        },
    }
}

/// The capabilities as the configuration leaves them.
pub open spec fn initial_capabilities(config: RuntimeConfig, on_windows: bool) -> Seq<
    CapabilityView,
> {
    capability_ids().map_values(|id: Seq<char>| configured_capability(config, on_windows, id))
}

/// The capabilities as the configuration leaves them.
pub fn configured_capabilities(config: &RuntimeConfig, on_windows: bool) -> (capabilities: Vec<
    CapabilityPayload,
>)
    ensures
        views(capabilities@) == initial_capabilities(*config, on_windows),
{
    let names = all_capability_ids();
    let mut capabilities: Vec<CapabilityPayload> = Vec::new();
    let ghost expected = initial_capabilities(*config, on_windows);
    let mut i: usize = 0;
    while i < names.len()
        invariant
            i <= names.len(),
            text::texts(names@) == capability_ids(),
            expected == initial_capabilities(*config, on_windows),
            views(capabilities@) == expected.take(i as int),
        decreases names.len() - i,
    {
        let ghost before = views(capabilities@);
        let capability = capability_of(config, on_windows, names[i]);
        let ghost shown = capability@;
        capabilities.push(capability);
        proof {
            assert(views(capabilities@) =~= before.push(shown));
            assert(capability_ids()[i as int] == names@[i as int]@);
            assert(expected[i as int] == shown);
            assert(expected.take(i + 1) =~= before.push(shown));
        }
        i += 1;
    }
    proof {
        assert(expected.take(names@.len() as int) =~= expected);
    }
    capabilities
}

/// What is missing disables only what needs it: a model or a server that changes leaves every
/// capability as it was but its own, and those of the stages that run on it.
pub proof fn law_missing_assets_disable_only_their_capability(
    config: RuntimeConfig,
    changed: RuntimeConfig,
    on_windows: bool,
    id: Seq<char>,
)
    ensures
        changed == (RuntimeConfig { wake_word_model: changed.wake_word_model, ..config }) && id
            != "wake_word"@ ==> configured_capability(changed, on_windows, id)
            == configured_capability(config, on_windows, id),
        changed == (RuntimeConfig { silero_vad_model: changed.silero_vad_model, ..config }) && id
            != "vad"@ ==> configured_capability(changed, on_windows, id) == configured_capability(
            config,
            on_windows,
            id,
        ),
        changed == (RuntimeConfig { parakeet_model_dir: changed.parakeet_model_dir, ..config })
            && id != "parakeet"@ ==> configured_capability(changed, on_windows, id)
            == configured_capability(config, on_windows, id),
        changed == (RuntimeConfig { tts_model: changed.tts_model, ..config }) && id != "tts"@
            ==> configured_capability(changed, on_windows, id) == configured_capability(
            config,
            on_windows,
            id,
        ),
        changed == (RuntimeConfig { completion: changed.completion, ..config }) && id
            != "qwen_prediction"@ ==> configured_capability(changed, on_windows, id)
            == configured_capability(config, on_windows, id),
        changed == (RuntimeConfig { llama_cpp: changed.llama_cpp, ..config }) && id
            != "local_fast"@ && id != "local_quality"@ ==> configured_capability(
            changed,
            on_windows,
            id,
        ) == configured_capability(config, on_windows, id),
        changed == (RuntimeConfig { opencode: changed.opencode, ..config }) && id != "opencode"@
            && id != "deep"@ && id != "review"@ ==> configured_capability(changed, on_windows, id)
            == configured_capability(config, on_windows, id),
{
}

/// Credentials that could not be found are not replaced by others: an issue of the custom provider
/// keeps it from being used, whatever file its credentials were configured in.
pub proof fn law_missing_credentials_disable_the_custom_provider(
    config: RuntimeConfig,
    on_windows: bool,
    at: int,
)
    requires
        0 <= at < config.capability_issues@.len(),
        config.capability_issues@[at]@.capability == "custom_provider"@,
    ensures
        !(configured_capability(config, on_windows, "custom_provider"@).state is Available),
{
    assert(config::issue_views(config.capability_issues@)[at].capability == "custom_provider"@);
}

/// The capabilities after a profile that was asked for did not start and another one, or the
/// same one at the second attempt, was started in its place.
pub open spec fn restored(
    capabilities: Seq<CapabilityView>,
    requested: ResponseProfilePayload,
    restored: ResponseProfilePayload,
    startup_error: Seq<char>,
    actual_provider: Seq<char>,
) -> Seq<CapabilityView> {
    let after_request = if requested == restored {
        marked(
            capabilities,
            requested.local_capability(),
            CapabilityStatePayload::Available,
            "ready"@,
            None,
        )
    } else {
        marked(
            capabilities,
            requested.local_capability(),
            CapabilityStatePayload::Failed,
            requested_failure(requested, startup_error),
            None,
        )
    };
    provided(after_request, restored.local_capability(), actual_provider)
}

/// The reason of a capability whose profile was asked for and did not start.
pub open spec fn requested_failure(
    requested: ResponseProfilePayload,
    startup_error: Seq<char>,
) -> Seq<char> {
    "failed to initialize requested "@ + requested.name() + " profile: "@ + startup_error
}

/// The reason of a capability whose profile was asked for and did not start.
pub fn requested_failure_text(requested: ResponseProfilePayload, startup_error: &str) -> (reason:
    String)
    ensures
        reason@ == requested_failure(requested, startup_error@),
{
    let mut reason = concat3("failed to initialize requested ", requested.as_str(), " profile: ");
    reason.append(startup_error);
    reason
}

/// Records that a profile was asked for and that `restored` runs.
pub fn update_restored_profile_capabilities(
    capabilities: &mut Vec<CapabilityPayload>,
    requested: ResponseProfilePayload,
    restored: ResponseProfilePayload,
    startup_error: &str,
    actual_provider: &'static str,
)
    ensures
        views(final(capabilities)@) == self::restored(
            views(old(capabilities)@),
            requested,
            restored,
            startup_error@,
            actual_provider@,
        ),
{
    if requested == restored {
        mark_capability(
            capabilities,
            requested.local_capability_id(),
            CapabilityStatePayload::Available,
            "ready".to_owned(),
        );
    } else {
        mark_capability(
            capabilities,
            requested.local_capability_id(),
            CapabilityStatePayload::Failed,
            requested_failure_text(requested, startup_error),
        );
    }
    provide_capability(capabilities, restored.local_capability_id(), actual_provider);
}

/// The custom counterpart of an OpenCode model of the Instant stage.
pub open spec fn instant_fallback(choice: InstantChoicePayload) -> InstantChoicePayload {
    match choice {
        InstantChoicePayload::OpenCodeSolHigh => InstantChoicePayload::CustomSolHigh,
        InstantChoicePayload::OpenCodeLunaLow => InstantChoicePayload::CustomLunaLow,
        other => other,
    }
}

/// The custom counterpart of an OpenCode model of the Deep or Review stage.
pub open spec fn agent_fallback(choice: AgentChoicePayload) -> AgentChoicePayload {
    match choice {
        AgentChoicePayload::OpenCodeSolHigh => AgentChoicePayload::CustomSolHigh,
        AgentChoicePayload::OpenCodeLunaLow => AgentChoicePayload::CustomLunaLow,
        other => other,
    }
}

fn agent_without_opencode(choice: AgentChoicePayload) -> (result: AgentChoicePayload)
    ensures
        result == agent_fallback(choice),
{
    match choice {
        AgentChoicePayload::OpenCodeSolHigh => AgentChoicePayload::CustomSolHigh,
        AgentChoicePayload::OpenCodeLunaLow => AgentChoicePayload::CustomLunaLow,
        AgentChoicePayload::CustomSolHigh => AgentChoicePayload::CustomSolHigh,
        AgentChoicePayload::CustomLunaLow => AgentChoicePayload::CustomLunaLow,
    }
}

/// The settings after the OpenCode service did not start: with the custom provider in its place
/// where there is one, else without the Deep and Review stages.
pub open spec fn settings_without_opencode(
    settings: AssistantSettingsPayload,
    custom_available: bool,
) -> AssistantSettingsPayload {
    if custom_available {
        AssistantSettingsPayload {
            instant: instant_fallback(settings.instant),
            deep: agent_fallback(settings.deep),
            review: agent_fallback(settings.review),
            ..settings
        }
    } else {
        AssistantSettingsPayload { deep_enabled: false, review_enabled: false, ..settings }
    }
}

/// The capabilities after the OpenCode service did not start.
pub open spec fn capabilities_without_opencode(
    capabilities: Seq<CapabilityView>,
    reason: Seq<char>,
) -> Seq<CapabilityView> {
    let failed = CapabilityStatePayload::Failed;
    let opencode = marked(capabilities, "opencode"@, failed, reason, None);
    if available(opencode, "custom_provider"@) {
        opencode
    } else {
        marked(marked(opencode, "deep"@, failed, reason, None), "review"@, failed, reason, None)
    }
}

/// Records that the OpenCode service did not start, and says how the assistant goes on.
pub fn apply_opencode_startup_failure(
    capabilities: &mut Vec<CapabilityPayload>,
    settings: AssistantSettingsPayload,
    reason: String,
) -> (reconciled: AssistantSettingsPayload)
    ensures
        views(final(capabilities)@) == capabilities_without_opencode(
            views(old(capabilities)@),
            reason@,
        ),
        reconciled == settings_without_opencode(
            settings,
            available(
                marked(
                    views(old(capabilities)@),
                    "opencode"@,
                    CapabilityStatePayload::Failed,
                    reason@,
                    None,
                ),
                "custom_provider"@,
            ),
        ),
{
    let mut reconciled = settings;
    mark_capability(capabilities, "opencode", CapabilityStatePayload::Failed, reason.clone());
    if capability_available(capabilities, "custom_provider") {
        reconciled.instant =
        match reconciled.instant {
            InstantChoicePayload::OpenCodeSolHigh => InstantChoicePayload::CustomSolHigh,
            InstantChoicePayload::OpenCodeLunaLow => InstantChoicePayload::CustomLunaLow,
            choice => choice,
        };
        reconciled.deep = agent_without_opencode(reconciled.deep);
        reconciled.review = agent_without_opencode(reconciled.review);
    } else {
        reconciled.deep_enabled = false;
        reconciled.review_enabled = false;
        mark_capability(capabilities, "deep", CapabilityStatePayload::Failed, reason.clone());
        mark_capability(capabilities, "review", CapabilityStatePayload::Failed, reason);
    }
    reconciled
}

/// After the OpenCode service did not start, either the assistant uses no model of it, or the
/// stages that would need it are off.
pub proof fn law_failed_opencode_is_not_used(
    settings: AssistantSettingsPayload,
    custom_available: bool,
)
    ensures
        ({
            let after = settings_without_opencode(settings, custom_available);
            &&& custom_available ==> after.instant.capability() != "opencode"@
                && after.deep.capability() != "opencode"@ && after.review.capability()
                != "opencode"@
            &&& !custom_available ==> !after.deep_enabled && !after.review_enabled
            &&& after.prefetch == settings.prefetch
            &&& after.completion == settings.completion
        }),
{
    reveal_strlit("opencode");
    reveal_strlit("custom_provider");
    reveal_strlit("local_fast");
    reveal_strlit("local_quality");
    assert("opencode"@.len() != "custom_provider"@.len());
    assert("opencode"@.len() != "local_fast"@.len());
    assert("opencode"@.len() != "local_quality"@.len());
}

/// Whether predictions of how a prompt goes on can be had, now or soon.
pub open spec fn predicts(capabilities: Seq<CapabilityView>) -> bool {
    exists|i: int|
        0 <= i < capabilities.len() && (#[trigger] capabilities[i]).id == "qwen_prediction"@ && (
        capabilities[i].state is Available || capabilities[i].state is Warming)
}

/// The settings for a backend, a list of capabilities and a profile where none are stored.
pub open spec fn fallback_settings(
    backend: ResponseBackendConfig,
    capabilities: Seq<CapabilityView>,
    profile: ResponseProfilePayload,
) -> AssistantSettingsPayload {
    let agent = if available(capabilities, "opencode"@) {
        AgentChoicePayload::OpenCodeSolHigh
    } else {
        AgentChoicePayload::CustomSolHigh
    };
    AssistantSettingsPayload {
        instant: match backend {
            ResponseBackendConfig::LlamaCpp { .. } => InstantChoicePayload::of_profile(profile),
            ResponseBackendConfig::Opencode => InstantChoicePayload::OpenCodeSolHigh,
            ResponseBackendConfig::Unconfigured => if available(
                capabilities,
                "custom_provider"@,
            ) {
                InstantChoicePayload::CustomSolHigh
            } else {
                InstantChoicePayload::LocalFast
            },
        },
        deep: agent,
        review: agent,
        ..settings::default_settings()
    }
}

/// The settings to start with: what is stored as far as the capabilities allow, else the
/// fallback; a local model is always the one of the profile.
pub open spec fn resolved_settings(
    backend: ResponseBackendConfig,
    capabilities: Seq<CapabilityView>,
    profile: ResponseProfilePayload,
    persisted: Option<AssistantSettingsPayload>,
) -> AssistantSettingsPayload {
    let fallback = fallback_settings(backend, capabilities, profile);
    let wanted = match persisted {
        Some(stored) => stored,
        None => fallback,
    };
    let instant = if available(capabilities, wanted.instant.capability()) {
        wanted.instant
    } else {
        fallback.instant
    };
    let deep_available = available(capabilities, wanted.deep.capability());
    let review_available = available(capabilities, wanted.review.capability());
    AssistantSettingsPayload {
        instant: if instant.local() {
            InstantChoicePayload::of_profile(profile)
        } else {
            instant
        },
        deep: if deep_available {
            wanted.deep
        } else {
            fallback.deep
        },
        deep_enabled: wanted.deep_enabled && deep_available,
        review: if review_available {
            wanted.review
        } else {
            fallback.review
        },
        review_enabled: wanted.review_enabled && review_available,
        prefetch: wanted.prefetch,
        completion: wanted.completion && predicts(capabilities),
    }
}

/// The settings to start with, and whether they have to be stored because they differ from those
/// that are.
pub fn resolve_assistant_settings(
    backend: &ResponseBackendConfig,
    capabilities: &Vec<CapabilityPayload>,
    selected_profile: ResponseProfilePayload,
    persisted: Option<AssistantSettingsPayload>,
) -> (result: (AssistantSettingsPayload, bool))
    ensures
        result.0 == resolved_settings(
            *backend,
            views(capabilities@),
            selected_profile,
            persisted,
        ),
        result.1 == (persisted != Some(result.0)),
{
    let agent = if capability_available(capabilities, "opencode") {
        AgentChoicePayload::OpenCodeSolHigh
    } else {
        AgentChoicePayload::CustomSolHigh
    };
    let mut defaults = AssistantSettingsPayload::default();
    defaults.instant =
    match backend {
        ResponseBackendConfig::LlamaCpp { .. } => InstantChoicePayload::for_profile(
            selected_profile,
        ),
        ResponseBackendConfig::Opencode => InstantChoicePayload::OpenCodeSolHigh,
        ResponseBackendConfig::Unconfigured => if capability_available(
            capabilities,
            "custom_provider",
        ) {
            InstantChoicePayload::CustomSolHigh
        } else {
            InstantChoicePayload::LocalFast
        },
    };
    defaults.deep = agent;
    defaults.review = agent;
    let mut resolved = match persisted {
        Some(stored) => stored,
        None => defaults,
    };
    if !capability_available(capabilities, resolved.instant.capability_id()) {
        resolved.instant = defaults.instant;
    }
    if !capability_available(capabilities, resolved.deep.capability_id()) {
        resolved.deep = defaults.deep;
        resolved.deep_enabled = false;
    }
    if !capability_available(capabilities, resolved.review.capability_id()) {
        resolved.review = defaults.review;
        resolved.review_enabled = false;
    }
    if matches!(
        resolved.instant,
        InstantChoicePayload::LocalFast | InstantChoicePayload::LocalQuality
    ) {
        resolved.instant = InstantChoicePayload::for_profile(selected_profile);
    }
    if !can_predict(capabilities) {
        resolved.completion = false;
    }
    let stored = match persisted {
        Some(stored) => stored == resolved,
        None => false,
    };
    (resolved, !stored)
}

fn can_predict(capabilities: &Vec<CapabilityPayload>) -> (result: bool)
    ensures
        result == predicts(views(capabilities@)),
{
    let mut i: usize = 0;
    while i < capabilities.len()
        invariant
            i <= capabilities.len(),
            forall|j: int|
                0 <= j < i ==> !((#[trigger] views(capabilities@)[j]).id == "qwen_prediction"@ && (
                views(capabilities@)[j].state is Available || views(capabilities@)[j].state
                    is Warming)),
        decreases capabilities.len() - i,
    {
        proof {
            assert(views(capabilities@)[i as int] == capabilities@[i as int]@);
        }
        if same_text(capabilities[i].id, "qwen_prediction") && (capabilities[i].state
            == CapabilityStatePayload::Available || capabilities[i].state
            == CapabilityStatePayload::Warming) {
            return true;
        }
        i += 1;
    }
    false
}

/// Settings to start with use only what there is: a stage that is on has a model that can be
/// asked, predictions are on only where they can be had, and a local model is the one of the
/// profile.
pub proof fn law_resolved_settings_are_usable(
    backend: ResponseBackendConfig,
    capabilities: Seq<CapabilityView>,
    profile: ResponseProfilePayload,
    persisted: Option<AssistantSettingsPayload>,
)
    ensures
        ({
            let resolved = resolved_settings(backend, capabilities, profile, persisted);
            &&& resolved.deep_enabled ==> available(capabilities, resolved.deep.capability())
            &&& resolved.review_enabled ==> available(capabilities, resolved.review.capability())
            &&& resolved.completion ==> predicts(capabilities)
            &&& resolved.instant.local() ==> resolved.instant == InstantChoicePayload::of_profile(
                profile,
            )
            &&& persisted is None ==> !resolved.deep_enabled && !resolved.review_enabled
            &&& resolved_settings(backend, capabilities, profile, Some(resolved)).deep_enabled
                == resolved.deep_enabled
        }),
{
}

/// The capabilities that a change of settings needs: those of a new Instant model, of a stage
/// that is switched on or gets another model, and of predictions that are switched on.
pub open spec fn required_capabilities(
    settings: AssistantSettingsPayload,
    previous: AssistantSettingsPayload,
) -> Seq<Seq<char>> {
    let instant = if settings.instant != previous.instant {
        seq![settings.instant.capability()]
    } else {
        seq![]
    };
    let deep = if settings.deep_enabled && (!previous.deep_enabled || settings.deep
        != previous.deep) {
        instant.push(settings.deep.capability()).push("deep"@)
    } else {
        instant
    };
    let review = if settings.review_enabled && (!previous.review_enabled || settings.review
        != previous.review) {
        deep.push(settings.review.capability()).push("review"@)
    } else {
        deep
    };
    if settings.completion && !previous.completion {
        review.push("qwen_prediction"@)
    } else {
        review
    }
}

/// The first of `required` that is not available.
pub open spec fn first_unavailable(
    capabilities: Seq<CapabilityView>,
    required: Seq<Seq<char>>,
) -> Option<Seq<char>>
    decreases required.len(),
{
    if required.len() == 0 {
        None
    } else if !available(capabilities, required[0]) {
        Some(required[0])
    } else {
        first_unavailable(capabilities, required.skip(1))
    }
}

/// Accepts a change of settings for which every capability that it needs is available. What was
/// in use before is not asked for again.
pub fn ensure_required_capabilities(
    settings: &AssistantSettingsPayload,
    previous: &AssistantSettingsPayload,
    capabilities: &Vec<CapabilityPayload>,
) -> (result: Result<(), String>)
    ensures
        text::outcome(result) == (match first_unavailable(
            views(capabilities@),
            required_capabilities(*settings, *previous),
        ) {
            None => Ok(()),
            Some(id) => Err("assistant capability `"@ + id + "` is unavailable"@),
        }),
{
    let mut required: Vec<&'static str> = Vec::new();
    if settings.instant != previous.instant {
        required.push(settings.instant.capability_id());
    }
    if settings.deep_enabled && (!previous.deep_enabled || settings.deep != previous.deep) {
        required.push(settings.deep.capability_id());
        required.push("deep");
    }
    if settings.review_enabled && (!previous.review_enabled || settings.review
        != previous.review) {
        required.push(settings.review.capability_id());
        required.push("review");
    }
    if settings.completion && !previous.completion {
        required.push("qwen_prediction");
    }
    let ghost names = text::texts(required@);
    proof {
        assert(names =~= required_capabilities(*settings, *previous));
        assert(names.skip(0) == names);
    }
    let mut i: usize = 0;
    while i < required.len()
        invariant
            i <= required.len(),
            names == text::texts(required@),
            names == required_capabilities(*settings, *previous),
            first_unavailable(views(capabilities@), names.skip(i as int)) == first_unavailable(
                views(capabilities@),
                names,
            ),
        decreases required.len() - i,
    {
        proof {
            assert(names.skip(i as int)[0] == required@[i as int]@);
            assert(names.skip(i as int).skip(1) == names.skip(i + 1));
        }
        if !capability_available(capabilities, required[i]) {
            return Err(concat3("assistant capability `", required[i], "` is unavailable"));
        }
        i += 1;
    }
    Ok(())
}

/// A copy of a list of capabilities.
pub fn copy_capabilities(capabilities: &Vec<CapabilityPayload>) -> (copy: Vec<CapabilityPayload>)
    ensures
        views(copy@) == views(capabilities@),
{
    let mut copy: Vec<CapabilityPayload> = Vec::new();
    let mut i: usize = 0;
    while i < capabilities.len()
        invariant
            i <= capabilities.len(),
            views(copy@) == views(capabilities@).take(i as int),
        decreases capabilities.len() - i,
    {
        let ghost before = views(copy@);
        let item = CapabilityPayload {
            id: capabilities[i].id,
            state: capabilities[i].state,
            reason: capabilities[i].reason.clone(),
            actual_provider: capabilities[i].actual_provider,
        };
        let ghost shown = item@;
        copy.push(item);
        proof {
            assert(views(copy@) =~= before.push(shown));
            assert(views(capabilities@)[i as int] == shown);
            assert(views(capabilities@).take(i + 1) =~= before.push(shown));
        }
        i += 1;
    }
    proof {
        assert(views(capabilities@).take(capabilities@.len() as int) =~= views(capabilities@));
    }
    copy
}

/// Whether no two capabilities of a list have the same name.
pub open spec fn unique(capabilities: Seq<CapabilityView>) -> bool {
    forall|i: int, j: int|
        #![trigger capabilities[i], capabilities[j]]
        0 <= i < j < capabilities.len() ==> capabilities[i].id != capabilities[j].id
}

/// Marking a capability puts the one of that name into just that state, with just that reason and
/// provider, and leaves every other one as it was.
pub proof fn law_capabilities_are_marked_by_name(
    capabilities: Seq<CapabilityView>,
    id: Seq<char>,
    state: CapabilityStatePayload,
    reason: Seq<char>,
    actual_provider: Option<Seq<char>>,
)
    requires
        unique(capabilities),
    ensures
        ({
            let after = marked(capabilities, id, state, reason, actual_provider);
            &&& after.len() == capabilities.len()
            &&& unique(after)
            &&& forall|i: int|
                0 <= i < capabilities.len() ==> #[trigger] after[i] == (if capabilities[i].id
                    == id {
                    CapabilityView { id, state, reason, actual_provider }
                } else {
                    capabilities[i]
                })
        }),
{
    lemma_index(capabilities, id, 0);
    let after = marked(capabilities, id, state, reason, actual_provider);
    let index = index_of(capabilities, id);
    assert forall|i: int| 0 <= i < capabilities.len() implies #[trigger] after[i] == (
    if capabilities[i].id == id {
        CapabilityView { id, state, reason, actual_provider }
    } else {
        capabilities[i]
    }) by {
        if capabilities[i].id == id && i != index {
            if i < index {
                assert(capabilities[i].id != id);
            } else {
                assert(capabilities[index].id == id);
                assert(capabilities[index].id != capabilities[i].id);
            }
        }
    }
    assert forall|i: int, j: int|
        #![trigger after[i], after[j]]
        0 <= i < j < after.len() implies after[i].id != after[j].id by {
        assert(capabilities[i].id != capabilities[j].id);
        assert(after[i].id == capabilities[i].id);
        assert(after[j].id == capabilities[j].id);
    }
}

/// The speech capability is ready exactly where spoken answers are on and there is a runtime, and
/// then names what the runtime runs on; otherwise it keeps its state and its reason. No other
/// capability changes.
pub proof fn law_speech_follows_its_runtime(
    capabilities: Seq<CapabilityView>,
    enabled: bool,
    runtime: Option<LocalTtsRuntime>,
    i: int,
)
    requires
        unique(capabilities),
        0 <= i < capabilities.len(),
    ensures
        ({
            let after = repaired(capabilities, enabled, runtime);
            let before = capabilities[i];
            let ready = enabled && runtime is Some;
            &&& after.len() == capabilities.len()
            &&& before.id != "tts"@ ==> after[i] == before
            &&& before.id == "tts"@ ==> after[i].id == "tts"@
            &&& before.id == "tts"@ && ready ==> after[i].state is Available && after[i].reason
                == "ready"@
            &&& before.id == "tts"@ && !ready ==> after[i].state == before.state
                && after[i].reason == before.reason && after[i].actual_provider is None
            &&& before.id == "tts"@ && ready ==> after[i].actual_provider == (
            match runtime->0.actual_provider {
                Some(TtsActualProvider::Cuda) => Some("cuda"@),
                Some(TtsActualProvider::Cpu) => Some("cpu"@),
                None => None,
            })
        }),
{
    lemma_index(capabilities, "tts"@, 0);
    let index = index_of(capabilities, "tts"@);
    if capabilities[i].id == "tts"@ && i != index {
        if i < index {
            assert(capabilities[i].id != "tts"@);
        } else {
            assert(capabilities[index].id != capabilities[i].id);
        }
    }
}

/// A capability is available exactly where a list holds one of its name in that state.
pub proof fn law_availability_is_looked_up(
    capabilities: Seq<CapabilityView>,
    id: Seq<char>,
    i: int,
)
    requires
        unique(capabilities),
        0 <= i < capabilities.len(),
        capabilities[i].id == id,
    ensures
        available(capabilities, id) <==> capabilities[i].state is Available,
{
    if available(capabilities, id) {
        let j = choose|j: int|
            0 <= j < capabilities.len() && (#[trigger] capabilities[j]).id == id
                && capabilities[j].state is Available;
        if j < i {
            assert(capabilities[j].id != capabilities[i].id);
        } else if i < j {
            assert(capabilities[i].id != capabilities[j].id);
        }
    }
}

} // verus!
