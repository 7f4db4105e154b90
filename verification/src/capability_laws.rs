//! What holds of the capabilities that the application shows, and of the settings that they allow.

use crate::capabilities;
use crate::capabilities::{CapabilityStatePayload, CapabilityView};
use crate::config;
use crate::config::{OpencodeRuntime, ResponseBackendConfig, RuntimeConfig};
use crate::settings::{
    AgentChoicePayload, AssistantSettingsPayload, InstantChoicePayload, ResponseProfilePayload,
};
use vstd::prelude::*;
use vstd::string::*;

verus! {

broadcast use vstd::string::group_string_axioms;

/// The names of the capabilities differ from each other.
pub proof fn lemma_names_differ()
    ensures
        capabilities::capability_ids().no_duplicates(),
        capabilities::capability_ids().len() == 11,
        "local_fast"@ != "local_quality"@,
        "custom_provider"@ != "opencode"@,
        "deep"@ != "review"@,
        "opencode"@ != "deep"@,
        "opencode"@ != "review"@,
        "custom_provider"@ != "deep"@,
        "custom_provider"@ != "review"@,
        "local_fast"@ != "custom_provider"@,
        "local_fast"@ != "opencode"@,
        "local_quality"@ != "custom_provider"@,
        "local_quality"@ != "opencode"@,
        "wake_word"@ != "tts"@,
        "wake_word"@ != "vad"@,
        "wake_word"@ != "parakeet"@,
        "tts"@ != "vad"@,
        "tts"@ != "parakeet"@,
        "vad"@ != "parakeet"@,
{
    reveal_strlit("custom_provider");
    reveal_strlit("opencode");
    reveal_strlit("local_fast");
    reveal_strlit("local_quality");
    reveal_strlit("qwen_prediction");
    reveal_strlit("wake_word");
    reveal_strlit("vad");
    reveal_strlit("parakeet");
    reveal_strlit("tts");
    reveal_strlit("deep");
    reveal_strlit("review");
    let names = capabilities::capability_ids();
    assert("custom_provider"@[0] != "qwen_prediction"@[0]);
    assert("opencode"@[0] != "parakeet"@[0]);
    assert("vad"@[0] != "tts"@[0]);
    assert(names[0].len() == 15 && names[1].len() == 8 && names[2].len() == 10 && names[3].len()
        == 13 && names[4].len() == 15 && names[5].len() == 9 && names[6].len() == 3
        && names[7].len() == 8 && names[8].len() == 3 && names[9].len() == 4 && names[10].len()
        == 6);
    assert forall|i: int, j: int|
        0 <= i < names.len() && 0 <= j < names.len() && i != j implies names[i] != names[j] by {
        if names[i] == names[j] {
            assert(names[i].len() == names[j].len());
            assert(names[i][0] == names[j][0]);
        }
    }
}

/// The application shows the same eleven capabilities always, each once.
pub proof fn law_every_capability_is_shown_once(config: RuntimeConfig, on_windows: bool)
    ensures
        ({
            let shown = capabilities::initial_capabilities(config, on_windows);
            &&& shown.len() == 11
            &&& capabilities::unique(shown)
            &&& capabilities::ids(shown) == seq![
                "custom_provider"@,
                "opencode"@,
                "local_fast"@,
                "local_quality"@,
                "qwen_prediction"@,
                "wake_word"@,
                "vad"@,
                "parakeet"@,
                "tts"@,
                "deep"@,
                "review"@,
            ]
            &&& forall|i: int|
                0 <= i < 11 ==> (#[trigger] shown[i]) == capabilities::configured_capability(
                    config,
                    on_windows,
                    shown[i].id,
                )
        }),
{
    lemma_names_differ();
    let shown = capabilities::initial_capabilities(config, on_windows);
    let names = capabilities::capability_ids();
    assert forall|i: int| 0 <= i < 11 implies shown[i].id == names[i] by {
        assert(shown[i] == capabilities::configured_capability(config, on_windows, names[i]));
    }
    assert(capabilities::ids(shown) =~= names);
    assert forall|i: int, j: int|
        #![trigger shown[i], shown[j]]
        0 <= i < j < shown.len() implies shown[i].id != shown[j].id by {
        assert(names[i] != names[j]);
    }
}

/// Whether the custom provider can be asked: its credentials are there and nothing is wrong with
/// it.
pub open spec fn custom_is_there(config: RuntimeConfig) -> bool {
    &&& config.custom_openai matches Some(custom) && custom.auth_path.present
    &&& forall|i: int|
        0 <= i < config.capability_issues@.len() ==> (#[trigger] config.capability_issues@[i])
            .capability@ != "custom_provider"@
}

/// Whether the OpenCode service can be started: where it is installed, or in the Linux subsystem of
/// Windows.
pub open spec fn opencode_is_there(config: RuntimeConfig, on_windows: bool) -> bool {
    config.opencode matches Some(service) && match service.runtime {
        OpencodeRuntime::Native => service.path.present,
        OpencodeRuntime::Wsl => on_windows,
    }
}

/// Whether a local model can be started: its server and its file are there.
pub open spec fn local_is_there(config: RuntimeConfig, quality: bool) -> bool {
    config.llama_cpp matches Some(local) && local.server_path.present && (if quality {
        local.quality_model_path matches Some(model) && model.present
    } else {
        local.fast_model_path.present
    })
}

/// Each capability needs just what it works with: the providers their credentials or programs, the
/// local models and the prediction their server and model, each voice runtime its own model, and
/// the Deep and Review stages one of the two providers.
pub proof fn law_capabilities_need_what_they_work_with(config: RuntimeConfig, on_windows: bool)
    ensures
        capabilities::configured(config, on_windows, "custom_provider"@) == custom_is_there(config),
        capabilities::configured(config, on_windows, "opencode"@) == opencode_is_there(
            config,
            on_windows,
        ),
        capabilities::configured(config, on_windows, "local_fast"@) == local_is_there(
            config,
            false,
        ),
        capabilities::configured(config, on_windows, "local_quality"@) == local_is_there(
            config,
            true,
        ),
        capabilities::configured(config, on_windows, "qwen_prediction"@) == (
        config.completion matches Some(prediction) && prediction.server_path.present
            && prediction.model_path.present),
        capabilities::configured(config, on_windows, "wake_word"@)
            == config.wake_word_model.present,
        capabilities::configured(config, on_windows, "vad"@) == config.silero_vad_model.present,
        capabilities::configured(config, on_windows, "parakeet"@)
            == config.parakeet_model_dir.present,
        capabilities::configured(config, on_windows, "tts"@) == config.tts_model.present,
        capabilities::configured(config, on_windows, "deep"@) == (custom_is_there(config)
            || opencode_is_there(config, on_windows)),
        capabilities::configured(config, on_windows, "review"@) == (custom_is_there(config)
            || opencode_is_there(config, on_windows)),
{
    lemma_names_differ();
    let names = capabilities::capability_ids();
    assert(names[0] == "custom_provider"@ && names[1] == "opencode"@ && names[2] == "local_fast"@
        && names[3] == "local_quality"@ && names[4] == "qwen_prediction"@ && names[5]
        == "wake_word"@ && names[6] == "vad"@ && names[7] == "parakeet"@ && names[8] == "tts"@
        && names[9] == "deep"@ && names[10] == "review"@);
    let issues = config::issue_views(config.capability_issues@);
    assert(capabilities::custom_configured(config) == custom_is_there(config)) by {
        if capabilities::has_issue(issues, "custom_provider"@) {
            let i = choose|i: int|
                0 <= i < issues.len() && (#[trigger] issues[i]).capability == "custom_provider"@;
            assert(config.capability_issues@[i].capability@ == "custom_provider"@);
        } else {
            assert forall|i: int| 0 <= i < config.capability_issues@.len() implies (
            #[trigger] config.capability_issues@[i]).capability@ != "custom_provider"@ by {
                assert(issues[i].capability == config.capability_issues@[i].capability@);
            }
        }
    }
}

/// A capability that has what it needs is ready, or warming up where it is the prediction; one that
/// has not says why. The voice runtimes run on the processor.
pub proof fn law_configured_capabilities_are_ready(
    config: RuntimeConfig,
    on_windows: bool,
    id: Seq<char>,
)
    ensures
        ({
            let shown = capabilities::configured_capability(config, on_windows, id);
            let there = capabilities::configured(config, on_windows, id);
            let issue = capabilities::first_issue(
                config::issue_views(config.capability_issues@),
                id,
            );
            let predicts = id == "qwen_prediction"@;
            let on_cpu = id == "wake_word"@ || id == "vad"@ || id == "parakeet"@;
            &&& shown.id == id
            &&& there && !predicts <==> shown.state is Available
            &&& there && predicts <==> shown.state is Warming
            &&& there && !predicts ==> shown.reason == "ready"@
            &&& there && predicts ==> shown.reason == "completion model is loading"@
            &&& there && on_cpu ==> shown.actual_provider == Some("cpu"@)
            &&& !there || !on_cpu ==> shown.actual_provider is None
            &&& !there && issue is None ==> shown.state is NotConfigured && shown.reason
                == "not configured"@
            &&& !there && issue is Some ==> shown.reason == issue->0
            &&& !there && issue is Some && issue->0 != "not configured"@
                ==> shown.state is Unavailable
            &&& !there && issue == Some("not configured"@) ==> shown.state is NotConfigured
        }),
{
}

/// The issue that is told of a capability is the first one that names it, or that names all
/// providers of answers where it is one of them.
pub proof fn law_the_first_issue_is_told(
    issues: Seq<config::IssueView>,
    id: Seq<char>,
    i: int,
)
    requires
        0 <= i < issues.len(),
        issues[i].capability == id || (issues[i].capability == "response_provider"@ && (id
            == "custom_provider"@ || id == "opencode"@ || id == "local_fast"@ || id
            == "local_quality"@)),
        forall|j: int|
            0 <= j < i ==> (#[trigger] issues[j]).capability != id && issues[j].capability
                != "response_provider"@,
    ensures
        capabilities::first_issue(issues, id) == Some(issues[i].reason),
    decreases i,
{
    if i > 0 {
        let rest = issues.skip(1);
        assert(issues[0].capability != id);
        assert(rest[i - 1] == issues[i]);
        assert forall|j: int| 0 <= j < i - 1 implies (#[trigger] rest[j]).capability != id
            && rest[j].capability != "response_provider"@ by {
            assert(rest[j] == issues[j + 1]);
        }
        law_the_first_issue_is_told(rest, id, i - 1);
    }
}

/// Without any issue that concerns it, nothing is told of a capability.
pub proof fn law_other_issues_are_not_told(issues: Seq<config::IssueView>, id: Seq<char>)
    requires
        forall|j: int|
            0 <= j < issues.len() ==> (#[trigger] issues[j]).capability != id
                && issues[j].capability != "response_provider"@,
    ensures
        capabilities::first_issue(issues, id) is None,
    decreases issues.len(),
{
    if issues.len() > 0 {
        let rest = issues.skip(1);
        assert(issues[0].capability != id);
        assert forall|j: int| 0 <= j < rest.len() implies (#[trigger] rest[j]).capability != id
            && rest[j].capability != "response_provider"@ by {
            assert(rest[j] == issues[j + 1]);
        }
        law_other_issues_are_not_told(rest, id);
    }
}

/// Without local models, each of the two local capabilities that was available has failed for the
/// reason given, and every other capability is as it was.
pub proof fn law_local_models_fail_together(
    before: Seq<CapabilityView>,
    reason: Seq<char>,
    i: int,
)
    requires
        capabilities::unique(before),
        0 <= i < before.len(),
    ensures
        ({
            let after = capabilities::without_local_models(before, reason);
            let local = before[i].id == "local_fast"@ || before[i].id == "local_quality"@;
            &&& after.len() == before.len()
            &&& local && before[i].state is Available ==> after[i].state is Failed
                && after[i].reason == reason && after[i].actual_provider is None && after[i].id
                == before[i].id
            &&& !local || !(before[i].state is Available) ==> after[i] == before[i]
        }),
{
    lemma_names_differ();
    let failed = CapabilityStatePayload::Failed;
    let fast = "local_fast"@;
    let quality = "local_quality"@;
    capabilities::law_capabilities_are_marked_by_name(before, fast, failed, reason, None);
    let slower = if capabilities::available(before, fast) {
        capabilities::marked(before, fast, failed, reason, None)
    } else {
        before
    };
    capabilities::law_capabilities_are_marked_by_name(slower, quality, failed, reason, None);
    if before[i].id == fast {
        capabilities::law_availability_is_looked_up(before, fast, i);
    }
    if before[i].id == quality {
        capabilities::law_availability_is_looked_up(slower, quality, i);
    }
}

/// After a profile that was asked for did not start and the one before it was started again, the
/// one before is ready on its provider, and the one that was asked for says why it failed. Where
/// both are the same profile, it is ready. Nothing else changes.
pub proof fn law_restored_profiles_are_ready(
    before: Seq<CapabilityView>,
    requested: ResponseProfilePayload,
    previous: ResponseProfilePayload,
    error: Seq<char>,
    provider: Seq<char>,
    i: int,
)
    requires
        capabilities::unique(before),
        0 <= i < before.len(),
    ensures
        ({
            let after = capabilities::restored(before, requested, previous, error, provider);
            let asked = if requested is Fast {
                "local_fast"@
            } else {
                "local_quality"@
            };
            let back = if previous is Fast {
                "local_fast"@
            } else {
                "local_quality"@
            };
            let named = if requested is Fast {
                "fast"@
            } else {
                "quality"@
            };
            &&& after.len() == before.len()
            &&& before[i].id == back ==> after[i] == (CapabilityView {
                id: back,
                state: CapabilityStatePayload::Available,
                reason: "ready"@,
                actual_provider: Some(provider),
            })
            &&& before[i].id == asked && requested != previous ==> after[i] == (CapabilityView {
                id: asked,
                state: CapabilityStatePayload::Failed,
                reason: "failed to initialize requested "@ + named + " profile: "@ + error,
                actual_provider: None,
            })
            &&& before[i].id != asked && before[i].id != back ==> after[i] == before[i]
        }),
{
    lemma_names_differ();
    let asked = requested.local_capability();
    let ready = CapabilityStatePayload::Available;
    let failed = CapabilityStatePayload::Failed;
    let reason = capabilities::requested_failure(requested, error);
    capabilities::law_capabilities_are_marked_by_name(before, asked, ready, "ready"@, None);
    capabilities::law_capabilities_are_marked_by_name(before, asked, failed, reason, None);
    let between = if requested == previous {
        capabilities::marked(before, asked, ready, "ready"@, None)
    } else {
        capabilities::marked(before, asked, failed, reason, None)
    };
    capabilities::law_capabilities_are_marked_by_name(
        between,
        previous.local_capability(),
        ready,
        "ready"@,
        Some(provider),
    );
}

/// Once the OpenCode service did not start, its capability has failed; the Deep and Review stages
/// have failed with it exactly where there is no custom provider to take its place.
pub proof fn law_stages_fail_with_their_last_provider(
    before: Seq<CapabilityView>,
    reason: Seq<char>,
    i: int,
)
    requires
        capabilities::unique(before),
        0 <= i < before.len(),
    ensures
        ({
            let after = capabilities::capabilities_without_opencode(before, reason);
            let custom = capabilities::available(before, "custom_provider"@);
            let id = before[i].id;
            let fails = id == "opencode"@ || (!custom && (id == "deep"@ || id == "review"@));
            &&& after.len() == before.len()
            &&& fails ==> after[i] == (CapabilityView {
                id,
                state: CapabilityStatePayload::Failed,
                reason,
                actual_provider: None,
            })
            &&& !fails ==> after[i] == before[i]
        }),
{
    lemma_names_differ();
    let failed = CapabilityStatePayload::Failed;
    capabilities::law_only_the_named_capability_changes(
        before,
        "opencode"@,
        failed,
        reason,
        None,
    );
    capabilities::law_capabilities_are_marked_by_name(before, "opencode"@, failed, reason, None);
    let first = capabilities::marked(before, "opencode"@, failed, reason, None);
    capabilities::law_capabilities_are_marked_by_name(first, "deep"@, failed, reason, None);
    let second = capabilities::marked(first, "deep"@, failed, reason, None);
    capabilities::law_capabilities_are_marked_by_name(second, "review"@, failed, reason, None);
}

/// With a custom provider, each OpenCode model is replaced by its custom counterpart and no switch
/// changes; without one, the Deep and Review stages are switched off and no model changes.
pub proof fn law_opencode_models_have_custom_counterparts(settings: AssistantSettingsPayload)
    ensures
        ({
            let replaced = capabilities::settings_without_opencode(settings, true);
            let reduced = capabilities::settings_without_opencode(settings, false);
            let counterpart = |model: AgentChoicePayload|
                match model {
                    AgentChoicePayload::OpenCodeSolHigh => AgentChoicePayload::CustomSolHigh,
                    AgentChoicePayload::OpenCodeLunaLow => AgentChoicePayload::CustomLunaLow,
                    AgentChoicePayload::CustomSolHigh => AgentChoicePayload::CustomSolHigh,
                    AgentChoicePayload::CustomLunaLow => AgentChoicePayload::CustomLunaLow,
                };
            &&& settings.instant is OpenCodeSolHigh ==> replaced.instant is CustomSolHigh
            &&& settings.instant is OpenCodeLunaLow ==> replaced.instant is CustomLunaLow
            &&& !(settings.instant is OpenCodeSolHigh) && !(settings.instant is OpenCodeLunaLow)
                ==> replaced.instant == settings.instant
            &&& replaced.deep == counterpart(settings.deep)
            &&& replaced.review == counterpart(settings.review)
            &&& replaced.deep_enabled == settings.deep_enabled
            &&& replaced.review_enabled == settings.review_enabled
            &&& replaced.prefetch == settings.prefetch
            &&& replaced.completion == settings.completion
            &&& reduced == (AssistantSettingsPayload {
                deep_enabled: false,
                review_enabled: false,
                ..settings
            })
        }),
{
}

/// Whether predictions can be had, now or soon.
pub open spec fn predicts(list: Seq<CapabilityView>) -> bool {
    exists|i: int|
        0 <= i < list.len() && (#[trigger] list[i]).id == "qwen_prediction"@ && (list[i].state
            is Available || list[i].state is Warming)
}

/// What is stored is used as it is, as far as what it needs is available: a stage keeps its model
/// and its switch, the Instant stage its model, a local one being the one of the profile, and
/// predictions their switch. What is not available is replaced by the fallback, and a stage without
/// its model is off.
pub proof fn law_stored_settings_are_used_where_possible(
    backend: ResponseBackendConfig,
    list: Seq<CapabilityView>,
    profile: ResponseProfilePayload,
    stored: AssistantSettingsPayload,
)
    ensures
        ({
            let used = capabilities::resolved_settings(backend, list, profile, Some(stored));
            let instead = capabilities::fallback_settings(backend, list, profile);
            let needed = |choice: AgentChoicePayload|
                if choice is CustomSolHigh || choice is CustomLunaLow {
                    "custom_provider"@
                } else {
                    "opencode"@
                };
            let first = match stored.instant {
                InstantChoicePayload::LocalFast => "local_fast"@,
                InstantChoicePayload::LocalQuality => "local_quality"@,
                InstantChoicePayload::CustomSolHigh => "custom_provider"@,
                InstantChoicePayload::CustomLunaLow => "custom_provider"@,
                InstantChoicePayload::OpenCodeSolHigh => "opencode"@,
                InstantChoicePayload::OpenCodeLunaLow => "opencode"@,
            };
            let wanted = if capabilities::available(list, first) {
                stored.instant
            } else {
                instead.instant
            };
            let local = wanted is LocalFast || wanted is LocalQuality;
            let deep = capabilities::available(list, needed(stored.deep));
            let review = capabilities::available(list, needed(stored.review));
            &&& !local ==> used.instant == wanted
            &&& local && profile is Fast ==> used.instant is LocalFast
            &&& local && profile is Quality ==> used.instant is LocalQuality
            &&& deep ==> used.deep == stored.deep && used.deep_enabled == stored.deep_enabled
            &&& !deep ==> used.deep == instead.deep && !used.deep_enabled
            &&& review ==> used.review == stored.review && used.review_enabled
                == stored.review_enabled
            &&& !review ==> used.review == instead.review && !used.review_enabled
            &&& used.prefetch == stored.prefetch
            &&& used.completion == (stored.completion && predicts(list))
        }),
{
    assert(capabilities::predicts(list) == predicts(list));
}

/// Without stored settings the Instant stage gets the model of the backend, the other stages are
/// off with a model that can be had where there is one, answers are not made ahead, and predictions
/// are on where they can be had.
pub proof fn law_new_installations_start_plainly(
    backend: ResponseBackendConfig,
    list: Seq<CapabilityView>,
    profile: ResponseProfilePayload,
)
    ensures
        ({
            let instead = capabilities::fallback_settings(backend, list, profile);
            let used = capabilities::resolved_settings(backend, list, profile, None);
            let local = if profile is Fast {
                InstantChoicePayload::LocalFast
            } else {
                InstantChoicePayload::LocalQuality
            };
            let agent = if capabilities::available(list, "opencode"@) {
                AgentChoicePayload::OpenCodeSolHigh
            } else {
                AgentChoicePayload::CustomSolHigh
            };
            &&& backend is LlamaCpp ==> instead.instant == local && used.instant == local
            &&& backend is Opencode ==> instead.instant is OpenCodeSolHigh
            &&& backend is Unconfigured && capabilities::available(list, "custom_provider"@)
                ==> instead.instant is CustomSolHigh
            &&& backend is Unconfigured && !capabilities::available(list, "custom_provider"@)
                ==> instead.instant is LocalFast
            &&& instead.deep == agent && instead.review == agent
            &&& !instead.deep_enabled && !instead.review_enabled && !instead.prefetch
                && instead.completion
            &&& !used.deep_enabled && !used.review_enabled && !used.prefetch
            &&& used.deep == agent && used.review == agent
            &&& used.completion == predicts(list)
        }),
{
    assert(capabilities::predicts(list) == predicts(list));
}

/// A change of settings needs just what it brings into use: the provider of a new Instant model,
/// the provider of a stage that is switched on or gets another model and the stage itself, and the
/// prediction where that is switched on.
pub proof fn law_changes_need_what_they_bring_into_use(
    settings: AssistantSettingsPayload,
    previous: AssistantSettingsPayload,
    id: Seq<char>,
)
    ensures
        ({
            let needed = |choice: AgentChoicePayload|
                if choice is CustomSolHigh || choice is CustomLunaLow {
                    "custom_provider"@
                } else {
                    "opencode"@
                };
            let first = match settings.instant {
                InstantChoicePayload::LocalFast => "local_fast"@,
                InstantChoicePayload::LocalQuality => "local_quality"@,
                InstantChoicePayload::CustomSolHigh => "custom_provider"@,
                InstantChoicePayload::CustomLunaLow => "custom_provider"@,
                InstantChoicePayload::OpenCodeSolHigh => "opencode"@,
                InstantChoicePayload::OpenCodeLunaLow => "opencode"@,
            };
            let instant = settings.instant != previous.instant;
            let deep = settings.deep_enabled && (!previous.deep_enabled || settings.deep
                != previous.deep);
            let review = settings.review_enabled && (!previous.review_enabled || settings.review
                != previous.review);
            let completion = settings.completion && !previous.completion;
            capabilities::required_capabilities(settings, previous).contains(id) <==> {
                ||| instant && id == first
                ||| deep && (id == needed(settings.deep) || id == "deep"@)
                ||| review && (id == needed(settings.review) || id == "review"@)
                ||| completion && id == "qwen_prediction"@
            }
        }),
{
    broadcast use vstd::seq_lib::group_seq_properties;

    let instant = if settings.instant != previous.instant {
        seq![settings.instant.capability()]
    } else {
        Seq::<Seq<char>>::empty()
    };
    assert(settings.instant != previous.instant ==> instant[0] == settings.instant.capability());
    lemma_pushed(instant, settings.deep.capability(), "deep"@, id);
    let deep = if settings.deep_enabled && (!previous.deep_enabled || settings.deep
        != previous.deep) {
        instant.push(settings.deep.capability()).push("deep"@)
    } else {
        instant
    };
    lemma_pushed(deep, settings.review.capability(), "review"@, id);
    let review = if settings.review_enabled && (!previous.review_enabled || settings.review
        != previous.review) {
        deep.push(settings.review.capability()).push("review"@)
    } else {
        deep
    };
    lemma_pushed_one(review, "qwen_prediction"@, id);
}

proof fn lemma_pushed_one(list: Seq<Seq<char>>, last: Seq<char>, id: Seq<char>)
    ensures
        list.push(last).contains(id) <==> list.contains(id) || id == last,
{
    let longer = list.push(last);
    if list.contains(id) {
        let i = choose|i: int| 0 <= i < list.len() && list[i] == id;
        assert(longer[i] == id);
    }
    if longer.contains(id) {
        let i = choose|i: int| 0 <= i < longer.len() && longer[i] == id;
        if i < list.len() {
            assert(list[i] == id);
        }
    }
    assert(longer[list.len() as int] == last);
}

proof fn lemma_pushed(list: Seq<Seq<char>>, one: Seq<char>, two: Seq<char>, id: Seq<char>)
    ensures
        list.push(one).push(two).contains(id) <==> list.contains(id) || id == one || id == two,
{
    lemma_pushed_one(list, one, id);
    lemma_pushed_one(list.push(one), two, id);
}

/// A change is refused exactly where something that it needs is not available, and the first such
/// thing is named.
pub proof fn law_the_first_missing_capability_is_named(
    list: Seq<CapabilityView>,
    required: Seq<Seq<char>>,
)
    ensures
        capabilities::first_unavailable(list, required) is None <==> (forall|i: int|
            0 <= i < required.len() ==> capabilities::available(list, #[trigger] required[i])),
        capabilities::first_unavailable(list, required) matches Some(id) ==> required.contains(id)
            && !capabilities::available(list, id),
    decreases required.len(),
{
    if required.len() > 0 {
        let rest = required.skip(1);
        law_the_first_missing_capability_is_named(list, rest);
        assert forall|i: int| 0 <= i < rest.len() implies rest[i] == required[i + 1] by {}
        if let Some(id) = capabilities::first_unavailable(list, rest) {
            let i = choose|i: int| 0 <= i < rest.len() && rest[i] == id;
            assert(required[i + 1] == id);
        }
        if capabilities::first_unavailable(list, required) is None {
            assert forall|i: int| 0 <= i < required.len() implies capabilities::available(
                list,
                #[trigger] required[i],
            ) by {
                if i > 0 {
                    assert(capabilities::available(list, rest[i - 1]));
                }
            }
        } else if forall|i: int|
            0 <= i < required.len() ==> capabilities::available(list, #[trigger] required[i]) {
            assert(capabilities::available(list, required[0]));
            assert forall|i: int| 0 <= i < rest.len() implies capabilities::available(
                list,
                #[trigger] rest[i],
            ) by {
                assert(capabilities::available(list, required[i + 1]));
            }
        }
        if !capabilities::available(list, required[0]) {
            assert(required.contains(required[0]));
        }
    }
}

} // verus!
