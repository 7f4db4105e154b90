//! The configuration as far as decisions depend on it: which services are named, and whether the
//! files that they need are there.

use crate::settings::ResponseProfilePayload;
use crate::text;
use crate::text::{concat2, same_text, starts_with};
use vstd::prelude::*;
use vstd::string::*;

verus! {

broadcast use vstd::string::group_string_axioms;

/// A configured path, and whether what is wanted there, a file or a directory, is there.
#[derive(Clone, Debug, PartialEq, Eq)]
pub struct ConfiguredPath {
    pub path: String,
    pub present: bool,
}

/// Who answers prompts.
#[derive(Clone, Debug, PartialEq, Eq)]
pub enum ResponseBackendConfig {
    Unconfigured,
    LlamaCpp {
        server_path: String,
        host: String,
        port: u16,
        fast_model_path: String,
        quality_model_path: Option<String>,
    },
    Opencode,
}

/// How the OpenCode service is run.
#[derive(Clone, Copy, Debug, PartialEq, Eq, Structural)]
pub enum OpencodeRuntime {
    Native,
    Wsl,
}

/// The OpenCode service.
#[derive(Clone, Debug, PartialEq, Eq)]
pub struct OpencodeConfig {
    pub runtime: OpencodeRuntime,
    pub path: ConfiguredPath,
}

/// Where the credentials of the custom provider are.
#[derive(Clone, Copy, Debug, PartialEq, Eq, Structural)]
pub enum CustomOpenAiAuthSource {
    Native,
    Wsl,
}

/// The custom provider.
#[derive(Clone, Debug, PartialEq, Eq)]
pub struct CustomOpenAiConfig {
    pub auth_source: CustomOpenAiAuthSource,
    pub auth_path: ConfiguredPath,
}

/// The local model server.
#[derive(Clone, Debug, PartialEq, Eq)]
pub struct LlamaCppConfig {
    pub server_path: ConfiguredPath,
    pub fast_model_path: ConfiguredPath,
    pub quality_model_path: Option<ConfiguredPath>,
}

/// The model that predicts how a prompt goes on.
#[derive(Clone, Debug, PartialEq, Eq)]
pub struct CompletionConfig {
    pub server_path: ConfiguredPath,
    pub model_path: ConfiguredPath,
}

/// What is wrong with the configuration of a capability.
#[derive(Clone, Debug, PartialEq, Eq)]
pub struct CapabilityConfigIssue {
    pub capability: &'static str,
    pub reason: String,
}

/// The configuration.
#[derive(Clone, Debug, PartialEq, Eq)]
pub struct RuntimeConfig {
    pub response_backend: ResponseBackendConfig,
    pub opencode: Option<OpencodeConfig>,
    pub custom_openai: Option<CustomOpenAiConfig>,
    pub llama_cpp: Option<LlamaCppConfig>,
    pub completion: Option<CompletionConfig>,
    pub wake_word_model: ConfiguredPath,
    pub silero_vad_model: ConfiguredPath,
    pub parakeet_model_dir: ConfiguredPath,
    pub tts_model: ConfiguredPath,
    pub capability_issues: Vec<CapabilityConfigIssue>,
}

/// The response profiles that a backend supports: none without a backend, the quality profile
/// only with a model for it.
pub open spec fn profiles_of(backend: ResponseBackendConfig) -> Seq<ResponseProfilePayload> {
    match backend {
        ResponseBackendConfig::Unconfigured => seq![],
        ResponseBackendConfig::LlamaCpp { quality_model_path, .. } => if quality_model_path is Some {
            seq![ResponseProfilePayload::Fast, ResponseProfilePayload::Quality]
        } else {
            seq![ResponseProfilePayload::Fast]
        },
        ResponseBackendConfig::Opencode => seq![ResponseProfilePayload::Fast],
    }
}

/// The response profiles that a backend supports.
pub fn supported_response_profiles(backend: &ResponseBackendConfig) -> (profiles: Vec<
    ResponseProfilePayload,
>)
    ensures
        profiles@ == profiles_of(*backend),
{
    let mut profiles: Vec<ResponseProfilePayload> = Vec::new();
    match backend {
        ResponseBackendConfig::Unconfigured => {},
        ResponseBackendConfig::LlamaCpp { quality_model_path, .. } => {
            profiles.push(ResponseProfilePayload::Fast);
            if quality_model_path.is_some() {
                profiles.push(ResponseProfilePayload::Quality);
            }
        },
        ResponseBackendConfig::Opencode => {
            profiles.push(ResponseProfilePayload::Fast);
        },
    }
    profiles
}

/// The model of a response profile, where there is one.
pub fn model_path_for_profile<'a>(
    profile: ResponseProfilePayload,
    fast_model_path: &'a str,
    quality_model_path: Option<&'a str>,
) -> (result: Result<&'a str, String>)
    ensures
        match result {
            Ok(path) => match profile {
                ResponseProfilePayload::Fast => path@ == fast_model_path@,
                ResponseProfilePayload::Quality => text::optional_str(quality_model_path) == Some(
                    path@,
                ),
            },
            Err(message) => {
                &&& profile is Quality
                &&& quality_model_path is None
                &&& message@ == "response profile `quality` is not supported"@
            },
        },
{
    match profile {
        ResponseProfilePayload::Fast => Ok(fast_model_path),
        ResponseProfilePayload::Quality => match quality_model_path {
            Some(path) => Ok(path),
            None => Err("response profile `quality` is not supported".to_owned()),
        },
    }
}

/// An issue by its contents.
#[verifier::ext_equal]
pub struct IssueView {
    pub capability: Seq<char>,
    pub reason: Seq<char>,
}

impl View for CapabilityConfigIssue {
    type V = IssueView;

    open spec fn view(&self) -> IssueView {
        IssueView { capability: self.capability@, reason: self.reason@ }
    }
}

/// Issues by their contents.
pub open spec fn issue_views(issues: Seq<CapabilityConfigIssue>) -> Seq<IssueView> {
    issues.map_values(|issue: CapabilityConfigIssue| issue@)
}

/// Whether an issue is one that a new answer about the credentials makes obsolete.
pub open spec fn stale_auth_issue(issue: IssueView) -> bool {
    issue.capability == "custom_provider"@ && text::has_prefix(issue.reason, "WSL auth"@)
}

/// The issues that stay when there is a new answer about the credentials.
pub open spec fn kept_issues(issues: Seq<IssueView>) -> Seq<IssueView> {
    issues.filter(|issue: IssueView| !stale_auth_issue(issue))
}

/// The issue that an answer about the credentials raises, where it raises one.
pub open spec fn auth_issue(resolved: Result<ConfiguredPath, String>) -> Option<Seq<char>> {
    match resolved {
        Ok(path) => if path.present {
            None
        } else {
            Some("WSL OpenCode auth file is unavailable"@)
        },
        Err(error) => Some("failed to resolve WSL OpenCode auth: "@ + error@),
    }
}

/// Whether the custom provider's credentials are kept where they have to be asked for.
pub open spec fn asks_for_auth(config: RuntimeConfig) -> bool {
    config.custom_openai is Some && config.custom_openai->0.auth_source is Wsl
}

/// Takes the answer about the custom provider's credentials into the configuration: the path
/// where a file is there, else an issue of that provider and of no other.
pub fn apply_wsl_custom_auth_resolution(
    config: &mut RuntimeConfig,
    resolved: Result<ConfiguredPath, String>,
)
    ensures
        !asks_for_auth(*old(config)) ==> *final(config) == *old(config),
        asks_for_auth(*old(config)) ==> {
            &&& *final(config) == (RuntimeConfig {
                custom_openai: final(config).custom_openai,
                capability_issues: final(config).capability_issues,
                ..*old(config)
            })
            &&& final(config).custom_openai == Some(
                CustomOpenAiConfig {
                    auth_path: if resolved is Ok && resolved->Ok_0.present {
                        resolved->Ok_0
                    } else {
                        old(config).custom_openai->0.auth_path
                    },
                    ..old(config).custom_openai->0
                },
            )
            &&& issue_views(final(config).capability_issues@) == (match auth_issue(resolved) {
                None => kept_issues(issue_views(old(config).capability_issues@)),
                Some(reason) => kept_issues(issue_views(old(config).capability_issues@)).push(
                    IssueView { capability: "custom_provider"@, reason },
                ),
            })
        },
{
    let asks = match &config.custom_openai {
        Some(custom) => custom.auth_source == CustomOpenAiAuthSource::Wsl,
        None => false,
    };
    if !asks {
        return;
    }
    let ghost before = issue_views(config.capability_issues@);
    let mut kept: Vec<CapabilityConfigIssue> = Vec::new();
    let mut i: usize = 0;
    proof {
        reveal(Seq::filter);
        assert(kept_issues(before.take(0)) == Seq::<IssueView>::empty());
    }
    while i < config.capability_issues.len()
        invariant
            i <= config.capability_issues.len(),
            before == issue_views(config.capability_issues@),
            issue_views(kept@) == kept_issues(before.take(i as int)),
        decreases config.capability_issues.len() - i,
    {
        proof {
            reveal(Seq::filter);
            assert(before.take(i + 1).drop_last() == before.take(i as int));
            assert(before.take(i + 1).last() == config.capability_issues@[i as int]@);
        }
        let issue = &config.capability_issues[i];
        let stale = same_text(issue.capability, "custom_provider") && starts_with(
            issue.reason.as_str(),
            "WSL auth",
        );
        if !stale {
            let ghost earlier = issue_views(kept@);
            let copy = CapabilityConfigIssue {
                capability: issue.capability,
                reason: issue.reason.clone(),
            };
            let ghost added = copy@;
            kept.push(copy);
            proof {
                assert(issue_views(kept@) == earlier.push(added));
            }
        }
        i += 1;
    }
    proof {
        assert(before.take(before.len() as int) == before);
    }
    let ghost remaining = issue_views(kept@);
    match resolved {
        Ok(path) => {
            if path.present {
                if let Some(custom) = config.custom_openai.take() {
                    config.custom_openai =
                    Some(
                        CustomOpenAiConfig { auth_source: custom.auth_source, auth_path: path },
                    );
                }
            } else {
                kept.push(
                    CapabilityConfigIssue {
                        capability: "custom_provider",
                        reason: "WSL OpenCode auth file is unavailable".to_owned(),
                    },
                );
                proof {
                    assert(issue_views(kept@) == remaining.push(
                        IssueView {
                            capability: "custom_provider"@,
                            reason: "WSL OpenCode auth file is unavailable"@,
                        },
                    ));
                }
            }
        },
        Err(error) => {
            let reason = concat2("failed to resolve WSL OpenCode auth: ", error.as_str());
            let ghost reason_view = reason@;
            kept.push(CapabilityConfigIssue { capability: "custom_provider", reason });
            proof {
                assert(issue_views(kept@) == remaining.push(
                    IssueView { capability: "custom_provider"@, reason: reason_view },
                ));
            }
        },
    }
    config.capability_issues = kept;
}

/// How the OpenCode service is started: where it is configured, or inside the Linux subsystem of
/// Windows, and nowhere else.
#[derive(Clone, Copy, Debug, PartialEq, Eq)]
pub enum OpencodeLaunch {
    Native,
    Discover,
}

/// How the OpenCode service is started, where it can be.
pub open spec fn launch_of(runtime: OpencodeRuntime, on_windows: bool) -> Result<
    OpencodeLaunch,
    Seq<char>,
> {
    match runtime {
        OpencodeRuntime::Native => Ok(OpencodeLaunch::Native),
        OpencodeRuntime::Wsl => if on_windows {
            Ok(OpencodeLaunch::Discover)
        } else {
            Err("WSL OpenCode runtime is only supported by the Windows application"@)
        },
    }
}

/// How the OpenCode service is started.
pub fn opencode_launch(runtime: OpencodeRuntime, on_windows: bool) -> (result: Result<
    OpencodeLaunch,
    String,
>)
    ensures
        text::outcome(result) == launch_of(runtime, on_windows),
{
    match runtime {
        OpencodeRuntime::Native => Ok(OpencodeLaunch::Native),
        OpencodeRuntime::Wsl => if on_windows {
            Ok(OpencodeLaunch::Discover)
        } else {
            Err("WSL OpenCode runtime is only supported by the Windows application".to_owned())
        },
    }
}

/// The Linux subsystem is looked into on Windows only; a native service is started where it is.
pub proof fn law_the_subsystem_is_asked_on_windows_only(runtime: OpencodeRuntime, on_windows: bool)
    ensures
        launch_of(runtime, on_windows) is Err <==> runtime is Wsl && !on_windows,
        launch_of(runtime, on_windows) == Ok::<OpencodeLaunch, Seq<char>>(OpencodeLaunch::Native)
            <==> runtime is Native,
        launch_of(runtime, on_windows) == Ok::<OpencodeLaunch, Seq<char>>(OpencodeLaunch::Discover)
            <==> runtime is Wsl && on_windows,
        launch_of(runtime, on_windows) matches Err(message) ==> message
            == "WSL OpenCode runtime is only supported by the Windows application"@,
{
}

/// A new answer about the credentials takes away the earlier complaints about them, and no other
/// issue: what stays keeps its order, and only the custom provider's complaints go.
pub proof fn law_only_complaints_about_credentials_go(before: Seq<IssueView>, issue: IssueView)
    ensures
        kept_issues(before.push(issue)) == (if issue.capability == "custom_provider"@ && exists|
            rest: Seq<char>,
        | issue.reason == #[trigger] ("WSL auth"@ + rest) {
            kept_issues(before)
        } else {
            kept_issues(before).push(issue)
        }),
        kept_issues(Seq::<IssueView>::empty()).len() == 0,
{
    reveal(Seq::filter);
    let longer = before.push(issue);
    assert(longer.drop_last() == before);
    assert(longer.last() == issue);
    let mark = "WSL auth"@;
    if text::has_prefix(issue.reason, mark) {
        let rest = issue.reason.skip(mark.len() as int);
        assert(issue.reason == mark + rest);
    }
    if exists|rest: Seq<char>| issue.reason == #[trigger] (mark + rest) {
        let rest = choose|rest: Seq<char>| issue.reason == #[trigger] (mark + rest);
        assert((mark + rest).take(mark.len() as int) == mark);
        assert(text::has_prefix(issue.reason, mark));
    }
}

/// Credentials are complained about exactly where they could not be found, and their place is asked
/// for exactly where the custom provider keeps them in the Linux subsystem.
pub proof fn law_missing_credentials_are_complained_about(
    config: RuntimeConfig,
    resolved: Result<ConfiguredPath, String>,
)
    ensures
        auth_issue(resolved) is None <==> resolved is Ok && resolved->Ok_0.present,
        resolved is Ok && !resolved->Ok_0.present ==> auth_issue(resolved) == Some(
            "WSL OpenCode auth file is unavailable"@,
        ),
        resolved is Err ==> auth_issue(resolved) == Some(
            "failed to resolve WSL OpenCode auth: "@ + resolved->Err_0@,
        ),
        asks_for_auth(config) <==> (config.custom_openai matches Some(custom)
            && custom.auth_source is Wsl),
{
}

} // verus!
