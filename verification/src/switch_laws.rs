//! What holds of every switch of the response profile.

use crate::capabilities;
use crate::capabilities::{CapabilityStatePayload, CapabilityView};
use crate::capability_laws;
use crate::profile_switch;
use crate::profile_switch::{
    PreferenceStore, StepView, SwitchAdmission, SwitchEvent, SwitchJob, SyncReport,
};
use crate::settings::{AssistantPreferences, InstantModel, ResponseProfilePayload};
use crate::startup;
use crate::startup::RuntimePhasePayload;
use crate::text;
use vstd::prelude::*;
use vstd::string::*;

verus! {

broadcast use vstd::string::group_string_axioms;

/// A profile and its local model belong together, both ways; no other model serves a profile. A
/// switch changes the Instant model of the preferences and nothing else.
pub proof fn law_profiles_have_their_local_models(
    preferences: AssistantPreferences,
    profile: ResponseProfilePayload,
    model: InstantModel,
)
    ensures
        profile_switch::local_profile(profile_switch::local_model_of(profile)) == Some(profile),
        profile_switch::local_profile(model) is Some <==> model is LocalFast || model
            is LocalQuality,
        profile is Fast ==> profile_switch::local_model_of(profile) is LocalFast,
        profile is Quality ==> profile_switch::local_model_of(profile) is LocalQuality,
        ({
            let next = profile_switch::with_local_model(preferences, profile);
            &&& profile_switch::local_profile(next.instant_model) == Some(profile)
            &&& next.deep_model == preferences.deep_model
            &&& next.review_model == preferences.review_model
            &&& next.deep_enabled == preferences.deep_enabled
            &&& next.review_enabled == preferences.review_enabled
            &&& next.prefetch_enabled == preferences.prefetch_enabled
            &&& next.completion_enabled == preferences.completion_enabled
        }),
{
}

/// The quality profile has a model exactly where one is configured; the fast profile always has
/// its own.
pub proof fn law_profiles_run_their_own_models(fast: Seq<char>, quality: Option<Seq<char>>)
    ensures
        profile_switch::profile_model(ResponseProfilePayload::Fast, fast, quality) == Some(fast),
        profile_switch::profile_model(ResponseProfilePayload::Quality, fast, quality) == quality,
{
}

/// A switch is allowed exactly where the profile is supported and the start is complete, and the
/// profile either runs already or nothing else runs: the voice runtime sleeps and no prompt is
/// active. A profile that runs already is not loaded again.
pub proof fn law_profiles_are_switched_while_nothing_runs<G>(
    profile: ResponseProfilePayload,
    current: ResponseProfilePayload,
    supported: Seq<ResponseProfilePayload>,
    state: startup::StartupView<G>,
    loaded: bool,
    phase: RuntimePhasePayload,
    prompt: bool,
)
    ensures
        ({
            let answer = profile_switch::admission(
                profile,
                current,
                supported,
                state,
                loaded,
                phase,
                prompt,
            );
            let possible = supported.contains(profile) && state is Ready;
            let runs = profile == current && loaded;
            let idle = phase is Sleeping && !prompt;
            &&& answer is Ok <==> possible && (runs || idle)
            &&& answer == Ok::<SwitchAdmission, Seq<char>>(SwitchAdmission::AlreadySelected)
                <==> possible && runs
            &&& answer == Ok::<SwitchAdmission, Seq<char>>(SwitchAdmission::Proceed) <==> possible
                && !runs && idle
            &&& !supported.contains(profile) && profile is Quality ==> answer == Err::<
                SwitchAdmission,
                Seq<char>,
            >("response profile `"@ + "quality"@ + "` is not supported"@)
            &&& !supported.contains(profile) && profile is Fast ==> answer == Err::<
                SwitchAdmission,
                Seq<char>,
            >("response profile `"@ + "fast"@ + "` is not supported"@)
            &&& supported.contains(profile) && !(state is Ready) ==> answer is Err
                && answer->Err_0 == startup::switch_admission(state)->Err_0
            &&& possible && !runs && !(phase is Sleeping) ==> answer is Err && answer->Err_0
                == startup::idle_admission(phase)->Err_0
            &&& possible && !runs && phase is Sleeping && prompt ==> answer == Err::<
                SwitchAdmission,
                Seq<char>,
            >("response profile cannot change while a prompt is active"@)
        }),
{
}

/// A profile change is taken back exactly where no later switch or change came between and no
/// prompt is active: preferences and profile are then the previous ones, and nothing else is.
pub proof fn law_only_the_latest_change_is_taken_back(
    store: PreferenceStore,
    current: bool,
    selected: ResponseProfilePayload,
    profile: ResponseProfilePayload,
    preferences: AssistantPreferences,
    generation: u64,
)
    ensures
        ({
            let (answer, after, chosen) = profile_switch::rolled_back(
                store,
                current,
                selected,
                profile,
                preferences,
                generation,
            );
            let latest = current && store.generation == generation;
            let goes = latest && !store.prompt_active;
            &&& answer == Ok::<bool, Seq<char>>(true) <==> goes
            &&& answer == Ok::<bool, Seq<char>>(false) <==> !latest
            &&& answer is Err <==> latest && store.prompt_active
            &&& answer matches Err(message) ==> message
                == "assistant settings cannot be rolled back while a prompt is active"@
            &&& goes ==> after.preferences == preferences && chosen == profile
            &&& !goes ==> after.preferences == store.preferences && chosen == selected
            &&& after.prompt_active == store.prompt_active
            &&& after.generation == store.generation
        }),
{
}

/// A model that started is followed by the change of the preferences, and one that did not by
/// starting the previous one again. A switch that a later one has overtaken is dropped.
pub proof fn law_started_models_are_followed_up<G>(
    job: SwitchJob<G>,
    provider: &'static str,
    error: String,
    current: bool,
)
    ensures
        job.step(SwitchEvent::Started { result: Ok(provider), current }) == (if current {
            StepView::<G>::Synchronize { provider: provider@ }
        } else {
            StepView::<G>::Abandon
        }),
        job.step(SwitchEvent::Started { result: Err(error), current }) == (if current {
            StepView::<G>::Restore { error: error@ }
        } else {
            StepView::<G>::Abandon
        }),
{
}

/// Preferences that were changed, or a profile that was stored on its own because others have
/// changed them, are followed by putting the runtime in place; where the change failed the previous
/// model is started again, and where the profile could not be stored the change is taken back.
pub proof fn law_changed_preferences_are_followed_up<G>(
    job: SwitchJob<G>,
    provider: &'static str,
    error: String,
)
    ensures
        job.step(SwitchEvent::Synchronized { provider, report: SyncReport::Committed }) == (
        StepView::<G>::StoreRuntime { provider: provider@ }),
        job.step(SwitchEvent::Synchronized { provider, report: SyncReport::Superseded }) == (
        StepView::<G>::PersistProfile { provider: provider@ }),
        job.step(SwitchEvent::Synchronized { provider, report: SyncReport::Failed(error) }) == (
        StepView::<G>::RestoreAfterSync { error: error@ }),
        job.step(SwitchEvent::Persisted { provider, result: Ok(()) }) == (
        StepView::<G>::StoreRuntime { provider: provider@ }),
        ({
            let step = job.step(SwitchEvent::Persisted { provider, result: Err(error) });
            &&& step is Publish
            &&& step->Publish_state == job.stranded(
                "requested profile persistence failed"@,
                error@,
            )
            &&& step->select is None && step->roll_back && !step->synchronize_previous
                && step->even_if_superseded
        }),
{
}

/// A runtime that was put in place is shown with its profile selected; one that could not be put in
/// place because a later switch has begun is dropped.
pub proof fn law_placed_runtimes_are_shown<G>(
    job: SwitchJob<G>,
    provider: &'static str,
    error: String,
    stored: bool,
)
    ensures
        ({
            let step = job.step(SwitchEvent::Stored { provider, stored });
            &&& !stored ==> step is Abandon
            &&& stored ==> step is Publish && step->Publish_state == job.switched(provider@)
                && step->select == Some(job.requested) && !step->roll_back
                && !step->synchronize_previous && !step->even_if_superseded
        }),
        ({
            let step = job.step(SwitchEvent::RestoreStored { error, provider, stored });
            &&& !stored ==> step is Abandon
            &&& stored ==> step is Publish && step->Publish_state == job.returned(error@, provider@)
                && step->select == Some(job.previous) && !step->roll_back
                && step->synchronize_previous && !step->even_if_superseded
        }),
{
}

/// A previous model that runs again is put in its place; one that does not leaves no local model,
/// and both reasons are told.
pub proof fn law_restored_models_are_followed_up<G>(
    job: SwitchJob<G>,
    provider: &'static str,
    error: String,
    restore_error: String,
    current: bool,
    stored: bool,
)
    ensures
        job.step(SwitchEvent::Restored { error, result: Ok(provider), current }) == (if current {
            StepView::<G>::StoreRestored { error: error@, provider: provider@ }
        } else {
            StepView::<G>::Abandon
        }),
        ({
            let step = job.step(
                SwitchEvent::Restored { error, result: Err(restore_error), current },
            );
            &&& !current ==> step is Abandon
            &&& current ==> step is Publish && step->Publish_state == job.stranded(
                error@,
                restore_error@,
            ) && step->select is None && !step->roll_back && !step->synchronize_previous
                && !step->even_if_superseded
        }),
        ({
            let step = job.step(
                SwitchEvent::RestoredAfterSync { error, result: Ok((provider, stored)) },
            );
            &&& step is Publish
            &&& stored ==> step->Publish_state == job.returned(error@, provider@) && step->roll_back
            &&& !stored ==> step->Publish_state == job.stranded(
                error@,
                "profile runtime restore was superseded"@,
            ) && !step->roll_back
            &&& step->select is None && !step->synchronize_previous && !step->even_if_superseded
        }),
        ({
            let step = job.step(
                SwitchEvent::RestoredAfterSync { error, result: Err(restore_error) },
            );
            &&& step is Publish
            &&& step->Publish_state == job.stranded(error@, restore_error@)
            &&& step->select is None && !step->roll_back && !step->synchronize_previous
                && !step->even_if_superseded
        }),
{
}

/// Whatever a switch shows takes over what it found: the sounds, the voice input, the pause, the
/// speech, its gain and the profiles; the voice runtime sleeps and prompts can be cancelled.
pub proof fn law_switches_keep_everything_else<G>(job: SwitchJob<G>, event: SwitchEvent)
    requires
        job.step(event) is Publish,
    ensures
        ({
            let state = job.step(event)->Publish_state;
            let facts = state.facts();
            &&& state is Ready
            &&& facts.start_cue == job.snapshot.cue_asset_paths.start_listening@
            &&& facts.stop_cue == job.snapshot.cue_asset_paths.stop_listening@
            &&& facts.runtime_phase is Sleeping
            &&& facts.voice_input_available == job.snapshot.voice_input_available
            &&& facts.voice_input_error == text::optional_text(job.snapshot.voice_input_error)
            &&& facts.silence_timeout_ms == job.snapshot.silence_timeout_ms
            &&& facts.supported_response_profiles == job.snapshot.supported_response_profiles@
            &&& facts.prompt_cancellation_available
            &&& facts.tts_enabled == job.snapshot.tts_enabled
            &&& facts.tts_output_gain_db == job.snapshot.tts_output_gain_db
        }),
{
}

/// The capability of a profile that was switched to is ready on its provider, and no other
/// capability changes.
pub proof fn law_switched_profiles_are_ready<G>(job: SwitchJob<G>, provider: Seq<char>, i: int)
    requires
        capabilities::unique(capabilities::views(job.snapshot.capabilities@)),
        0 <= i < job.snapshot.capabilities@.len(),
    ensures
        ({
            let before = capabilities::views(job.snapshot.capabilities@)[i];
            let after = job.switched(provider).facts().capabilities[i];
            let served = if job.requested is Fast {
                "local_fast"@
            } else {
                "local_quality"@
            };
            &&& before.id != served ==> after == before
            &&& before.id == served ==> after == (CapabilityView {
                id: served,
                state: CapabilityStatePayload::Available,
                reason: "ready"@,
                actual_provider: Some(provider),
            })
        }),
{
    capabilities::law_capabilities_are_marked_by_name(
        capabilities::views(job.snapshot.capabilities@),
        job.requested.local_capability(),
        CapabilityStatePayload::Available,
        "ready"@,
        Some(provider),
    );
}

/// Where neither profile could be started, the capability of each says why: the requested one with
/// the first error, the previous one with the second, and both errors where it is the same profile.
pub proof fn law_stranded_profiles_say_why<G>(
    job: SwitchJob<G>,
    error: Seq<char>,
    restore_error: Seq<char>,
    i: int,
)
    requires
        capabilities::unique(capabilities::views(job.snapshot.capabilities@)),
        0 <= i < job.snapshot.capabilities@.len(),
    ensures
        ({
            let before = capabilities::views(job.snapshot.capabilities@)[i];
            let after = job.stranded(error, restore_error).facts().capabilities[i];
            let fast = if job.requested is Fast {
                "fast"@
            } else {
                "quality"@
            };
            let asked = if job.requested is Fast {
                "local_fast"@
            } else {
                "local_quality"@
            };
            let name = if job.previous is Fast {
                "fast"@
            } else {
                "quality"@
            };
            let back = if job.previous is Fast {
                "local_fast"@
            } else {
                "local_quality"@
            };
            let first = "failed to initialize requested "@ + fast + " profile: "@ + error;
            let failed = |reason: Seq<char>|
                CapabilityView {
                    id: before.id,
                    state: CapabilityStatePayload::Failed,
                    reason,
                    actual_provider: None,
                };
            &&& before.id == asked && job.requested == job.previous ==> after == failed(
                first + "; retry failed: "@ + restore_error,
            )
            &&& before.id == asked && job.requested != job.previous ==> after == failed(first)
            &&& before.id == back && job.requested != job.previous ==> after == failed(
                "failed to restore previous "@ + name + " profile: "@ + restore_error,
            )
            &&& before.id != asked && before.id != back ==> after == before
        }),
{
    capability_laws::lemma_names_differ();
    let caps = capabilities::views(job.snapshot.capabilities@);
    let failed = CapabilityStatePayload::Failed;
    let asked = job.requested.local_capability();
    let reason = capabilities::requested_failure(job.requested, error);
    capabilities::law_capabilities_are_marked_by_name(
        caps,
        asked,
        failed,
        reason + "; retry failed: "@ + restore_error,
        None,
    );
    capabilities::law_capabilities_are_marked_by_name(caps, asked, failed, reason, None);
    capabilities::law_capabilities_are_marked_by_name(
        capabilities::marked(caps, asked, failed, reason, None),
        job.previous.local_capability(),
        failed,
        "failed to restore previous "@ + job.previous.name() + " profile: "@ + restore_error,
        None,
    );
}

} // verus!
