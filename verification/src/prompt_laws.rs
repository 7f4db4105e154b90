//! What holds of every prompt, from its admission to its end.

use crate::active_prompt::PromptControlError;
use crate::agent_stages::AcceptResult;
use crate::conversation::Content;
use crate::prompt;
use crate::prompt_events::{EventView, StagePayload, StageStatusPayload};
use crate::prompt_flow;
use crate::prompt_flow::{
    Entry, MoveView, Origin, PointView, PromptEnd, PromptEvent, PromptPlan, PublishPoint,
    StepView, StreamEnd,
};
use crate::settings::{AgentModel, InstantModel, ResponseProfilePayload};
use crate::startup::{RuntimePhasePayload, StartupView};
use crate::text;
use vstd::prelude::*;
use vstd::string::*;

verus! {

broadcast use vstd::string::group_string_axioms;

/// Whether a model of the Instant stage is one of the custom provider.
pub open spec fn asks_custom(model: InstantModel) -> bool {
    model is CustomSolHigh || model is CustomLunaLow
}

/// Whether a model of the Instant stage is one of the OpenCode server.
pub open spec fn asks_opencode(model: InstantModel) -> bool {
    model is OpenCodeSolHigh || model is OpenCodeLunaLow
}

/// Whether a model of the Instant stage is a local one.
pub open spec fn asks_local(model: InstantModel) -> bool {
    model is LocalFast || model is LocalQuality
}

/// Whether a model of the Deep or Review stage can be asked.
pub open spec fn agent_is_there(
    model: AgentModel,
    custom_configured: bool,
    server_available: bool,
) -> bool {
    match model {
        AgentModel::CustomSolHigh => custom_configured,
        AgentModel::CustomLunaLow => custom_configured,
        AgentModel::OpenCodeSolHigh => server_available,
        AgentModel::OpenCodeLunaLow => server_available,
    }
}

/// Whether a model of the Instant stage can be asked with the selected profile: a local model is
/// the loaded one, and every other one needs no profile.
pub open spec fn profile_fits(model: InstantModel, selected: ResponseProfilePayload) -> bool {
    match model {
        InstantModel::LocalFast => selected is Fast,
        InstantModel::LocalQuality => selected is Quality,
        _ => true,
    }
}

/// Once execution is entered for the model of the Instant stage, the model is asked. The one
/// exception is a custom model without a configured provider, which fails.
pub proof fn law_available_providers_are_asked<G>(plan: PromptPlan)
    ensures
        ({
            let next = plan.next(
                PromptEvent::<G>::Executed { entry: Entry::Provider, result: Ok(()) },
            );
            let missing = asks_custom(plan.preferences.instant_model) && !plan.custom_configured;
            &&& !next.abort_client
            &&& !missing <==> next.step is Stream
            &&& missing <==> next.step is Fail
            &&& missing ==> next.step == (StepView::Fail {
                message: "Custom provider is not configured"@,
                reported: None,
            })
        }),
{
}

/// A prompt begins with the assistant unless its server is missing, is registered, and is
/// dispatched; it holds the OpenCode session exactly where that server answers.
pub proof fn law_prompts_that_begin_are_dispatched<G>(plan: PromptPlan)
    ensures
        ({
            let opencode = asks_opencode(plan.preferences.instant_model);
            let begun = plan.next(PromptEvent::<G>::Started { result: Ok(()) });
            let registered = plan.next(PromptEvent::<G>::Registered { result: Ok(()) });
            &&& !begun.abort_client
            &&& opencode && !plan.server_available ==> begun.step == (StepView::End {
                result: Err("OpenCode server is not available"@),
                settled: false,
            })
            &&& !opencode || plan.server_available ==> begun.step == (StepView::Register {
                direct_client: opencode,
            })
            &&& registered == (MoveView { abort_client: false, step: StepView::Dispatch })
        }),
{
}

/// A prompt is dispatched exactly where each of its stages can run: the Deep and the Review stage,
/// where they are wanted, have their providers, and a local model is the loaded one. Where it is
/// not, the prompt ends with the reason of the first stage that cannot run.
pub proof fn law_prompts_are_dispatched_where_all_stages_can_run<G>(
    plan: PromptPlan,
    selected: ResponseProfilePayload,
)
    ensures
        ({
            let next = plan.next(PromptEvent::<G>::Dispatched { selected });
            let wanted = plan.preferences;
            let deep = wanted.deep_enabled && !agent_is_there(
                wanted.deep_model,
                plan.custom_configured,
                plan.server_available,
            );
            let review = wanted.review_enabled && !agent_is_there(
                wanted.review_model,
                plan.custom_configured,
                plan.server_available,
            );
            let missing = if deep {
                wanted.deep_model
            } else {
                wanted.review_model
            };
            let unloaded = !profile_fits(wanted.instant_model, selected);
            &&& !next.abort_client
            &&& deep || review || unloaded <==> next.step is End
            &&& deep || review ==> next.step == (StepView::End {
                result: Err(
                    if missing is CustomSolHigh || missing is CustomLunaLow {
                        "Custom provider is not configured"@
                    } else {
                        "OpenCode server is not available"@
                    },
                ),
                settled: false,
            })
            &&& !deep && !review && unloaded ==> next.step == (StepView::End {
                result: Err("selected local model is not loaded"@),
                settled: false,
            })
            &&& !deep && !review && !unloaded && wanted.deep_enabled ==> next.step
                == (StepView::Publish {
                event: EventView::Stage {
                    stage: StagePayload::Deep,
                    status: StageStatusPayload::Queued,
                    detail: None,
                },
                then: PointView::Queued,
            })
            &&& !deep && !review && !unloaded && !wanted.deep_enabled ==> next.step
                == (StepView::Publish {
                event: EventView::Stage {
                    stage: StagePayload::Instant,
                    status: StageStatusPayload::Running,
                    detail: None,
                },
                then: PointView::Running,
            })
        }),
{
}

/// Once the Deep stage is started, the Instant stage is told to be running.
pub proof fn law_instant_runs_beside_deep<G>(plan: PromptPlan)
    ensures
        plan.next(PromptEvent::<G>::DeepStarted) == (MoveView {
            abort_client: false,
            step: StepView::Publish {
                event: EventView::Stage {
                    stage: StagePayload::Instant,
                    status: StageStatusPayload::Running,
                    detail: None,
                },
                then: PointView::Running,
            },
        }),
{
}

/// An answer that was made ahead of the question is shown as it is, without asking any model;
/// without one, the model is asked, a local one with the conversation of the assistant.
pub proof fn law_answers_made_ahead_take_the_place_of_the_model<G>(
    plan: PromptPlan,
    answer: Content,
    selected: ResponseProfilePayload,
)
    ensures
        plan.next(PromptEvent::<G>::PrefetchTaken { result: Ok(Some(answer)) }) == (MoveView {
            abort_client: false,
            step: StepView::Execute { entry: Entry::Prefetched { answer } },
        }),
        plan.next(
            PromptEvent::<G>::Executed { entry: Entry::Prefetched { answer }, result: Ok(()) },
        ) == (MoveView {
            abort_client: false,
            step: StepView::Publish {
                event: EventView::Text {
                    text: match answer {
                        Content::Text(words) => words@,
                        Content::Refusal(words) => words@,
                    },
                },
                then: PointView::Answer { answer },
            },
        }),
        plan.next(PromptEvent::<G>::PrefetchTaken { result: Ok(None) }) == (MoveView {
            abort_client: false,
            step: if asks_local(plan.preferences.instant_model) {
                StepView::ReadProfile
            } else {
                StepView::Execute { entry: Entry::Provider }
            },
        }),
        plan.next(PromptEvent::<G>::ProfileRead { selected }) == (MoveView {
            abort_client: false,
            step: if profile_fits(plan.preferences.instant_model, selected) {
                StepView::SyncHistory
            } else {
                StepView::End {
                    result: Err("selected local model is not loaded"@),
                    settled: false,
                }
            },
        }),
        plan.next(PromptEvent::<G>::HistorySynced { result: Ok(()) }) == (MoveView {
            abort_client: false,
            step: StepView::Execute { entry: Entry::Provider },
        }),
{
}

/// The error of a step that an outside service refused, where the event tells of one.
pub open spec fn refused_with<G>(event: PromptEvent<G>) -> Option<Seq<char>> {
    match event {
        PromptEvent::Started { result: Err(error) } => Some(error@),
        PromptEvent::Registered { result: Err(error) } => Some(error@),
        PromptEvent::PrefetchTaken { result: Err(error) } => Some(error@),
        PromptEvent::HistorySynced { result: Err(error) } => Some(error@),
        PromptEvent::Executed { result: Err(error), .. } => Some(error@),
        PromptEvent::Accepted { result: Err(error), .. } => Some(error@),
        PromptEvent::Completed { result: Err(error) } => Some(error@),
        PromptEvent::Committed { result: Err(error), .. } => Some(error@),
        _ => None,
    }
}

/// A step that is refused ends the prompt with just that error, unsettled; a client that execution
/// was entered for is told to stop.
pub proof fn law_refused_steps_end_the_prompt<G>(plan: PromptPlan, event: PromptEvent<G>)
    requires
        refused_with(event) is Some,
    ensures
        plan.next(event).step == (StepView::End {
            result: Err(refused_with(event)->0),
            settled: false,
        }),
        plan.next(event).abort_client <==> asks_opencode(plan.preferences.instant_model) && (
        event matches PromptEvent::Executed { entry, .. } && entry is Provider),
{
}

/// What the model answered is handed to the coordinator as it is. An answer without visible text
/// counts as a failure of a local model and of the OpenCode server, and as an answer of the custom
/// provider; after a failure, and once the prompt is cancelled, an OpenCode client is told to
/// stop.
pub proof fn law_streamed_answers_are_accepted<G>(
    plan: PromptPlan,
    answer: Content,
    cancelled: bool,
)
    ensures
        ({
            let model = plan.preferences.instant_model;
            let next = plan.next(
                PromptEvent::<G>::Streamed { cancelled, end: StreamEnd::Answered(answer) },
            );
            let words = match answer {
                Content::Text(text) => text@,
                Content::Refusal(text) => text@,
            };
            let blank = text::trimmed(words).len() == 0;
            &&& cancelled ==> next.step == (StepView::Cancel { reported: None, strict: false })
            &&& !cancelled && (!blank || asks_custom(model)) ==> next.step
                == (StepView::AcceptInstant { answer: Ok(answer), origin: Origin::Provider })
            &&& !cancelled && blank && asks_local(model) ==> next.step
                == (StepView::AcceptInstant {
                answer: Err("response provider completed without visible text"@),
                origin: Origin::Provider,
            })
            &&& !cancelled && blank && asks_opencode(model) ==> next.step
                == (StepView::AcceptInstant {
                answer: Err("OpenCode completed without visible text"@),
                origin: Origin::Provider,
            })
            &&& next.abort_client <==> asks_opencode(model) && (cancelled || blank)
        }),
{
}

/// A failure of the model is shown and then handed to the coordinator as the outcome of the
/// Instant stage, so that the other stages can still answer. The failure of a remote model after
/// the prompt was cancelled counts as the cancellation.
pub proof fn law_model_failures_are_shown_and_handed_on<G>(
    plan: PromptPlan,
    message: String,
    cancelled: bool,
)
    ensures
        ({
            let model = plan.preferences.instant_model;
            let next = plan.next(
                PromptEvent::<G>::Streamed { cancelled, end: StreamEnd::Failed(message) },
            );
            &&& next.abort_client == asks_opencode(model)
            &&& cancelled && !asks_local(model) ==> next.step == (StepView::Cancel {
                reported: None,
                strict: false,
            })
            &&& !cancelled || asks_local(model) ==> next.step == (StepView::Publish {
                event: EventView::Error { message: message@ },
                then: PointView::ProviderError { message: message@ },
            })
        }),
        plan.next(
            PromptEvent::<G>::Published {
                then: PublishPoint::ProviderError { message },
                result: Ok(()),
            },
        ) == (MoveView {
            abort_client: false,
            step: StepView::AcceptInstant { answer: Err(message@), origin: Origin::Provider },
        }),
        plan.next(PromptEvent::<G>::ClientRefused { message }) == (MoveView {
            abort_client: false,
            step: StepView::Fail { message: message@, reported: None },
        }),
{
}

/// A stream that was cancelled cancels the prompt; only an OpenCode stream that ends so although
/// the prompt was not cancelled is held to show its cancellation.
pub proof fn law_cancelled_streams_cancel_the_prompt<G>(plan: PromptPlan, cancelled: bool)
    ensures
        ({
            let opencode = asks_opencode(plan.preferences.instant_model);
            plan.next(PromptEvent::<G>::Streamed { cancelled, end: StreamEnd::Cancelled })
                == (MoveView {
                abort_client: opencode && cancelled,
                step: StepView::Cancel { reported: None, strict: opencode && !cancelled },
            })
        }),
{
}

/// The outcome of the Instant stage goes through the other stages unchanged; what they make of it
/// decides how the prompt goes on: it completes where there is an answer and the stages ended
/// well, is cancelled where they were, and fails with their error, or with that of the Instant
/// stage, otherwise.
pub proof fn law_stages_decide_how_the_prompt_goes_on<G>(
    plan: PromptPlan,
    answer: Result<Content, String>,
    origin: Origin,
    accepted: AcceptResult,
    cancelled: bool,
    has_final_answer: bool,
    message: String,
)
    ensures
        plan.next(PromptEvent::<G>::Accepted { answer, origin, result: Ok(accepted) })
            == (MoveView {
            abort_client: false,
            step: StepView::ResolveAgents {
                answer: match answer {
                    Ok(content) => Ok(content),
                    Err(failure) => Err(failure@),
                },
                origin,
                accepted,
            },
        }),
        ({
            let stopped = plan.next(
                PromptEvent::<G>::Resolved {
                    answer,
                    origin,
                    cancelled,
                    has_final_answer,
                    result: Err(PromptControlError::Cancelled),
                },
            );
            let broken = plan.next(
                PromptEvent::<G>::Resolved {
                    answer,
                    origin,
                    cancelled,
                    has_final_answer,
                    result: Err(PromptControlError::Error(message)),
                },
            );
            let resolved = plan.next(
                PromptEvent::<G>::Resolved {
                    answer,
                    origin,
                    cancelled,
                    has_final_answer,
                    result: Ok(()),
                },
            );
            let abandoned = StepView::Cancel { reported: None, strict: false };
            &&& stopped == (MoveView { abort_client: false, step: abandoned })
            &&& broken == (MoveView {
                abort_client: false,
                step: StepView::Fail {
                    message: message@,
                    reported: if answer is Ok {
                        None
                    } else {
                        Some("agent resolution failed"@)
                    },
                },
            })
            &&& cancelled ==> resolved.step == abandoned
            &&& resolved.abort_client <==> cancelled && answer is Ok && origin is Provider
                && asks_opencode(plan.preferences.instant_model)
            &&& !cancelled && (answer is Ok || has_final_answer) ==> resolved.step is Complete
            &&& !cancelled && answer is Err && !has_final_answer ==> resolved.step
                == (StepView::Fail {
                message: answer->Err_0@,
                reported: Some(answer->Err_0@),
            })
        }),
{
}

/// A prompt that completes is committed in its phase, shown as completed, and over; that it could
/// not be shown does not undo it.
pub proof fn law_completed_prompts_are_committed_and_shown<G>(
    plan: PromptPlan,
    phase: RuntimePhasePayload,
    result: Result<(), PromptControlError>,
)
    ensures
        plan.next(PromptEvent::<G>::Completed { result: Ok(phase) }) == (MoveView {
            abort_client: false,
            step: StepView::Commit { phase },
        }),
        plan.next(PromptEvent::<G>::Committed { phase, result: Ok(()) }) == (MoveView {
            abort_client: false,
            step: StepView::Publish {
                event: EventView::Completed { runtime_phase: phase },
                then: PointView::Completed { phase },
            },
        }),
        plan.next(
            PromptEvent::<G>::Published { then: PublishPoint::Completed { phase }, result },
        ) == (MoveView {
            abort_client: false,
            step: StepView::End { result: Ok(PromptEnd::Completed(phase)), settled: true },
        }),
{
}

/// What is reported of a prompt that ends with an error: what was to be reported, where there is
/// such a thing, and the error itself otherwise.
pub open spec fn told(reported: Option<String>, error: String) -> Seq<char> {
    match reported {
        Some(message) => message@,
        None => error@,
    }
}

/// A prompt that is cancelled is shown as cancelled in the phase in which the voice runtime sleeps,
/// and ends so. It ends with an error only where the runtime does not sleep, or where the
/// cancellation could not be shown.
pub proof fn law_cancelled_prompts_sleep_and_end<G>(
    plan: PromptPlan,
    phase: RuntimePhasePayload,
    reported: Option<String>,
    strict: bool,
    error: String,
)
    ensures
        plan.next(PromptEvent::<G>::Slept { reported, strict, result: Ok(phase) }) == (MoveView {
            abort_client: false,
            step: StepView::Publish {
                event: EventView::Cancelled { runtime_phase: phase },
                then: PointView::Cancelled {
                    phase,
                    reported: match reported {
                        Some(message) => Some(message@),
                        None => None,
                    },
                    strict,
                },
            },
        }),
        plan.next(PromptEvent::<G>::Slept { reported, strict, result: Err(error) })
            == (MoveView {
            abort_client: false,
            step: StepView::End { result: Err(told(reported, error)), settled: false },
        }),
        ({
            let then = PublishPoint::Cancelled { phase, reported, strict };
            let ended = StepView::End {
                result: Ok(PromptEnd::Cancelled(phase)),
                settled: true,
            };
            &&& plan.next(PromptEvent::<G>::Published { then, result: Ok(()) }) == (MoveView {
                abort_client: false,
                step: ended,
            })
            &&& plan.next(
                PromptEvent::<G>::Published { then, result: Err(PromptControlError::Cancelled) },
            ) == (MoveView {
                abort_client: false,
                step: if strict {
                    StepView::End {
                        result: Err("assistant request cancelled"@),
                        settled: false,
                    }
                } else {
                    ended
                },
            })
            &&& plan.next(
                PromptEvent::<G>::Published {
                    then,
                    result: Err(PromptControlError::Error(error)),
                },
            ) == (MoveView {
                abort_client: false,
                step: StepView::End { result: Err(told(reported, error)), settled: false },
            })
        }),
{
}

/// A prompt that fails is shown as failed and ends, settled, with what is to be reported. Where
/// the prompt is cancelled in between, the cancellation keeps what is to be reported.
pub proof fn law_failed_prompts_are_shown_and_end<G>(
    plan: PromptPlan,
    message: String,
    reported: Option<String>,
    error: String,
)
    ensures
        plan.next(PromptEvent::<G>::Failed { message, reported, result: Ok(()) }) == (MoveView {
            abort_client: false,
            step: StepView::Publish {
                event: EventView::Error { message: message@ },
                then: PointView::Failure {
                    message: message@,
                    reported: match reported {
                        Some(words) => Some(words@),
                        None => None,
                    },
                },
            },
        }),
        plan.next(PromptEvent::<G>::Failed { message, reported, result: Err(error) })
            == (MoveView {
            abort_client: false,
            step: StepView::End { result: Err(told(reported, error)), settled: false },
        }),
        ({
            let then = PublishPoint::Failure { message, reported };
            &&& plan.next(PromptEvent::<G>::Published { then, result: Ok(()) }) == (MoveView {
                abort_client: false,
                step: StepView::End { result: Err(told(reported, message)), settled: true },
            })
            &&& plan.next(
                PromptEvent::<G>::Published { then, result: Err(PromptControlError::Cancelled) },
            ) == (MoveView {
                abort_client: false,
                step: StepView::Cancel {
                    reported: match reported {
                        Some(words) => Some(words@),
                        None => None,
                    },
                    strict: false,
                },
            })
            &&& plan.next(
                PromptEvent::<G>::Published {
                    then,
                    result: Err(PromptControlError::Error(error)),
                },
            ) == (MoveView {
                abort_client: false,
                step: StepView::End { result: Err(told(reported, error)), settled: false },
            })
        }),
{
}

/// What is published on the way leads on to what it was published for: the Deep stage is started,
/// the answer made ahead is looked for, and a shown answer is accepted as one made ahead. A prompt
/// that was cancelled by then is cancelled, and one of which nothing can be published ends with
/// the error.
pub proof fn law_publications_lead_on<G>(
    plan: PromptPlan,
    then: PublishPoint,
    answer: Content,
    error: String,
)
    ensures
        plan.next(PromptEvent::<G>::Published { then: PublishPoint::Queued, result: Ok(()) })
            == (MoveView { abort_client: false, step: StepView::StartDeep }),
        plan.next(PromptEvent::<G>::Published { then: PublishPoint::Running, result: Ok(()) })
            == (MoveView { abort_client: false, step: StepView::TakePrefetch }),
        plan.next(
            PromptEvent::<G>::Published { then: PublishPoint::Answer { answer }, result: Ok(()) },
        ) == (MoveView {
            abort_client: false,
            step: StepView::AcceptInstant { answer: Ok(answer), origin: Origin::Prefetched },
        }),
        then is Queued || then is Running || then is Answer || then is ProviderError ==> {
            &&& plan.next(
                PromptEvent::<G>::Published { then, result: Err(PromptControlError::Cancelled) },
            ) == (MoveView {
                abort_client: false,
                step: StepView::Cancel { reported: None, strict: false },
            })
            &&& plan.next(
                PromptEvent::<G>::Published {
                    then,
                    result: Err(PromptControlError::Error(error)),
                },
            ) == (MoveView {
                abort_client: false,
                step: StepView::End { result: Err(error@), settled: false },
            })
        },
{
}

/// A prompt is admitted exactly once the start is complete, under a generated name, and with a text
/// that is neither blank nor too large; what is wrong is told in that order.
pub proof fn law_prompts_are_admitted_once_everything_is_right<G>(
    state: StartupView<G>,
    request_id: Seq<char>,
    words: Seq<char>,
)
    ensures
        ({
            let refusal = prompt_flow::admission_refusal(state, request_id, words);
            let named = prompt::generated_request_id(request_id);
            &&& refusal is None <==> state is Ready && named && prompt::prompt_refusal(words) is None
            &&& state is WarmingModel ==> refusal == Some("local Gemma model is still warming up"@)
            &&& state is Error ==> refusal == Some("startup error: "@ + state->Error_message)
            &&& state is Ready && !named ==> refusal == Some(
                "request ID must be an opaque generated identifier"@,
            )
            &&& state is Ready && named ==> refusal == prompt::prompt_refusal(words)
        }),
{
}

} // verus!
