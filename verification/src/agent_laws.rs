//! What holds of the Deep and Review stages of every request.

use crate::active_prompt::{ControlView, PromptControlError};
use crate::agent_stages;
use crate::agent_stages::{
    AcceptResult, AgentEvent, AgentPlan, AgentPoint, ReviewDecision, StageRecord, StageStatus, StepView,
};
use crate::conversation;
use crate::conversation::{Content, ToolEvidence};
use crate::prompt_events::{DeepReport, EventView, StagePayload, StageStatusPayload};
use crate::telemetry;
use crate::text;
use vstd::prelude::*;
use vstd::string::*;

verus! {

broadcast use vstd::string::group_string_axioms;

/// The stages end with an error.
pub open spec fn ends_with(step: StepView, message: Seq<char>) -> bool {
    step == StepView::Finish(Err(ControlView::Error(message)))
}

/// Whether events begin with what is shown of a report: its sources, where it has any, and the
/// corrected answer with a spoken summary. Without a report nothing is shown.
pub open spec fn begins_with_report(events: Seq<EventView>, report: Option<DeepReport>) -> bool {
    match report {
        None => true,
        Some(found) => {
            let correction = EventView::Correction {
                stage: StagePayload::Deep,
                text: found.complete_answer@,
                correction: "Correction: "@ + text::trimmed(found.voice_summary@),
            };
            if found.sources@.len() == 0 {
                events.len() >= 1 && events[0] == correction
            } else {
                &&& events.len() >= 2
                &&& events[0] matches EventView::Sources { sources }
                &&& sources.len() == found.sources@.len()
                &&& forall|i: int|
                    0 <= i < sources.len() ==> #[trigger] sources[i] == (
                        found.sources@[i].url@,
                        found.sources@[i].title@,
                    )
                &&& events[1] == correction
            }
        },
    }
}

/// How many events a report is shown with.
pub open spec fn report_len(report: Option<DeepReport>) -> int {
    match report {
        None => 0,
        Some(found) => if found.sources@.len() == 0 {
            1
        } else {
            2
        },
    }
}

/// Whether events tell that the Review stage runs, after what is shown of a report.
pub open spec fn announces_review(events: Seq<EventView>, report: Option<DeepReport>) -> bool {
    let n = report_len(report);
    &&& begins_with_report(events, report)
    &&& events.len() == n + 2
    &&& events[n] == (EventView::Status { message: "Review running"@ })
    &&& events[n + 1] == (EventView::Stage {
        stage: StagePayload::Review,
        status: StageStatusPayload::Running,
        detail: None,
    })
}

/// Where the Review stage is wanted, it follows every Deep outcome that was accepted for a request
/// that goes on: what is shown of the report is shown, and the Review stage is asked about just
/// that report. Where it is not wanted, a Deep outcome has to resolve the request, and what is
/// shown of the report is the end.
pub proof fn law_review_follows_deep(
    plan: AgentPlan,
    report: Option<DeepReport>,
    accepted: AcceptResult,
)
    ensures
        ({
            let step = plan.step(
                AgentEvent::DeepAccepted { report, cancelled: false, result: Ok(accepted) },
            );
            &&& plan.review_enabled ==> (step matches StepView::Publish { events, then } && then
                == (AgentPoint::Review { report }) && announces_review(events, report))
            &&& !plan.review_enabled && accepted is Resolved ==> (step matches StepView::Publish {
                events,
                then,
            } && then is End && events.len() == report_len(report) && begins_with_report(
                events,
                report,
            ))
            &&& !plan.review_enabled && !(accepted is Resolved) <==> ends_with(
                step,
                "Deep did not resolve the assistant request"@,
            )
        }),
        plan.step(AgentEvent::Published { then: AgentPoint::Review { report } })
            == (StepView::RunReview { report }),
{
}

/// The stages begin with telling how the Instant stage ended: completed where there is an answer
/// that was taken, failed otherwise.
pub proof fn law_the_instant_stage_is_told_first(plan: AgentPlan)
    ensures
        ({
            let step = plan.step(AgentEvent::Begun { cancelled: false });
            let answered = plan.instant_answered && !(plan.instant_result is Pending);
            &&& step matches StepView::Publish { events, then }
            &&& then is Instant
            &&& events.len() == 1
            &&& answered ==> events[0] == (EventView::Stage {
                stage: StagePayload::Instant,
                status: StageStatusPayload::Completed,
                detail: None,
            })
            &&& !answered ==> events[0] == (EventView::Stage {
                stage: StagePayload::Instant,
                status: StageStatusPayload::Failed,
                detail: Some("Instant provider failed"@),
            })
        }),
{
    reveal_strlit("Instant provider failed");
    let failure = "Instant provider failed"@;
    assert(failure.take(failure.len() as int) == failure);
}

/// After the Instant stage, the stages that are wanted run: none for a request that is resolved,
/// the Deep stage first where it is wanted, and the Review stage alone where it is not. A Deep
/// stage that is wanted has to have been started.
pub proof fn law_wanted_stages_run(plan: AgentPlan)
    ensures
        ({
            let step = plan.step(AgentEvent::Published { then: AgentPoint::Instant });
            let over = plan.instant_result is Resolved || (!plan.deep_enabled
                && !plan.review_enabled);
            &&& over <==> step == StepView::Finish(Ok(()))
            &&& !over && plan.deep_enabled && plan.deep_started <==> step is JoinDeep
            &&& !over && plan.deep_enabled && !plan.deep_started <==> ends_with(
                step,
                "Deep task was not started"@,
            )
            &&& !over && !plan.deep_enabled ==> (step matches StepView::Publish { events, then }
                && then == (AgentPoint::Review { report: None }) && announces_review(events, None))
        }),
{
}

/// A Deep stage that is over is told as completed where it has a report and as failed where it has
/// none, and its outcome is then handed to the coordinator with that report.
pub proof fn law_deep_outcomes_are_told_and_handed_on(
    plan: AgentPlan,
    report: Option<DeepReport>,
)
    ensures
        ({
            let step = plan.step(AgentEvent::DeepJoined { cancelled: false, result: Ok(report) });
            &&& step matches StepView::Publish { events, then }
            &&& then == (AgentPoint::Deep { report })
            &&& events.len() == 2
            &&& report is Some ==> events[0] == (EventView::Stage {
                stage: StagePayload::Deep,
                status: StageStatusPayload::Completed,
                detail: None,
            }) && events[1] == (EventView::Status { message: "Deep completed"@ })
            &&& report is None ==> events[0] == (EventView::Stage {
                stage: StagePayload::Deep,
                status: StageStatusPayload::Failed,
                detail: Some("Deep provider failed or returned invalid JSON"@),
            }) && events[1] == (EventView::Status { message: "Deep failed"@ })
        }),
        plan.step(AgentEvent::Published { then: AgentPoint::Deep { report } })
            == (StepView::AcceptDeep { report }),
{
    reveal_strlit("Deep provider failed or returned invalid JSON");
    let failure = "Deep provider failed or returned invalid JSON"@;
    assert(failure.take(failure.len() as int) == failure);
}

/// A decision of the Review stage is handed to the coordinator as it is; one that resolves the
/// request is shown, a correction with its words and a kept answer as kept, and is the end.
pub proof fn law_review_decisions_are_accepted_and_shown(
    plan: AgentPlan,
    decision: ReviewDecision,
    accepted: AcceptResult,
)
    ensures
        plan.step(AgentEvent::Reviewed { cancelled: false, verdict: Ok(decision) })
            == (StepView::AcceptReview { verdict: Ok(decision) }),
        ({
            let step = plan.step(
                AgentEvent::ReviewAccepted {
                    verdict: Ok(decision),
                    cancelled: false,
                    result: Ok(accepted),
                },
            );
            &&& !(accepted is Resolved) <==> ends_with(
                step,
                "Review did not resolve the assistant request"@,
            )
            &&& accepted is Resolved ==> (step matches StepView::Publish { events, then } && then
                is End && events.len() == 2 && match decision {
                ReviewDecision::Keep => events[0] == (EventView::Stage {
                    stage: StagePayload::Review,
                    status: StageStatusPayload::Kept,
                    detail: None,
                }) && events[1] == (EventView::Status { message: "Review kept candidate"@ }),
                ReviewDecision::Rewrite { replacement, correction } => events[0]
                    == (EventView::Stage {
                    stage: StagePayload::Review,
                    status: StageStatusPayload::Corrected,
                    detail: None,
                }) && events[1] == (EventView::Correction {
                    stage: StagePayload::Review,
                    text: match replacement {
                        Content::Text(words) => words@,
                        Content::Refusal(words) => words@,
                    },
                    correction: correction@,
                }),
            })
        }),
{
}

/// A Review stage that fails is told as failed, with the beginning of its error, and its failure is
/// handed to the coordinator; the request then ends well exactly where that resolves it.
pub proof fn law_review_failures_fall_back(
    plan: AgentPlan,
    error: String,
    cancelled: bool,
    accepted: AcceptResult,
)
    ensures
        ({
            let step = plan.step(AgentEvent::Reviewed { cancelled: false, verdict: Err(error) });
            &&& step matches StepView::Publish { events, then }
            &&& then == (AgentPoint::ReviewFailure { error })
            &&& events.len() == 2
            &&& events[0] matches EventView::Stage { stage, status, detail: Some(detail) }
            &&& stage is Review
            &&& status is Failed
            &&& detail.is_prefix_of(error@)
            &&& detail.len() == 256 || (detail == error@ && error@.len() <= 256)
            &&& events[1] == (EventView::Status { message: "Review failed"@ })
        }),
        plan.step(AgentEvent::Published { then: AgentPoint::ReviewFailure { error } })
            == (StepView::AcceptReview { verdict: Err(error) }),
        ({
            let step = plan.step(
                AgentEvent::ReviewAccepted {
                    verdict: Err(error),
                    cancelled,
                    result: Ok(accepted),
                },
            );
            &&& accepted is Resolved <==> step == StepView::Finish(Ok(()))
            &&& !(accepted is Resolved) <==> ends_with(
                step,
                "Review failure did not resolve a fallback"@,
            )
        }),
{
    assert(error@.take(error@.len() as int) == error@);
}

/// Once what ends the stages is published, they are over in order.
pub proof fn law_published_ends_are_the_end(plan: AgentPlan)
    ensures
        plan.step(AgentEvent::Published { then: AgentPoint::End }) == StepView::Finish(Ok(())),
{
}

/// An error of the outside work ends the stages with just that error, cancelled or not, and a
/// request that is cancelled ends them as cancelled.
pub proof fn law_errors_and_cancellations_end_the_stages(
    plan: AgentPlan,
    report: Option<DeepReport>,
    verdict: Result<ReviewDecision, String>,
    decision: ReviewDecision,
    accepted: AcceptResult,
    cancelled: bool,
    error: String,
)
    ensures
        ends_with(
            plan.step(AgentEvent::DeepJoined { cancelled, result: Err(error) }),
            error@,
        ),
        ends_with(
            plan.step(AgentEvent::DeepAccepted { report, cancelled, result: Err(error) }),
            error@,
        ),
        ends_with(plan.step(AgentEvent::ReviewUnasked { error }), error@),
        ends_with(
            plan.step(AgentEvent::ReviewAccepted { verdict, cancelled, result: Err(error) }),
            error@,
        ),
        ends_with(
            plan.step(AgentEvent::Unpublished { error: PromptControlError::Error(error) }),
            error@,
        ),
        ({
            let stopped = StepView::Finish(Err(ControlView::Cancelled));
            &&& plan.step(AgentEvent::Unpublished { error: PromptControlError::Cancelled })
                == stopped
            &&& plan.step(AgentEvent::Begun { cancelled: true }) == stopped
            &&& plan.step(AgentEvent::DeepJoined { cancelled: true, result: Ok(report) })
                == stopped
            &&& plan.step(
                AgentEvent::DeepAccepted { report, cancelled: true, result: Ok(accepted) },
            ) == stopped
            &&& plan.step(AgentEvent::Reviewed { cancelled: true, verdict }) == stopped
            &&& plan.step(
                AgentEvent::ReviewAccepted {
                    verdict: Ok(decision),
                    cancelled: true,
                    result: Ok(accepted),
                },
            ) == stopped
        }),
{
}

/// Each stage is recorded once, when it is over and the request goes on: the Instant stage once it
/// was told of, the Deep and the Review stage once they ended. Each is recorded as it ended.
pub proof fn law_stages_are_recorded_once(plan: AgentPlan, event: AgentEvent)
    ensures
        plan.record(event) == (match event {
            AgentEvent::Published { then } => if then is Instant {
                Some(
                    StageRecord {
                        stage: telemetry::Stage::Generation,
                        succeeded: plan.instant_answered && !(plan.instant_result is Pending),
                    },
                )
            } else {
                None
            },
            AgentEvent::DeepJoined { cancelled, result } => if !cancelled && result is Ok {
                Some(
                    StageRecord {
                        stage: telemetry::Stage::Deep,
                        succeeded: result->Ok_0 is Some,
                    },
                )
            } else {
                None
            },
            AgentEvent::Reviewed { cancelled, verdict } => if !cancelled {
                Some(StageRecord { stage: telemetry::Stage::Review, succeeded: verdict is Ok })
            } else {
                None
            },
            _ => None,
        }),
{
}

/// A Deep answer is a report exactly where it is no refusal, can be read, and has only sources that
/// were fetched, or none where none are allowed; it is then kept as it was read.
pub proof fn law_deep_reports_are_founded(
    refusal: bool,
    parsed: Result<DeepReport, String>,
    allowed: bool,
    evidence: Seq<ToolEvidence>,
)
    ensures
        ({
            let report = agent_stages::judged_deep(refusal, parsed, allowed, evidence);
            let sources = parsed->Ok_0.sources@;
            let founded = if allowed {
                forall|i: int|
                    0 <= i < sources.len() ==> conversation::observed(
                        evidence,
                        (#[trigger] sources[i]).url@,
                    )
            } else {
                sources.len() == 0
            };
            &&& report is Some <==> !refusal && parsed is Ok && founded
            &&& report is Some ==> report->0 == parsed->Ok_0
        }),
{
    if let Ok(found) = parsed {
        conversation::law_sources_are_accepted_where_fetched(found.sources@, evidence);
    }
}

/// The Review stage is told what the Instant and the Deep stage answered, word for word, or that
/// they failed or were off.
pub proof fn law_review_is_told_what_was_answered(
    plan: AgentPlan,
    content: Option<Content>,
    report: Option<DeepReport>,
    instant: StageStatus,
    deep: StageStatus,
)
    requires
        agent_stages::told_stages(plan, content, report, instant, deep),
    ensures
        content is Some && !(plan.instant_result is Pending) ==> (
        instant matches StageStatus::Success(told) && told.words() == content->0.words()),
        content is None || plan.instant_result is Pending ==> (
        instant matches StageStatus::Failure(told) && told@ == "Instant provider failed"@),
        report is Some ==> (deep matches StageStatus::Success(told) && told.words()
            == report->0.complete_answer@),
        report is None && plan.deep_enabled ==> (deep matches StageStatus::Failure(told) && told@
            == "Deep provider failed"@),
        report is None && !plan.deep_enabled ==> (deep matches StageStatus::Failure(told) && told@
            == "Deep stage disabled"@),
{
}

} // verus!
