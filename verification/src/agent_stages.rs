//! The Deep and Review stages: when they run, what is told of them, and what they leave of the
//! first answer.

use crate::active_prompt;
use crate::active_prompt::{is_taking_outcomes, ActivePrompt, ControlView, PromptControlError};
use crate::conversation;
use crate::conversation::{
    agent_history, assistant_content_text, copy_content, ensure_deep_sources, Content,
    ConversationTurn, HistoryEntry, SourcePayload, ToolEvidence,
};
use crate::prompt_events;
use crate::prompt_events::{
    copy_sources, show_report, stage_event, status_event, DeepReport, EventView,
    PromptExecutionEventPayload, StagePayload, StageStatusPayload,
};
use crate::telemetry;
use crate::text;
use vstd::prelude::*;
use vstd::string::*;

verus! {

/// What the coordinator of a request says to the outcome of a stage.
#[derive(Clone, Copy, Debug, PartialEq, Eq, Structural)]
pub enum AcceptResult {
    Pending,
    Provisional,
    Resolved,
    Cancelled,
}

/// What the Review stage decided.
#[derive(Clone, Debug, PartialEq, Eq)]
pub enum ReviewDecision {
    Keep,
    Rewrite { replacement: Content, correction: String },
}

/// Which stages a request has, and how its Instant stage ended.
#[derive(Clone, Copy, Debug, PartialEq, Eq, Structural)]
pub struct AgentPlan {
    pub deep_enabled: bool,
    pub review_enabled: bool,
    pub deep_started: bool,
    pub instant_result: AcceptResult,
    pub instant_answered: bool,
}

/// One stage that is to be recorded, and whether it succeeded.
#[derive(Clone, Copy, Debug, PartialEq, Eq, Structural)]
pub struct StageRecord {
    pub stage: telemetry::Stage,
    pub succeeded: bool,
}

/// What a publication was made for.
#[derive(Debug, PartialEq, Eq)]
pub enum AgentPoint {
    Instant,
    Deep { report: Option<DeepReport> },
    Review { report: Option<DeepReport> },
    ReviewFailure { error: String },
    End,
}

/// What happened to the outside work of the stages.
#[derive(Debug, PartialEq, Eq)]
pub enum AgentEvent {
    /// The Instant stage is over.
    Begun { cancelled: bool },
    /// Everything that was to be published was published.
    Published { then: AgentPoint },
    /// Something could not be published.
    Unpublished { error: PromptControlError },
    /// The Deep stage is over, with a report where it succeeded.
    DeepJoined { cancelled: bool, result: Result<Option<DeepReport>, String> },
    /// The coordinator was handed the outcome of the Deep stage.
    DeepAccepted {
        report: Option<DeepReport>,
        cancelled: bool,
        result: Result<AcceptResult, String>,
    },
    /// The Review stage could not be asked.
    ReviewUnasked { error: String },
    /// The Review stage is over.
    Reviewed { cancelled: bool, verdict: Result<ReviewDecision, String> },
    /// The coordinator was handed the outcome of the Review stage.
    ReviewAccepted {
        verdict: Result<ReviewDecision, String>,
        cancelled: bool,
        result: Result<AcceptResult, String>,
    },
}

/// What is done next.
#[derive(Debug, PartialEq, Eq)]
pub enum AgentStep {
    /// Nothing: the stages are over.
    Finish(Result<(), PromptControlError>),
    /// Publish the events in order, up to the first that cannot be published.
    Publish { events: Vec<PromptExecutionEventPayload>, then: AgentPoint },
    /// Wait for the Deep stage.
    JoinDeep,
    /// Hand the outcome of the Deep stage to the coordinator.
    AcceptDeep { report: Option<DeepReport> },
    /// Ask the Review stage.
    RunReview { report: Option<DeepReport> },
    /// Hand the outcome of the Review stage to the coordinator.
    AcceptReview { verdict: Result<ReviewDecision, String> },
}

/// What is done next, by its contents.
#[verifier::ext_equal]
pub ghost enum StepView {
    Finish(Result<(), ControlView>),
    Publish { events: Seq<EventView>, then: AgentPoint },
    JoinDeep,
    AcceptDeep { report: Option<DeepReport> },
    RunReview { report: Option<DeepReport> },
    AcceptReview { verdict: Result<ReviewDecision, String> },
}

/// The outcome of the stages, by its characters.
pub open spec fn control_outcome(result: Result<(), PromptControlError>) -> Result<
    (),
    ControlView,
> {
    match result {
        Ok(_) => Ok(()),
        Err(error) => Err(error@),
    }
}

impl View for AgentStep {
    type V = StepView;

    open spec fn view(&self) -> StepView {
        match *self {
            AgentStep::Finish(result) => StepView::Finish(control_outcome(result)),
            AgentStep::Publish { events, then } => StepView::Publish {
                events: prompt_events::event_views(events@),
                then,
            },
            AgentStep::JoinDeep => StepView::JoinDeep,
            AgentStep::AcceptDeep { report } => StepView::AcceptDeep { report },
            AgentStep::RunReview { report } => StepView::RunReview { report },
            AgentStep::AcceptReview { verdict } => StepView::AcceptReview { verdict },
        }
    }
}

/// What is recorded, and what is done after that.
#[derive(Debug, PartialEq, Eq)]
pub struct AgentMove {
    pub record: Option<StageRecord>,
    pub step: AgentStep,
}

/// The stages are over, in order.
pub open spec fn finished() -> StepView {
    StepView::Finish(Ok(()))
}

/// The stages are over because the request was cancelled.
pub open spec fn stopped() -> StepView {
    StepView::Finish(Err(ControlView::Cancelled))
}

/// The stages are over because of an error.
pub open spec fn failed(message: Seq<char>) -> StepView {
    StepView::Finish(Err(ControlView::Error(message)))
}

/// What is told of a Deep stage that is over.
pub open spec fn deep_events(report: Option<DeepReport>) -> Seq<EventView> {
    match report {
        Some(_) => seq![
            prompt_events::staged(StagePayload::Deep, StageStatusPayload::Completed, None),
            EventView::Status { message: "Deep completed"@ },
        ],
        None => seq![
            prompt_events::staged(
                StagePayload::Deep,
                StageStatusPayload::Failed,
                Some("Deep provider failed or returned invalid JSON"@),
            ),
            EventView::Status { message: "Deep failed"@ },
        ],
    }
}

/// What is told of the report of a Deep stage.
pub open spec fn report_events(report: Option<DeepReport>) -> Seq<EventView> {
    match report {
        Some(report) => report@.shown(),
        None => seq![],
    }
}

/// What is told before the Review stage is asked.
pub open spec fn review_events(report: Option<DeepReport>) -> Seq<EventView> {
    report_events(report) + seq![
        EventView::Status { message: "Review running"@ },
        prompt_events::staged(StagePayload::Review, StageStatusPayload::Running, None),
    ]
}

/// What is told of a decision of the Review stage.
pub open spec fn decision_events(decision: ReviewDecision) -> Seq<EventView> {
    match decision {
        ReviewDecision::Rewrite { replacement, correction } => seq![
            prompt_events::staged(StagePayload::Review, StageStatusPayload::Corrected, None),
            EventView::Correction {
                stage: StagePayload::Review,
                text: replacement.words(),
                correction: correction@,
            },
        ],
        ReviewDecision::Keep => seq![
            prompt_events::staged(StagePayload::Review, StageStatusPayload::Kept, None),
            EventView::Status { message: "Review kept candidate"@ },
        ],
    }
}

/// What is told of a Review stage that failed.
pub open spec fn review_failure_events(error: Seq<char>) -> Seq<EventView> {
    seq![
        prompt_events::staged(StagePayload::Review, StageStatusPayload::Failed, Some(error)),
        EventView::Status { message: "Review failed"@ },
    ]
}

impl AgentPlan {
    /// Whether the Instant stage gave an answer.
    pub open spec fn instant_succeeded(self) -> bool {
        self.instant_result !is Pending && self.instant_answered
    }

    /// What is told of the Instant stage.
    pub open spec fn instant_events(self) -> Seq<EventView> {
        if self.instant_succeeded() {
            seq![
                prompt_events::staged(StagePayload::Instant, StageStatusPayload::Completed, None),
            ]
        } else {
            seq![
                prompt_events::staged(
                    StagePayload::Instant,
                    StageStatusPayload::Failed,
                    Some("Instant provider failed"@),
                ),
            ]
        }
    }

    /// What is done once the Instant stage was told of.
    pub open spec fn after_instant(self) -> StepView {
        if self.instant_result is Resolved || (!self.deep_enabled && !self.review_enabled) {
            finished()
        } else if !self.deep_enabled {
            StepView::Publish {
                events: review_events(None),
                then: AgentPoint::Review { report: None },
            }
        } else if !self.deep_started {
            failed("Deep task was not started"@)
        } else {
            StepView::JoinDeep
        }
    }

    /// What is recorded after an event.
    pub open spec fn record(self, event: AgentEvent) -> Option<StageRecord> {
        match event {
            AgentEvent::Published { then: AgentPoint::Instant } => Some(
                StageRecord {
                    stage: telemetry::Stage::Generation,
                    succeeded: self.instant_succeeded(),
                },
            ),
            AgentEvent::DeepJoined { cancelled: false, result: Ok(report) } => Some(
                StageRecord { stage: telemetry::Stage::Deep, succeeded: report is Some },
            ),
            AgentEvent::Reviewed { cancelled: false, verdict } => Some(
                StageRecord { stage: telemetry::Stage::Review, succeeded: verdict is Ok },
            ),
            _ => None,
        }
    }

    /// What is done after an event.
    pub open spec fn step(self, event: AgentEvent) -> StepView {
        match event {
            AgentEvent::Begun { cancelled } => if cancelled {
                stopped()
            } else {
                StepView::Publish { events: self.instant_events(), then: AgentPoint::Instant }
            },
            AgentEvent::Published { then } => match then {
                AgentPoint::Instant => self.after_instant(),
                AgentPoint::Deep { report } => StepView::AcceptDeep { report },
                AgentPoint::Review { report } => StepView::RunReview { report },
                AgentPoint::ReviewFailure { error } => StepView::AcceptReview {
                    verdict: Err(error),
                },
                AgentPoint::End => finished(),
            },
            AgentEvent::Unpublished { error } => StepView::Finish(Err(error@)),
            AgentEvent::DeepJoined { cancelled, result } => match result {
                Err(error) => failed(error@),
                Ok(report) => if cancelled {
                    stopped()
                } else {
                    StepView::Publish {
                        events: deep_events(report),
                        then: AgentPoint::Deep { report },
                    }
                },
            },
            AgentEvent::DeepAccepted { report, cancelled, result } => match result {
                Err(error) => failed(error@),
                Ok(accepted) => if cancelled {
                    stopped()
                } else if self.review_enabled {
                    StepView::Publish {
                        events: review_events(report),
                        then: AgentPoint::Review { report },
                    }
                } else if accepted !is Resolved {
                    failed("Deep did not resolve the assistant request"@)
                } else {
                    StepView::Publish { events: report_events(report), then: AgentPoint::End }
                },
            },
            AgentEvent::ReviewUnasked { error } => failed(error@),
            AgentEvent::Reviewed { cancelled, verdict } => if cancelled {
                stopped()
            } else {
                match verdict {
                    Ok(_) => StepView::AcceptReview { verdict },
                    Err(error) => StepView::Publish {
                        events: review_failure_events(error@),
                        then: AgentPoint::ReviewFailure { error },
                    },
                }
            },
            AgentEvent::ReviewAccepted { verdict, cancelled, result } => match (verdict, result) {
                (_, Err(error)) => failed(error@),
                (Err(_), Ok(accepted)) => if accepted is Resolved {
                    finished()
                } else {
                    failed("Review failure did not resolve a fallback"@)
                },
                (Ok(decision), Ok(accepted)) => if cancelled {
                    stopped()
                } else if accepted !is Resolved {
                    failed("Review did not resolve the assistant request"@)
                } else {
                    StepView::Publish { events: decision_events(decision), then: AgentPoint::End }
                },
            },
        }
    }
}

fn error_step(message: &str) -> (step: AgentStep)
    ensures
        step@ == failed(message@),
{
    AgentStep::Finish(Err(PromptControlError::Error(message.to_owned())))
}

fn stop_step() -> (step: AgentStep)
    ensures
        step@ == stopped(),
{
    AgentStep::Finish(Err(PromptControlError::Cancelled))
}

fn two_events(
    first: PromptExecutionEventPayload,
    second: PromptExecutionEventPayload,
) -> (events: Vec<PromptExecutionEventPayload>)
    ensures
        prompt_events::event_views(events@) == seq![first@, second@],
{
    let mut events: Vec<PromptExecutionEventPayload> = Vec::new();
    events.push(first);
    events.push(second);
    proof {
        assert(prompt_events::event_views(events@) =~= seq![first@, second@]);
    }
    events
}

fn publish_report(report: &Option<DeepReport>) -> (events: Vec<PromptExecutionEventPayload>)
    ensures
        prompt_events::event_views(events@) == report_events(*report),
{
    let mut events: Vec<PromptExecutionEventPayload> = Vec::new();
    proof {
        assert(prompt_events::event_views(events@) =~= Seq::<EventView>::empty());
    }
    match report {
        Some(found) => {
            show_report(&mut events, found);
        },
        None => {},
    }
    proof {
        assert(prompt_events::event_views(events@) =~= report_events(*report));
    }
    events
}

fn ask_review(report: Option<DeepReport>) -> (step: AgentStep)
    ensures
        step@ == (StepView::Publish {
            events: review_events(report),
            then: AgentPoint::Review { report },
        }),
{
    let mut events = publish_report(&report);
    let ghost before = events@;
    let running = status_event("Review running");
    let stage = stage_event(StagePayload::Review, StageStatusPayload::Running, None);
    let ghost shown = seq![running@, stage@];
    events.push(running);
    events.push(stage);
    proof {
        assert(prompt_events::event_views(events@) =~= prompt_events::event_views(before) + shown);
    }
    AgentStep::Publish { events, then: AgentPoint::Review { report } }
}

fn show_deep(report: Option<DeepReport>) -> (step: AgentStep)
    ensures
        step@ == (StepView::Publish {
            events: deep_events(report),
            then: AgentPoint::Deep { report },
        }),
{
    let events = match &report {
        Some(_) => two_events(
            stage_event(StagePayload::Deep, StageStatusPayload::Completed, None),
            status_event("Deep completed"),
        ),
        None => two_events(
            stage_event(
                StagePayload::Deep,
                StageStatusPayload::Failed,
                Some("Deep provider failed or returned invalid JSON"),
            ),
            status_event("Deep failed"),
        ),
    };
    AgentStep::Publish { events, then: AgentPoint::Deep { report } }
}

fn show_decision(decision: ReviewDecision) -> (step: AgentStep)
    ensures
        step@ == (StepView::Publish {
            events: decision_events(decision),
            then: AgentPoint::End,
        }),
{
    let events = match decision {
        ReviewDecision::Rewrite { replacement, correction } => two_events(
            stage_event(StagePayload::Review, StageStatusPayload::Corrected, None),
            PromptExecutionEventPayload::Correction {
                stage: StagePayload::Review,
                text: assistant_content_text(&replacement).to_owned(),
                correction,
            },
        ),
        ReviewDecision::Keep => two_events(
            stage_event(StagePayload::Review, StageStatusPayload::Kept, None),
            status_event("Review kept candidate"),
        ),
    };
    AgentStep::Publish { events, then: AgentPoint::End }
}

fn show_instant(plan: AgentPlan) -> (step: AgentStep)
    ensures
        step@ == (StepView::Publish {
            events: plan.instant_events(),
            then: AgentPoint::Instant,
        }),
{
    let mut events: Vec<PromptExecutionEventPayload> = Vec::new();
    let event = if plan.instant_result != AcceptResult::Pending && plan.instant_answered {
        stage_event(StagePayload::Instant, StageStatusPayload::Completed, None)
    } else {
        stage_event(
            StagePayload::Instant,
            StageStatusPayload::Failed,
            Some("Instant provider failed"),
        )
    };
    let ghost shown = event@;
    events.push(event);
    proof {
        assert(prompt_events::event_views(events@) =~= seq![shown]);
    }
    AgentStep::Publish { events, then: AgentPoint::Instant }
}

fn continue_after_instant(plan: AgentPlan) -> (step: AgentStep)
    ensures
        step@ == plan.after_instant(),
{
    if plan.instant_result == AcceptResult::Resolved || (!plan.deep_enabled
        && !plan.review_enabled) {
        AgentStep::Finish(Ok(()))
    } else if !plan.deep_enabled {
        ask_review(None)
    } else if !plan.deep_started {
        error_step("Deep task was not started")
    } else {
        AgentStep::JoinDeep
    }
}

fn continue_after_deep(
    plan: AgentPlan,
    report: Option<DeepReport>,
    accepted: AcceptResult,
) -> (step: AgentStep)
    ensures
        step@ == plan.step(
            AgentEvent::DeepAccepted { report, cancelled: false, result: Ok(accepted) },
        ),
{
    if plan.review_enabled {
        ask_review(report)
    } else if accepted != AcceptResult::Resolved {
        error_step("Deep did not resolve the assistant request")
    } else {
        AgentStep::Publish { events: publish_report(&report), then: AgentPoint::End }
    }
}

/// Decides what the stages do after an event.
pub fn resolve_enabled_agents(plan: AgentPlan, event: AgentEvent) -> (next: AgentMove)
    ensures
        next.record == plan.record(event),
        next.step@ == plan.step(event),
{
    let mut record: Option<StageRecord> = None;
    let step = match event {
        AgentEvent::Begun { cancelled } => if cancelled {
            stop_step()
        } else {
            show_instant(plan)
        },
        AgentEvent::Published { then } => match then {
            AgentPoint::Instant => {
                record = Some(
                    StageRecord {
                        stage: telemetry::Stage::Generation,
                        succeeded: plan.instant_result != AcceptResult::Pending
                            && plan.instant_answered,
                    },
                );
                continue_after_instant(plan)
            },
            AgentPoint::Deep { report } => AgentStep::AcceptDeep { report },
            AgentPoint::Review { report } => AgentStep::RunReview { report },
            AgentPoint::ReviewFailure { error } => AgentStep::AcceptReview { verdict: Err(error) },
            AgentPoint::End => AgentStep::Finish(Ok(())),
        },
        AgentEvent::Unpublished { error } => AgentStep::Finish(Err(error)),
        AgentEvent::DeepJoined { cancelled, result } => match result {
            Err(error) => error_step(error.as_str()),
            Ok(report) => if cancelled {
                stop_step()
            } else {
                record = Some(
                    StageRecord { stage: telemetry::Stage::Deep, succeeded: report.is_some() },
                );
                show_deep(report)
            },
        },
        AgentEvent::DeepAccepted { report, cancelled, result } => match result {
            Err(error) => error_step(error.as_str()),
            Ok(accepted) => if cancelled {
                stop_step()
            } else {
                continue_after_deep(plan, report, accepted)
            },
        },
        AgentEvent::ReviewUnasked { error } => error_step(error.as_str()),
        AgentEvent::Reviewed { cancelled, verdict } => if cancelled {
            stop_step()
        } else {
            record = Some(
                StageRecord { stage: telemetry::Stage::Review, succeeded: verdict.is_ok() },
            );
            match verdict {
                Ok(decision) => AgentStep::AcceptReview { verdict: Ok(decision) },
                Err(error) => {
                    let events = two_events(
                        stage_event(
                            StagePayload::Review,
                            StageStatusPayload::Failed,
                            Some(error.as_str()),
                        ),
                        status_event("Review failed"),
                    );
                    AgentStep::Publish { events, then: AgentPoint::ReviewFailure { error } }
                },
            }
        },
        AgentEvent::ReviewAccepted { verdict, cancelled, result } => match result {
            Err(error) => error_step(error.as_str()),
            Ok(accepted) => match verdict {
                Err(_) => if accepted == AcceptResult::Resolved {
                    AgentStep::Finish(Ok(()))
                } else {
                    error_step("Review failure did not resolve a fallback")
                },
                Ok(decision) => if cancelled {
                    stop_step()
                } else if accepted != AcceptResult::Resolved {
                    error_step("Review did not resolve the assistant request")
                } else {
                    show_decision(decision)
                },
            },
        },
    };
    AgentMove { record, step }
}

/// What the coordinator is handed of the Deep stage.
#[derive(Clone, Debug, PartialEq, Eq)]
pub enum DeepOutcome {
    Success(Content),
    Failure(String),
}

/// What the coordinator is handed of a Deep stage that ended with or without a report.
pub fn deep_outcome(report: &Option<DeepReport>) -> (outcome: DeepOutcome)
    ensures
        match (*report, outcome) {
            (Some(found), DeepOutcome::Success(Content::Text(answer))) => answer@
                == found.complete_answer@,
            (None, DeepOutcome::Failure(message)) => message@
                == "Deep provider failed or returned invalid JSON"@,
            _ => false,
        },
{
    match report {
        Some(found) => DeepOutcome::Success(
            Content::Text(found.complete_answer.as_str().to_owned()),
        ),
        None => DeepOutcome::Failure("Deep provider failed or returned invalid JSON".to_owned()),
    }
}

/// The report that comes of what the Deep stage answered, where one does.
pub open spec fn judged_deep(
    refusal: bool,
    parsed: Result<DeepReport, String>,
    sources_allowed: bool,
    evidence: Seq<ToolEvidence>,
) -> Option<DeepReport> {
    match parsed {
        Ok(found) => if refusal || (if sources_allowed {
            conversation::first_unobserved(found.sources@, evidence) is Some
        } else {
            found.sources@.len() > 0
        }) {
            None
        } else {
            Some(found)
        },
        Err(_) => None,
    }
}

/// The report that comes of what the Deep stage answered, where one does. `parsed` is what the
/// answer says where it is no refusal.
pub fn judge_deep(
    refusal: bool,
    parsed: Result<DeepReport, String>,
    sources_allowed: bool,
    evidence: &[ToolEvidence],
) -> (report: Option<DeepReport>)
    ensures
        report == judged_deep(refusal, parsed, sources_allowed, evidence@),
{
    if refusal {
        return None;
    }
    match parsed {
        Ok(found) => match ensure_deep_sources(
            found.sources.as_slice(),
            sources_allowed,
            evidence,
        ) {
            Ok(_) => Some(found),
            Err(_) => None,
        },
        Err(_) => None,
    }
}

/// The verdict that comes of what the Review stage answered. `parsed` is what the answer says
/// where it is no refusal.
pub fn judge_review(refusal: bool, parsed: Result<ReviewDecision, String>) -> (verdict: Result<
    ReviewDecision,
    String,
>)
    ensures
        refusal ==> text::outcome(verdict) == Err::<ReviewDecision, Seq<char>>(
            "Review provider refusal"@,
        ),
        !refusal ==> verdict == parsed,
{
    if refusal {
        Err("Review provider refusal".to_owned())
    } else {
        parsed
    }
}

/// How a stage ended, as the Review stage is told it.
#[derive(Clone, Debug, PartialEq, Eq)]
pub enum StageStatus {
    Success(Content),
    Failure(String),
}

/// What the Review stage is asked about.
#[derive(Clone, Debug, PartialEq, Eq)]
pub struct ReviewInput {
    pub original_request: String,
    pub canonical_history: Vec<HistoryEntry>,
    pub instant: StageStatus,
    pub deep: StageStatus,
    pub materiality_policy: String,
    pub sources: Vec<SourcePayload>,
}

/// Whether the Review stage is told that a stage gave `content`.
pub open spec fn told_success(status: StageStatus, content: Content) -> bool {
    status matches StageStatus::Success(told) && told.words() == content.words() && (told is Text)
        == (content is Text)
}

/// Whether the Review stage is told that a stage failed with `message`.
pub open spec fn told_failure(status: StageStatus, message: Seq<char>) -> bool {
    status matches StageStatus::Failure(told) && told@ == message
}

/// Whether the Review stage is told how the first two stages ended.
pub open spec fn told_stages(
    plan: AgentPlan,
    instant_content: Option<Content>,
    report: Option<DeepReport>,
    instant: StageStatus,
    deep: StageStatus,
) -> bool {
    &&& match instant_content {
        Some(content) => if plan.instant_result is Pending {
            told_failure(instant, "Instant provider failed"@)
        } else {
            told_success(instant, content)
        },
        None => told_failure(instant, "Instant provider failed"@),
    }
    &&& match report {
        Some(found) => deep matches StageStatus::Success(Content::Text(told)) && told@
            == found.complete_answer@,
        None => told_failure(
            deep,
            if plan.deep_enabled {
                "Deep provider failed"@
            } else {
                "Deep stage disabled"@
            },
        ),
    }
}

/// What the Review stage is asked about. `instant_content` is what the Instant stage answered,
/// where it did.
pub fn build_review_input(
    plan: AgentPlan,
    prompt: &str,
    history: &[ConversationTurn],
    instant_content: Option<&Content>,
    report: &Option<DeepReport>,
) -> (input: ReviewInput)
    ensures
        input.original_request@ == prompt@,
        conversation::handed_over(input.canonical_history@, history@),
        told_stages(
            plan,
            match instant_content {
                Some(content) => Some(*content),
                None => None,
            },
            *report,
            input.instant,
            input.deep,
        ),
        input.materiality_policy@
            == "Only material factual defects justify rewrite; style-only differences are KEEP."@,
        prompt_events::source_views(input.sources@) == (match *report {
            Some(found) => found@.sources,
            None => seq![],
        }),
{
    let instant = match instant_content {
        Some(content) => if plan.instant_result == AcceptResult::Pending {
            StageStatus::Failure("Instant provider failed".to_owned())
        } else {
            StageStatus::Success(copy_content(content))
        },
        None => StageStatus::Failure("Instant provider failed".to_owned()),
    };
    let deep = match report {
        Some(found) => StageStatus::Success(
            Content::Text(found.complete_answer.as_str().to_owned()),
        ),
        None => StageStatus::Failure(
            if plan.deep_enabled {
                "Deep provider failed".to_owned()
            } else {
                "Deep stage disabled".to_owned()
            },
        ),
    };
    let sources = match report {
        Some(found) => copy_sources(found.sources.as_slice()),
        None => {
            let none: Vec<SourcePayload> = Vec::new();
            proof {
                assert(prompt_events::source_views(none@) =~= seq![]);
            }
            none
        },
    };
    ReviewInput {
        original_request: prompt.to_owned(),
        canonical_history: agent_history(history),
        instant,
        deep,
        materiality_policy:
            "Only material factual defects justify rewrite; style-only differences are KEEP.".to_owned(),
        sources,
    }
}

/// Hands the outcome of a stage to the coordinator, where outcomes of the request are still taken.
/// `accept` does it.
pub fn accept_assistant_stage_if_active<F: FnOnce() -> AcceptResult>(
    active: &Option<ActivePrompt>,
    request_id: &str,
    active_generation: u64,
    accept: F,
) -> (result: AcceptResult)
    requires
        active_prompt::takes_outcomes(
            active_prompt::slot(*active),
            request_id@,
            active_generation,
        ) ==> call_requires(accept, ()),
    ensures
        if active_prompt::takes_outcomes(
            active_prompt::slot(*active),
            request_id@,
            active_generation,
        ) {
            call_ensures(accept, (), result)
        } else {
            result is Cancelled
        },
{
    if is_taking_outcomes(active, request_id, active_generation) {
        accept()
    } else {
        AcceptResult::Cancelled
    }
}

/// Lets the coordinator commit the answer, where outcomes of the request are still taken. `commit`
/// does it, and says whether there was an answer.
pub fn commit_assistant_request_if_active<F: FnOnce() -> bool>(
    active: &Option<ActivePrompt>,
    request_id: &str,
    active_generation: u64,
    commit: F,
) -> (result: Result<(), String>)
    requires
        active_prompt::takes_outcomes(
            active_prompt::slot(*active),
            request_id@,
            active_generation,
        ) ==> call_requires(commit, ()),
    ensures
        if active_prompt::takes_outcomes(
            active_prompt::slot(*active),
            request_id@,
            active_generation,
        ) {
            exists|committed: bool|
                #[trigger] call_ensures(commit, (), committed) && text::outcome(result) == (
                if committed {
                    Ok(())
                } else {
                    Err("assistant request did not resolve"@)
                })
        } else {
            text::outcome(result) == Err::<(), Seq<char>>("assistant request is no longer active"@)
        },
{
    if !is_taking_outcomes(active, request_id, active_generation) {
        return Err("assistant request is no longer active".to_owned());
    }
    if commit() {
        Ok(())
    } else {
        Err("assistant request did not resolve".to_owned())
    }
}

/// The stages end well only where the request is resolved, or where it has no stage but the first.
/// `Publish` steps that end the stages count as ending them.
pub proof fn law_stages_end_well_only_when_resolved(plan: AgentPlan, event: AgentEvent)
    requires
        !(event matches AgentEvent::Published { then: AgentPoint::End }),
        plan.step(event) == finished() || (plan.step(event) matches StepView::Publish {
            then: AgentPoint::End,
            ..
        }),
    ensures
        match event {
            AgentEvent::Published { then: AgentPoint::Instant } => plan.instant_result is Resolved
                || (!plan.deep_enabled && !plan.review_enabled),
            AgentEvent::DeepAccepted { result: Ok(accepted), cancelled, .. } => accepted is Resolved
                && !cancelled && !plan.review_enabled,
            AgentEvent::ReviewAccepted { verdict, result: Ok(accepted), cancelled } => accepted
                is Resolved && (verdict is Ok ==> !cancelled),
            _ => false,
        },
{
}

/// Once a request is cancelled, nothing more is shown of its stages.
pub proof fn law_cancelled_requests_show_nothing_more(plan: AgentPlan, event: AgentEvent)
    requires
        match event {
            AgentEvent::Begun { cancelled } => cancelled,
            AgentEvent::DeepJoined { cancelled, .. } => cancelled,
            AgentEvent::DeepAccepted { cancelled, .. } => cancelled,
            AgentEvent::Reviewed { cancelled, .. } => cancelled,
            AgentEvent::ReviewAccepted { cancelled, .. } => cancelled,
            AgentEvent::Unpublished { .. } => true,
            _ => false,
        },
    ensures
        plan.step(event) is Finish,
{
}

/// A Deep stage without a report is shown as failed, and a stage with one as completed.
pub proof fn law_failed_deep_is_not_shown_as_completed(report: Option<DeepReport>)
    ensures
        deep_events(report)[0] matches EventView::Stage { stage, status, .. } && stage is Deep
            && (status is Completed) == (report is Some) && (status is Failed) == (report is None),
        forall|i: int|
            1 <= i < deep_events(report).len() ==> !((#[trigger] deep_events(report)[i]) is Stage),
{
}

} // verus!
