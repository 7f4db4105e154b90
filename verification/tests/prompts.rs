use vox_golem::active_prompt::{
    admit_prompt_event, cancel_prompt_request_state, cancel_tts_generation_for_prompt,
    claim_cancelled_prompt_publication, clear_active_prompt, combine_reset_results,
    is_active_prompt, mark_active_prompt_settled_by_request, register_active_prompt,
    stop_active_prompt, ActivePrompt, ActivePromptGuard, PromptControlError, PromptStop,
};
use vox_golem::agent_stages::{
    accept_assistant_stage_if_active, build_review_input, commit_assistant_request_if_active,
    deep_outcome, judge_deep, judge_review, resolve_enabled_agents, AcceptResult, AgentEvent,
    AgentPlan, AgentPoint, AgentStep, DeepOutcome, ReviewDecision, StageStatus,
};
use vox_golem::conversation::{Content, SourcePayload, ToolEvidence, ToolUseStatus};
use vox_golem::opencode::{
    agent_instructions, agent_message_id, deep_request_id, deep_tool_policy,
    end_unpublished_stream, instant_message_id, opencode_instant_model, review_request_id,
    run_agent_text, stream_opencode_prompt, AgentCollection, AgentTextEvent, AgentTextResult,
    AgentTextStep, OpencodeEvent, OpencodeModel, OpencodePromptResult, OpencodeToolPolicy,
    StreamPoll, StreamStep,
};
use vox_golem::prompt_events::{
    agent_telemetry_identity, assistant_stage_record, ensure_agent_prerequisites,
    initial_stage_sequence, instant_telemetry_identity, prompt_execution_text, stage_event,
    CompletionSource, DeepReport, PromptExecutionEventPayload, RecordedRequest, StagePayload,
    StageStatusPayload,
};
use vox_golem::prompt_flow::{
    admit_prompt, ensure_dispatch, ensure_instant_server, final_payload, submit_prompt, Entry,
    Origin, PromptEnd, PromptEvent, PromptMove, PromptPlan, PromptStep, PublishPoint, StreamEnd,
};
use vox_golem::settings::{
    AgentModel, AssistantPreferences, AssistantSettingsPayload, InstantModel,
    ResponseProfilePayload,
};
use vox_golem::startup::{
    build_nonfatal_config_error_app_state, build_startup_error_app_state, CueAssetPathsPayload,
    RuntimePhasePayload, StartupStatePayload,
};
use vox_golem::telemetry::{InferenceProvider, InputSource, Provider, Stage, Status};

fn registered() -> (Option<ActivePrompt>, u64) {
    let mut active = None;
    let mut generations = 0;
    let generation = register_active_prompt(&mut active, &mut generations, "request", 1, false)
        .expect("registration should succeed");
    (active, generation)
}

#[test]
fn deep_launch_order_is_before_instant_stage() {
    assert_eq!(
        initial_stage_sequence(true),
        vec![StagePayload::Deep, StagePayload::Instant]
    );
    assert_eq!(initial_stage_sequence(false), vec![StagePayload::Instant]);
}

#[test]
fn stage_lifecycle_does_not_promote_failed_deep_to_completed() {
    let plan = AgentPlan {
        deep_enabled: true,
        review_enabled: false,
        deep_started: true,
        instant_result: AcceptResult::Provisional,
        instant_answered: true,
    };
    let failed =
        resolve_enabled_agents(plan, AgentEvent::DeepJoined { cancelled: false, result: Ok(None) });
    let AgentStep::Publish { events, .. } = failed.step else {
        panic!("a failed stage is shown");
    };
    assert!(matches!(
        events[0],
        PromptExecutionEventPayload::Stage {
            stage: StagePayload::Deep,
            status: StageStatusPayload::Failed,
            ..
        }
    ));
    assert!(!events.iter().any(|event| matches!(
        event,
        PromptExecutionEventPayload::Stage { status: StageStatusPayload::Completed, .. }
    )));
    assert!(!failed.record.expect("a stage is recorded").succeeded);
}

#[test]
fn active_prompt_guard_abandonment_publishes_durable_cancellation() {
    let (mut active, generation) = registered();
    let mut guard =
        ActivePromptGuard { request_id: String::from("request"), generation, armed: true };
    let abandoned = guard.abandon(&mut active, false);
    assert!(abandoned.cancel);
    assert!(!abandoned.abort_client);
    assert!(active.is_none());
}

#[test]
fn active_prompt_guard_finish_disarms_terminal_cleanup() {
    let (mut active, generation) = registered();
    let mut guard =
        ActivePromptGuard { request_id: String::from("request"), generation, armed: true };
    guard.finish(&mut active);
    let abandoned = guard.abandon(&mut active, true);
    assert!(!abandoned.cancel);
    assert!(active.is_none());
}

#[test]
fn stale_prompt_cancellation_does_not_cancel_newer_tts() {
    let mut active = None;
    let mut generations = 0;
    register_active_prompt(&mut active, &mut generations, "old-request", 1, false)
        .expect("register old prompt");
    active = None;
    register_active_prompt(&mut active, &mut generations, "new-request", 2, false)
        .expect("register new prompt");
    let cancellations = std::cell::Cell::new(0);

    let stale = cancel_tts_generation_for_prompt(&active, "old-request", || {
        cancellations.set(cancellations.get() + 1)
    });

    assert!(stale.is_none());
    assert_eq!(cancellations.get(), 0);
    assert!(cancel_tts_generation_for_prompt(&active, "new-request", || {
        cancellations.set(cancellations.get() + 1)
    })
    .is_some());
    assert_eq!(cancellations.get(), 1);
}

#[test]
fn prompt_cancel_signal_does_not_wait_for_tts_operation_lock() {
    let mut active = None;
    let mut generations = 0;
    register_active_prompt(&mut active, &mut generations, "active-request", 1, false)
        .expect("register active prompt");

    let client = cancel_prompt_request_state(&mut active, "active-request", |_| Ok(true))
        .expect("cancel prompt state");

    assert!(!client);
    assert!(active.expect("active prompt").cancelled);
}

#[test]
fn cancelled_prompt_terminal_publication_is_claimed_once() {
    let (active, _) = registered();
    let mut prompt = active.unwrap();
    assert!(!claim_cancelled_prompt_publication(&mut prompt));
    prompt.cancelled = true;
    assert!(claim_cancelled_prompt_publication(&mut prompt));
    assert!(!claim_cancelled_prompt_publication(&mut prompt));
}

#[test]
fn only_one_prompt_is_active() {
    let (mut active, generation) = registered();
    let mut generations = generation;
    assert_eq!(
        register_active_prompt(&mut active, &mut generations, "other", 2, false),
        Err(String::from("another prompt is already active"))
    );
    assert!(is_active_prompt(&active, "request", generation));
    assert!(!clear_active_prompt(&mut active, "request", generation + 1));
    mark_active_prompt_settled_by_request(&mut active, "request");
    assert!(active.as_ref().is_some_and(|prompt| prompt.settled));
    assert!(clear_active_prompt(&mut active, "request", generation));
    assert!(active.is_none());
    let mut last = u64::MAX;
    assert_eq!(
        register_active_prompt(&mut active, &mut last, "request", 1, false),
        Ok(u64::MAX)
    );
    assert_eq!(last, 0);
}

#[test]
fn cancelled_prompts_publish_their_end_once() {
    let (mut active, _) = registered();
    assert!(admit_prompt_event(&mut active, "request", false).is_ok());
    assert!(admit_prompt_event(&mut active, "request", true).is_err());
    assert_eq!(
        stop_active_prompt(&mut active),
        Some(PromptStop { assistant_generation: 1, direct_client: false })
    );
    assert!(admit_prompt_event(&mut active, "request", false).is_err());
    assert!(admit_prompt_event(&mut active, "request", true).is_ok());
    assert!(admit_prompt_event(&mut active, "request", true).is_err());
    assert!(admit_prompt_event(&mut active, "other", false).is_err());
}

#[test]
fn requests_that_are_gone_cannot_be_cancelled() {
    let (mut active, _) = registered();
    let gone = Err(String::from("prompt request is no longer active"));
    assert_eq!(cancel_prompt_request_state(&mut active, "other", |_| Ok(true)), gone);
    assert_eq!(cancel_prompt_request_state(&mut active, "request", |_| Ok(false)), gone);
    assert_eq!(
        cancel_prompt_request_state(&mut active, "request", |_| Err(String::from("poisoned"))),
        Err(String::from("poisoned"))
    );
    assert!(!active.expect("active prompt").cancelled);
}

#[test]
fn outcomes_are_taken_while_the_request_is_active() {
    let (mut active, generation) = registered();
    assert_eq!(
        accept_assistant_stage_if_active(&active, "request", generation, || {
            AcceptResult::Resolved
        }),
        AcceptResult::Resolved
    );
    assert_eq!(
        commit_assistant_request_if_active(&active, "request", generation, || false),
        Err(String::from("assistant request did not resolve"))
    );
    stop_active_prompt(&mut active);
    assert_eq!(
        accept_assistant_stage_if_active(&active, "request", generation, || {
            AcceptResult::Resolved
        }),
        AcceptResult::Cancelled
    );
    assert_eq!(
        commit_assistant_request_if_active(&active, "request", generation, || true),
        Err(String::from("assistant request is no longer active"))
    );
}

#[test]
fn reset_failures_are_combined() {
    let failed = |message: &str| Err(String::from(message));
    assert_eq!(combine_reset_results(Ok(()), Ok(())), Ok(()));
    assert_eq!(combine_reset_results(failed("a"), Ok(())), failed("a"));
    assert_eq!(combine_reset_results(Ok(()), failed("b")), failed("b"));
    assert_eq!(combine_reset_results(failed("a"), failed("b")), failed("a; b"));
    assert_eq!(
        PromptControlError::Cancelled.into_message(),
        "assistant request cancelled"
    );
    assert_eq!(PromptControlError::from(String::from("x")).into_message(), "x");
}

#[test]
fn shown_text_is_what_was_streamed() {
    let mut output = String::new();
    let mut events = Vec::new();
    for piece in [
        OpencodeEvent::Text(String::from("Hello")),
        OpencodeEvent::Reasoning(String::from("hm")),
        OpencodeEvent::Text(String::from(" there")),
        OpencodeEvent::Tool {
            name: String::from("bash"),
            status: String::from("Running"),
            detail: String::from("ls"),
        },
    ] {
        match stream_opencode_prompt(&mut output, StreamPoll::Event(piece)) {
            StreamStep::Publish(event) => events.push(event),
            StreamStep::End(_) => panic!("the answer goes on"),
        }
    }
    assert!(matches!(
        &events[3],
        PromptExecutionEventPayload::Tool { status, .. } if status == "running"
    ));
    match stream_opencode_prompt(&mut output, StreamPoll::Event(OpencodeEvent::Completed)) {
        StreamStep::End(OpencodePromptResult::Completed(answer)) => {
            assert_eq!(answer, "Hello there");
            assert_eq!(prompt_execution_text(&events), answer);
        }
        _ => panic!("the answer is complete"),
    }
}

#[test]
fn streams_that_end_early_say_why() {
    let failed = |poll| match stream_opencode_prompt(&mut String::new(), poll) {
        StreamStep::End(OpencodePromptResult::Failed(message)) => message,
        _ => panic!("the stream failed"),
    };
    assert_eq!(
        failed(StreamPoll::Inactive),
        "OpenCode prompt timed out waiting for activity"
    );
    assert_eq!(failed(StreamPoll::Closed), "OpenCode event stream closed before completion");
    assert_eq!(failed(StreamPoll::Broken(String::from("reset"))), "reset");
    assert_eq!(failed(StreamPoll::Event(OpencodeEvent::Error(String::from("no")))), "no");
    assert!(matches!(
        stream_opencode_prompt(&mut String::new(), StreamPoll::Stopped),
        StreamStep::End(OpencodePromptResult::Cancelled)
    ));
    assert!(matches!(
        end_unpublished_stream(PromptControlError::Cancelled),
        OpencodePromptResult::Cancelled
    ));
}

#[test]
fn agents_are_collected_with_their_evidence() {
    let mut collection = AgentCollection::new();
    assert!(collection
        .collect(StreamPoll::Event(OpencodeEvent::Text(String::from("{}"))))
        .is_none());
    let evidence = ToolEvidence {
        tool: String::from("webfetch"),
        status: ToolUseStatus::Completed,
        detail: String::from("https://example.org"),
    };
    assert!(collection
        .collect(StreamPoll::Event(OpencodeEvent::ToolEvidence(evidence.clone())))
        .is_none());
    match collection.collect(StreamPoll::Event(OpencodeEvent::Completed)) {
        Some(Ok(answer)) => {
            assert_eq!(answer.text, "{}");
            assert_eq!(answer.evidence, vec![evidence]);
            assert!(!answer.refusal);
        }
        _ => panic!("the agent answered"),
    }
    let refused = |poll| match AgentCollection::new().collect(poll) {
        Some(Err(message)) => message,
        _ => panic!("the agent failed"),
    };
    assert_eq!(refused(StreamPoll::Stopped), "assistant request cancelled");
    assert_eq!(refused(StreamPoll::Inactive), "OpenCode agent timed out");
    assert_eq!(refused(StreamPoll::Closed), "OpenCode agent stream closed");
    assert_eq!(
        refused(StreamPoll::Event(OpencodeEvent::Completed)),
        "OpenCode agent completed without visible text"
    );
}

#[test]
fn agent_requests_are_named_after_their_prompt() {
    assert_eq!(deep_request_id("request-1"), "request-1-deep");
    let review = review_request_id("request-1");
    assert_eq!(review, "request-1-review");
    assert!(agent_instructions(&review).contains("review JSON"));
    assert!(agent_instructions("request-1-deep").contains("stage JSON contract"));
    assert_eq!(agent_message_id("x"), "agent-x");
    assert_eq!(instant_message_id(3, 42), "msg_voxgolem_3_42");
    assert_eq!(
        opencode_instant_model(InstantModel::OpenCodeLunaLow),
        Ok(OpencodeModel::Gpt56LunaLow)
    );
    assert_eq!(
        opencode_instant_model(InstantModel::LocalFast),
        Err(String::from("invalid OpenCode model selection"))
    );
    assert_eq!(deep_tool_policy(AgentModel::OpenCodeSolHigh), OpencodeToolPolicy::Research);
    assert_eq!(deep_tool_policy(AgentModel::CustomSolHigh), OpencodeToolPolicy::AnswerOnly);
}

fn report() -> DeepReport {
    DeepReport {
        complete_answer: String::from("forty-two"),
        voice_summary: String::from("  It is forty-two. "),
        sources: vec![SourcePayload {
            url: String::from("https://example.org"),
            title: String::from("Example"),
        }],
    }
}

#[test]
fn deep_answers_correct_the_first_one() {
    let plan = AgentPlan {
        deep_enabled: true,
        review_enabled: false,
        deep_started: true,
        instant_result: AcceptResult::Provisional,
        instant_answered: true,
    };
    let accepted = resolve_enabled_agents(
        plan,
        AgentEvent::DeepAccepted {
            report: Some(report()),
            cancelled: false,
            result: Ok(AcceptResult::Resolved),
        },
    );
    let AgentStep::Publish { events, then: AgentPoint::End } = accepted.step else {
        panic!("the correction is shown");
    };
    assert_eq!(events.len(), 2);
    assert_eq!(
        events[1],
        PromptExecutionEventPayload::Correction {
            stage: StagePayload::Deep,
            text: String::from("forty-two"),
            correction: String::from("Correction: It is forty-two."),
        }
    );
    let unresolved = resolve_enabled_agents(
        plan,
        AgentEvent::DeepAccepted {
            report: None,
            cancelled: false,
            result: Ok(AcceptResult::Pending),
        },
    );
    assert!(matches!(
        unresolved.step,
        AgentStep::Finish(Err(PromptControlError::Error(message)))
            if message == "Deep did not resolve the assistant request"
    ));
}

#[test]
fn stages_run_as_they_are_enabled() {
    let plan = |deep_enabled, review_enabled, instant_result| AgentPlan {
        deep_enabled,
        review_enabled,
        deep_started: deep_enabled,
        instant_result,
        instant_answered: true,
    };
    let after = |plan| {
        resolve_enabled_agents(plan, AgentEvent::Published { then: AgentPoint::Instant }).step
    };
    assert!(matches!(
        after(plan(false, false, AcceptResult::Provisional)),
        AgentStep::Finish(Ok(()))
    ));
    assert!(matches!(
        after(plan(true, true, AcceptResult::Resolved)),
        AgentStep::Finish(Ok(()))
    ));
    assert!(matches!(after(plan(true, true, AcceptResult::Provisional)), AgentStep::JoinDeep));
    assert!(matches!(
        after(plan(false, true, AcceptResult::Provisional)),
        AgentStep::Publish { then: AgentPoint::Review { report: None }, .. }
    ));
    assert!(matches!(
        resolve_enabled_agents(
            plan(true, true, AcceptResult::Provisional),
            AgentEvent::Begun { cancelled: true }
        )
        .step,
        AgentStep::Finish(Err(PromptControlError::Cancelled))
    ));
}

#[test]
fn reviews_keep_rewrite_or_fail() {
    let plan = AgentPlan {
        deep_enabled: false,
        review_enabled: true,
        deep_started: false,
        instant_result: AcceptResult::Provisional,
        instant_answered: true,
    };
    let accepted = |verdict, result| {
        resolve_enabled_agents(
            plan,
            AgentEvent::ReviewAccepted { verdict, cancelled: false, result: Ok(result) },
        )
        .step
    };
    match accepted(Ok(ReviewDecision::Keep), AcceptResult::Resolved) {
        AgentStep::Publish { events, .. } => assert_eq!(
            events[1],
            PromptExecutionEventPayload::Status { message: String::from("Review kept candidate") }
        ),
        _ => panic!("a kept answer is shown"),
    }
    let rewrite = ReviewDecision::Rewrite {
        replacement: Content::Text(String::from("better")),
        correction: String::from("Correction: better"),
    };
    match accepted(Ok(rewrite), AcceptResult::Resolved) {
        AgentStep::Publish { events, .. } => assert_eq!(
            events[1],
            PromptExecutionEventPayload::Correction {
                stage: StagePayload::Review,
                text: String::from("better"),
                correction: String::from("Correction: better"),
            }
        ),
        _ => panic!("a rewritten answer is shown"),
    }
    assert!(matches!(
        accepted(Err(String::from("x")), AcceptResult::Resolved),
        AgentStep::Finish(Ok(()))
    ));
    assert!(matches!(
        accepted(Err(String::from("x")), AcceptResult::Pending),
        AgentStep::Finish(Err(PromptControlError::Error(message)))
            if message == "Review failure did not resolve a fallback"
    ));
    assert!(matches!(
        accepted(Ok(ReviewDecision::Keep), AcceptResult::Pending),
        AgentStep::Finish(Err(PromptControlError::Error(message)))
            if message == "Review did not resolve the assistant request"
    ));
    assert_eq!(
        judge_review(true, Ok(ReviewDecision::Keep)),
        Err(String::from("Review provider refusal"))
    );
}

#[test]
fn deep_reports_are_judged() {
    let fetched = [ToolEvidence {
        tool: String::from("webfetch"),
        status: ToolUseStatus::Completed,
        detail: String::from("https://example.org"),
    }];
    assert_eq!(judge_deep(false, Ok(report()), true, &fetched), Some(report()));
    assert_eq!(judge_deep(false, Ok(report()), true, &[]), None);
    assert_eq!(judge_deep(false, Ok(report()), false, &fetched), None);
    assert_eq!(judge_deep(true, Ok(report()), true, &fetched), None);
    assert_eq!(
        deep_outcome(&Some(report())),
        DeepOutcome::Success(Content::Text(String::from("forty-two")))
    );
    assert_eq!(
        deep_outcome(&None),
        DeepOutcome::Failure(String::from("Deep provider failed or returned invalid JSON"))
    );
}

#[test]
fn reviews_are_told_how_the_stages_ended() {
    let plan = AgentPlan {
        deep_enabled: true,
        review_enabled: true,
        deep_started: true,
        instant_result: AcceptResult::Provisional,
        instant_answered: true,
    };
    let answer = Content::Text(String::from("answer"));
    let input = build_review_input(plan, "why?", &[], Some(&answer), &Some(report()));
    assert_eq!(input.original_request, "why?");
    assert_eq!(input.instant, StageStatus::Success(answer.clone()));
    assert_eq!(
        input.deep,
        StageStatus::Success(Content::Text(String::from("forty-two")))
    );
    assert_eq!(input.sources, report().sources);
    let pending = AgentPlan { instant_result: AcceptResult::Pending, ..plan };
    let input = build_review_input(pending, "why?", &[], Some(&answer), &None);
    assert_eq!(
        input.instant,
        StageStatus::Failure(String::from("Instant provider failed"))
    );
    assert_eq!(input.deep, StageStatus::Failure(String::from("Deep provider failed")));
    let disabled = AgentPlan { deep_enabled: false, ..plan };
    let input = build_review_input(disabled, "why?", &[], None, &None);
    assert_eq!(input.deep, StageStatus::Failure(String::from("Deep stage disabled")));
}

fn plan(model: InstantModel) -> PromptPlan {
    let preferences = AssistantPreferences {
        instant_model: model,
        ..AssistantPreferences::from(AssistantSettingsPayload::default())
    };
    PromptPlan { preferences, custom_configured: true, server_available: true }
}

fn next_move(plan: PromptPlan, event: PromptEvent<f32>) -> PromptMove {
    submit_prompt(plan, event)
}

fn startup_in_error() -> StartupStatePayload<f32> {
    build_startup_error_app_state(String::from("broken"))
}

fn startup_ready() -> StartupStatePayload<f32> {
    let cues = CueAssetPathsPayload {
        start_listening: String::from("start"),
        stop_listening: String::from("stop"),
    };
    build_nonfatal_config_error_app_state(cues, String::from("nothing is configured"), 3.0)
}

fn submitted(
    startup: StartupStatePayload<f32>,
    request_id: &str,
    prompt: &str,
) -> PromptEvent<f32> {
    PromptEvent::Submitted {
        startup,
        request_id: String::from(request_id),
        prompt: String::from(prompt),
    }
}

#[test]
fn prompts_are_refused_before_anything_begins() {
    let plan = plan(InstantModel::LocalFast);
    let refused = |event| match next_move(plan, event) {
        PromptMove {
            abort_client: false,
            step: PromptStep::End { result: Err(message), settled: false },
        } => message,
        _ => panic!("the prompt should be refused"),
    };
    assert_eq!(refused(submitted(startup_in_error(), "made-up", "")), "startup error: broken");
    assert_eq!(
        refused(submitted(startup_ready(), "made-up", "  ")),
        "request ID must be an opaque generated identifier"
    );
    assert_eq!(
        refused(submitted(startup_ready(), "request-1-a", "  ")),
        "invalid prompt: prompt must not be empty"
    );
    assert_eq!(
        refused(submitted(startup_ready(), "request-1-a", &"x".repeat(65_537))),
        "invalid prompt: prompt exceeds 65536 bytes"
    );
    assert_eq!(
        next_move(plan, submitted(startup_ready(), "request-1-a", " why? ")).step,
        PromptStep::Begin { prompt: String::from(" why? ") }
    );
    assert_eq!(
        admit_prompt(&startup_ready(), "request-1-a", String::from("why?")),
        Ok(String::from("why?"))
    );
}

#[test]
fn prompts_are_registered_and_dispatched_in_order() {
    let opencode = plan(InstantModel::OpenCodeSolHigh);
    let abandoned = |message: &str| PromptStep::End {
        result: Err(String::from(message)),
        settled: false,
    };
    let started = || PromptEvent::Started { result: Ok(()) };
    assert_eq!(
        next_move(opencode, started()).step,
        PromptStep::Register { direct_client: true }
    );
    assert_eq!(
        next_move(plan(InstantModel::LocalFast), started()).step,
        PromptStep::Register { direct_client: false }
    );
    assert_eq!(
        next_move(PromptPlan { server_available: false, ..opencode }, started()).step,
        abandoned("OpenCode server is not available")
    );
    assert_eq!(
        next_move(opencode, PromptEvent::Started { result: Err(String::from("busy")) }).step,
        abandoned("busy")
    );
    assert_eq!(
        next_move(opencode, PromptEvent::Registered { result: Ok(()) }).step,
        PromptStep::Dispatch
    );
    let taken = String::from("another prompt is already active");
    assert_eq!(
        next_move(opencode, PromptEvent::Registered { result: Err(taken) }).step,
        abandoned("another prompt is already active")
    );
    assert_eq!(
        next_move(
            plan(InstantModel::LocalQuality),
            PromptEvent::Dispatched { selected: ResponseProfilePayload::Fast }
        )
        .step,
        abandoned("selected local model is not loaded")
    );
    assert!(matches!(
        next_move(opencode, PromptEvent::Dispatched { selected: ResponseProfilePayload::Fast })
            .step,
        PromptStep::Publish { then: PublishPoint::Running, .. }
    ));
}

#[test]
fn stages_are_begun_in_order() {
    for deep_enabled in [true, false] {
        let base = plan(InstantModel::OpenCodeSolHigh);
        let preferences = AssistantPreferences { deep_enabled, ..base.preferences };
        let plan = PromptPlan { preferences, ..base };
        let mut told = Vec::new();
        let mut event = PromptEvent::Dispatched { selected: ResponseProfilePayload::Fast };
        loop {
            event = match next_move(plan, event).step {
                PromptStep::Publish {
                    event: PromptExecutionEventPayload::Stage { stage, .. },
                    then,
                } => {
                    told.push(stage);
                    PromptEvent::Published { then, result: Ok(()) }
                }
                PromptStep::StartDeep => PromptEvent::DeepStarted,
                step => {
                    assert_eq!(step, PromptStep::TakePrefetch);
                    break;
                }
            };
        }
        assert_eq!(told, initial_stage_sequence(deep_enabled));
    }
}

#[test]
fn a_local_prompt_runs_from_its_beginning_to_its_end() {
    let mut plan = plan(InstantModel::LocalFast);
    plan.preferences.deep_enabled = true;
    let step = |event| {
        let next = next_move(plan, event);
        assert!(!next.abort_client);
        next.step
    };
    let published = |then| PromptEvent::Published { then, result: Ok(()) };
    assert!(matches!(
        step(PromptEvent::Dispatched { selected: ResponseProfilePayload::Fast }),
        PromptStep::Publish { then: PublishPoint::Queued, .. }
    ));
    assert!(matches!(step(published(PublishPoint::Queued)), PromptStep::StartDeep));
    assert!(matches!(
        step(PromptEvent::DeepStarted),
        PromptStep::Publish { then: PublishPoint::Running, .. }
    ));
    assert!(matches!(step(published(PublishPoint::Running)), PromptStep::TakePrefetch));
    assert!(matches!(
        step(PromptEvent::PrefetchTaken { result: Ok(None) }),
        PromptStep::ReadProfile
    ));
    assert!(matches!(
        step(PromptEvent::ProfileRead { selected: ResponseProfilePayload::Fast }),
        PromptStep::SyncHistory
    ));
    assert!(matches!(
        step(PromptEvent::HistorySynced { result: Ok(()) }),
        PromptStep::Execute { entry: Entry::Provider }
    ));
    assert!(matches!(
        step(PromptEvent::Executed { entry: Entry::Provider, result: Ok(()) }),
        PromptStep::Stream
    ));
    let answer = Content::Text(String::from("hello"));
    assert!(matches!(
        step(PromptEvent::Streamed {
            cancelled: false,
            end: StreamEnd::Answered(answer.clone())
        }),
        PromptStep::AcceptInstant { answer: Ok(_), origin: Origin::Provider }
    ));
    assert!(matches!(
        step(PromptEvent::Accepted {
            answer: Ok(answer.clone()),
            origin: Origin::Provider,
            result: Ok(AcceptResult::Resolved)
        }),
        PromptStep::ResolveAgents { accepted: AcceptResult::Resolved, .. }
    ));
    assert!(matches!(
        step(PromptEvent::Resolved {
            answer: Ok(answer),
            origin: Origin::Provider,
            cancelled: false,
            has_final_answer: true,
            result: Ok(())
        }),
        PromptStep::Complete
    ));
    assert!(matches!(
        step(PromptEvent::Completed { result: Ok(RuntimePhasePayload::Sleeping) }),
        PromptStep::Commit { phase: RuntimePhasePayload::Sleeping }
    ));
    assert!(matches!(
        step(PromptEvent::Committed { phase: RuntimePhasePayload::Sleeping, result: Ok(()) }),
        PromptStep::Publish { then: PublishPoint::Completed { .. }, .. }
    ));
    assert!(matches!(
        step(PromptEvent::Published {
            then: PublishPoint::Completed { phase: RuntimePhasePayload::Sleeping },
            result: Err(PromptControlError::Cancelled)
        }),
        PromptStep::End {
            result: Ok(PromptEnd::Completed(RuntimePhasePayload::Sleeping)),
            settled: true
        }
    ));
}

#[test]
fn prefetched_answers_are_shown_without_asking_the_model() {
    let plan = plan(InstantModel::OpenCodeSolHigh);
    let answer = Content::Refusal(String::from("cannot comply"));
    let next = next_move(plan, PromptEvent::PrefetchTaken { result: Ok(Some(answer)) });
    let PromptStep::Execute { entry } = next.step else {
        panic!("execution is entered");
    };
    let next = next_move(plan, PromptEvent::Executed { entry, result: Ok(()) });
    let PromptStep::Publish { event, then } = next.step else {
        panic!("the answer is shown");
    };
    assert_eq!(event, PromptExecutionEventPayload::Text { text: String::from("cannot comply") });
    let next = next_move(plan, PromptEvent::Published { then, result: Ok(()) });
    assert!(matches!(
        next.step,
        PromptStep::AcceptInstant { answer: Ok(Content::Refusal(_)), origin: Origin::Prefetched }
    ));
}

#[test]
fn provider_failures_are_settled_by_the_other_stages() {
    let opencode = plan(InstantModel::OpenCodeLunaLow);
    let next = next_move(
        opencode,
        PromptEvent::Streamed {
            cancelled: false,
            end: StreamEnd::Failed(String::from("offline")),
        },
    );
    assert!(next.abort_client);
    let PromptStep::Publish { event, then } = next.step else {
        panic!("the failure is shown");
    };
    assert_eq!(event, PromptExecutionEventPayload::Error { message: String::from("offline") });
    let next = next_move(opencode, PromptEvent::Published { then, result: Ok(()) });
    let PromptStep::AcceptInstant { answer: Err(failure), origin } = next.step else {
        panic!("the failure is handed to the coordinator");
    };
    let resolved = |has_final_answer, result| {
        next_move(
            opencode,
            PromptEvent::Resolved {
                answer: Err(failure.clone()),
                origin,
                cancelled: false,
                has_final_answer,
                result,
            },
        )
        .step
    };
    assert!(matches!(resolved(true, Ok(())), PromptStep::Complete));
    assert!(matches!(
        resolved(false, Ok(())),
        PromptStep::Fail { message, reported: Some(reported) }
            if message == "offline" && reported == "offline"
    ));
    assert!(matches!(
        resolved(false, Err(PromptControlError::Error(String::from("agents")))),
        PromptStep::Fail { message, reported: Some(reported) }
            if message == "agents" && reported == "agent resolution failed"
    ));
}

#[test]
fn blank_answers_count_as_failures_where_a_provider_owes_text() {
    let blank = |model| {
        let next = next_move(
            plan(model),
            PromptEvent::Streamed {
                cancelled: false,
                end: StreamEnd::Answered(Content::Text(String::from(" \n"))),
            },
        );
        match next.step {
            PromptStep::AcceptInstant { answer, .. } => answer.err(),
            _ => panic!("the coordinator is told"),
        }
    };
    assert_eq!(
        blank(InstantModel::LocalQuality).as_deref(),
        Some("response provider completed without visible text")
    );
    assert_eq!(
        blank(InstantModel::OpenCodeSolHigh).as_deref(),
        Some("OpenCode completed without visible text")
    );
    assert_eq!(blank(InstantModel::CustomSolHigh), None);
}

#[test]
fn cancelled_prompts_end_as_cancelled() {
    let local = plan(InstantModel::LocalFast);
    let next = next_move(
        local,
        PromptEvent::Published {
            then: PublishPoint::Running,
            result: Err(PromptControlError::Cancelled),
        },
    );
    let PromptStep::Cancel { reported, strict } = next.step else {
        panic!("the prompt is cancelled");
    };
    let next = next_move(
        local,
        PromptEvent::Slept { reported, strict, result: Ok(RuntimePhasePayload::Sleeping) },
    );
    let PromptStep::Publish { event, then } = next.step else {
        panic!("the end is shown");
    };
    assert!(event.is_terminal());
    let next = next_move(
        local,
        PromptEvent::Published { then, result: Err(PromptControlError::Cancelled) },
    );
    let PromptStep::End { result: Ok(end), settled: true } = next.step else {
        panic!("the prompt is over");
    };
    let payload = final_payload(String::from("request-7"), end);
    assert_eq!(payload.request_id, "request-7");
    assert_eq!(payload.outcome, "cancelled");
    assert_eq!(payload.error_message, None);

    let strict = next_move(
        plan(InstantModel::OpenCodeSolHigh),
        PromptEvent::Published {
            then: PublishPoint::Cancelled {
                phase: RuntimePhasePayload::Sleeping,
                reported: None,
                strict: true,
            },
            result: Err(PromptControlError::Cancelled),
        },
    );
    assert!(matches!(
        strict.step,
        PromptStep::End { result: Err(message), settled: false }
            if message == "assistant request cancelled"
    ));
}

#[test]
fn prompts_are_dispatched_where_their_providers_are_there() {
    assert_eq!(
        ensure_instant_server(InstantModel::OpenCodeSolHigh, false),
        Err(String::from("OpenCode server is not available"))
    );
    assert_eq!(ensure_instant_server(InstantModel::LocalFast, false), Ok(()));
    assert_eq!(
        ensure_agent_prerequisites(AgentModel::CustomLunaLow, false, true),
        Err(String::from("Custom provider is not configured"))
    );
    let preferences = AssistantPreferences {
        deep_enabled: true,
        deep_model: AgentModel::OpenCodeSolHigh,
        ..AssistantPreferences::from(AssistantSettingsPayload::default())
    };
    assert_eq!(
        ensure_dispatch(&preferences, true, false, ResponseProfilePayload::Fast),
        Err(String::from("OpenCode server is not available"))
    );
    assert_eq!(
        ensure_dispatch(&preferences, true, true, ResponseProfilePayload::Quality),
        Err(String::from("selected local model is not loaded"))
    );
    assert_eq!(ensure_dispatch(&preferences, true, true, ResponseProfilePayload::Fast), Ok(()));
}

#[test]
fn stages_are_recorded_with_their_models() {
    let request = RecordedRequest {
        request_id: String::from("request-1"),
        generation: 9,
        source: CompletionSource::Voice,
        timestamp_ms: 5,
    };
    let local = assistant_stage_record(
        &request,
        Stage::Generation,
        instant_telemetry_identity(InstantModel::LocalQuality),
        Some(InferenceProvider::Cuda),
        12,
        true,
    );
    assert_eq!(local.model, "gemma-quality");
    assert_eq!(local.provider, Provider::Local);
    assert_eq!(local.inference_provider, InferenceProvider::Cuda);
    assert_eq!(local.input_source, InputSource::Voice);
    assert_eq!(local.status, Status::Success);
    let remote = assistant_stage_record(
        &request,
        Stage::Review,
        agent_telemetry_identity(AgentModel::OpenCodeLunaLow),
        Some(InferenceProvider::Cuda),
        12,
        false,
    );
    assert_eq!(remote.model, "gpt-5.6-luna");
    assert_eq!(remote.inference_provider, InferenceProvider::Remote);
    assert_eq!(remote.status, Status::Error);
}

#[test]
fn failed_instant_stage_is_not_reported_as_successful_telemetry() {
    let plan = AgentPlan {
        deep_enabled: false,
        review_enabled: false,
        deep_started: false,
        instant_result: AcceptResult::Pending,
        instant_answered: false,
    };
    let AgentStep::Publish { events, then } =
        resolve_enabled_agents(plan, AgentEvent::Begun { cancelled: false }).step
    else {
        panic!("the stage is shown");
    };
    assert_eq!(
        events[0],
        stage_event(
            StagePayload::Instant,
            StageStatusPayload::Failed,
            Some("Instant provider failed"),
        )
    );
    let record = resolve_enabled_agents(plan, AgentEvent::Published { then }).record;
    assert!(!record.expect("the stage is recorded").succeeded);
}

#[test]
fn agents_are_asked_where_their_provider_is() {
    let step = |model, event| run_agent_text(model, true, true, "request-1-review", event);
    let begun = |cancelled| AgentTextEvent::Begun { cancelled };
    let ended = |error: &str| AgentTextStep::End { result: Err(String::from(error)) };
    assert_eq!(step(AgentModel::OpenCodeSolHigh, begun(false)), AgentTextStep::AskOpencode);
    assert_eq!(
        step(AgentModel::CustomSolHigh, begun(false)),
        AgentTextStep::AskCustom { instructions: agent_instructions("request-1-review") }
    );
    assert_eq!(
        step(AgentModel::CustomSolHigh, begun(true)),
        ended("assistant request cancelled")
    );
    assert_eq!(
        step(AgentModel::CustomSolHigh, AgentTextEvent::Stopped),
        ended("assistant request cancelled")
    );
    assert_eq!(
        run_agent_text(AgentModel::CustomLunaLow, false, true, "x", begun(false)),
        ended("Custom provider is not configured")
    );
    assert_eq!(
        run_agent_text(AgentModel::OpenCodeLunaLow, true, false, "x", begun(false)),
        ended("OpenCode server is not available")
    );
    assert_eq!(
        step(
            AgentModel::CustomSolHigh,
            AgentTextEvent::Failed { error: String::from("denied") }
        ),
        ended("denied")
    );
    assert_eq!(
        step(
            AgentModel::CustomSolHigh,
            AgentTextEvent::Answered { text: String::from("no"), refusal: true }
        ),
        AgentTextStep::End {
            result: Ok(AgentTextResult {
                text: String::from("no"),
                evidence: Vec::new(),
                refusal: true,
            })
        }
    );
}

#[test]
fn deep_running_event_is_distinct_from_queued_event() {
    let queued = stage_event(StagePayload::Deep, StageStatusPayload::Queued, None);
    let running = stage_event(StagePayload::Deep, StageStatusPayload::Running, None);
    assert!(matches!(
        queued,
        PromptExecutionEventPayload::Stage {
            stage: StagePayload::Deep,
            status: StageStatusPayload::Queued,
            detail: None,
        }
    ));
    assert!(matches!(
        running,
        PromptExecutionEventPayload::Stage {
            stage: StagePayload::Deep,
            status: StageStatusPayload::Running,
            detail: None,
        }
    ));
    assert_ne!(queued, running);
}
