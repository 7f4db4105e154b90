use vox_golem::completion::{
    admit_completion_request, clear_completion_request_state_locked, clear_completion_state_locked,
    completion_event, completion_record, end_completion, predicted_prompt,
    store_completion_context, store_completion_runtime, take_matching_request,
    CompletionAdmission, CompletionRequestContext, CompletionState, COMPLETION_PROMPT_MAX_BYTES,
};
use vox_golem::conversation::{Content, ConversationTurn, Role};
use vox_golem::opencode::AgentTextResult;
use vox_golem::prefetch::{
    finish_prefetch, invalidate_prefetch, prefetch_request_id, queue_assistant_prefetch,
    run_assistant_prefetch, speculative_record, take_and_invalidate_prefetch, ActivePrefetch,
    LocalPrefetch, PrefetchConditions, PrefetchEntry, PrefetchEvent, PrefetchKey, PrefetchPlan,
    PrefetchState, PrefetchStep,
};
use vox_golem::prompt_events::{instant_telemetry_identity, CompletionSource};
use vox_golem::settings::{InstantModel, ResponseProfilePayload};
use vox_golem::telemetry::{InferenceProvider, SpeculativeOrigin, Stage, Status};

fn key(prompt: &str, model: InstantModel) -> PrefetchKey {
    PrefetchKey { prompt: String::from(prompt), history: Vec::new(), model }
}

fn completion() -> CompletionState {
    CompletionState { runtime_available: true, context: None, holds_updates: false, generation: 0 }
}

fn speculation() -> PrefetchState {
    PrefetchState { generation: 1, cache: None, task: None }
}

fn context(backend_revision: u64) -> CompletionRequestContext {
    CompletionRequestContext {
        backend_revision,
        client_revision: 7,
        source: CompletionSource::Typed,
        voice_session_id: None,
        prompt: String::from("what is"),
        started_ms: 100,
    }
}

#[test]
fn prefetch_promotes_only_an_exact_prompt_history_and_model_match() {
    let key = key("explain ownership", InstantModel::LocalFast);
    let mut cache = Some(PrefetchEntry {
        generation: 1,
        key: key.clone(),
        answer: Content::Text(String::from("Ownership controls resource lifetime.")),
    });
    let mut generation = 1;
    let mut mismatch = key.clone();
    mismatch.prompt.push('?');
    assert_eq!(
        take_and_invalidate_prefetch(&mut cache, &mut generation, &mismatch),
        None
    );
    assert!(cache.is_none());

    cache = Some(PrefetchEntry {
        generation: 2,
        key: key.clone(),
        answer: Content::Text(String::from("Ownership controls resource lifetime.")),
    });
    assert_eq!(
        take_and_invalidate_prefetch(&mut cache, &mut generation, &key),
        Some(Content::Text(String::from("Ownership controls resource lifetime.")))
    );
    assert!(cache.is_none());
}

#[test]
fn final_voice_completion_clear_preserves_prefetch_for_submission() {
    let key = key("explain ownership", InstantModel::LocalFast);
    let state = PrefetchState {
        cache: Some(PrefetchEntry {
            generation: 1,
            key: key.clone(),
            answer: Content::Text(String::from("Ownership controls resource lifetime.")),
        }),
        ..speculation()
    };

    clear_completion_request_state_locked(&mut completion(), false).unwrap();

    assert_eq!(state.cache.as_ref().map(|entry| &entry.key), Some(&key));
}

#[test]
fn blank_prefetch_entry_is_rejected_as_a_cache_miss() {
    let key = key("question", InstantModel::LocalFast);
    let mut cache = Some(PrefetchEntry {
        generation: 1,
        key: key.clone(),
        answer: Content::Text(String::from(" \n\t ")),
    });
    let mut generation = 1;
    assert_eq!(take_and_invalidate_prefetch(&mut cache, &mut generation, &key), None);
    assert!(cache.is_none());
}

#[test]
fn adopted_refusal_prefetch_preserves_typed_content() {
    let key = key("refuse", InstantModel::CustomLunaLow);
    let mut cache = Some(PrefetchEntry {
        generation: 1,
        key: key.clone(),
        answer: Content::Refusal(String::from("cannot comply")),
    });
    let mut generation = 1;
    assert_eq!(
        take_and_invalidate_prefetch(&mut cache, &mut generation, &key),
        Some(Content::Refusal(String::from("cannot comply")))
    );
}

#[test]
fn invalid_completion_input_releases_existing_update_guard() {
    for prompt in [String::from("   "), "x".repeat(COMPLETION_PROMPT_MAX_BYTES + 1)] {
        let mut state = completion();
        store_completion_context(&mut state, context(1));
        assert!(state.holds_updates);

        assert_eq!(
            admit_completion_request(&mut state, &mut speculation(), true, &prompt),
            Ok(CompletionAdmission::Cleared { forget: true })
        );

        assert!(!state.holds_updates);
        assert!(state.context.is_none());
    }
}

#[test]
fn prefetched_answers_depend_on_the_whole_conversation() {
    let turn = |text: &str, refusal: bool| ConversationTurn {
        role: Role::User,
        content: if refusal {
            Content::Refusal(String::from(text))
        } else {
            Content::Text(String::from(text))
        },
    };
    let answer_to = |asked: &PrefetchKey| {
        let mut cache = Some(PrefetchEntry {
            generation: 3,
            key: PrefetchKey {
                history: vec![turn("a", false)],
                ..key("why", InstantModel::LocalFast)
            },
            answer: Content::Text(String::from("because")),
        });
        take_and_invalidate_prefetch(&mut cache, &mut 3, asked)
    };
    let same = PrefetchKey { history: vec![turn("a", false)], ..key("why", InstantModel::LocalFast) };
    assert!(answer_to(&same).is_some());
    assert!(answer_to(&PrefetchKey { history: Vec::new(), ..same.clone() }).is_none());
    assert!(answer_to(&PrefetchKey { history: vec![turn("b", false)], ..same.clone() }).is_none());
    assert!(answer_to(&PrefetchKey { history: vec![turn("a", true)], ..same.clone() }).is_none());
    assert!(answer_to(&PrefetchKey { model: InstantModel::LocalQuality, ..same }).is_none());
}

#[test]
fn answers_are_made_ahead_only_where_they_are_wanted() {
    let conditions = PrefetchConditions {
        prompt_active: false,
        prefetch_enabled: true,
        model: InstantModel::LocalFast,
        selected: ResponseProfilePayload::Fast,
    };
    let mut state = speculation();
    assert_eq!(queue_assistant_prefetch(&mut state, conditions), Some(3));
    assert_eq!(state.task, Some(ActivePrefetch { generation: 3, cancelled: false }));
    let refused = |conditions| queue_assistant_prefetch(&mut speculation(), conditions);
    assert_eq!(refused(PrefetchConditions { prompt_active: true, ..conditions }), None);
    assert_eq!(refused(PrefetchConditions { prefetch_enabled: false, ..conditions }), None);
    assert_eq!(
        refused(PrefetchConditions { selected: ResponseProfilePayload::Quality, ..conditions }),
        None
    );
    invalidate_prefetch(&mut state);
    assert_eq!(state.task, Some(ActivePrefetch { generation: 3, cancelled: true }));
    assert_eq!(state.generation, 4);
}

#[test]
fn late_answers_are_not_kept() {
    let asked = key("why", InstantModel::LocalFast);
    let answer = Content::Text(String::from("because"));
    let mut state = PrefetchState {
        generation: 3,
        cache: None,
        task: Some(ActivePrefetch { generation: 3, cancelled: false }),
    };
    assert!(finish_prefetch(&mut state, 3, asked.clone(), false, Ok(answer.clone())));
    assert_eq!(state.cache.as_ref().map(|entry| entry.generation), Some(3));
    assert_eq!(state.task, None);

    let mut late = PrefetchState { generation: 4, cache: None, task: None };
    assert!(!finish_prefetch(&mut late, 3, asked.clone(), false, Ok(answer.clone())));
    assert!(late.cache.is_none());
    let mut stopped = PrefetchState { generation: 3, cache: None, task: None };
    assert!(!finish_prefetch(&mut stopped, 3, asked, true, Ok(answer)));
    assert!(stopped.cache.is_none());
}

#[test]
fn the_local_model_is_asked_ahead_of_the_question() {
    let ready = LocalPrefetch {
        current_generation: 5,
        generation: 5,
        selected: ResponseProfilePayload::Fast,
        system_prompt: Some("be brief"),
        runtime_loaded: true,
    };
    let asked = key("why", InstantModel::LocalFast);
    assert_eq!(ready.question(&asked), Ok(String::from("why")));
    let refused = |prefetch: LocalPrefetch<'_>| prefetch.question(&asked).expect_err("refused");
    assert_eq!(
        refused(LocalPrefetch { current_generation: 6, ..ready }),
        "prefetch cancelled"
    );
    let ready = || LocalPrefetch {
        current_generation: 5,
        generation: 5,
        selected: ResponseProfilePayload::Fast,
        system_prompt: Some("be brief"),
        runtime_loaded: true,
    };
    assert_eq!(
        refused(LocalPrefetch { selected: ResponseProfilePayload::Quality, ..ready() }),
        "selected local model is not loaded"
    );
    assert_eq!(
        refused(LocalPrefetch { system_prompt: None, ..ready() }),
        "SOUL.md is not loaded"
    );
    assert_eq!(
        refused(LocalPrefetch { runtime_loaded: false, ..ready() }),
        "local Gemma model is still warming up"
    );
}

#[test]
fn answers_are_made_ahead_by_every_provider() {
    let step = |model, configured, available, event| {
        run_assistant_prefetch(
            PrefetchPlan { model, custom_configured: configured, server_available: available },
            event,
        )
    };
    let begun = || PrefetchEvent::Begun { cancelled: false };
    let refused = |error: &str| PrefetchStep::End { result: Err(String::from(error)) };
    assert_eq!(
        step(InstantModel::LocalFast, false, false, begun()),
        PrefetchStep::AskLocal
    );
    assert_eq!(
        step(InstantModel::CustomSolHigh, true, false, begun()),
        PrefetchStep::AskCustom
    );
    assert_eq!(
        step(InstantModel::CustomSolHigh, false, true, begun()),
        refused("Custom provider is not configured")
    );
    assert_eq!(
        step(InstantModel::OpenCodeLunaLow, false, true, begun()),
        PrefetchStep::AskOpencode
    );
    assert_eq!(
        step(InstantModel::OpenCodeLunaLow, true, false, begun()),
        refused("OpenCode server is not available")
    );
    let local = |event| step(InstantModel::LocalFast, true, true, event);
    assert_eq!(local(PrefetchEvent::Begun { cancelled: true }), refused("prefetch cancelled"));
    assert_eq!(local(PrefetchEvent::Stopped), refused("prefetch cancelled"));
    assert_eq!(
        local(PrefetchEvent::Refused { error: String::from("SOUL.md is not loaded") }),
        refused("SOUL.md is not loaded")
    );
    assert_eq!(
        local(PrefetchEvent::Failed { error: String::from("reset") }),
        refused("failed to prefetch local response: reset")
    );
    assert_eq!(
        step(
            InstantModel::CustomLunaLow,
            true,
            true,
            PrefetchEvent::Failed { error: String::from("reset") }
        ),
        refused("reset")
    );
    assert_eq!(
        local(PrefetchEvent::Lost { error: String::from("panic") }),
        refused("local prefetch task failed: panic")
    );
    assert_eq!(
        local(PrefetchEvent::Answered { answer: Content::Refusal(String::from("no")) }),
        PrefetchStep::End { result: Ok(Content::Refusal(String::from("no"))) }
    );
    assert_eq!(
        local(PrefetchEvent::Collected {
            result: Ok(AgentTextResult {
                text: String::from("yes"),
                evidence: Vec::new(),
                refusal: false,
            })
        }),
        PrefetchStep::End { result: Ok(Content::Text(String::from("yes"))) }
    );
}

#[test]
fn completions_are_asked_for_one_after_the_other() {
    let mut state = completion();
    let mut answers = speculation();
    assert_eq!(
        admit_completion_request(&mut state, &mut answers, true, "what is"),
        Ok(CompletionAdmission::Ask { backend_revision: 1 })
    );
    assert_eq!(answers.generation, 2);
    store_completion_context(&mut state, context(1));
    assert_eq!(take_matching_request(&mut state, true, 2, "what is"), None);
    assert_eq!(take_matching_request(&mut state, true, 1, "what was"), None);
    assert_eq!(take_matching_request(&mut state, false, 1, "what is"), None);
    assert_eq!(
        take_matching_request(&mut state, true, 1, "what is"),
        Some(context(1))
    );
    assert!(!state.holds_updates);
    assert_eq!(take_matching_request(&mut state, true, 1, "what is"), None);
}

#[test]
fn completions_need_a_runtime_and_consent() {
    let mut absent = CompletionState { runtime_available: false, ..completion() };
    assert_eq!(
        admit_completion_request(&mut absent, &mut speculation(), true, "what is"),
        Err(String::from("completion runtime is not available"))
    );
    assert_eq!(
        admit_completion_request(&mut absent, &mut speculation(), false, "what is"),
        Ok(CompletionAdmission::Cleared { forget: false })
    );
    assert_eq!(
        clear_completion_state_locked(&mut absent, &mut speculation(), true),
        Err(String::from("completion runtime is not available"))
    );
}

#[test]
fn predictions_are_shown_and_recorded() {
    assert_eq!(predicted_prompt("what is", Some(" rust")), Some(String::from("what is rust")));
    assert_eq!(predicted_prompt("what is", Some("")), None);
    assert_eq!(predicted_prompt("what is", None), None);
    let event = completion_event(&context(4), Some(String::from(" rust")));
    assert_eq!(event.revision, 7);
    let record = completion_record(&context(4), None, Some(150));
    assert_eq!(record.request_id, "completion-4");
    assert_eq!(record.duration_ms, Some(50));
    assert_eq!(record.inference_provider, InferenceProvider::AttachedUnknown);
    assert_eq!(record.speculative_origin, SpeculativeOrigin::User);
    assert_eq!(completion_record(&context(4), None, Some(50)).duration_ms, Some(0));
    let prefetch = speculative_record(
        prefetch_request_id(12),
        12,
        1,
        CompletionSource::Voice,
        Stage::Prefetch,
        instant_telemetry_identity(InstantModel::CustomLunaLow),
        3,
        false,
    );
    assert_eq!(prefetch.request_id, "prefetch-12");
    assert_eq!(prefetch.speculative_origin, SpeculativeOrigin::System);
    assert_eq!(prefetch.status, Status::Error);
}

#[test]
fn the_end_of_completions_is_reported_unless_the_application_closes() {
    let mut state = completion();
    store_completion_context(&mut state, context(1));
    assert_eq!(
        end_completion(&mut state, false).as_deref(),
        Some("completion prediction worker stopped unexpectedly")
    );
    assert!(!state.runtime_available && state.context.is_none() && !state.holds_updates);
    assert_eq!(end_completion(&mut state, true), None);

    let (mut runtime, mut request) = (None, None);
    assert_eq!(store_completion_runtime(&mut runtime, &mut request, true, 1, 2), Some(1));
    assert_eq!((runtime, request), (None, None));
    assert_eq!(store_completion_runtime(&mut runtime, &mut request, false, 1, 2), None);
    assert_eq!((runtime, request), (Some(1), Some(2)));
}
