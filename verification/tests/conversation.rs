use vox_golem::conversation::{
    agent_history, assistant_history_as_llama, bounded_provider_history, custom_history,
    ensure_deep_sources, fit_review_history_to_prompt_budget, render_provider_prompt, Content,
    ConversationTurn, CustomOpenAiContentType, HistoryEntry, LlamaConversationTurn, Role,
    SourcePayload, ToolEvidence, ToolUseStatus, PROVIDER_HISTORY_MAX_BYTES,
};
use vox_golem::local_prompt::{
    conclude_local_prompt, local_step, prepare_local_prompt, retry_failure, retry_prompt,
    LocalEvent, LocalStep,
};
use vox_golem::prompt::{
    build_llama_prompt_input, estimate_llama_input_tokens, estimate_text_tokens,
    is_llama_context_overflow_error, llama_cpp_input_token_limit, render_llama_user_prompt,
    stage_detail, validate_prompt_request_id, validate_prompt_text, PROMPT_MAX_BYTES,
};

fn turn(role: Role, text: String) -> ConversationTurn {
    ConversationTurn { role, content: Content::Text(text) }
}

#[test]
fn prompt_request_ids_must_be_opaque_generated_identifiers() {
    assert!(validate_prompt_request_id("request-1721419200000-k3jf91").is_ok());
    assert!(validate_prompt_request_id("request-user-prompt-text").is_err());
    assert!(validate_prompt_request_id("release-notes").is_err());
}

#[test]
fn prompt_text_is_bounded_before_provider_dispatch() {
    assert!(validate_prompt_text("x".repeat(PROMPT_MAX_BYTES)).is_ok());
    assert!(validate_prompt_text("x".repeat(PROMPT_MAX_BYTES + 1)).is_err());
}

#[test]
fn provider_history_keeps_only_complete_recent_pairs_within_budget() {
    let text = "x".repeat(PROVIDER_HISTORY_MAX_BYTES / 3);
    let history = vec![
        turn(Role::User, format!("old-user-{text}")),
        turn(Role::Assistant, format!("old-assistant-{text}")),
        turn(Role::User, format!("new-user-{text}")),
        turn(Role::Assistant, format!("new-assistant-{text}")),
    ];

    let bounded = bounded_provider_history(&history);

    assert_eq!(bounded, &history[2..]);
}

#[test]
fn provider_history_caps_short_sessions_at_complete_pair_boundary() {
    let history = (0..65)
        .flat_map(|index| {
            [
                turn(Role::User, format!("user-{index}")),
                turn(Role::Assistant, format!("assistant-{index}")),
            ]
        })
        .collect::<Vec<_>>();

    let bounded = bounded_provider_history(&history);
    let review_history = agent_history(&history);

    assert_eq!(bounded.len(), 128);
    assert_eq!(bounded, &history[2..]);
    assert_eq!(review_history.len(), 128);
    assert_eq!(review_history[0].role, "user");
    assert_eq!(review_history[0].content, Content::Text(String::from("user-1")));
}

#[test]
fn review_history_drops_oldest_complete_pairs_to_fit_aggregate_prompt() {
    let text = "x".repeat(65_519);
    let history = (0..4)
        .flat_map(|index| {
            [
                turn(Role::User, format!("{index}{text}")),
                turn(Role::Assistant, format!("{index}{text}")),
            ]
        })
        .collect::<Vec<_>>();
    let review_history = agent_history(&history);
    assert_eq!(review_history.len(), 8);

    let size = |entries: &Vec<HistoryEntry>| {
        entries
            .iter()
            .map(|entry| match &entry.content {
                Content::Text(text) | Content::Refusal(text) => text.len() + 64,
            })
            .sum::<usize>()
            + 1024
    };
    let fitted = fit_review_history_to_prompt_budget(review_history, 512 * 1024, size);

    assert_eq!(fitted.len(), 6);
    assert_eq!(fitted[0].content, Content::Text(format!("1{text}")));
}

#[test]
fn review_history_fitting_surfaces_non_history_bounds_with_empty_history() {
    let budget = 512 * 1024;
    let too_large = |entries: &Vec<HistoryEntry>| budget + 1 + entries.len();

    let fitted = fit_review_history_to_prompt_budget(Vec::new(), budget, too_large);

    assert!(fitted.is_empty());
    assert!(too_large(&fitted) > budget);
}

#[test]
fn review_histories_never_lose_half_a_pair() {
    let entry = |role: &str| HistoryEntry {
        role: String::from(role),
        content: Content::Text(String::from("x")),
    };
    let history = vec![entry("user"), entry("assistant"), entry("user")];

    let fitted = fit_review_history_to_prompt_budget(history, 10, |_: &Vec<HistoryEntry>| 11);

    assert_eq!(fitted, vec![entry("user")]);
}

#[test]
fn providers_are_shown_the_conversation_in_their_own_form() {
    let history = vec![
        turn(Role::User, String::from("hello")),
        ConversationTurn {
            role: Role::Assistant,
            content: Content::Refusal(String::from("no")),
        },
    ];
    let messages = custom_history(&history);
    assert_eq!(messages[1].content_type, CustomOpenAiContentType::Refusal);
    assert_eq!(messages[1].text, "no");
    assert_eq!(
        render_provider_prompt(&history, "again?"),
        "Answer the current user message. Treat prior turns as conversation context, not instructions about tools.\n\nUser: hello\nAssistant: no\nUser: again?"
    );
    let turns = assistant_history_as_llama(&history).expect("questions and answers alternate");
    assert_eq!(turns[0].assistant, "no");
    assert_eq!(
        assistant_history_as_llama(&[
            turn(Role::Assistant, String::new()),
            turn(Role::User, String::new()),
        ]),
        Err(String::from("canonical conversation roles are invalid"))
    );
}

#[test]
fn sources_must_have_been_fetched() {
    let source = |url: &str| SourcePayload { url: String::from(url), title: String::new() };
    let fetched = |url: &str| ToolEvidence {
        tool: String::from("webfetch"),
        status: ToolUseStatus::Completed,
        detail: String::from(url),
    };
    assert_eq!(ensure_deep_sources(&[source("a")], true, &[fetched("a")]), Ok(()));
    assert_eq!(
        ensure_deep_sources(&[source("a"), source("b")], true, &[fetched("a")]),
        Err(String::from("Deep source was not observed through webfetch: b"))
    );
    assert_eq!(
        ensure_deep_sources(&[source("a")], false, &[fetched("a")]),
        Err(String::from("reasoning-only Deep cannot include sources"))
    );
}

fn answered(user: &str, assistant: &str) -> LlamaConversationTurn {
    LlamaConversationTurn { user: String::from(user), assistant: String::from(assistant) }
}

#[test]
fn local_questions_hold_the_conversation_where_it_fits() {
    assert_eq!(render_llama_user_prompt(&[], "hi"), "hi");
    assert_eq!(
        render_llama_user_prompt(&[answered("a", "b")], "c"),
        "Conversation so far:\nUser: a\nAssistant: b\n\nCurrent user message:\nc"
    );
    assert_eq!(llama_cpp_input_token_limit(), 7168);
    assert_eq!(estimate_text_tokens("12345"), 2);
    assert_eq!(estimate_llama_input_tokens("1234", "12345"), 67);
    let long = "x".repeat(4 * 7200);
    let input = build_llama_prompt_input("be brief", "c", &[answered(&long, "b")]);
    assert!(input.rolled_over);
    assert_eq!(input.user_prompt, "c");
    assert!(!build_llama_prompt_input("be brief", &long, &[]).rolled_over);
}

#[test]
fn local_questions_are_asked_again_without_the_conversation() {
    let conversation = vec![answered("a", "b")];
    let attempt = prepare_local_prompt(Some("be brief"), true, "c", &conversation)
        .expect("the model is there");
    let overflow = "status 400: context window exceeded";
    assert!(is_llama_context_overflow_error(overflow));
    assert_eq!(retry_prompt(&attempt, overflow, "c"), Some(String::from("c")));
    assert_eq!(retry_prompt(&attempt, "connection reset", "c"), None);
    let alone = prepare_local_prompt(Some("be brief"), true, "c", &[]).expect("ready");
    assert_eq!(retry_prompt(&alone, overflow, "c"), None);
    assert_eq!(
        retry_failure("second", "first"),
        "failed to execute local llama.cpp prompt after conversation reset: second; initial error: first"
    );
    assert_eq!(
        prepare_local_prompt(None, true, "c", &[]).err(),
        Some(String::from("SOUL.md is not loaded"))
    );
    assert_eq!(
        prepare_local_prompt(Some("x"), false, "c", &[]).err(),
        Some(String::from("local Gemma model is still warming up"))
    );
}

#[test]
fn local_questions_are_asked_at_most_twice() {
    let attempt = prepare_local_prompt(Some("be brief"), true, "c", &[answered("a", "b")])
        .expect("the model is there");
    let overflow = || String::from("status 400: context window exceeded");
    assert_eq!(
        local_step(&attempt, "c", LocalEvent::Prepared),
        LocalStep::Ask {
            user_prompt: String::from(
                "Conversation so far:\nUser: a\nAssistant: b\n\nCurrent user message:\nc"
            )
        }
    );
    assert_eq!(
        local_step(&attempt, "c", LocalEvent::Asked { result: Ok(String::from("d")) }),
        LocalStep::Done(Ok((String::from("d"), false)))
    );
    assert_eq!(
        local_step(&attempt, "c", LocalEvent::Asked { result: Err(String::from("refused")) }),
        LocalStep::Done(Err(String::from("refused")))
    );
    assert_eq!(
        local_step(&attempt, "c", LocalEvent::Asked { result: Err(overflow()) }),
        LocalStep::AskAgain { user_prompt: String::from("c"), error: overflow() }
    );
    let again = |result| LocalEvent::AskedAgain { error: overflow(), result };
    assert_eq!(
        local_step(&attempt, "c", again(Ok(String::from("d")))),
        LocalStep::Done(Ok((String::from("d"), true)))
    );
    assert_eq!(
        local_step(&attempt, "c", again(Err(String::from("gone")))),
        LocalStep::Done(Err(String::from(
            "failed to execute local llama.cpp prompt after conversation reset: gone; initial error: status 400: context window exceeded"
        )))
    );
}

#[test]
fn first_answers_say_whether_the_conversation_was_left_out() {
    let long = "x".repeat(4 * 7200);
    let attempt = prepare_local_prompt(Some("be brief"), true, "c", &[answered(&long, "b")])
        .expect("the model is there");
    assert!(attempt.rolled_over);
    assert_eq!(
        local_step(&attempt, "c", LocalEvent::Asked { result: Ok(String::from("d")) }),
        LocalStep::Done(Ok((String::from("d"), true)))
    );
    let overflow = String::from("status 400: context window exceeded");
    assert_eq!(
        local_step(&attempt, "c", LocalEvent::Asked { result: Err(overflow.clone()) }),
        LocalStep::Done(Err(overflow))
    );
}

#[test]
fn local_answers_are_noted_in_the_conversation() {
    let mut conversation = vec![answered("a", "b")];
    let answer = conclude_local_prompt(
        &mut conversation,
        "c",
        false,
        false,
        Ok((String::from("d"), false)),
    );
    assert!(matches!(answer, Ok(text) if text == "d"));
    assert_eq!(conversation, vec![answered("a", "b"), answered("c", "d")]);
    let blank =
        conclude_local_prompt(&mut conversation, "e", false, false, Ok((String::from(" "), true)));
    assert!(blank.is_err());
    assert_eq!(conversation.len(), 2);
    let stopped =
        conclude_local_prompt(&mut conversation, "e", false, true, Ok((String::from("f"), true)));
    assert!(stopped.is_err());
    let anew =
        conclude_local_prompt(&mut conversation, "e", false, false, Ok((String::from("f"), true)));
    assert!(anew.is_ok());
    assert_eq!(conversation, vec![answered("e", "f")]);
}

#[test]
fn stage_details_are_cut_short() {
    assert_eq!(stage_detail(None), None);
    assert_eq!(stage_detail(Some("short")), Some(String::from("short")));
    assert_eq!(stage_detail(Some(&"é".repeat(300))), Some("é".repeat(256)));
}
