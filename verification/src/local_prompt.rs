//! A question to the local model: asked with the conversation so far, and once more without it
//! where the conversation turns out to be too long.

use crate::active_prompt::{ControlView, PromptControlError};
use crate::conversation;
use crate::conversation::LlamaConversationTurn;
use crate::prompt;
use crate::prompt::{
    build_llama_prompt_input, is_llama_context_overflow_error, render_llama_user_prompt,
};
use crate::text;
use crate::text::{concat3, trim};
use vstd::prelude::*;
use vstd::string::*;

verus! {

broadcast use vstd::string::group_string_axioms;

/// A question that is ready to be asked.
#[derive(Clone, Debug, PartialEq, Eq)]
pub struct LocalAttempt {
    pub user_prompt: String,
    pub rolled_over: bool,
    pub can_retry_with_reset: bool,
}

/// Why the local model cannot be asked, where it cannot.
pub open spec fn local_obstacle(
    system_prompt: Option<Seq<char>>,
    runtime_loaded: bool,
) -> Option<Seq<char>> {
    if system_prompt is None {
        Some("SOUL.md is not loaded"@)
    } else if !runtime_loaded {
        Some("local Gemma model is still warming up"@)
    } else {
        None
    }
}

/// Prepares a question to the local model.
pub fn prepare_local_prompt(
    system_prompt: Option<&str>,
    runtime_loaded: bool,
    prompt: &str,
    conversation: &[LlamaConversationTurn],
) -> (result: Result<LocalAttempt, String>)
    ensures
        match result {
            Ok(attempt) => {
                let turns = conversation::pairs_words(conversation@);
                &&& local_obstacle(text::optional_str(system_prompt), runtime_loaded) is None
                &&& attempt.rolled_over == prompt::rolls_over(
                    system_prompt->Some_0@,
                    turns,
                    prompt@,
                )
                &&& attempt.user_prompt@ == (if attempt.rolled_over {
                    prompt@
                } else {
                    prompt::user_prompt(turns, prompt@)
                })
                &&& attempt.can_retry_with_reset == (turns.len() > 0 && !attempt.rolled_over)
            },
            Err(message) => local_obstacle(text::optional_str(system_prompt), runtime_loaded)
                == Some(message@),
        },
{
    match system_prompt {
        None => Err("SOUL.md is not loaded".to_owned()),
        Some(instructions) => {
            if !runtime_loaded {
                return Err("local Gemma model is still warming up".to_owned());
            }
            let input = build_llama_prompt_input(instructions, prompt, conversation);
            Ok(
                LocalAttempt {
                    user_prompt: input.user_prompt,
                    rolled_over: input.rolled_over,
                    can_retry_with_reset: conversation.len() > 0 && !input.rolled_over,
                },
            )
        },
    }
}

/// The question to ask after a failed first attempt, where it is worth asking again: alone, where
/// the conversation so far was too long.
pub fn retry_prompt(attempt: &LocalAttempt, error: &str, prompt: &str) -> (user_prompt: Option<
    String,
>)
    ensures
        text::optional_text(user_prompt) == (if attempt.retries(error@) {
            Some(prompt@)
        } else {
            None
        }),
{
    if attempt.can_retry_with_reset && is_llama_context_overflow_error(error) {
        let nothing: Vec<LlamaConversationTurn> = Vec::new();
        proof {
            assert(conversation::pairs_words(nothing@).len() == 0);
        }
        Some(render_llama_user_prompt(nothing.as_slice(), prompt))
    } else {
        None
    }
}

/// What is said where the second attempt failed too.
pub open spec fn twice_failed(retry_error: Seq<char>, error: Seq<char>) -> Seq<char> {
    "failed to execute local llama.cpp prompt after conversation reset: "@ + retry_error
        + "; initial error: "@ + error
}

/// What is said where the second attempt failed too.
pub fn retry_failure(retry_error: &str, error: &str) -> (message: String)
    ensures
        message@ == twice_failed(retry_error@, error@),
{
    let mut message = concat3(
        "failed to execute local llama.cpp prompt after conversation reset: ",
        retry_error,
        "; initial error: ",
    );
    message.append(error);
    message
}

/// What came of asking the local model: the answer and whether the conversation so far was left
/// out, or why there is no answer.
pub type LocalReply = Result<(String, bool), String>;

/// What came of asking the local model, by its characters.
pub open spec fn reply_words(reply: LocalReply) -> Result<(Seq<char>, bool), Seq<char>> {
    match reply {
        Ok((answer, left_out)) => Ok((answer@, left_out)),
        Err(error) => Err(error@),
    }
}

/// What happened to a question to the local model.
#[derive(Debug, PartialEq, Eq)]
pub enum LocalEvent {
    /// The question is ready.
    Prepared,
    /// The question was answered, or not.
    Asked { result: Result<String, String> },
    /// The question was answered without the conversation so far, or not; `error` says why it was
    /// not answered with it.
    AskedAgain { error: String, result: Result<String, String> },
}

/// What is done next about a question to the local model.
#[derive(Debug, PartialEq, Eq)]
pub enum LocalStep {
    /// Ask the model.
    Ask { user_prompt: String },
    /// Ask the model once more; `error` says why the first attempt failed.
    AskAgain { user_prompt: String, error: String },
    /// Nothing: this came of it.
    Done(LocalReply),
}

/// What is done next about a question to the local model, by its characters.
#[verifier::ext_equal]
pub ghost enum LocalStepView {
    Ask { user_prompt: Seq<char> },
    AskAgain { user_prompt: Seq<char>, error: Seq<char> },
    Done(Result<(Seq<char>, bool), Seq<char>>),
}

impl View for LocalStep {
    type V = LocalStepView;

    open spec fn view(&self) -> LocalStepView {
        match *self {
            LocalStep::Ask { user_prompt } => LocalStepView::Ask { user_prompt: user_prompt@ },
            LocalStep::AskAgain { user_prompt, error } => LocalStepView::AskAgain {
                user_prompt: user_prompt@,
                error: error@,
            },
            LocalStep::Done(reply) => LocalStepView::Done(reply_words(reply)),
        }
    }
}

impl LocalAttempt {
    /// Whether a question that failed with `error` is worth asking once more.
    pub open spec fn retries(self, error: Seq<char>) -> bool {
        self.can_retry_with_reset && prompt::context_overflow(error)
    }

    /// What follows an event. The answer to the first attempt leaves the conversation so far out
    /// where the question did; the answer to the second one always does.
    pub open spec fn next(self, prompt: Seq<char>, event: LocalEvent) -> LocalStepView {
        match event {
            LocalEvent::Prepared => LocalStepView::Ask { user_prompt: self.user_prompt@ },
            LocalEvent::Asked { result: Ok(answer) } => LocalStepView::Done(
                Ok((answer@, self.rolled_over)),
            ),
            LocalEvent::Asked { result: Err(error) } => if self.retries(error@) {
                LocalStepView::AskAgain { user_prompt: prompt, error: error@ }
            } else {
                LocalStepView::Done(Err(error@))
            },
            LocalEvent::AskedAgain { result: Ok(answer), .. } => LocalStepView::Done(
                Ok((answer@, true)),
            ),
            LocalEvent::AskedAgain { error, result: Err(retry_error) } => LocalStepView::Done(
                Err(twice_failed(retry_error@, error@)),
            ),
        }
    }
}

/// Decides what follows an event of a question to the local model.
pub fn local_step(attempt: &LocalAttempt, prompt: &str, event: LocalEvent) -> (step: LocalStep)
    ensures
        step@ == attempt.next(prompt@, event),
{
    match event {
        LocalEvent::Prepared => LocalStep::Ask { user_prompt: attempt.user_prompt.clone() },
        LocalEvent::Asked { result: Ok(answer) } => LocalStep::Done(
            Ok((answer, attempt.rolled_over)),
        ),
        LocalEvent::Asked { result: Err(error) } => match retry_prompt(
            attempt,
            error.as_str(),
            prompt,
        ) {
            Some(user_prompt) => LocalStep::AskAgain { user_prompt, error },
            None => LocalStep::Done(Err(error)),
        },
        LocalEvent::AskedAgain { result: Ok(answer), .. } => LocalStep::Done(Ok((answer, true))),
        LocalEvent::AskedAgain { error, result: Err(retry_error) } => LocalStep::Done(
            Err(retry_failure(retry_error.as_str(), error.as_str())),
        ),
    }
}

/// Whether a question to the local model was answered, where `cancelled` says whether the prompt
/// was cancelled by then.
pub open spec fn local_outcome(cancelled: bool, reply: LocalReply) -> Result<
    Seq<char>,
    ControlView,
> {
    if cancelled {
        Err(ControlView::Cancelled)
    } else {
        match reply {
            Err(error) => Err(ControlView::Error(error@)),
            Ok((answer, _)) => if text::trimmed(answer@).len() == 0 {
                Err(ControlView::Error("response provider completed without visible text"@))
            } else {
                Ok(answer@)
            },
        }
    }
}

/// The conversation after a question was answered.
pub open spec fn grown(
    turns: Seq<(Seq<char>, Seq<char>)>,
    left_out: bool,
    prompt: Seq<char>,
    answer: Seq<char>,
) -> Seq<(Seq<char>, Seq<char>)> {
    if left_out {
        seq![(prompt, answer)]
    } else {
        turns.push((prompt, answer))
    }
}

/// Ends a question to the local model, and notes the answer in its conversation. A conversation
/// that was left out begins anew.
pub fn conclude_local_prompt(
    conversation: &mut Vec<LlamaConversationTurn>,
    prompt: &str,
    initially_rolled_over: bool,
    cancelled: bool,
    reply: LocalReply,
) -> (result: Result<String, PromptControlError>)
    ensures
        match result {
            Ok(answer) => local_outcome(cancelled, reply) == Ok::<Seq<char>, ControlView>(answer@)
                && conversation::pairs_words(final(conversation)@) == grown(
                conversation::pairs_words(old(conversation)@),
                initially_rolled_over || reply->Ok_0.1,
                prompt@,
                answer@,
            ),
            Err(error) => local_outcome(cancelled, reply) == Err::<Seq<char>, ControlView>(error@)
                && final(conversation)@ == old(conversation)@,
        },
{
    if cancelled {
        return Err(PromptControlError::Cancelled);
    }
    let (answer, rolled_over) = match reply {
        Ok(given) => given,
        Err(error) => {
            return Err(PromptControlError::Error(error));
        },
    };
    if trim(answer.as_str()).is_empty() {
        return Err(
            PromptControlError::Error(
                "response provider completed without visible text".to_owned(),
            ),
        );
    }
    if initially_rolled_over || rolled_over {
        conversation.clear();
    }
    let ghost before = conversation@;
    let turn = LlamaConversationTurn { user: prompt.to_owned(), assistant: answer.clone() };
    let ghost words = conversation::pair_words(turn);
    conversation.push(turn);
    proof {
        assert(conversation::pairs_words(conversation@) =~= conversation::pairs_words(before).push(
            words,
        ));
        assert(initially_rolled_over || rolled_over ==> conversation::pairs_words(before)
            =~= Seq::empty());
        assert(Seq::empty().push(words) =~= seq![words]);
    }
    Ok(answer)
}

/// After a question was answered, the local model's conversation ends with the question and its
/// answer. What was said before is kept, or left out as a whole.
pub proof fn law_answered_questions_end_the_conversation(
    turns: Seq<(Seq<char>, Seq<char>)>,
    left_out: bool,
    prompt: Seq<char>,
    answer: Seq<char>,
)
    ensures
        grown(turns, left_out, prompt, answer).last() == (prompt, answer),
        grown(turns, left_out, prompt, answer).drop_last() == (if left_out {
            Seq::empty()
        } else {
            turns
        }),
{
    assert(grown(turns, left_out, prompt, answer).drop_last() =~= (if left_out {
        Seq::empty()
    } else {
        turns
    }));
}

/// The local model is asked at most twice: once with the conversation so far, where it fits, and
/// once more with the question alone, exactly where the conversation turned out to be too long.
pub proof fn law_local_questions_are_asked_at_most_twice(
    attempt: LocalAttempt,
    prompt: Seq<char>,
    first: Result<String, String>,
    error: String,
    second: Result<String, String>,
)
    ensures
        attempt.next(prompt, LocalEvent::Prepared) == (LocalStepView::Ask {
            user_prompt: attempt.user_prompt@,
        }),
        first is Err && attempt.retries(first->Err_0@) ==> attempt.next(
            prompt,
            LocalEvent::Asked { result: first },
        ) == (LocalStepView::AskAgain { user_prompt: prompt, error: first->Err_0@ }),
        first is Ok || !attempt.retries(first->Err_0@) ==> attempt.next(
            prompt,
            LocalEvent::Asked { result: first },
        ) is Done,
        attempt.next(prompt, LocalEvent::AskedAgain { error, result: second }) is Done,
{
}

/// An answer to the first attempt goes on with the conversation, unless that was left out of the
/// question; an answer to the second attempt begins the conversation anew.
pub proof fn law_second_answers_begin_the_conversation_anew(
    attempt: LocalAttempt,
    turns: Seq<(Seq<char>, Seq<char>)>,
    prompt: Seq<char>,
    answer: String,
    error: String,
)
    ensures
        attempt.next(prompt, LocalEvent::Asked { result: Ok(answer) }) matches LocalStepView::Done(
            Ok((words, left_out)),
        ) && grown(turns, attempt.rolled_over || left_out, prompt, words) == (
        if attempt.rolled_over {
            seq![(prompt, answer@)]
        } else {
            turns.push((prompt, answer@))
        }),
        attempt.next(
            prompt,
            LocalEvent::AskedAgain { error, result: Ok(answer) },
        ) matches LocalStepView::Done(Ok((words, left_out))) && grown(
            turns,
            attempt.rolled_over || left_out,
            prompt,
            words,
        ) == seq![(prompt, answer@)],
{
}

/// The local model is asked exactly where its instructions are there and it runs; the instructions
/// are looked for first.
pub proof fn law_local_questions_need_instructions_and_a_model(
    system_prompt: Option<Seq<char>>,
    runtime_loaded: bool,
)
    ensures
        local_obstacle(system_prompt, runtime_loaded) is None <==> system_prompt is Some
            && runtime_loaded,
        system_prompt is None ==> local_obstacle(system_prompt, runtime_loaded) == Some(
            "SOUL.md is not loaded"@,
        ),
        system_prompt is Some && !runtime_loaded ==> local_obstacle(system_prompt, runtime_loaded)
            == Some("local Gemma model is still warming up"@),
{
}

/// The local model's answer is the outcome, word for word, where it says something and the prompt
/// was not cancelled by then. A cancelled prompt has no other outcome, an error is told as it is,
/// and an answer without visible text is one.
pub proof fn law_local_answers_are_the_outcome(cancelled: bool, answer: String, left_out: bool, error: String)
    ensures
        ({
            let answered = local_outcome(cancelled, Ok((answer, left_out)));
            let failed = local_outcome(cancelled, Err(error));
            let blank = text::trimmed(answer@).len() == 0;
            let stopped = Err::<Seq<char>, ControlView>(ControlView::Cancelled);
            &&& cancelled ==> answered == stopped && failed == stopped
            &&& !cancelled && !blank ==> answered == Ok::<Seq<char>, ControlView>(answer@)
            &&& !cancelled && blank ==> answered == Err::<Seq<char>, ControlView>(
                ControlView::Error("response provider completed without visible text"@),
            )
            &&& !cancelled ==> failed == Err::<Seq<char>, ControlView>(ControlView::Error(error@))
        }),
{
}

/// A failure is told as it is, and two failures are told both, the second one first. A question is
/// worth a second attempt exactly where a conversation was shown with it and it was too long.
pub proof fn law_local_failures_are_told(
    attempt: LocalAttempt,
    prompt: Seq<char>,
    error: String,
    retry_error: String,
)
    ensures
        attempt.retries(error@) <==> attempt.can_retry_with_reset && prompt::context_overflow(
            error@,
        ),
        !attempt.retries(error@) ==> attempt.next(prompt, LocalEvent::Asked { result: Err(error) })
            == LocalStepView::Done(Err(error@)),
        attempt.next(prompt, LocalEvent::AskedAgain { error, result: Err(retry_error) })
            == LocalStepView::Done(
            Err(
                "failed to execute local llama.cpp prompt after conversation reset: "@
                    + retry_error@ + "; initial error: "@ + error@,
            ),
        ),
{
}

} // verus!
