//! Prompts: which ones are accepted, and what the local model is asked.

use crate::conversation;
use crate::conversation::LlamaConversationTurn;
use crate::text;
use crate::text::{
    byte_len, chars_of, contains, is_ascii_alphanumeric, strip_prefix, to_ascii_lowercase, trim,
};
use vstd::prelude::*;
use vstd::string::*;

verus! {

broadcast use vstd::string::group_string_axioms;

/// How large a prompt may be.
pub const PROMPT_MAX_BYTES: usize = 65536;

/// How many tokens the local model can attend to.
pub const LLAMA_CPP_CONTEXT_WINDOW_TOKENS: usize = 8192;

/// How many tokens the local model answers with at most.
pub const LLAMA_CPP_MAX_TOKENS: u16 = 512;

/// How many tokens are kept free because token counts are estimates.
pub const LLAMA_CPP_CONTEXT_SAFETY_MARGIN_TOKENS: usize = 512;

/// How many tokens the frame around a conversation takes.
pub const LLAMA_CPP_CHAT_WRAPPER_TOKENS: usize = 64;

/// How many characters of a stage's detail are shown.
pub const STAGE_DETAIL_MAX_CHARS: usize = 256;

/// Why a prompt is refused, where it is.
pub open spec fn prompt_refusal(prompt: Seq<char>) -> Option<Seq<char>> {
    if text::trimmed(prompt).len() == 0 {
        Some("invalid prompt: prompt must not be empty"@)
    } else if text::byte_count(prompt) > PROMPT_MAX_BYTES {
        Some("invalid prompt: prompt exceeds 65536 bytes"@)
    } else {
        None
    }
}

/// Accepts a prompt that says something and is not too large, as it is.
pub fn validate_prompt_text(prompt: String) -> (result: Result<String, String>)
    ensures
        match result {
            Ok(accepted) => prompt_refusal(prompt@) is None && accepted == prompt,
            Err(message) => prompt_refusal(prompt@) == Some(message@),
        },
{
    if trim(prompt.as_str()).is_empty() {
        return Err("invalid prompt: prompt must not be empty".to_owned());
    }
    if byte_len(prompt.as_str()) > PROMPT_MAX_BYTES {
        return Err("invalid prompt: prompt exceeds 65536 bytes".to_owned());
    }
    Ok(prompt)
}

/// Whether a text is made of decimal digits, at least one and at most twenty.
pub open spec fn timestamp_text(value: Seq<char>) -> bool {
    0 < value.len() <= 20 && forall|i: int|
        0 <= i < value.len() ==> '0' <= #[trigger] value[i] <= '9'
}

/// Whether a text is made of ASCII letters and digits, at least one and at most thirty-two.
pub open spec fn nonce_text(value: Seq<char>) -> bool {
    0 < value.len() <= 32 && forall|i: int|
        0 <= i < value.len() ==> text::ascii_alphanumeric(#[trigger] value[i])
}

/// Whether a request's name was generated: the word `request`, a timestamp and a nonce, with
/// hyphens between them.
pub open spec fn generated_request_id(id: Seq<char>) -> bool {
    exists|timestamp: Seq<char>, nonce: Seq<char>|
        #![trigger timestamp_text(timestamp), nonce_text(nonce)]
        timestamp_text(timestamp) && nonce_text(nonce) && id == "request-"@ + timestamp + "-"@
            + nonce
}

/// Accepts a name that was generated for a request; a name that could hold text of a user is
/// refused.
pub fn validate_prompt_request_id(request_id: &str) -> (result: Result<(), String>)
    ensures
        text::outcome(result) == (if generated_request_id(request_id@) {
            Ok(())
        } else {
            Err("request ID must be an opaque generated identifier"@)
        }),
{
    proof {
        reveal_strlit("request-");
        reveal_strlit("-");
    }
    let rest = match strip_prefix(request_id, "request-") {
        Some(rest) => rest,
        None => {
            proof {
                if generated_request_id(request_id@) {
                    let (timestamp, nonce) = choose|timestamp: Seq<char>, nonce: Seq<char>|
                        #![trigger timestamp_text(timestamp), nonce_text(nonce)]
                        timestamp_text(timestamp) && nonce_text(nonce) && request_id@
                            == "request-"@ + timestamp + "-"@ + nonce;
                    assert(request_id@.take(8) == "request-"@);
                }
            }
            return Err("request ID must be an opaque generated identifier".to_owned());
        },
    };
    let chars = chars_of(rest);
    proof {
        assert(request_id@ == "request-"@ + rest@);
        assert(generated_request_id(request_id@) == splits(rest@)) by {
            if generated_request_id(request_id@) {
                let (timestamp, nonce) = choose|timestamp: Seq<char>, nonce: Seq<char>|
                    #![trigger timestamp_text(timestamp), nonce_text(nonce)]
                    timestamp_text(timestamp) && nonce_text(nonce) && request_id@ == "request-"@
                        + timestamp + "-"@ + nonce;
                assert(request_id@.skip(8) == timestamp + "-"@ + nonce);
                assert(rest@ == timestamp + "-"@ + nonce);
                assert(rest@.take(timestamp.len() as int) == timestamp);
                assert(rest@.skip(timestamp.len() as int + 1) == nonce);
                assert(rest@[timestamp.len() as int] == '-');
                assert(split_at(rest@, timestamp.len() as int));
            }
            if splits(rest@) {
                let dash = choose|dash: int| #[trigger] split_at(rest@, dash);
                let timestamp = rest@.take(dash);
                let nonce = rest@.skip(dash + 1);
                assert(rest@ == timestamp + "-"@ + nonce);
                assert(request_id@ == "request-"@ + timestamp + "-"@ + nonce);
                assert(timestamp_text(timestamp) && nonce_text(nonce));
            }
        }
    }
    let mut dash: usize = 0;
    while dash < chars.len() && '0' <= chars[dash] && chars[dash] <= '9'
        invariant
            chars@ == rest@,
            dash <= chars.len(),
            forall|i: int| 0 <= i < dash ==> '0' <= #[trigger] rest@[i] <= '9',
        decreases chars.len() - dash,
    {
        dash += 1;
    }
    proof {
        assert forall|other: int| #[trigger] split_at(rest@, other) implies other == dash by {
            if other < dash {
                assert('0' <= rest@[other] <= '9');
            }
            if other > dash {
                assert(rest@.take(other)[dash as int] == rest@[dash as int]);
            }
        }
    }
    if dash == 0 || dash > 20 || dash >= chars.len() || chars[dash] != '-' {
        return Err("request ID must be an opaque generated identifier".to_owned());
    }
    let nonce_len: usize = chars.len() - dash - 1;
    if nonce_len == 0 || nonce_len > 32 {
        proof {
            assert(rest@.skip(dash + 1).len() == nonce_len);
        }
        return Err("request ID must be an opaque generated identifier".to_owned());
    }
    let mut i: usize = dash + 1;
    while i < chars.len()
        invariant
            chars@ == rest@,
            dash < i <= chars.len(),
            generated_request_id(request_id@) == splits(rest@),
            forall|other: int| #[trigger] split_at(rest@, other) ==> other == dash,
            forall|j: int| dash < j < i ==> text::ascii_alphanumeric(#[trigger] rest@[j]),
        decreases chars.len() - i,
    {
        if !is_ascii_alphanumeric(chars[i]) {
            proof {
                if split_at(rest@, dash as int) {
                    assert(rest@.skip(dash + 1)[i - dash - 1] == rest@[i as int]);
                }
            }
            return Err("request ID must be an opaque generated identifier".to_owned());
        }
        i += 1;
    }
    proof {
        let timestamp = rest@.take(dash as int);
        let nonce = rest@.skip(dash + 1);
        assert forall|j: int| 0 <= j < nonce.len() implies text::ascii_alphanumeric(
            #[trigger] nonce[j],
        ) by {
            assert(nonce[j] == rest@[dash + 1 + j]);
        }
        assert(timestamp_text(timestamp));
        assert(nonce_text(nonce));
        assert(split_at(rest@, dash as int));
    }
    Ok(())
}

/// Whether a hyphen at a position parts a timestamp from a nonce.
pub open spec fn split_at(rest: Seq<char>, dash: int) -> bool {
    &&& 0 <= dash < rest.len()
    &&& rest[dash] == '-'
    &&& timestamp_text(rest.take(dash))
    &&& nonce_text(rest.skip(dash + 1))
}

/// Whether some hyphen parts a timestamp from a nonce.
pub open spec fn splits(rest: Seq<char>) -> bool {
    exists|dash: int| #[trigger] split_at(rest, dash)
}

/// What the local model is asked, and whether the conversation so far had to be left out.
#[derive(Clone, Debug, PartialEq, Eq)]
pub struct LlamaPromptInput {
    pub user_prompt: String,
    pub rolled_over: bool,
}

/// The conversation so far as the local model is shown it.
pub open spec fn shown_conversation(turns: Seq<(Seq<char>, Seq<char>)>) -> Seq<char>
    decreases turns.len(),
{
    if turns.len() == 0 {
        seq![]
    } else {
        shown_conversation(turns.drop_last()) + "User: "@ + turns.last().0 + "\n"@
            + "Assistant: "@ + turns.last().1 + "\n\n"@
    }
}

/// What the local model is asked: the question alone, or the conversation so far and the question.
pub open spec fn user_prompt(turns: Seq<(Seq<char>, Seq<char>)>, prompt: Seq<char>) -> Seq<char> {
    if turns.len() == 0 {
        prompt
    } else {
        "Conversation so far:\n"@ + shown_conversation(turns) + "Current user message:\n"@
            + prompt
    }
}

/// What the local model is asked.
pub fn render_llama_user_prompt(conversation: &[LlamaConversationTurn], prompt: &str) -> (rendered:
    String)
    ensures
        rendered@ == user_prompt(conversation::pairs_words(conversation@), prompt@),
{
    if conversation.len() == 0 {
        return prompt.to_owned();
    }
    let ghost words = conversation::pairs_words(conversation@);
    let mut rendered = "Conversation so far:\n".to_owned();
    let mut i: usize = 0;
    proof {
        assert(rendered@ == "Conversation so far:\n"@ + shown_conversation(words.take(0)));
    }
    while i < conversation.len()
        invariant
            i <= conversation.len(),
            words == conversation::pairs_words(conversation@),
            rendered@ == "Conversation so far:\n"@ + shown_conversation(words.take(i as int)),
        decreases conversation.len() - i,
    {
        let ghost before = rendered@;
        rendered.append("User: ");
        rendered.append(conversation[i].user.as_str());
        rendered.append("\n");
        rendered.append("Assistant: ");
        rendered.append(conversation[i].assistant.as_str());
        rendered.append("\n\n");
        proof {
            let grown = words.take(i + 1);
            assert(grown.drop_last() == words.take(i as int));
            assert(grown.last() == (conversation@[i as int].user@, conversation@[i as int].assistant@));
            assert(rendered@ == "Conversation so far:\n"@ + shown_conversation(grown));
        }
        i += 1;
    }
    proof {
        assert(words.take(words.len() as int) == words);
    }
    rendered.append("Current user message:\n");
    rendered.append(prompt);
    rendered
}

/// How many tokens a question and its system prompt may take.
pub fn llama_cpp_input_token_limit() -> (limit: usize)
    ensures
        limit == 7168,
{
    LLAMA_CPP_CONTEXT_WINDOW_TOKENS.saturating_sub(LLAMA_CPP_MAX_TOKENS as usize).saturating_sub(
        LLAMA_CPP_CONTEXT_SAFETY_MARGIN_TOKENS,
    )
}

/// The estimated number of tokens of a text: one for every four characters, rounded up.
pub open spec fn text_tokens(words: Seq<char>) -> nat {
    (words.len() + 3) / 4
}

/// The estimated number of tokens of a text.
pub fn estimate_text_tokens(words: &str) -> (tokens: usize)
    ensures
        tokens == text_tokens(words@),
        tokens <= usize::MAX / 4 + 1,
{
    let count: usize = words.unicode_len();
    if count % 4 == 0 {
        count / 4
    } else {
        count / 4 + 1
    }
}

/// The estimated number of tokens of a question with its system prompt.
pub open spec fn input_tokens(system_prompt: Seq<char>, user_prompt: Seq<char>) -> nat {
    text_tokens(system_prompt) + text_tokens(user_prompt) + 64
}

/// The estimated number of tokens of a question with its system prompt.
pub fn estimate_llama_input_tokens(system_prompt: &str, user_prompt: &str) -> (tokens: usize)
    ensures
        tokens == input_tokens(system_prompt@, user_prompt@),
{
    let system: usize = estimate_text_tokens(system_prompt);
    let user: usize = estimate_text_tokens(user_prompt);
    system.saturating_add(user).saturating_add(LLAMA_CPP_CHAT_WRAPPER_TOKENS)
}

/// Whether the conversation so far has to be left out: where it does not fit any more.
pub open spec fn rolls_over(
    system_prompt: Seq<char>,
    turns: Seq<(Seq<char>, Seq<char>)>,
    prompt: Seq<char>,
) -> bool {
    turns.len() > 0 && input_tokens(system_prompt, user_prompt(turns, prompt)) > 7168
}

/// What the local model is asked: with the conversation so far where it fits, without it
/// otherwise.
pub fn build_llama_prompt_input(
    system_prompt: &str,
    prompt: &str,
    conversation: &[LlamaConversationTurn],
) -> (input: LlamaPromptInput)
    ensures
        ({
            let turns = conversation::pairs_words(conversation@);
            &&& input.rolled_over == rolls_over(system_prompt@, turns, prompt@)
            &&& input.user_prompt@ == (if input.rolled_over {
                prompt@
            } else {
                user_prompt(turns, prompt@)
            })
        }),
{
    let user_prompt = render_llama_user_prompt(conversation, prompt);
    if estimate_llama_input_tokens(system_prompt, user_prompt.as_str())
        <= llama_cpp_input_token_limit() {
        return LlamaPromptInput { user_prompt, rolled_over: false };
    }
    if conversation.len() == 0 {
        return LlamaPromptInput { user_prompt, rolled_over: false };
    }
    LlamaPromptInput { user_prompt: prompt.to_owned(), rolled_over: true }
}

/// Where the conversation so far is handed to the local model, question and conversation together
/// fit; where it does not fit, the question is asked alone.
pub proof fn law_conversations_are_handed_over_where_they_fit(
    system_prompt: Seq<char>,
    turns: Seq<(Seq<char>, Seq<char>)>,
    prompt: Seq<char>,
)
    ensures
        turns.len() > 0 && !rolls_over(system_prompt, turns, prompt) ==> input_tokens(
            system_prompt,
            user_prompt(turns, prompt),
        ) <= 7168,
        user_prompt(seq![], prompt) == prompt,
{
}

/// Whether an error says that a question was too long for the model.
pub open spec fn context_overflow(error: Seq<char>) -> bool {
    let normalized = text::lowered(error);
    &&& text::has_part(normalized, "status 400"@) || text::has_part(normalized, "status 413"@)
    &&& text::has_part(normalized, "context"@)
    &&& text::has_part(normalized, "exceed"@) || text::has_part(normalized, "too long"@)
        || text::has_part(normalized, "limit"@) || text::has_part(normalized, "maximum"@)
        || text::has_part(normalized, "window"@)
}

/// Whether an error says that a question was too long for the model.
pub fn is_llama_context_overflow_error(error_message: &str) -> (result: bool)
    ensures
        result == context_overflow(error_message@),
{
    let normalized = to_ascii_lowercase(error_message);
    let shown = normalized.as_str();
    let has_status = contains(shown, "status 400") || contains(shown, "status 413");
    let mentions_context = contains(shown, "context");
    let mentions_overflow = contains(shown, "exceed") || contains(shown, "too long") || contains(
        shown,
        "limit",
    ) || contains(shown, "maximum") || contains(shown, "window");
    has_status && mentions_context && mentions_overflow
}

/// The first characters of a stage's detail, as many as are shown.
pub fn stage_detail(detail: Option<&str>) -> (shown: Option<String>)
    ensures
        text::optional_text(shown) == (match text::optional_str(detail) {
            Some(words) => Some(
                words.take(
                    if words.len() <= 256 {
                        words.len() as int
                    } else {
                        256
                    },
                ),
            ),
            None => None,
        }),
{
    match detail {
        Some(words) => {
            let len: usize = words.unicode_len();
            let shown: usize = if len <= STAGE_DETAIL_MAX_CHARS {
                len
            } else {
                STAGE_DETAIL_MAX_CHARS
            };
            Some(words.substring_char(0, shown).to_owned())
        },
        None => None,
    }
}

/// Every turn is shown, in order: the conversation with one more turn is shown as the conversation
/// before, the question on a line of its own, the answer on another, and a blank line.
pub proof fn law_every_turn_is_shown(
    turns: Seq<(Seq<char>, Seq<char>)>,
    question: Seq<char>,
    answer: Seq<char>,
)
    ensures
        shown_conversation(seq![]) == Seq::<char>::empty(),
        shown_conversation(turns.push((question, answer))) == shown_conversation(turns)
            + "User: "@ + question + "\n"@ + "Assistant: "@ + answer + "\n\n"@,
{
    let longer = turns.push((question, answer));
    assert(longer.drop_last() == turns);
    assert(longer.last() == (question, answer));
}

/// The words of every turn stand in what the local model is asked, behind the words of the turns
/// before it.
pub proof fn law_questions_hold_every_turn(
    turns: Seq<(Seq<char>, Seq<char>)>,
    prompt: Seq<char>,
    i: int,
)
    requires
        0 <= i < turns.len(),
    ensures
        ({
            let before = "Conversation so far:\n"@ + shown_conversation(turns.take(i));
            let shown = before + "User: "@ + turns[i].0 + "\n"@ + "Assistant: "@ + turns[i].1
                + "\n\n"@;
            shown.is_prefix_of(user_prompt(turns, prompt))
        }),
        ("Current user message:\n"@ + prompt).is_suffix_of(user_prompt(turns, prompt)),
{
    let frame = "Conversation so far:\n"@;
    let end = "Current user message:\n"@ + prompt;
    law_every_turn_is_shown(turns.take(i), turns[i].0, turns[i].1);
    assert(turns.take(i + 1) == turns.take(i).push(turns[i]));
    lemma_shown_prefix(turns, i + 1);
    let shown = frame + shown_conversation(turns.take(i)) + "User: "@ + turns[i].0 + "\n"@
        + "Assistant: "@ + turns[i].1 + "\n\n"@;
    assert(shown == frame + shown_conversation(turns.take(i + 1)));
    let whole = user_prompt(turns, prompt);
    assert(whole == frame + shown_conversation(turns) + end);
    let n = shown_conversation(turns.take(i + 1)).len();
    assert(shown_conversation(turns).take(n as int) == shown_conversation(turns.take(i + 1)));
    assert(whole.take(shown.len() as int) == shown) by {
        assert forall|k: int| 0 <= k < shown.len() implies whole[k] == shown[k] by {
            if k >= frame.len() {
                assert(shown_conversation(turns)[k - frame.len()] == shown_conversation(
                    turns,
                ).take(n as int)[k - frame.len()]);
            }
        }
    }
    assert(whole.skip(whole.len() - end.len()) == end);
}

proof fn lemma_shown_prefix(turns: Seq<(Seq<char>, Seq<char>)>, n: int)
    requires
        0 <= n <= turns.len(),
    ensures
        shown_conversation(turns.take(n)).is_prefix_of(shown_conversation(turns)),
    decreases turns.len() - n,
{
    if n == turns.len() {
        assert(turns.take(n) == turns);
    } else {
        lemma_shown_prefix(turns, n + 1);
        law_every_turn_is_shown(turns.take(n), turns[n].0, turns[n].1);
        assert(turns.take(n + 1) == turns.take(n).push(turns[n]));
        let shorter = shown_conversation(turns.take(n));
        let longer = shown_conversation(turns.take(n + 1));
        let whole = shown_conversation(turns);
        assert(longer.take(shorter.len() as int) == shorter);
        assert forall|k: int| 0 <= k < shorter.len() implies whole[k] == shorter[k] by {
            assert(longer[k] == longer.take(shorter.len() as int)[k]);
            assert(whole.take(longer.len() as int)[k] == longer[k]);
        }
        assert(whole.take(shorter.len() as int) == shorter);
    }
}

/// A question alone is asked as it is, and so is one whose conversation does not fit: four
/// characters count as one token, a part of four as a whole, and the frame as sixty-four, and
/// question, conversation and system prompt may take 7168 of them.
pub proof fn law_long_conversations_roll_over(
    system_prompt: Seq<char>,
    turns: Seq<(Seq<char>, Seq<char>)>,
    prompt: Seq<char>,
)
    ensures
        user_prompt(seq![], prompt) == prompt,
        !rolls_over(system_prompt, seq![], prompt),
        ({
            let system = text_tokens(system_prompt) as int;
            let user = text_tokens(user_prompt(turns, prompt)) as int;
            &&& 4 * system >= system_prompt.len() > 4 * system - 4
            &&& 4 * user >= user_prompt(turns, prompt).len() > 4 * user - 4
            &&& turns.len() > 0 ==> (rolls_over(system_prompt, turns, prompt) <==> system + user
                + 64 > 7168)
        }),
{
}

/// A prompt is refused exactly where it is blank or takes more than 65536 bytes, and told which.
pub proof fn law_prompts_are_refused_where_blank_or_too_large(prompt: Seq<char>)
    ensures
        ({
            let blank = forall|i: int| 0 <= i < prompt.len() ==> text::white(#[trigger] prompt[i]);
            let large = vstd::utf8::encode_utf8(prompt).len() > 65536;
            &&& blank <==> prompt_refusal(prompt) == Some(
                "invalid prompt: prompt must not be empty"@,
            )
            &&& !blank && large <==> prompt_refusal(prompt) == Some(
                "invalid prompt: prompt exceeds 65536 bytes"@,
            )
            &&& !blank && !large <==> prompt_refusal(prompt) is None
        }),
{
    reveal_strlit("invalid prompt: prompt must not be empty");
    reveal_strlit("invalid prompt: prompt exceeds 65536 bytes");
    assert("invalid prompt: prompt must not be empty"@.len()
        != "invalid prompt: prompt exceeds 65536 bytes"@.len());
    text::law_trimmed_texts_keep_their_words(prompt);
}

/// Whether a part without capital letters stands at a position of a text, in whatever case.
pub open spec fn stands_at(words: Seq<char>, part: Seq<char>, at: int) -> bool {
    &&& 0 <= at
    &&& at + part.len() <= words.len()
    &&& forall|k: int|
        0 <= k < part.len() ==> {
            let found = (#[trigger] words[at + k]) as int;
            ||| found == part[k] as int
            ||| 65 <= found <= 90 && found + 32 == part[k] as int
        }
}

/// Whether a part without capital letters stands in a text, in whatever case.
pub open spec fn stands_in(words: Seq<char>, part: Seq<char>) -> bool {
    exists|at: int| #[trigger] stands_at(words, part, at)
}

/// An error says that a question was too long exactly where, in whatever case, it names a status
/// of 400 or 413, the context, and that something was exceeded.
pub proof fn law_overflows_name_status_context_and_excess(error: Seq<char>)
    ensures
        context_overflow(error) <==> {
            &&& stands_in(error, "status 400"@) || stands_in(error, "status 413"@)
            &&& stands_in(error, "context"@)
            &&& stands_in(error, "exceed"@) || stands_in(error, "too long"@) || stands_in(
                error,
                "limit"@,
            ) || stands_in(error, "maximum"@) || stands_in(error, "window"@)
        },
{
    reveal_strlit("status 400");
    reveal_strlit("status 413");
    reveal_strlit("context");
    reveal_strlit("exceed");
    reveal_strlit("too long");
    reveal_strlit("limit");
    reveal_strlit("maximum");
    reveal_strlit("window");
    lemma_stands_in(error, "status 400"@);
    lemma_stands_in(error, "status 413"@);
    lemma_stands_in(error, "context"@);
    lemma_stands_in(error, "exceed"@);
    lemma_stands_in(error, "too long"@);
    lemma_stands_in(error, "limit"@);
    lemma_stands_in(error, "maximum"@);
    lemma_stands_in(error, "window"@);
}

proof fn lemma_stands_in(words: Seq<char>, part: Seq<char>)
    requires
        forall|k: int| 0 <= k < part.len() ==> !('A' <= #[trigger] part[k] <= 'Z'),
    ensures
        text::has_part(text::lowered(words), part) == stands_in(words, part),
{
    let low = text::lowered(words);
    text::law_lower_case_changes_capitals_only(words);
    if stands_in(words, part) {
        let at = choose|at: int| #[trigger] stands_at(words, part, at);
        assert forall|k: int| 0 <= k < part.len() implies low[at + k] == part[k] by {
            let found = words[at + k] as int;
            assert(low[at + k] as int == (if 65 <= found <= 90 {
                found + 32
            } else {
                found
            }));
            assert(!('A' <= part[k] <= 'Z'));
        }
        assert(low.subrange(at, at + part.len()) =~= part);
    }
    if text::has_part(low, part) {
        let at = choose|at: int|
            0 <= at && at + part.len() <= low.len() && #[trigger] low.subrange(
                at,
                at + part.len(),
            ) == part;
        assert forall|k: int| 0 <= k < part.len() implies ({
            let found = (#[trigger] words[at + k]) as int;
            ||| found == part[k] as int
            ||| 65 <= found <= 90 && found + 32 == part[k] as int
        }) by {
            assert(low.subrange(at, at + part.len())[k] == low[at + k]);
        }
        assert(stands_at(words, part, at));
    }
}

/// Names of requests are generated: `request`, up to twenty digits, and up to thirty-two letters and
/// digits, with hyphens between them; any such name is accepted, and no other.
pub proof fn law_request_names_are_generated(id: Seq<char>, timestamp: Seq<char>, nonce: Seq<char>)
    requires
        0 < timestamp.len() <= 20,
        0 < nonce.len() <= 32,
        forall|i: int| 0 <= i < timestamp.len() ==> '0' <= #[trigger] timestamp[i] <= '9',
        forall|i: int|
            0 <= i < nonce.len() ==> {
                let c = #[trigger] nonce[i];
                'a' <= c <= 'z' || 'A' <= c <= 'Z' || '0' <= c <= '9'
            },
    ensures
        generated_request_id("request-"@ + timestamp + "-"@ + nonce),
        generated_request_id(id) ==> {
            &&& 11 <= id.len() <= 61
            &&& text::has_prefix(id, "request-"@)
            &&& forall|i: int|
                0 <= i < id.len() ==> {
                    let c = #[trigger] id[i];
                    'a' <= c <= 'z' || 'A' <= c <= 'Z' || '0' <= c <= '9' || c == '-'
                }
        },
{
    reveal_strlit("request-");
    reveal_strlit("-");
    assert(timestamp_text(timestamp));
    assert(nonce_text(nonce)) by {
        assert forall|i: int| 0 <= i < nonce.len() implies text::ascii_alphanumeric(
            #[trigger] nonce[i],
        ) by {
            let c = nonce[i];
        }
    }
    if generated_request_id(id) {
        let (time, rest) = choose|time: Seq<char>, rest: Seq<char>|
            #![trigger timestamp_text(time), nonce_text(rest)]
            timestamp_text(time) && nonce_text(rest) && id == "request-"@ + time + "-"@ + rest;
        assert(id.take(8) == "request-"@);
        assert forall|i: int| 0 <= i < id.len() implies {
            let c = #[trigger] id[i];
            'a' <= c <= 'z' || 'A' <= c <= 'Z' || '0' <= c <= '9' || c == '-'
        } by {
            if i < 8 {
                assert(id[i] == "request-"@[i]);
            } else if i < 8 + time.len() {
                assert(id[i] == time[i - 8]);
            } else if i == 8 + time.len() {
                assert(id[i] == '-');
            } else {
                assert(id[i] == rest[i - 9 - time.len()]);
                assert(text::ascii_alphanumeric(rest[i - 9 - time.len()]));
            }
        }
    }
}

} // verus!
