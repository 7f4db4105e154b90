//! Answers that are made ahead of the question: what they answer, how long they are good for, and
//! when one is made.

use crate::conversation;
use crate::conversation::{
    assistant_content_text, assistant_history_as_llama, Content, ConversationTurn, Role,
};
use crate::counters;
use crate::counters::{count, take_number};
use crate::opencode::AgentTextResult;
use crate::profile_switch;
use crate::prompt;
use crate::prompt::build_llama_prompt_input;
use crate::prompt_events;
use crate::prompt_events::{instant_provider, CompletionSource, ModelProvider, TelemetryIdentity};
use crate::prompt_flow;
use crate::prompt_flow::ensure_local_profile;
use crate::settings::{InstantModel, ResponseProfilePayload};
use crate::telemetry;
use crate::text;
use crate::text::{concat2, decimal_text, same_text, trim};
use vstd::prelude::*;
use vstd::string::*;

verus! {

broadcast use vstd::string::group_string_axioms;

/// What an answer was made for: the question, what was said before it, and the model.
#[derive(Clone, Debug, PartialEq, Eq)]
pub struct PrefetchKey {
    pub prompt: String,
    pub history: Vec<ConversationTurn>,
    pub model: InstantModel,
}

/// One turn by its characters.
pub open spec fn turn_words(turn: ConversationTurn) -> (Role, bool, Seq<char>) {
    (turn.role, turn.content is Text, turn.content.words())
}

/// What an answer was made for, by its characters.
#[verifier::ext_equal]
pub ghost struct KeyView {
    pub prompt: Seq<char>,
    pub history: Seq<(Role, bool, Seq<char>)>,
    pub model: InstantModel,
}

impl View for PrefetchKey {
    type V = KeyView;

    open spec fn view(&self) -> KeyView {
        KeyView {
            prompt: self.prompt@,
            history: self.history@.map_values(|turn: ConversationTurn| turn_words(turn)),
            model: self.model,
        }
    }
}

fn same_turn(left: &ConversationTurn, right: &ConversationTurn) -> (same: bool)
    ensures
        same == (turn_words(*left) == turn_words(*right)),
{
    let same_kind = match (&left.content, &right.content) {
        (Content::Text(_), Content::Text(_)) => true,
        (Content::Refusal(_), Content::Refusal(_)) => true,
        _ => false,
    };
    left.role == right.role && same_kind && same_text(
        assistant_content_text(&left.content),
        assistant_content_text(&right.content),
    )
}

/// Whether two answers were made for the same.
pub fn same_key(left: &PrefetchKey, right: &PrefetchKey) -> (same: bool)
    ensures
        same == (left@ == right@),
{
    proof {
        assert(left@.history.len() == left.history@.len());
        assert(right@.history.len() == right.history@.len());
    }
    if left.model != right.model || !same_text(left.prompt.as_str(), right.prompt.as_str())
        || left.history.len() != right.history.len() {
        return false;
    }
    let mut i: usize = 0;
    while i < left.history.len()
        invariant
            i <= left.history@.len(),
            left.history@.len() == right.history@.len(),
            forall|j: int|
                0 <= j < i ==> turn_words(#[trigger] left.history@[j]) == turn_words(
                    right.history@[j],
                ),
        decreases left.history@.len() - i,
    {
        if !same_turn(&left.history[i], &right.history[i]) {
            proof {
                assert(left@.history[i as int] != right@.history[i as int]);
            }
            return false;
        }
        i += 1;
    }
    proof {
        assert(left@.history =~= right@.history);
    }
    true
}

/// An answer that was made ahead of the question.
#[derive(Clone, Debug, PartialEq, Eq)]
pub struct PrefetchEntry {
    pub generation: u64,
    pub key: PrefetchKey,
    pub answer: Content,
}

/// An answer that is being made ahead of the question.
#[derive(Clone, Copy, Debug, PartialEq, Eq, Structural)]
pub struct ActivePrefetch {
    pub generation: u64,
    pub cancelled: bool,
}

/// What is known of answers that are made ahead of the question.
#[derive(Clone, Debug, PartialEq, Eq)]
pub struct PrefetchState {
    pub generation: u64,
    pub cache: Option<PrefetchEntry>,
    pub task: Option<ActivePrefetch>,
}

impl PrefetchState {
    /// The work after every answer was given up.
    pub open spec fn task_given_up(self) -> Option<ActivePrefetch> {
        match self.task {
            Some(task) => Some(ActivePrefetch { cancelled: true, ..task }),
            None => None,
        }
    }

    /// What is known after every answer was given up.
    pub open spec fn given_up(self) -> PrefetchState {
        PrefetchState {
            generation: counters::counted(self.generation),
            cache: None,
            task: self.task_given_up(),
        }
    }

    /// What is known after the conditions were looked at: a new answer is begun where they allow
    /// it.
    pub open spec fn queued(self, conditions: PrefetchConditions) -> PrefetchState {
        let free = self.given_up();
        if conditions.allow() {
            PrefetchState {
                generation: counters::counted(free.generation),
                cache: None,
                task: Some(
                    ActivePrefetch {
                        generation: counters::next_number(free.generation),
                        cancelled: false,
                    },
                ),
            }
        } else {
            free
        }
    }

    /// What is known after the work numbered `generation` has ended.
    pub open spec fn concluded(
        self,
        generation: u64,
        key: PrefetchKey,
        cancelled: bool,
        result: Result<Content, String>,
    ) -> PrefetchState {
        PrefetchState {
            generation: self.generation,
            cache: kept(
                self.cache,
                self.generation == generation && !cancelled,
                generation,
                key,
                result,
            ),
            task: match self.task {
                Some(task) => if task.generation == generation {
                    None
                } else {
                    Some(task)
                },
                None => None,
            },
        }
    }
}

/// Gives every answer up that was made ahead of the question, and the work on one.
pub fn invalidate_prefetch(state: &mut PrefetchState)
    ensures
        *final(state) == old(state).given_up(),
        final(state).generation == counters::counted(old(state).generation),
        final(state).cache is None,
        final(state).task == old(state).task_given_up(),
{
    count(&mut state.generation);
    match state.task {
        Some(task) => {
            state.task = Some(ActivePrefetch { generation: task.generation, cancelled: true });
        },
        None => {},
    }
    state.cache = None;
}

/// Whether an answer may be given to the question `key` when the counter stands at `generation`.
pub open spec fn usable(entry: PrefetchEntry, generation: u64, key: KeyView) -> bool {
    &&& entry.generation == generation
    &&& entry.key@ == key
    &&& text::trimmed(entry.answer.words()).len() > 0
}

/// The answer to the question `key`, where one was made.
pub open spec fn taken(
    cache: Option<PrefetchEntry>,
    generation: u64,
    key: KeyView,
) -> Option<Content> {
    match cache {
        Some(entry) => if usable(entry, generation, key) {
            Some(entry.answer)
        } else {
            None
        },
        None => None,
    }
}

/// Takes the answer to the question `key`, where there is one, and gives every other one up.
pub fn take_and_invalidate_prefetch(
    cache: &mut Option<PrefetchEntry>,
    generation: &mut u64,
    key: &PrefetchKey,
) -> (answer: Option<Content>)
    ensures
        answer == taken(*old(cache), *old(generation), key@),
        *final(cache) is None,
        *final(generation) == counters::counted(*old(generation)),
{
    let current: u64 = *generation;
    count(generation);
    match cache.take() {
        Some(entry) => if entry.generation == current && same_key(&entry.key, key) && !trim(
            assistant_content_text(&entry.answer),
        ).is_empty() {
            Some(entry.answer)
        } else {
            None
        },
        None => None,
    }
}

/// When an answer is made ahead of the question.
#[derive(Clone, Copy, Debug, PartialEq, Eq, Structural)]
pub struct PrefetchConditions {
    pub prompt_active: bool,
    pub prefetch_enabled: bool,
    pub model: InstantModel,
    pub selected: ResponseProfilePayload,
}

impl PrefetchConditions {
    /// Whether an answer is made ahead of the question: it is wanted, nothing is being answered,
    /// and the model is loaded.
    pub open spec fn allow(self) -> bool {
        &&& !self.prompt_active
        &&& self.prefetch_enabled
        &&& prompt_flow::profile_obstacle(self.model, self.selected) is None
    }
}

/// Gives up every answer that was made ahead of the question, and begins to make another one where
/// it is allowed. The result is the number of the new answer.
pub fn queue_assistant_prefetch(state: &mut PrefetchState, conditions: PrefetchConditions) -> (
    begun: Option<u64>)
    ensures
        *final(state) == old(state).queued(conditions),
        final(state).cache is None,
        if conditions.allow() {
            &&& begun == Some(counters::next_number(counters::counted(old(state).generation)))
            &&& final(state).generation == counters::counted(
                counters::counted(old(state).generation),
            )
            &&& final(state).task == Some(
                ActivePrefetch { generation: begun->Some_0, cancelled: false },
            )
        } else {
            &&& begun is None
            &&& final(state).generation == counters::counted(old(state).generation)
            &&& final(state).task == old(state).task_given_up()
        },
{
    invalidate_prefetch(state);
    if conditions.prompt_active || !conditions.prefetch_enabled {
        return None;
    }
    match ensure_local_profile(conditions.model, conditions.selected) {
        Ok(_) => {},
        Err(_) => {
            return None;
        },
    }
    let generation: u64 = take_number(&mut state.generation);
    state.task = Some(ActivePrefetch { generation, cancelled: false });
    Some(generation)
}

/// The answer that is kept after the work numbered `generation` has ended.
pub open spec fn kept(
    cache: Option<PrefetchEntry>,
    current: bool,
    generation: u64,
    key: PrefetchKey,
    result: Result<Content, String>,
) -> Option<PrefetchEntry> {
    match result {
        Ok(answer) => if current {
            Some(PrefetchEntry { generation, key, answer })
        } else {
            cache
        },
        Err(_) => cache,
    }
}

/// Ends the work numbered `generation`, keeps its answer where nothing has happened since, and
/// says whether nothing has. `cancelled` says whether the work was given up.
pub fn finish_prefetch(
    state: &mut PrefetchState,
    generation: u64,
    key: PrefetchKey,
    cancelled: bool,
    result: Result<Content, String>,
) -> (current: bool)
    ensures
        current == (old(state).generation == generation && !cancelled),
        *final(state) == old(state).concluded(generation, key, cancelled, result),
        final(state).generation == old(state).generation,
        final(state).cache == kept(old(state).cache, current, generation, key, result),
        final(state).task == (match old(state).task {
            Some(task) => if task.generation == generation {
                None
            } else {
                Some(task)
            },
            None => None,
        }),
{
    let current = state.generation == generation && !cancelled;
    if current {
        match result {
            Ok(answer) => {
                state.cache = Some(PrefetchEntry { generation, key, answer });
            },
            Err(_) => {},
        }
    }
    match state.task {
        Some(task) => if task.generation == generation {
            state.task = None;
        },
        None => {},
    }
    current
}

/// The identifier under which an answer is made ahead of the question.
pub fn prefetch_request_id(generation: u64) -> (id: String)
    ensures
        id@ == "prefetch-"@ + text::decimal(generation as nat),
{
    concat2("prefetch-", decimal_text(generation as u128).as_str())
}

/// The record of work that nobody had asked for yet.
pub fn speculative_record(
    request_id: String,
    generation: u64,
    timestamp_ms: u64,
    source: CompletionSource,
    stage: telemetry::Stage,
    identity: TelemetryIdentity,
    duration_ms: u64,
    succeeded: bool,
) -> (record: telemetry::TelemetryMetadata)
    ensures
        record.schema_version == telemetry::SCHEMA_VERSION,
        record.timestamp_ms == timestamp_ms,
        record.request_id == request_id,
        record.generation == generation,
        record.input_source == (match source {
            CompletionSource::Typed => telemetry::InputSource::Text,
            CompletionSource::Voice => telemetry::InputSource::Voice,
        }),
        record.provider == identity.provider,
        record.model@ == identity.model@,
        record.stage == stage,
        record.transport is Http,
        record.inference_provider == identity.inference_provider,
        record.speculative_origin == (match source {
            CompletionSource::Typed => telemetry::SpeculativeOrigin::User,
            CompletionSource::Voice => telemetry::SpeculativeOrigin::System,
        }),
        record.input_tokens is None,
        record.output_tokens is None,
        record.duration_ms == Some(duration_ms),
        record.status == (if succeeded {
            telemetry::Status::Success
        } else {
            telemetry::Status::Error
        }),
        record.error_category == (if succeeded {
            telemetry::ErrorCategory::Nothing
        } else {
            telemetry::ErrorCategory::Internal
        }),
{
    telemetry::TelemetryMetadata {
        schema_version: telemetry::SCHEMA_VERSION,
        timestamp_ms,
        request_id,
        generation,
        input_source: match source {
            CompletionSource::Typed => telemetry::InputSource::Text,
            CompletionSource::Voice => telemetry::InputSource::Voice,
        },
        provider: identity.provider,
        model: identity.model.to_owned(),
        stage,
        transport: telemetry::Transport::Http,
        inference_provider: identity.inference_provider,
        speculative_origin: match source {
            CompletionSource::Typed => telemetry::SpeculativeOrigin::User,
            CompletionSource::Voice => telemetry::SpeculativeOrigin::System,
        },
        input_tokens: None,
        output_tokens: None,
        duration_ms: Some(duration_ms),
        status: if succeeded {
            telemetry::Status::Success
        } else {
            telemetry::Status::Error
        },
        error_category: if succeeded {
            telemetry::ErrorCategory::Nothing
        } else {
            telemetry::ErrorCategory::Internal
        },
    }
}

/// What the local model can be asked with, and whether the work on the answer is still wanted.
#[derive(Clone, Copy, Debug, PartialEq, Eq)]
pub struct LocalPrefetch<'a> {
    pub current_generation: u64,
    pub generation: u64,
    pub selected: ResponseProfilePayload,
    pub system_prompt: Option<&'a str>,
    pub runtime_loaded: bool,
}

impl<'a> LocalPrefetch<'a> {
    /// Why the local model is not asked, where it is not.
    pub open spec fn obstacle(self, key: PrefetchKey) -> Option<Seq<char>> {
        if self.current_generation != self.generation {
            Some("prefetch cancelled"@)
        } else if prompt_flow::profile_obstacle(key.model, self.selected) is Some {
            prompt_flow::profile_obstacle(key.model, self.selected)
        } else if self.system_prompt is None {
            Some("SOUL.md is not loaded"@)
        } else if !conversation::alternates(key.history@, key.history@.len() as int / 2) {
            Some("canonical conversation roles are invalid"@)
        } else if !self.runtime_loaded {
            Some("local Gemma model is still warming up"@)
        } else {
            None
        }
    }

    /// What the local model is asked ahead of the question.
    pub fn question(&self, key: &PrefetchKey) -> (result: Result<String, String>)
        ensures
            match result {
                Ok(asked) => {
                    let turns = conversation::history_words(
                        key.history@,
                        key.history@.len() as int / 2,
                    );
                    &&& self.obstacle(*key) is None
                    &&& asked@ == (if prompt::rolls_over(
                        self.system_prompt->Some_0@,
                        turns,
                        key.prompt@,
                    ) {
                        key.prompt@
                    } else {
                        prompt::user_prompt(turns, key.prompt@)
                    })
                },
                Err(message) => self.obstacle(*key) == Some(message@),
            },
    {
        if self.current_generation != self.generation {
            return Err("prefetch cancelled".to_owned());
        }
        match ensure_local_profile(key.model, self.selected) {
            Ok(_) => {},
            Err(error) => {
                return Err(error);
            },
        }
        match self.system_prompt {
            None => Err("SOUL.md is not loaded".to_owned()),
            Some(system_prompt) => match assistant_history_as_llama(key.history.as_slice()) {
                Err(error) => Err(error),
                Ok(turns) => {
                    if !self.runtime_loaded {
                        return Err("local Gemma model is still warming up".to_owned());
                    }
                    let input = build_llama_prompt_input(
                        system_prompt,
                        key.prompt.as_str(),
                        turns.as_slice(),
                    );
                    Ok(input.user_prompt)
                },
            },
        }
    }
}

/// What is fixed about the work on an answer ahead of the question.
#[derive(Clone, Copy, Debug, PartialEq, Eq, Structural)]
pub struct PrefetchPlan {
    pub model: InstantModel,
    pub custom_configured: bool,
    pub server_available: bool,
}

/// What happened to the work on an answer ahead of the question.
#[derive(Debug, PartialEq, Eq)]
pub enum PrefetchEvent {
    /// The work began. `cancelled` says whether it was given up already.
    Begun { cancelled: bool },
    /// The work was given up while the model answered.
    Stopped,
    /// The model could not be asked.
    Refused { error: String },
    /// The model did not answer.
    Failed { error: String },
    /// The thread that asked the local model was lost.
    Lost { error: String },
    /// The local model or the custom provider answered.
    Answered { answer: Content },
    /// The OpenCode session answered, or not.
    Collected { result: Result<AgentTextResult, String> },
}

/// What is done next for an answer ahead of the question.
#[derive(Debug, PartialEq, Eq)]
pub enum PrefetchStep {
    AskLocal,
    AskCustom,
    AskOpencode,
    End { result: Result<Content, String> },
}

/// What is done next for an answer ahead of the question, by its characters.
#[verifier::ext_equal]
pub ghost enum PrefetchView {
    AskLocal,
    AskCustom,
    AskOpencode,
    End { result: Result<Content, Seq<char>> },
}

impl View for PrefetchStep {
    type V = PrefetchView;

    open spec fn view(&self) -> PrefetchView {
        match *self {
            PrefetchStep::AskLocal => PrefetchView::AskLocal,
            PrefetchStep::AskCustom => PrefetchView::AskCustom,
            PrefetchStep::AskOpencode => PrefetchView::AskOpencode,
            PrefetchStep::End { result } => PrefetchView::End { result: text::outcome(result) },
        }
    }
}

impl PrefetchPlan {
    /// What is done after an event.
    pub open spec fn next(self, event: PrefetchEvent) -> PrefetchView {
        match event {
            PrefetchEvent::Begun { cancelled } => if cancelled {
                PrefetchView::End { result: Err("prefetch cancelled"@) }
            } else {
                match prompt_events::instant_provider_of(self.model) {
                    ModelProvider::Local => PrefetchView::AskLocal,
                    ModelProvider::Custom => if self.custom_configured {
                        PrefetchView::AskCustom
                    } else {
                        PrefetchView::End { result: Err("Custom provider is not configured"@) }
                    },
                    ModelProvider::OpenCode => if self.server_available {
                        PrefetchView::AskOpencode
                    } else {
                        PrefetchView::End { result: Err("OpenCode server is not available"@) }
                    },
                }
            },
            PrefetchEvent::Stopped => PrefetchView::End { result: Err("prefetch cancelled"@) },
            PrefetchEvent::Refused { error } => PrefetchView::End { result: Err(error@) },
            PrefetchEvent::Failed { error } => PrefetchView::End {
                result: Err(
                    if prompt_events::instant_provider_of(self.model) is Local {
                        "failed to prefetch local response: "@ + error@
                    } else {
                        error@
                    },
                ),
            },
            PrefetchEvent::Lost { error } => PrefetchView::End {
                result: Err("local prefetch task failed: "@ + error@),
            },
            PrefetchEvent::Answered { answer } => PrefetchView::End { result: Ok(answer) },
            PrefetchEvent::Collected { result } => PrefetchView::End {
                result: match result {
                    Ok(answer) => Ok(Content::Text(answer.text)),
                    Err(error) => Err(error@),
                },
            },
        }
    }
}

/// Decides what is done after an event for an answer ahead of the question.
pub fn run_assistant_prefetch(plan: PrefetchPlan, event: PrefetchEvent) -> (step: PrefetchStep)
    ensures
        step@ == plan.next(event),
{
    match event {
        PrefetchEvent::Begun { cancelled } => {
            if cancelled {
                return PrefetchStep::End { result: Err("prefetch cancelled".to_owned()) };
            }
            match instant_provider(plan.model) {
                ModelProvider::Local => PrefetchStep::AskLocal,
                ModelProvider::Custom => if plan.custom_configured {
                    PrefetchStep::AskCustom
                } else {
                    PrefetchStep::End {
                        result: Err("Custom provider is not configured".to_owned()),
                    }
                },
                ModelProvider::OpenCode => if plan.server_available {
                    PrefetchStep::AskOpencode
                } else {
                    PrefetchStep::End {
                        result: Err("OpenCode server is not available".to_owned()),
                    }
                },
            }
        },
        PrefetchEvent::Stopped => PrefetchStep::End {
            result: Err("prefetch cancelled".to_owned()),
        },
        PrefetchEvent::Refused { error } => PrefetchStep::End { result: Err(error) },
        PrefetchEvent::Failed { error } => match instant_provider(plan.model) {
            ModelProvider::Local => PrefetchStep::End {
                result: Err(concat2("failed to prefetch local response: ", error.as_str())),
            },
            _ => PrefetchStep::End { result: Err(error) },
        },
        PrefetchEvent::Lost { error } => PrefetchStep::End {
            result: Err(concat2("local prefetch task failed: ", error.as_str())),
        },
        PrefetchEvent::Answered { answer } => PrefetchStep::End { result: Ok(answer) },
        PrefetchEvent::Collected { result } => match result {
            Ok(answer) => PrefetchStep::End { result: Ok(Content::Text(answer.text)) },
            Err(error) => PrefetchStep::End { result: Err(error) },
        },
    }
}

/// An answer that was made ahead of the question is given to exactly that question, asked of the
/// same model after the same conversation, and to no other.
pub proof fn law_prefetched_answers_match_their_question(
    generation: u64,
    entry: PrefetchEntry,
    key: KeyView,
)
    ensures
        usable(entry, generation, key) ==> entry.key@.prompt == key.prompt && entry.key@.history
            == key.history && entry.key@.model == key.model,
        entry.key@ != key ==> !usable(entry, generation, key),
        entry.generation == generation && entry.key@ == key && text::trimmed(
            entry.answer.words(),
        ).len() > 0 ==> usable(entry, generation, key),
{
}

/// Whatever gives the answers up leaves none that could be given later: an answer that was kept
/// before is not good for the number that the counter stands at afterwards, and work that was
/// begun before keeps nothing.
pub proof fn law_given_up_answers_stay_given_up(
    generation: u64,
    entry: PrefetchEntry,
    key: KeyView,
)
    requires
        entry.generation == generation,
    ensures
        !usable(entry, counters::counted(generation), key),
        counters::counted(generation) != generation,
{
}

/// Work that was given up gives no answer, whatever the model said: it ends with a failure as soon
/// as it is noticed, and what it had made by then is not kept.
pub proof fn law_given_up_work_gives_no_answer(
    plan: PrefetchPlan,
    cache: Option<PrefetchEntry>,
    generation: u64,
    key: PrefetchKey,
    result: Result<Content, String>,
)
    ensures
        plan.next(PrefetchEvent::Begun { cancelled: true }) == (PrefetchView::End {
            result: Err("prefetch cancelled"@),
        }),
        plan.next(PrefetchEvent::Stopped) == (PrefetchView::End {
            result: Err("prefetch cancelled"@),
        }),
        kept(cache, false, generation, key, result) == cache,
{
}

/// An answer is given to a question exactly where it was made for it, word for word, after the
/// same conversation and by the same model, nothing was given up since, and it says something.
pub proof fn law_only_fitting_answers_are_given(
    cache: Option<PrefetchEntry>,
    generation: u64,
    key: KeyView,
)
    ensures
        ({
            let fitting = cache matches Some(entry) && {
                &&& entry.generation == generation
                &&& entry.key.prompt@ == key.prompt
                &&& entry.key.model == key.model
                &&& entry.key.history@.len() == key.history.len()
                &&& forall|i: int|
                    0 <= i < key.history.len() ==> {
                        let turn = #[trigger] entry.key.history@[i];
                        key.history[i] == (
                            turn.role,
                            turn.content is Text,
                            match turn.content {
                                Content::Text(words) => words@,
                                Content::Refusal(words) => words@,
                            },
                        )
                    }
                &&& text::trimmed(
                    match entry.answer {
                        Content::Text(words) => words@,
                        Content::Refusal(words) => words@,
                    },
                ).len() > 0
            };
            &&& fitting ==> taken(cache, generation, key) == Some(cache->Some_0.answer)
            &&& !fitting ==> taken(cache, generation, key) is None
        }),
{
    if cache is Some {
        let entry = cache->Some_0;
        if taken(cache, generation, key) is Some {
            assert forall|i: int| 0 <= i < key.history.len() implies ({
                let turn = #[trigger] entry.key.history@[i];
                key.history[i] == (
                    turn.role,
                    turn.content is Text,
                    match turn.content {
                        Content::Text(words) => words@,
                        Content::Refusal(words) => words@,
                    },
                )
            }) by {
                assert(entry.key@.history[i] == turn_words(entry.key.history@[i]));
            }
        } else if entry.generation == generation && entry.key.prompt@ == key.prompt
            && entry.key.model == key.model && entry.key.history@.len() == key.history.len() && (
        forall|i: int|
            0 <= i < key.history.len() ==> {
                let turn = #[trigger] entry.key.history@[i];
                key.history[i] == (
                    turn.role,
                    turn.content is Text,
                    match turn.content {
                        Content::Text(words) => words@,
                        Content::Refusal(words) => words@,
                    },
                )
            }) {
            assert forall|i: int| 0 <= i < key.history.len() implies entry.key@.history[i]
                == key.history[i] by {
                let turn = entry.key.history@[i];
                assert(entry.key@.history[i] == turn_words(turn));
            }
            assert(entry.key@.history =~= key.history);
        }
    }
}

/// An answer is made ahead exactly where that is wanted, nothing is being answered, and a local
/// model is the loaded one. Whatever was made before is given up either way, and the new work gets
/// a number that no answer before it had.
pub proof fn law_answers_are_made_ahead_where_wanted(
    state: PrefetchState,
    conditions: PrefetchConditions,
)
    requires
        state.generation < u64::MAX - 1,
    ensures
        ({
            let after = state.queued(conditions);
            let loaded = match conditions.model {
                InstantModel::LocalFast => conditions.selected is Fast,
                InstantModel::LocalQuality => conditions.selected is Quality,
                _ => true,
            };
            let begun = !conditions.prompt_active && conditions.prefetch_enabled && loaded;
            &&& conditions.allow() <==> begun
            &&& after.cache is None
            &&& begun ==> after.generation == state.generation + 2 && (after.task matches Some(task)
                && task.generation == after.generation && !task.cancelled)
            &&& !begun ==> after.generation == state.generation + 1 && (after.task is Some
                <==> state.task is Some) && (after.task matches Some(task) ==> task.cancelled
                && task.generation == state.task->Some_0.generation)
            &&& state.given_up().cache is None
            &&& state.given_up().generation == state.generation + 1
            &&& state.given_up().task matches Some(task) ==> task.cancelled
        }),
{
}

/// What was made is kept, for just its question, exactly where it succeeded and nothing was given
/// up since; otherwise what was kept before stays. The work that ended is no longer under way, and
/// any other work goes on.
pub proof fn law_made_answers_are_kept(
    state: PrefetchState,
    generation: u64,
    key: PrefetchKey,
    cancelled: bool,
    result: Result<Content, String>,
)
    ensures
        ({
            let after = state.concluded(generation, key, cancelled, result);
            let keeps = state.generation == generation && !cancelled && result is Ok;
            &&& keeps ==> (after.cache matches Some(entry) && entry.generation == generation
                && entry.key == key && entry.answer == result->Ok_0)
            &&& !keeps ==> after.cache == state.cache
            &&& after.generation == state.generation
            &&& (state.task matches Some(task) && task.generation == generation)
                ==> after.task is None
            &&& (state.task matches Some(task) && task.generation != generation) ==> after.task
                == state.task
            &&& state.task is None ==> after.task is None
        }),
{
}

/// The work on an answer asks the provider of its model, where that is there, and ends with what
/// the provider said: its answer as it is, or why there is none.
pub proof fn law_answers_ahead_come_from_the_model(
    plan: PrefetchPlan,
    answer: Content,
    collected: AgentTextResult,
    error: String,
)
    ensures
        ({
            let begun = plan.next(PrefetchEvent::Begun { cancelled: false });
            let local = plan.model is LocalFast || plan.model is LocalQuality;
            let custom = plan.model is CustomSolHigh || plan.model is CustomLunaLow;
            let opencode = plan.model is OpenCodeSolHigh || plan.model is OpenCodeLunaLow;
            &&& begun is AskLocal <==> local
            &&& begun is AskCustom <==> custom && plan.custom_configured
            &&& begun is AskOpencode <==> opencode && plan.server_available
            &&& custom && !plan.custom_configured ==> begun == (PrefetchView::End {
                result: Err("Custom provider is not configured"@),
            })
            &&& opencode && !plan.server_available ==> begun == (PrefetchView::End {
                result: Err("OpenCode server is not available"@),
            })
            &&& plan.next(PrefetchEvent::Answered { answer }) == (PrefetchView::End {
                result: Ok(answer),
            })
            &&& plan.next(PrefetchEvent::Collected { result: Ok(collected) })
                == (PrefetchView::End { result: Ok(Content::Text(collected.text)) })
            &&& plan.next(PrefetchEvent::Collected { result: Err(error) })
                == (PrefetchView::End { result: Err(error@) })
            &&& plan.next(PrefetchEvent::Refused { error }) == (PrefetchView::End {
                result: Err(error@),
            })
            &&& plan.next(PrefetchEvent::Failed { error }) == (PrefetchView::End {
                result: Err(
                    if local {
                        "failed to prefetch local response: "@ + error@
                    } else {
                        error@
                    },
                ),
            })
            &&& plan.next(PrefetchEvent::Lost { error }) == (PrefetchView::End {
                result: Err("local prefetch task failed: "@ + error@),
            })
        }),
{
}

/// The local model is asked ahead of the question exactly where the work is still wanted, the
/// model is the loaded one, its instructions are there, the conversation is made of questions and
/// answers, and the model runs; otherwise the first of these that is missing is told.
pub proof fn law_local_answers_ahead_need_the_model(local: LocalPrefetch<'_>, key: PrefetchKey)
    ensures
        ({
            let wanted = local.current_generation == local.generation;
            let loaded = match key.model {
                InstantModel::LocalFast => local.selected is Fast,
                InstantModel::LocalQuality => local.selected is Quality,
                _ => true,
            };
            let instructed = local.system_prompt is Some;
            let paired = conversation::alternates(key.history@, key.history@.len() as int / 2);
            let reason = local.obstacle(key);
            &&& reason is None <==> wanted && loaded && instructed && paired
                && local.runtime_loaded
            &&& !wanted ==> reason == Some("prefetch cancelled"@)
            &&& wanted && !loaded ==> reason == Some("selected local model is not loaded"@)
            &&& wanted && loaded && !instructed ==> reason == Some("SOUL.md is not loaded"@)
            &&& wanted && loaded && instructed && !paired ==> reason == Some(
                "canonical conversation roles are invalid"@,
            )
            &&& wanted && loaded && instructed && paired && !local.runtime_loaded ==> reason
                == Some("local Gemma model is still warming up"@)
        }),
{
}

} // verus!
