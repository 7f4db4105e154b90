//! The prompt that is being answered: its registration, its cancellation and what may still be
//! published of it.

use crate::counters;
use crate::counters::take_number;
use crate::text;
use crate::text::{concat3, same_text};
use vstd::prelude::*;
use vstd::string::*;

verus! {

/// Why a step of a prompt did not go through.
#[derive(Clone, Debug, PartialEq, Eq)]
pub enum PromptControlError {
    Cancelled,
    Error(String),
}

impl From<String> for PromptControlError {
    fn from(error: String) -> Self {
        PromptControlError::Error(error)
    }
}

impl vstd::std_specs::convert::FromSpecImpl<String> for PromptControlError {
    open spec fn obeys_from_spec() -> bool {
        true
    }

    open spec fn from_spec(error: String) -> Self {
        PromptControlError::Error(error)
    }
}

/// Why a step did not go through, by its characters.
#[verifier::ext_equal]
pub ghost enum ControlView {
    Cancelled,
    Error(Seq<char>),
}

impl View for PromptControlError {
    type V = ControlView;

    open spec fn view(&self) -> ControlView {
        match *self {
            PromptControlError::Cancelled => ControlView::Cancelled,
            PromptControlError::Error(error) => ControlView::Error(error@),
        }
    }
}

impl PromptControlError {
    /// The text that says why a step did not go through.
    pub open spec fn message(self) -> Seq<char> {
        match self {
            PromptControlError::Cancelled => "assistant request cancelled"@,
            PromptControlError::Error(error) => error@,
        }
    }

    /// Turns the reason into the text that says it.
    pub fn into_message(self) -> (message: String)
        ensures
            message@ == self.message(),
    {
        match self {
            PromptControlError::Error(error) => error,
            PromptControlError::Cancelled => "assistant request cancelled".to_owned(),
        }
    }
}

/// The prompt that is being answered.
///
/// `direct_client` says that an OpenCode client works on the prompt and has to be told to stop.
#[derive(Clone, Debug, PartialEq, Eq)]
pub struct ActivePrompt {
    pub request_id: String,
    pub generation: u64,
    pub assistant_generation: u64,
    pub direct_client: bool,
    pub cancelled: bool,
    pub settled: bool,
    pub terminal_published: bool,
}

/// An active prompt with its request named by its characters.
#[verifier::ext_equal]
pub ghost struct ActivePromptView {
    pub request_id: Seq<char>,
    pub generation: u64,
    pub assistant_generation: u64,
    pub direct_client: bool,
    pub cancelled: bool,
    pub settled: bool,
    pub terminal_published: bool,
}

impl View for ActivePrompt {
    type V = ActivePromptView;

    open spec fn view(&self) -> ActivePromptView {
        ActivePromptView {
            request_id: self.request_id@,
            generation: self.generation,
            assistant_generation: self.assistant_generation,
            direct_client: self.direct_client,
            cancelled: self.cancelled,
            settled: self.settled,
            terminal_published: self.terminal_published,
        }
    }
}

/// What holds the active prompt, if there is one.
pub open spec fn slot(active: Option<ActivePrompt>) -> Option<ActivePromptView> {
    match active {
        Some(prompt) => Some(prompt@),
        None => None,
    }
}

/// Whether the active prompt answers `request_id`.
pub open spec fn answers(active: Option<ActivePromptView>, request_id: Seq<char>) -> bool {
    active matches Some(prompt) && prompt.request_id == request_id
}

/// Whether the active prompt is the registration `generation` of `request_id`.
pub open spec fn holds(
    active: Option<ActivePromptView>,
    request_id: Seq<char>,
    generation: u64,
) -> bool {
    active matches Some(prompt) && prompt.request_id == request_id && prompt.generation
        == generation
}

/// A prompt that was just registered.
pub open spec fn fresh(
    request_id: Seq<char>,
    generation: u64,
    assistant_generation: u64,
    direct_client: bool,
) -> ActivePromptView {
    ActivePromptView {
        request_id,
        generation,
        assistant_generation,
        direct_client,
        cancelled: false,
        settled: false,
        terminal_published: false,
    }
}

/// Registers a prompt. At most one prompt is active.
pub fn register_active_prompt(
    active: &mut Option<ActivePrompt>,
    generation_counter: &mut u64,
    request_id: &str,
    assistant_generation: u64,
    direct_client: bool,
) -> (result: Result<u64, String>)
    ensures
        text::outcome(result) == (if slot(*old(active)) is Some {
            Err("another prompt is already active"@)
        } else {
            Ok(counters::next_number(*old(generation_counter)))
        }),
        match result {
            Ok(generation) => slot(*final(active)) == Some(
                fresh(request_id@, generation, assistant_generation, direct_client),
            ) && *final(generation_counter) == counters::counted(*old(generation_counter)),
            Err(_) => *final(active) == *old(active) && *final(generation_counter) == *old(
                generation_counter,
            ),
        },
{
    if active.is_some() {
        return Err("another prompt is already active".to_owned());
    }
    let generation: u64 = take_number(generation_counter);
    *active = Some(
        ActivePrompt {
            request_id: request_id.to_owned(),
            generation,
            assistant_generation,
            direct_client,
            cancelled: false,
            settled: false,
            terminal_published: false,
        },
    );
    Ok(generation)
}

/// Whether the active prompt answers `request_id`.
pub fn answers_request(active: &Option<ActivePrompt>, request_id: &str) -> (result: bool)
    ensures
        result == answers(slot(*active), request_id@),
{
    match active {
        Some(prompt) => same_text(prompt.request_id.as_str(), request_id),
        None => false,
    }
}

/// Whether the active prompt is the registration `generation` of `request_id`.
pub fn is_active_prompt(
    active: &Option<ActivePrompt>,
    request_id: &str,
    generation: u64,
) -> (result: bool)
    ensures
        result == holds(slot(*active), request_id@, generation),
{
    match active {
        Some(prompt) => same_text(prompt.request_id.as_str(), request_id) && prompt.generation
            == generation,
        None => false,
    }
}

/// The slot after the request `request_id` has reached its end.
pub open spec fn after_settling(
    active: Option<ActivePromptView>,
    request_id: Seq<char>,
) -> Option<ActivePromptView> {
    match active {
        Some(prompt) => if prompt.request_id == request_id {
            Some(ActivePromptView { settled: true, ..prompt })
        } else {
            active
        },
        None => None,
    }
}

/// Notes that the request `request_id` has reached its end.
pub fn mark_active_prompt_settled_by_request(active: &mut Option<ActivePrompt>, request_id: &str)
    ensures
        slot(*final(active)) == after_settling(slot(*old(active)), request_id@),
{
    match active.take() {
        Some(prompt) => {
            let mut prompt = prompt;
            if same_text(prompt.request_id.as_str(), request_id) {
                prompt.settled = true;
            }
            *active = Some(prompt);
        },
        None => {},
    }
}

/// The slot after the registration `generation` of `request_id` has left it.
pub open spec fn after_clearing(
    active: Option<ActivePromptView>,
    request_id: Seq<char>,
    generation: u64,
) -> Option<ActivePromptView> {
    if holds(active, request_id, generation) {
        None
    } else {
        active
    }
}

/// Takes the registration `generation` of `request_id` out of the slot, and says whether it was
/// there. Another registration stays.
pub fn clear_active_prompt(
    active: &mut Option<ActivePrompt>,
    request_id: &str,
    generation: u64,
) -> (cleared: bool)
    ensures
        cleared == holds(slot(*old(active)), request_id@, generation),
        slot(*final(active)) == after_clearing(slot(*old(active)), request_id@, generation),
{
    if is_active_prompt(active, request_id, generation) {
        *active = None;
        return true;
    }
    false
}

/// Whether a prompt has a publication left that says that it was cancelled, and the prompt after it
/// was claimed.
pub open spec fn claimed(active: ActivePromptView) -> (bool, ActivePromptView) {
    (
        active.cancelled && !active.terminal_published,
        ActivePromptView {
            terminal_published: active.terminal_published || active.cancelled,
            ..active
        },
    )
}

/// Claims the one publication that a cancelled prompt still has: that it was cancelled.
pub fn claim_cancelled_prompt_publication(active: &mut ActivePrompt) -> (claimed: bool)
    ensures
        (claimed, final(active)@) == self::claimed(old(active)@),
{
    if !active.cancelled {
        return false;
    }
    let claimed = !active.terminal_published;
    active.terminal_published = true;
    claimed
}

/// Whether an event of the request `request_id` may be published. `terminal` events say that the
/// prompt was cancelled.
pub open spec fn admits(
    active: Option<ActivePromptView>,
    request_id: Seq<char>,
    terminal: bool,
) -> bool {
    active matches Some(prompt) && prompt.request_id == request_id && (if terminal {
        prompt.cancelled && !prompt.terminal_published
    } else {
        !prompt.cancelled
    })
}

/// The slot after an event of the request `request_id` was offered for publication.
pub open spec fn after_offer(
    active: Option<ActivePromptView>,
    request_id: Seq<char>,
    terminal: bool,
) -> Option<ActivePromptView> {
    match active {
        Some(prompt) => if terminal && admits(active, request_id, terminal) {
            Some(ActivePromptView { terminal_published: true, ..prompt })
        } else {
            active
        },
        None => None,
    }
}

/// Decides whether an event of the request `request_id` may be published.
pub fn admit_prompt_event(
    active: &mut Option<ActivePrompt>,
    request_id: &str,
    terminal: bool,
) -> (result: Result<(), PromptControlError>)
    ensures
        result == (if admits(slot(*old(active)), request_id@, terminal) {
            Ok::<(), PromptControlError>(())
        } else {
            Err(PromptControlError::Cancelled)
        }),
        slot(*final(active)) == after_offer(slot(*old(active)), request_id@, terminal),
{
    match active.take() {
        Some(prompt) => {
            let mut prompt = prompt;
            let admitted = if !same_text(prompt.request_id.as_str(), request_id) {
                false
            } else if terminal {
                claim_cancelled_prompt_publication(&mut prompt)
            } else {
                !prompt.cancelled
            };
            *active = Some(prompt);
            if admitted {
                Ok(())
            } else {
                Err(PromptControlError::Cancelled)
            }
        },
        None => Err(PromptControlError::Cancelled),
    }
}

/// Cancels the request `request_id`, and says whether its client has to be told to stop.
///
/// `cancel_assistant_generation` cancels the generation of the assistant that it is given, and
/// says whether that generation was still there.
pub fn cancel_prompt_request_state<F: FnOnce(u64) -> Result<bool, String>>(
    active: &mut Option<ActivePrompt>,
    request_id: &str,
    cancel_assistant_generation: F,
) -> (result: Result<bool, String>)
    requires
        answers(slot(*old(active)), request_id@) ==> call_requires(
            cancel_assistant_generation,
            (slot(*old(active))->Some_0.assistant_generation,),
        ),
    ensures
        !answers(slot(*old(active)), request_id@) ==> text::outcome(result) == Err::<
            bool,
            Seq<char>,
        >("prompt request is no longer active"@) && slot(*final(active)) == slot(*old(active)),
        answers(slot(*old(active)), request_id@) ==> exists|reply: Result<bool, String>|
            {
                &&& #[trigger] call_ensures(
                    cancel_assistant_generation,
                    (slot(*old(active))->Some_0.assistant_generation,),
                    reply,
                )
                &&& match reply {
                    Ok(true) => result == Ok::<bool, String>(
                        left_to_stop(slot(*old(active)))->Some_0.direct_client,
                    ) && slot(*final(active)) == after_stopping(slot(*old(active))),
                    Ok(false) => text::outcome(result) == Err::<bool, Seq<char>>(
                        "prompt request is no longer active"@,
                    ) && slot(*final(active)) == slot(*old(active)),
                    Err(_) => result == reply && slot(*final(active)) == slot(*old(active)),
                }
            },
{
    match active.take() {
        Some(prompt) => {
            let mut prompt = prompt;
            if !same_text(prompt.request_id.as_str(), request_id) {
                *active = Some(prompt);
                return Err("prompt request is no longer active".to_owned());
            }
            let reply = cancel_assistant_generation(prompt.assistant_generation);
            assert(call_ensures(
                cancel_assistant_generation,
                (slot(*old(active))->Some_0.assistant_generation,),
                reply,
            ));
            match reply {
                Ok(true) => {
                    prompt.cancelled = true;
                    let direct_client = prompt.direct_client;
                    *active = Some(prompt);
                    Ok(direct_client)
                },
                Ok(false) => {
                    *active = Some(prompt);
                    Err("prompt request is no longer active".to_owned())
                },
                Err(error) => {
                    *active = Some(prompt);
                    Err(error)
                },
            }
        },
        None => Err("prompt request is no longer active".to_owned()),
    }
}

/// Cancels speech on behalf of the request `request_id`, where that request is still the active
/// one. `cancel_tts_generation` does it.
pub fn cancel_tts_generation_for_prompt<T, F: FnOnce() -> T>(
    active: &Option<ActivePrompt>,
    request_id: &str,
    cancel_tts_generation: F,
) -> (cancelled: Option<T>)
    requires
        answers(slot(*active), request_id@) ==> call_requires(cancel_tts_generation, ()),
    ensures
        match cancelled {
            Some(outcome) => answers(slot(*active), request_id@) && call_ensures(
                cancel_tts_generation,
                (),
                outcome,
            ),
            None => !answers(slot(*active), request_id@),
        },
{
    if answers_request(active, request_id) {
        Some(cancel_tts_generation())
    } else {
        None
    }
}

/// Whether outcomes of the registration `generation` of `request_id` are still taken.
pub open spec fn takes_outcomes(
    active: Option<ActivePromptView>,
    request_id: Seq<char>,
    generation: u64,
) -> bool {
    holds(active, request_id, generation) && !active->Some_0.cancelled
}

/// Whether outcomes of the registration `generation` of `request_id` are still taken.
pub fn is_taking_outcomes(
    active: &Option<ActivePrompt>,
    request_id: &str,
    generation: u64,
) -> (result: bool)
    ensures
        result == takes_outcomes(slot(*active), request_id@, generation),
{
    match active {
        Some(prompt) => same_text(prompt.request_id.as_str(), request_id) && prompt.generation
            == generation && !prompt.cancelled,
        None => false,
    }
}

/// What is left to do for an active prompt that has to stop for a new session.
#[derive(Clone, Copy, Debug, PartialEq, Eq, Structural)]
pub struct PromptStop {
    pub assistant_generation: u64,
    pub direct_client: bool,
}

/// The slot after whatever prompt it holds was cancelled.
pub open spec fn after_stopping(active: Option<ActivePromptView>) -> Option<ActivePromptView> {
    match active {
        Some(prompt) => Some(ActivePromptView { cancelled: true, ..prompt }),
        None => None,
    }
}

/// What is left to do for whatever prompt a slot holds.
pub open spec fn left_to_stop(active: Option<ActivePromptView>) -> Option<PromptStop> {
    match active {
        Some(prompt) => Some(
            PromptStop {
                assistant_generation: prompt.assistant_generation,
                direct_client: prompt.direct_client,
            },
        ),
        None => None,
    }
}

/// Cancels whatever prompt is active, and says what it still holds.
pub fn stop_active_prompt(active: &mut Option<ActivePrompt>) -> (stop: Option<PromptStop>)
    ensures
        stop == left_to_stop(slot(*old(active))),
        slot(*final(active)) == after_stopping(slot(*old(active))),
        match slot(*old(active)) {
            Some(prompt) => stop == Some(
                PromptStop {
                    assistant_generation: prompt.assistant_generation,
                    direct_client: prompt.direct_client,
                },
            ) && slot(*final(active)) == Some(ActivePromptView { cancelled: true, ..prompt }),
            None => stop is None && slot(*final(active)) is None,
        },
{
    match active.take() {
        Some(prompt) => {
            let mut prompt = prompt;
            prompt.cancelled = true;
            let stop = PromptStop {
                assistant_generation: prompt.assistant_generation,
                direct_client: prompt.direct_client,
            };
            *active = Some(prompt);
            Some(stop)
        },
        None => None,
    }
}

/// The outcome of resetting an OpenCode session, from the outcome of stopping its prompt and that
/// of resetting its server.
pub open spec fn combined_reset(
    cancellation: Result<(), Seq<char>>,
    reset: Result<(), Seq<char>>,
) -> Result<(), Seq<char>> {
    match (cancellation, reset) {
        (Ok(_), result) => result,
        (Err(error), Ok(_)) => Err(error),
        (Err(error), Err(reset_error)) => Err(error + "; "@ + reset_error),
    }
}

/// Combines the outcomes of stopping the prompt and of resetting the server.
pub fn combine_reset_results(
    cancellation: Result<(), String>,
    reset: Result<(), String>,
) -> (result: Result<(), String>)
    ensures
        text::outcome(result) == combined_reset(text::outcome(cancellation), text::outcome(reset)),
{
    match cancellation {
        Ok(_) => reset,
        Err(error) => match reset {
            Ok(_) => Err(error),
            Err(reset_error) => Err(concat3(error.as_str(), "; ", reset_error.as_str())),
        },
    }
}

/// What answers one registration and sees to its end.
pub struct ActivePromptGuard {
    pub request_id: String,
    pub generation: u64,
    pub armed: bool,
}

/// What an abandoned registration still asks for: that the prompt's work be cancelled, and that
/// its client be told to stop.
#[derive(Clone, Copy, Debug, PartialEq, Eq, Structural)]
pub struct Abandonment {
    pub cancel: bool,
    pub abort_client: bool,
}

impl ActivePromptGuard {
    /// What the guard asks for when it is abandoned.
    pub open spec fn abandonment(
        self,
        active: Option<ActivePromptView>,
        settled: bool,
    ) -> Abandonment {
        Abandonment {
            cancel: self.armed && !settled,
            abort_client: self.armed && !settled && holds(
                active,
                self.request_id@,
                self.generation,
            ) && active->Some_0.direct_client,
        }
    }

    /// The slot after the guard has let go of its registration.
    pub open spec fn released(self, active: Option<ActivePromptView>) -> Option<ActivePromptView> {
        if self.armed {
            after_clearing(active, self.request_id@, self.generation)
        } else {
            active
        }
    }

    /// Ends the registration in order.
    pub fn finish(&mut self, active: &mut Option<ActivePrompt>)
        ensures
            slot(*final(active)) == old(self).released(slot(*old(active))),
            final(self).request_id == old(self).request_id,
            final(self).generation == old(self).generation,
            !final(self).armed,
    {
        if self.armed {
            self.armed = false;
            let _ = clear_active_prompt(active, self.request_id.as_str(), self.generation);
        }
    }

    /// Ends the registration because nothing answers it any more. `settled` says whether the
    /// request had reached its end.
    pub fn abandon(&mut self, active: &mut Option<ActivePrompt>, settled: bool) -> (result:
        Abandonment)
        ensures
            result == old(self).abandonment(slot(*old(active)), settled),
            slot(*final(active)) == old(self).released(slot(*old(active))),
            final(self).request_id == old(self).request_id,
            final(self).generation == old(self).generation,
            !final(self).armed,
    {
        if !self.armed {
            return Abandonment { cancel: false, abort_client: false };
        }
        self.armed = false;
        let direct_client = match active {
            Some(prompt) => prompt.direct_client,
            None => false,
        };
        let cleared = clear_active_prompt(active, self.request_id.as_str(), self.generation);
        Abandonment { cancel: !settled, abort_client: !settled && cleared && direct_client }
    }
}

/// A cancelled prompt publishes nothing but that it was cancelled, and that once.
pub proof fn law_cancelled_prompts_publish_their_end_once(
    prompt: ActivePromptView,
    request_id: Seq<char>,
)
    requires
        prompt.cancelled,
    ensures
        !admits(Some(prompt), request_id, false),
        !admits(after_offer(Some(prompt), request_id, true), request_id, true),
        !admits(after_offer(Some(prompt), request_id, true), request_id, false),
        answers(Some(prompt), request_id) && !prompt.terminal_published ==> admits(
            Some(prompt),
            request_id,
            true,
        ),
{
}

/// A prompt that was not cancelled never publishes that it was.
pub proof fn law_running_prompts_publish_no_cancellation(
    prompt: ActivePromptView,
    request_id: Seq<char>,
)
    requires
        !prompt.cancelled,
    ensures
        !admits(Some(prompt), request_id, true),
        admits(Some(prompt), request_id, false) == answers(Some(prompt), request_id),
{
}

/// A guard leaves every registration but its own as it is, and acts at most once.
pub proof fn law_guards_end_their_own_registration_once(
    guard: ActivePromptGuard,
    ended: ActivePromptGuard,
    active: Option<ActivePromptView>,
    settled: bool,
)
    requires
        ended.request_id == guard.request_id,
        ended.generation == guard.generation,
        !ended.armed,
    ensures
        !holds(active, guard.request_id@, guard.generation) ==> guard.released(active) == active
            && !guard.abandonment(active, settled).abort_client,
        ended.released(active) == active,
        ended.abandonment(active, settled) == (Abandonment { cancel: false, abort_client: false }),
        settled ==> guard.abandonment(active, settled) == (Abandonment {
            cancel: false,
            abort_client: false,
        }),
{
}

/// A slot knows its prompt by the name of the request and by the number of the registration: each
/// of the two alone is not enough. Outcomes are taken as long as that prompt is not cancelled.
pub proof fn law_prompts_are_known_by_name_and_number(
    prompt: ActivePromptView,
    request_id: Seq<char>,
    generation: u64,
)
    ensures
        answers(Some(prompt), request_id) <==> prompt.request_id == request_id,
        holds(Some(prompt), request_id, generation) <==> prompt.request_id == request_id
            && prompt.generation == generation,
        takes_outcomes(Some(prompt), request_id, generation) <==> prompt.request_id == request_id
            && prompt.generation == generation && !prompt.cancelled,
        !answers(None, request_id),
        !holds(None, request_id, generation),
        !takes_outcomes(None, request_id, generation),
{
}

/// Only the registration itself leaves the slot, only its own request is settled, and only what is
/// told of its own request is published: events while it goes on, and its cancellation once, after
/// it was cancelled.
pub proof fn law_requests_touch_only_their_own_prompt(
    prompt: ActivePromptView,
    request_id: Seq<char>,
    generation: u64,
)
    ensures
        ({
            let own = prompt.request_id == request_id;
            let active = Some(prompt);
            let cleared = after_clearing(active, request_id, generation);
            let settled = after_settling(active, request_id);
            let offered = after_offer(active, request_id, true);
            &&& cleared == (if own && prompt.generation == generation {
                None
            } else {
                active
            })
            &&& own ==> (settled matches Some(after) && after.settled)
            &&& !own ==> settled == active && offered == active
            &&& admits(active, request_id, false) <==> own && !prompt.cancelled
            &&& admits(active, request_id, true) <==> own && prompt.cancelled
                && !prompt.terminal_published
            &&& after_offer(active, request_id, false) == active
            &&& own && prompt.cancelled ==> (offered matches Some(after)
                && after.terminal_published)
            &&& own && !prompt.cancelled ==> offered == active
            &&& settled matches Some(after) && after.request_id == prompt.request_id
                && after.generation == prompt.generation && after.assistant_generation
                == prompt.assistant_generation && after.direct_client == prompt.direct_client
                && after.cancelled == prompt.cancelled && after.terminal_published
                == prompt.terminal_published
            &&& offered matches Some(after) && after.request_id == prompt.request_id
                && after.generation == prompt.generation && after.assistant_generation
                == prompt.assistant_generation && after.direct_client == prompt.direct_client
                && after.cancelled == prompt.cancelled && after.settled == prompt.settled
        }),
        after_clearing(None, request_id, generation) is None,
        after_settling(None, request_id) is None,
        after_offer(None, request_id, true) is None,
        !admits(None, request_id, true) && !admits(None, request_id, false),
{
}

/// A prompt that is stopped is cancelled and otherwise as it was, and what is left to do names its
/// own generation and its own client. A prompt that was just registered is neither cancelled nor
/// settled, and has published no end.
pub proof fn law_stopped_prompts_are_cancelled(
    prompt: ActivePromptView,
    request_id: Seq<char>,
    generation: u64,
    assistant_generation: u64,
    direct_client: bool,
)
    ensures
        after_stopping(Some(prompt)) matches Some(after) && after.cancelled && after.request_id
            == prompt.request_id && after.generation == prompt.generation
            && after.assistant_generation == prompt.assistant_generation && after.direct_client
            == prompt.direct_client && after.settled == prompt.settled && after.terminal_published
            == prompt.terminal_published,
        left_to_stop(Some(prompt)) matches Some(stop) && stop.assistant_generation
            == prompt.assistant_generation && stop.direct_client == prompt.direct_client,
        after_stopping(None) is None,
        left_to_stop(None) is None,
        ({
            let made = fresh(request_id, generation, assistant_generation, direct_client);
            &&& made.request_id == request_id
            &&& made.generation == generation
            &&& made.assistant_generation == assistant_generation
            &&& made.direct_client == direct_client
            &&& !made.cancelled && !made.settled && !made.terminal_published
        }),
{
}

/// An armed guard whose request did not reach its end cancels it; the client is told to stop
/// exactly where the guard's own registration still holds one. Either way the registration leaves
/// the slot.
pub proof fn law_abandoned_guards_cancel_their_request(
    guard: ActivePromptGuard,
    active: Option<ActivePromptView>,
)
    requires
        guard.armed,
    ensures
        ({
            let own = active matches Some(prompt) && prompt.request_id == guard.request_id@
                && prompt.generation == guard.generation;
            &&& guard.abandonment(active, false).cancel
            &&& guard.abandonment(active, false).abort_client <==> own
                && active->Some_0.direct_client
            &&& own ==> guard.released(active) is None
            &&& !own ==> guard.released(active) == active
        }),
{
}

/// Both failures of a reset are told, the one of stopping the prompt first; with one failure that
/// one is told, and without any the reset succeeds.
pub proof fn law_reset_failures_are_all_told(stopping: Seq<char>, resetting: Seq<char>)
    ensures
        combined_reset(Ok(()), Ok(())) == Ok::<(), Seq<char>>(()),
        combined_reset(Err(stopping), Ok(())) == Err::<(), Seq<char>>(stopping),
        combined_reset(Ok(()), Err(resetting)) == Err::<(), Seq<char>>(resetting),
        combined_reset(Err(stopping), Err(resetting)) == Err::<(), Seq<char>>(
            stopping + "; "@ + resetting,
        ),
{
}

/// That a prompt was cancelled is published once: the first claim gets it, every further one does
/// not, and a prompt that runs has nothing to claim.
pub proof fn law_cancellations_are_published_once(active: ActivePromptView)
    ensures
        ({
            let (first, after) = claimed(active);
            let (second, last) = claimed(after);
            &&& first <==> active.cancelled && !active.terminal_published
            &&& !second
            &&& last == after
            &&& active.cancelled ==> after.terminal_published
            &&& !active.cancelled ==> after == active
            &&& after.request_id == active.request_id
            &&& after.generation == active.generation
            &&& after.cancelled == active.cancelled
            &&& after.settled == active.settled
        }),
{
}

} // verus!
