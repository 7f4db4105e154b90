//! Playback of spoken answers: which playback is the current one, and which can never be again.

use crate::counters;
use crate::text;
use crate::text::concat2;
use vstd::prelude::*;
use vstd::string::*;

verus! {

/// The largest playback number: the largest one that the user interface can hold exactly.
pub const MAX_PLAYBACK_ID: u64 = 9007199254740991;

/// Which playback numbers were given out, which are obsolete, and which playback runs.
#[derive(Clone, Copy, Debug, PartialEq, Eq, Structural)]
pub struct TtsPlaybackState {
    pub next_id: u64,
    pub latest_id: u64,
    pub current_id: Option<u64>,
}

impl Default for TtsPlaybackState {
    fn default() -> (state: Self)
        ensures
            state == (TtsPlaybackState { next_id: 0, latest_id: 0, current_id: None }),
    {
        TtsPlaybackState { next_id: 0, latest_id: 0, current_id: None }
    }
}

/// Whether a number can be the number of a playback.
pub open spec fn valid_id(id: u64) -> bool {
    0 < id <= MAX_PLAYBACK_ID
}

/// The larger of two numbers.
pub open spec fn larger(a: u64, b: u64) -> u64 {
    if a >= b {
        a
    } else {
        b
    }
}

fn max_of(a: u64, b: u64) -> (result: u64)
    ensures
        result == larger(a, b),
{
    if a >= b {
        a
    } else {
        b
    }
}

impl TtsPlaybackState {
    /// Why a playback may not begin, where it may not.
    pub open spec fn refusal(self, id: u64) -> Option<Seq<char>> {
        if !valid_id(id) {
            Some("TTS playback id is invalid"@)
        } else if id < self.latest_id || self.current_id == Some(id) {
            Some("TTS playback was superseded"@)
        } else {
            None
        }
    }

    /// The state in which a playback has begun.
    pub open spec fn registered(self, id: u64) -> Self {
        TtsPlaybackState { latest_id: id, current_id: Some(id), ..self }
    }

    /// The number that the next playback gets, where there is one left.
    pub open spec fn next(self) -> Option<u64> {
        if larger(self.next_id, self.latest_id) < MAX_PLAYBACK_ID {
            Some((larger(self.next_id, self.latest_id) + 1) as u64)
        } else {
            None
        }
    }

    /// Whether a playback is the current one.
    pub open spec fn current(self, id: u64) -> bool {
        self.latest_id == id && self.current_id == Some(id)
    }

    /// The state in which a playback is over for good.
    pub open spec fn retired(self, id: u64) -> Self {
        TtsPlaybackState {
            latest_id: larger(self.latest_id, counters::next_number(id)),
            current_id: if self.current_id == Some(id) {
                None
            } else {
                self.current_id
            },
            ..self
        }
    }
}

/// Begins a playback, which takes the place of every earlier one.
pub fn register_tts_playback(state: &mut TtsPlaybackState, playback_id: u64) -> (result: Result<
    (),
    String,
>)
    ensures
        match result {
            Ok(_) => old(state).refusal(playback_id) is None && *final(state)
                == old(state).registered(playback_id),
            Err(message) => old(state).refusal(playback_id) == Some(message@) && *final(state)
                == *old(state),
        },
{
    if playback_id == 0 || playback_id > MAX_PLAYBACK_ID {
        return Err("TTS playback id is invalid".to_owned());
    }
    let running = match state.current_id {
        Some(current) => current == playback_id,
        None => false,
    };
    if playback_id < state.latest_id || running {
        return Err("TTS playback was superseded".to_owned());
    }
    state.latest_id = playback_id;
    state.current_id = Some(playback_id);
    Ok(())
}

/// Gives out a number that no playback has had.
pub fn reserve_tts_playback_id(state: &mut TtsPlaybackState) -> (result: Result<u64, String>)
    ensures
        match result {
            Ok(id) => old(state).next() == Some(id) && *final(state) == (TtsPlaybackState {
                next_id: id,
                ..*old(state)
            }),
            Err(message) => {
                &&& old(state).next() is None
                &&& message@ == "TTS playback ids are exhausted"@
                &&& *final(state) == *old(state)
            },
        },
{
    let last: u64 = max_of(state.next_id, state.latest_id);
    if last >= MAX_PLAYBACK_ID {
        return Err("TTS playback ids are exhausted".to_owned());
    }
    state.next_id = last + 1;
    Ok(state.next_id)
}

/// Accepts the playback that is the current one.
pub fn ensure_tts_playback_current(state: &TtsPlaybackState, playback_id: u64) -> (result: Result<
    (),
    String,
>)
    ensures
        text::outcome(result) == (if state.current(playback_id) {
            Ok(())
        } else {
            Err("TTS playback was superseded"@)
        }),
{
    let running = match state.current_id {
        Some(current) => current == playback_id,
        None => false,
    };
    if state.latest_id == playback_id && running {
        Ok(())
    } else {
        Err("TTS playback was superseded".to_owned())
    }
}

/// Cancels a playback for good, and says whether it was running.
pub fn cancel_tts_playback_state(state: &mut TtsPlaybackState, playback_id: u64) -> (result: Result<
    bool,
    String,
>)
    ensures
        match result {
            Ok(cancelled) => {
                &&& valid_id(playback_id)
                &&& cancelled == (old(state).current_id == Some(playback_id))
                &&& *final(state) == old(state).retired(playback_id)
            },
            Err(message) => {
                &&& !valid_id(playback_id)
                &&& message@ == "TTS playback id is invalid"@
                &&& *final(state) == *old(state)
            },
        },
{
    if playback_id == 0 || playback_id > MAX_PLAYBACK_ID {
        return Err("TTS playback id is invalid".to_owned());
    }
    state.latest_id = max_of(state.latest_id, playback_id.saturating_add(1));
    let running = match state.current_id {
        Some(current) => current == playback_id,
        None => false,
    };
    if !running {
        return Ok(false);
    }
    state.current_id = None;
    Ok(true)
}

/// Cancels the playback that runs, and gives its number.
pub fn cancel_current_tts_playback_state(state: &mut TtsPlaybackState) -> (cancelled: Option<u64>)
    ensures
        cancelled == old(state).current_id,
        *final(state) == (match old(state).current_id {
            Some(id) => old(state).retired(id),
            None => *old(state),
        }),
{
    match state.current_id {
        Some(playback_id) => {
            state.latest_id = max_of(state.latest_id, playback_id.saturating_add(1));
            state.current_id = None;
            Some(playback_id)
        },
        None => None,
    }
}

/// Ends a playback for good.
pub fn finish_tts_playback_state(state: &mut TtsPlaybackState, playback_id: u64) -> (result: Result<
    (),
    String,
>)
    ensures
        match result {
            Ok(_) => valid_id(playback_id) && *final(state) == old(state).retired(playback_id),
            Err(message) => {
                &&& !valid_id(playback_id)
                &&& message@ == "TTS playback id is invalid"@
                &&& *final(state) == *old(state)
            },
        },
{
    if playback_id == 0 || playback_id > MAX_PLAYBACK_ID {
        return Err("TTS playback id is invalid".to_owned());
    }
    state.latest_id = max_of(state.latest_id, playback_id.saturating_add(1));
    if let Some(current) = state.current_id {
        if current == playback_id {
            state.current_id = None;
        }
    }
    Ok(())
}

/// A state that the functions of this module lead to: the playback that runs is not newer than
/// the newest one known.
pub open spec fn reachable(state: TtsPlaybackState) -> bool {
    state.current_id is Some ==> valid_id(state.current_id->0) && state.current_id->0
        <= state.latest_id
}

/// Every operation leads from states of this kind to states of this kind, and what was obsolete
/// stays obsolete.
pub proof fn law_playback_states_stay_reachable(state: TtsPlaybackState, id: u64)
    requires
        reachable(state),
    ensures
        reachable(TtsPlaybackState { next_id: 0, latest_id: 0, current_id: None }),
        state.refusal(id) is None ==> reachable(state.registered(id)) && state.registered(
            id,
        ).latest_id >= state.latest_id,
        valid_id(id) ==> reachable(state.retired(id)) && state.retired(id).latest_id
            >= state.latest_id,
{
}

/// A playback that was cancelled or has ended never becomes the current one again: it is refused
/// now and in every later state.
pub proof fn law_retired_playbacks_stay_retired(
    state: TtsPlaybackState,
    id: u64,
    later: TtsPlaybackState,
)
    requires
        reachable(state),
        valid_id(id),
        later.latest_id >= state.retired(id).latest_id,
    ensures
        state.retired(id).refusal(id) is Some,
        !state.retired(id).current(id),
        later.refusal(id) is Some,
        !later.current(id),
{
}

/// A number that is given out is new: it is larger than every number that was given out or used
/// before, and the playback that takes it is accepted.
pub proof fn law_reserved_numbers_are_new(state: TtsPlaybackState)
    requires
        reachable(state),
        state.next() is Some,
    ensures
        state.next()->0 > state.next_id,
        state.next()->0 > state.latest_id,
        valid_id(state.next()->0),
        state.refusal(state.next()->0) is None,
        (TtsPlaybackState { next_id: state.next()->0, ..state }).next() is Some ==> (
        TtsPlaybackState { next_id: state.next()->0, ..state }).next()->0 > state.next()->0,
{
}

/// Cancelling an older playback leaves the current one alone.
pub proof fn law_stale_cancellation_keeps_the_current_playback(
    state: TtsPlaybackState,
    stale: u64,
    id: u64,
)
    requires
        state.current(id),
        valid_id(stale),
        stale < id,
    ensures
        state.retired(stale).current(id),
{
}

/// Begins a spoken answer where there is a runtime to speak it.
pub fn begin_speech(state: &mut TtsPlaybackState, runtime_available: bool, playback_id: u64) -> (
    result: Result<(), String>)
    ensures
        match result {
            Ok(_) => {
                &&& runtime_available
                &&& old(state).refusal(playback_id) is None
                &&& *final(state) == old(state).registered(playback_id)
            },
            Err(message) => {
                &&& *final(state) == *old(state)
                &&& if runtime_available {
                    old(state).refusal(playback_id) == Some(message@)
                } else {
                    message@ == "local tts runtime is not available"@
                }
            },
        },
{
    if !runtime_available {
        return Err("local tts runtime is not available".to_owned());
    }
    register_tts_playback(state, playback_id)
}

/// How a task that was handed to another thread ended.
pub enum TaskReport<T> {
    Done(T),
    Failed(String),
    Lost(String),
}

/// Goes on with a spoken answer once its sound was computed: where that failed the playback is
/// over, else it goes on as long as it is the current one.
pub fn after_synthesis<T>(
    state: &mut TtsPlaybackState,
    playback_id: u64,
    report: TaskReport<T>,
) -> (result: Result<T, String>)
    requires
        valid_id(playback_id),
    ensures
        match report {
            TaskReport::Done(sound) => {
                &&& *final(state) == *old(state)
                &&& if old(state).current(playback_id) {
                    result == Ok::<T, String>(sound)
                } else {
                    result is Err && result->Err_0@ == "TTS playback was superseded"@
                }
            },
            TaskReport::Failed(error) => {
                &&& *final(state) == old(state).retired(playback_id)
                &&& result == Err::<T, String>(error)
            },
            TaskReport::Lost(error) => {
                &&& *final(state) == old(state).retired(playback_id)
                &&& result is Err
                &&& result->Err_0@ == "local tts synthesis task failed: "@ + error@
            },
        },
{
    match report {
        TaskReport::Done(sound) => match ensure_tts_playback_current(state, playback_id) {
            Ok(_) => Ok(sound),
            Err(message) => Err(message),
        },
        TaskReport::Failed(error) => {
            match finish_tts_playback_state(state, playback_id) {
                Ok(_) => Err(error),
                Err(message) => Err(message),
            }
        },
        TaskReport::Lost(error) => {
            match finish_tts_playback_state(state, playback_id) {
                Ok(_) => Err(concat2("local tts synthesis task failed: ", error.as_str())),
                Err(message) => Err(message),
            }
        },
    }
}

/// Ends a spoken answer once it was played, or not.
pub fn after_playback(
    state: &mut TtsPlaybackState,
    playback_id: u64,
    report: TaskReport<()>,
) -> (result: Result<(), String>)
    requires
        valid_id(playback_id),
    ensures
        *final(state) == old(state).retired(playback_id),
        text::outcome(result) == (match report {
            TaskReport::Done(_) => Ok(()),
            TaskReport::Failed(error) => Err("local tts playback failed: "@ + error@),
            TaskReport::Lost(error) => Err("local tts playback task failed: "@ + error@),
        }),
{
    match finish_tts_playback_state(state, playback_id) {
        Ok(_) => match report {
            TaskReport::Done(_) => Ok(()),
            TaskReport::Failed(error) => Err(
                concat2("local tts playback failed: ", error.as_str()),
            ),
            TaskReport::Lost(error) => Err(
                concat2("local tts playback task failed: ", error.as_str()),
            ),
        },
        Err(message) => Err(message),
    }
}

/// A playback may begin exactly where its number is valid, no newer one has begun or ended, and it
/// does not run already; it is then the newest one and the one that runs.
pub proof fn law_newer_playbacks_take_over(state: TtsPlaybackState, id: u64)
    ensures
        ({
            let invalid = id == 0 || id > 9007199254740991;
            let superseded = !invalid && (id < state.latest_id || state.current_id == Some(id));
            let refusal = state.refusal(id);
            let after = state.registered(id);
            &&& refusal is None <==> !invalid && !superseded
            &&& invalid ==> refusal == Some("TTS playback id is invalid"@)
            &&& superseded ==> refusal == Some("TTS playback was superseded"@)
            &&& valid_id(id) <==> !invalid
            &&& after.latest_id == id
            &&& after.current_id == Some(id)
            &&& after.next_id == state.next_id
            &&& after.current(id)
            &&& state.current(id) <==> state.latest_id == id && state.current_id == Some(id)
        }),
{
}

/// The number that is given out follows the largest one known, as long as there are numbers left.
pub proof fn law_numbers_are_given_out_in_order(state: TtsPlaybackState)
    ensures
        ({
            let last = if state.next_id >= state.latest_id {
                state.next_id as int
            } else {
                state.latest_id as int
            };
            &&& state.next() is Some <==> last < 9007199254740991
            &&& state.next() matches Some(id) ==> id == last + 1
        }),
{
}

/// A playback that is over does not run, and nothing older than it may begin any more; another one
/// that runs goes on, and the numbers that were given out stay given out.
pub proof fn law_retired_playbacks_are_over(state: TtsPlaybackState, id: u64)
    requires
        0 < id <= 9007199254740991,
    ensures
        ({
            let after = state.retired(id);
            &&& after.current_id != Some(id)
            &&& state.current_id != Some(id) ==> after.current_id == state.current_id
            &&& after.next_id == state.next_id
            &&& after.latest_id == (if state.latest_id > id {
                state.latest_id as int
            } else {
                id + 1
            })
        }),
{
}

} // verus!
