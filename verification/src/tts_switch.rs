//! Switching spoken answers on and off.

use crate::text;
use crate::text::concat2;
use crate::tts::LocalTtsRuntime;
use vstd::prelude::*;
use vstd::string::*;

verus! {

/// A switch of spoken answers: what is wanted, and whether there was a runtime when it began.
#[derive(Clone, Copy, Debug, PartialEq, Eq, Structural)]
pub struct TtsSwitch {
    pub enabled: bool,
    pub runtime_loaded: bool,
}

/// What happened to a switch of spoken answers.
#[derive(Debug, PartialEq, Eq)]
pub enum TtsSwitchEvent {
    /// The switch was asked for.
    Requested,
    /// A runtime was made where one was needed, or could not be made. `current` says whether no
    /// later switch has begun.
    Prepared { result: Result<Option<LocalTtsRuntime>, String>, current: bool },
    /// The choice was stored, or not.
    Stored { proposed: Option<LocalTtsRuntime>, result: Result<(), String> },
    /// Sound can be heard again, or not.
    Resumed { result: Result<(), String> },
    /// Sound is held back, or not.
    Suspended { result: Result<(), String> },
    /// The answer that was being spoken was stopped, or not.
    Stopped { result: Result<(), String> },
}

/// What a switch of spoken answers does next.
#[derive(Debug, PartialEq, Eq)]
pub enum TtsSwitchStep {
    /// Make a runtime, where `make_runtime` says so.
    Prepare { make_runtime: bool },
    /// Store the choice.
    Store { proposed: Option<LocalTtsRuntime> },
    /// Shut the new runtime down, where there is one, and refuse the switch.
    Discard { proposed: Option<LocalTtsRuntime>, error: String },
    /// Put the new runtime in its place, where there is one, and let sound be heard again.
    Resume { adopted: Option<LocalTtsRuntime> },
    /// Hold sound back.
    Suspend,
    /// Stop the answer that is being spoken.
    Stop,
    /// Nothing more: the switch is given up.
    Refuse { error: String },
    /// Unload the runtime where `unload` says so, and say that the switch was made.
    Publish { unload: bool },
}

/// What a switch of spoken answers does next, by its characters.
#[verifier::ext_equal]
pub ghost enum TtsSwitchView {
    Prepare { make_runtime: bool },
    Store { proposed: Option<LocalTtsRuntime> },
    Discard { proposed: Option<LocalTtsRuntime>, error: Seq<char> },
    Resume { adopted: Option<LocalTtsRuntime> },
    Suspend,
    Stop,
    Refuse { error: Seq<char> },
    Publish { unload: bool },
}

impl View for TtsSwitchStep {
    type V = TtsSwitchView;

    open spec fn view(&self) -> TtsSwitchView {
        match *self {
            TtsSwitchStep::Prepare { make_runtime } => TtsSwitchView::Prepare { make_runtime },
            TtsSwitchStep::Store { proposed } => TtsSwitchView::Store { proposed },
            TtsSwitchStep::Discard { proposed, error } => TtsSwitchView::Discard {
                proposed,
                error: error@,
            },
            TtsSwitchStep::Resume { adopted } => TtsSwitchView::Resume { adopted },
            TtsSwitchStep::Suspend => TtsSwitchView::Suspend,
            TtsSwitchStep::Stop => TtsSwitchView::Stop,
            TtsSwitchStep::Refuse { error } => TtsSwitchView::Refuse { error: error@ },
            TtsSwitchStep::Publish { unload } => TtsSwitchView::Publish { unload },
        }
    }
}

impl TtsSwitch {
    /// What the switch does after an event.
    pub open spec fn next(self, event: TtsSwitchEvent) -> TtsSwitchView {
        match event {
            TtsSwitchEvent::Requested => TtsSwitchView::Prepare {
                make_runtime: self.enabled && !self.runtime_loaded,
            },
            TtsSwitchEvent::Prepared { result, current } => match result {
                Err(error) => TtsSwitchView::Refuse { error: error@ },
                Ok(proposed) => if current {
                    TtsSwitchView::Store { proposed }
                } else {
                    TtsSwitchView::Discard {
                        proposed,
                        error: "local tts operation was superseded"@,
                    }
                },
            },
            TtsSwitchEvent::Stored { proposed, result } => match result {
                Err(error) => TtsSwitchView::Discard { proposed, error: error@ },
                Ok(_) => if !self.enabled {
                    TtsSwitchView::Suspend
                } else if self.runtime_loaded {
                    TtsSwitchView::Resume { adopted: None }
                } else {
                    TtsSwitchView::Resume { adopted: proposed }
                },
            },
            TtsSwitchEvent::Resumed { result } => match result {
                Err(error) => TtsSwitchView::Refuse {
                    error: "failed to resume local tts audio output: "@ + error@,
                },
                Ok(_) => TtsSwitchView::Publish { unload: false },
            },
            TtsSwitchEvent::Suspended { result } => match result {
                Err(error) => TtsSwitchView::Refuse {
                    error: "failed to suspend local tts audio output: "@ + error@,
                },
                Ok(_) => TtsSwitchView::Stop,
            },
            TtsSwitchEvent::Stopped { result } => match result {
                Err(error) => TtsSwitchView::Refuse {
                    error: "failed to cancel local tts playback: "@ + error@,
                },
                Ok(_) => TtsSwitchView::Publish { unload: true },
            },
        }
    }
}

/// Decides what a switch of spoken answers does after an event.
pub fn set_tts_enabled(switch: TtsSwitch, event: TtsSwitchEvent) -> (step: TtsSwitchStep)
    ensures
        step@ == switch.next(event),
{
    match event {
        TtsSwitchEvent::Requested => TtsSwitchStep::Prepare {
            make_runtime: switch.enabled && !switch.runtime_loaded,
        },
        TtsSwitchEvent::Prepared { result, current } => match result {
            Err(error) => TtsSwitchStep::Refuse { error },
            Ok(proposed) => if current {
                TtsSwitchStep::Store { proposed }
            } else {
                TtsSwitchStep::Discard {
                    proposed,
                    error: "local tts operation was superseded".to_owned(),
                }
            },
        },
        TtsSwitchEvent::Stored { proposed, result } => match result {
            Err(error) => TtsSwitchStep::Discard { proposed, error },
            Ok(_) => if !switch.enabled {
                TtsSwitchStep::Suspend
            } else if switch.runtime_loaded {
                TtsSwitchStep::Resume { adopted: None }
            } else {
                TtsSwitchStep::Resume { adopted: proposed }
            },
        },
        TtsSwitchEvent::Resumed { result } => match result {
            Err(error) => TtsSwitchStep::Refuse {
                error: concat2("failed to resume local tts audio output: ", error.as_str()),
            },
            Ok(_) => TtsSwitchStep::Publish { unload: false },
        },
        TtsSwitchEvent::Suspended { result } => match result {
            Err(error) => TtsSwitchStep::Refuse {
                error: concat2("failed to suspend local tts audio output: ", error.as_str()),
            },
            Ok(_) => TtsSwitchStep::Stop,
        },
        TtsSwitchEvent::Stopped { result } => match result {
            Err(error) => TtsSwitchStep::Refuse {
                error: concat2("failed to cancel local tts playback: ", error.as_str()),
            },
            Ok(_) => TtsSwitchStep::Publish { unload: true },
        },
    }
}

/// The rate that spoken answers have: that of the runtime, or the configured one where there is
/// no runtime.
pub fn switched_sample_rate_hz(runtime: &Option<LocalTtsRuntime>, configured: u32) -> (rate: u32)
    ensures
        rate == (match *runtime {
            Some(loaded) => loaded.sample_rate_hz,
            None => configured,
        }),
{
    match runtime {
        Some(loaded) => loaded.sample_rate_hz(),
        None => configured,
    }
}

/// Nothing that can be heard changes before the choice was stored, and a switch that a later one
/// overtook, or whose choice could not be stored, leaves no runtime behind.
pub proof fn law_switches_are_stored_before_they_are_made(switch: TtsSwitch, event: TtsSwitchEvent)
    ensures
        switch.next(event) is Resume || switch.next(event) is Suspend ==> (
        event matches TtsSwitchEvent::Stored { result, .. } && result is Ok),
        (event matches TtsSwitchEvent::Prepared { result: Ok(made), current } && !current) ==> (
        switch.next(event) matches TtsSwitchView::Discard { proposed, .. } && proposed
            == event->Prepared_result->Ok_0),
        (event matches TtsSwitchEvent::Stored { result, .. } && result is Err) ==> (switch.next(
            event,
        ) matches TtsSwitchView::Discard { proposed, .. } && proposed == event->Stored_proposed),
{
}

/// A runtime is made only where spoken answers are switched on without one, and unloaded only
/// where they are switched off.
pub proof fn law_runtimes_follow_the_switch(switch: TtsSwitch, event: TtsSwitchEvent)
    ensures
        switch.next(TtsSwitchEvent::Requested) == (TtsSwitchView::Prepare {
            make_runtime: switch.enabled && !switch.runtime_loaded,
        }),
        switch.next(event) is Suspend ==> !switch.enabled,
        switch.next(event) is Resume ==> switch.enabled,
        switch.next(event) == (TtsSwitchView::Publish { unload: true }) ==> event is Stopped,
        switch.next(event) == (TtsSwitchView::Publish { unload: false }) ==> event is Resumed,
{
}

/// Switching spoken answers on stores the choice, takes the new runtime into use where there was
/// none, and lets sound be heard; switching them off stores the choice, holds sound back, stops
/// what is being spoken, and unloads the runtime. Each step follows the one before it.
pub proof fn law_switches_go_all_the_way(
    switch: TtsSwitch,
    proposed: Option<LocalTtsRuntime>,
)
    ensures
        switch.next(TtsSwitchEvent::Prepared { result: Ok(proposed), current: true })
            == (TtsSwitchView::Store { proposed }),
        ({
            let stored = switch.next(TtsSwitchEvent::Stored { proposed, result: Ok(()) });
            &&& switch.enabled && switch.runtime_loaded ==> stored == (TtsSwitchView::Resume {
                adopted: None,
            })
            &&& switch.enabled && !switch.runtime_loaded ==> stored == (TtsSwitchView::Resume {
                adopted: proposed,
            })
            &&& !switch.enabled <==> stored is Suspend
        }),
        switch.next(TtsSwitchEvent::Resumed { result: Ok(()) }) == (TtsSwitchView::Publish {
            unload: false,
        }),
        switch.next(TtsSwitchEvent::Suspended { result: Ok(()) }) is Stop,
        switch.next(TtsSwitchEvent::Stopped { result: Ok(()) }) == (TtsSwitchView::Publish {
            unload: true,
        }),
{
}

/// A step that fails gives the switch up and says which step it was; a switch that a later one
/// overtook, or whose choice could not be stored, gives back the runtime that was made for it.
pub proof fn law_failed_switches_say_why(
    switch: TtsSwitch,
    proposed: Option<LocalTtsRuntime>,
    error: String,
    current: bool,
)
    ensures
        switch.next(TtsSwitchEvent::Prepared { result: Err(error), current })
            == (TtsSwitchView::Refuse { error: error@ }),
        switch.next(TtsSwitchEvent::Prepared { result: Ok(proposed), current: false })
            == (TtsSwitchView::Discard {
            proposed,
            error: "local tts operation was superseded"@,
        }),
        switch.next(TtsSwitchEvent::Stored { proposed, result: Err(error) })
            == (TtsSwitchView::Discard { proposed, error: error@ }),
        switch.next(TtsSwitchEvent::Resumed { result: Err(error) }) == (TtsSwitchView::Refuse {
            error: "failed to resume local tts audio output: "@ + error@,
        }),
        switch.next(TtsSwitchEvent::Suspended { result: Err(error) }) == (TtsSwitchView::Refuse {
            error: "failed to suspend local tts audio output: "@ + error@,
        }),
        switch.next(TtsSwitchEvent::Stopped { result: Err(error) }) == (TtsSwitchView::Refuse {
            error: "failed to cancel local tts playback: "@ + error@,
        }),
{
}

} // verus!
