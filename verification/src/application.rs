//! What the application does besides answering: changing its settings, minding the models that
//! are being started, and closing.

use crate::capabilities;
use crate::settings::AssistantSettingsPayload;
use crate::startup;
use crate::startup::{ensure_assistant_settings_available, StartupStatePayload};
use crate::text;
use vstd::prelude::*;
use vstd::string::*;

verus! {

/// What happened to a change of the assistant's settings.
#[derive(Debug, PartialEq, Eq)]
pub enum SettingsEvent {
    /// The change was asked for.
    Requested,
    /// The assistant was handed the new settings, and took them or not.
    Handed { taken: bool },
    /// The new settings were stored, or not.
    Stored { result: Result<(), String> },
}

/// What a change of the assistant's settings does next.
#[derive(Debug, PartialEq, Eq)]
pub enum SettingsStep {
    /// Nothing: the change is refused.
    Refuse { error: String },
    /// Hand the new settings to the assistant.
    Hand,
    /// Store the new settings.
    Store,
    /// Hand the previous settings to the assistant again, and refuse the change.
    TakeBack { error: String },
    /// Give up every answer that was made ahead of a question, and, where `clear_completion` says
    /// so, every completion. The change is made.
    Apply { clear_completion: bool },
}

/// What a change of the assistant's settings does next, by its characters.
#[verifier::ext_equal]
pub ghost enum SettingsView {
    Refuse { error: Seq<char> },
    Hand,
    Store,
    TakeBack { error: Seq<char> },
    Apply { clear_completion: bool },
}

impl View for SettingsStep {
    type V = SettingsView;

    open spec fn view(&self) -> SettingsView {
        match *self {
            SettingsStep::Refuse { error } => SettingsView::Refuse { error: error@ },
            SettingsStep::Hand => SettingsView::Hand,
            SettingsStep::Store => SettingsView::Store,
            SettingsStep::TakeBack { error } => SettingsView::TakeBack { error: error@ },
            SettingsStep::Apply { clear_completion } => SettingsView::Apply { clear_completion },
        }
    }
}

/// Why a change of the assistant's settings is refused from the start, where it is.
pub open spec fn settings_refusal<G>(
    settings: AssistantSettingsPayload,
    previous: AssistantSettingsPayload,
    startup_state: startup::StartupView<G>,
) -> Option<Seq<char>> {
    if startup_state is Error {
        Some("startup is not ready"@)
    } else {
        match capabilities::first_unavailable(
            startup_state.facts().capabilities,
            capabilities::required_capabilities(settings, previous),
        ) {
            None => None,
            Some(id) => Some("assistant capability `"@ + id + "` is unavailable"@),
        }
    }
}

/// What a change of the assistant's settings does after an event.
pub open spec fn settings_step<G>(
    settings: AssistantSettingsPayload,
    previous: AssistantSettingsPayload,
    startup_state: startup::StartupView<G>,
    event: SettingsEvent,
) -> SettingsView {
    match event {
        SettingsEvent::Requested => match settings_refusal(settings, previous, startup_state) {
            Some(error) => SettingsView::Refuse { error },
            None => SettingsView::Hand,
        },
        SettingsEvent::Handed { taken } => if taken {
            SettingsView::Store
        } else {
            SettingsView::Refuse {
                error: "assistant settings cannot change while a prompt is active"@,
            }
        },
        SettingsEvent::Stored { result } => match result {
            Ok(_) => SettingsView::Apply { clear_completion: !settings.completion },
            Err(error) => SettingsView::TakeBack { error: error@ },
        },
    }
}

/// Decides what a change of the assistant's settings does after an event.
pub fn set_assistant_settings<G>(
    settings: &AssistantSettingsPayload,
    previous: &AssistantSettingsPayload,
    startup_state: &StartupStatePayload<G>,
    event: SettingsEvent,
) -> (step: SettingsStep)
    ensures
        step@ == settings_step(*settings, *previous, startup_state@, event),
{
    match event {
        SettingsEvent::Requested => match ensure_assistant_settings_available(
            settings,
            previous,
            startup_state,
        ) {
            Ok(_) => SettingsStep::Hand,
            Err(error) => SettingsStep::Refuse { error },
        },
        SettingsEvent::Handed { taken } => if taken {
            SettingsStep::Store
        } else {
            SettingsStep::Refuse {
                error: "assistant settings cannot change while a prompt is active".to_owned(),
            }
        },
        SettingsEvent::Stored { result } => match result {
            Ok(_) => SettingsStep::Apply { clear_completion: !settings.completion },
            Err(error) => SettingsStep::TakeBack { error },
        },
    }
}

/// Settings that could not be stored are not kept: a change is made only after it was stored.
pub proof fn law_only_stored_settings_are_kept<G>(
    settings: AssistantSettingsPayload,
    previous: AssistantSettingsPayload,
    startup_state: startup::StartupView<G>,
    event: SettingsEvent,
)
    ensures
        settings_step(settings, previous, startup_state, event) is Apply ==> (
        event matches SettingsEvent::Stored { result } && result is Ok),
        (event matches SettingsEvent::Stored { result } && result is Err) ==> settings_step(
            settings,
            previous,
            startup_state,
            event,
        ) is TakeBack,
{
}

/// Settings that change nothing need no capability: after a start that did not fail, they are
/// never refused from the start.
pub proof fn law_unchanged_settings_are_accepted<G>(
    settings: AssistantSettingsPayload,
    startup_state: startup::StartupView<G>,
)
    requires
        !(startup_state is Error),
    ensures
        settings_refusal(settings, settings, startup_state) is None,
{
    assert(capabilities::required_capabilities(settings, settings) =~= seq![]);
}

/// The entries of `entries` whose mark is `wanted`, in order.
pub open spec fn with_mark<T>(entries: Seq<T>, marks: Seq<bool>, wanted: bool) -> Seq<T>
    decreases entries.len(),
{
    if entries.len() == 0 || marks.len() == 0 {
        seq![]
    } else if marks[0] == wanted {
        seq![entries[0]] + with_mark(entries.skip(1), marks.skip(1), wanted)
    } else {
        with_mark(entries.skip(1), marks.skip(1), wanted)
    }
}

/// Notes the start of a model, and hands back the earlier starts that have come to an end.
/// `finished` says of each earlier start whether it has.
pub fn register_llama_startup<T>(registry: &mut Vec<T>, finished: &Vec<bool>, startup: T) -> (ended:
    Vec<T>)
    requires
        finished@.len() == old(registry)@.len(),
    ensures
        ended@ == with_mark(old(registry)@, finished@, true),
        final(registry)@ == with_mark(old(registry)@, finished@, false).push(startup),
{
    let ghost given = registry@;
    let mut pending: Vec<T> = Vec::new();
    std::mem::swap(&mut pending, registry);
    let mut ended: Vec<T> = Vec::new();
    let mut i: usize = 0;
    proof {
        assert(given.skip(0) =~= given);
        assert(finished@.skip(0) =~= finished@);
        assert(with_mark(given, finished@, true) =~= ended@ + with_mark(given, finished@, true));
        assert(with_mark(given, finished@, false) =~= registry@ + with_mark(
            given,
            finished@,
            false,
        ));
    }
    while i < finished.len()
        invariant
            i <= finished@.len(),
            finished@.len() == given.len(),
            pending@ == given.skip(i as int),
            ended@ + with_mark(given.skip(i as int), finished@.skip(i as int), true) == with_mark(
                given,
                finished@,
                true,
            ),
            registry@ + with_mark(given.skip(i as int), finished@.skip(i as int), false)
                == with_mark(given, finished@, false),
        decreases finished@.len() - i,
    {
        let ghost ended_before = ended@;
        let ghost kept_before = registry@;
        proof {
            assert(given.skip(i as int).skip(1) =~= given.skip(i + 1));
            assert(finished@.skip(i as int).skip(1) =~= finished@.skip(i + 1));
            assert(given.skip(i as int)[0] == given[i as int]);
        }
        let entry = pending.remove(0);
        proof {
            assert(pending@ =~= given.skip(i + 1));
        }
        if finished[i] {
            ended.push(entry);
            proof {
                assert(ended_before + (seq![entry] + with_mark(
                    given.skip(i + 1),
                    finished@.skip(i + 1),
                    true,
                )) =~= ended@ + with_mark(given.skip(i + 1), finished@.skip(i + 1), true));
            }
        } else {
            registry.push(entry);
            proof {
                assert(kept_before + (seq![entry] + with_mark(
                    given.skip(i + 1),
                    finished@.skip(i + 1),
                    false,
                )) =~= registry@ + with_mark(given.skip(i + 1), finished@.skip(i + 1), false));
            }
        }
        i += 1;
    }
    proof {
        assert(ended@ + Seq::<T>::empty() =~= ended@);
        assert(registry@ + Seq::<T>::empty() =~= registry@);
    }
    registry.push(startup);
    ended
}

/// Something that is shut down when the application is closed.
#[derive(Clone, Copy, Debug, PartialEq, Eq, Structural)]
pub enum ExitStep {
    Prefetch,
    LlamaStartups,
    LlamaRuntime,
    CompletionRuntime,
    Microphone,
    TtsPlayback,
    TtsRuntime,
    OpencodeServer,
}

/// What is shut down when the application is closed, in order. Everything but the OpenCode server
/// is shut down once only.
pub open spec fn exit_sequence(cleanup_started: bool) -> Seq<ExitStep> {
    if cleanup_started {
        seq![ExitStep::OpencodeServer]
    } else {
        seq![
            ExitStep::Prefetch,
            ExitStep::LlamaStartups,
            ExitStep::LlamaRuntime,
            ExitStep::CompletionRuntime,
            ExitStep::Microphone,
            ExitStep::TtsPlayback,
            ExitStep::TtsRuntime,
            ExitStep::OpencodeServer,
        ]
    }
}

/// Begins to close the application, and says what is shut down, in order.
pub fn begin_exit_cleanup(cleanup_started: &mut bool) -> (steps: Vec<ExitStep>)
    ensures
        steps@ == exit_sequence(*old(cleanup_started)),
        *final(cleanup_started),
{
    let mut steps: Vec<ExitStep> = Vec::new();
    if !*cleanup_started {
        steps.push(ExitStep::Prefetch);
        steps.push(ExitStep::LlamaStartups);
        steps.push(ExitStep::LlamaRuntime);
        steps.push(ExitStep::CompletionRuntime);
        steps.push(ExitStep::Microphone);
        steps.push(ExitStep::TtsPlayback);
        steps.push(ExitStep::TtsRuntime);
    }
    *cleanup_started = true;
    steps.push(ExitStep::OpencodeServer);
    steps
}

/// A change of the settings goes from the request to the assistant, from there to the file, and is
/// then made; what the assistant does not take is refused, and what cannot be stored is taken back.
/// Completions are given up exactly where they were switched off.
pub proof fn law_settings_go_their_way<G>(
    settings: AssistantSettingsPayload,
    previous: AssistantSettingsPayload,
    state: startup::StartupView<G>,
    error: String,
)
    ensures
        ({
            let requested = settings_step(settings, previous, state, SettingsEvent::Requested);
            let refused = startup::settings_admission(settings, previous, state);
            &&& requested is Hand <==> refused is Ok
            &&& refused is Err ==> requested == (SettingsView::Refuse { error: refused->Err_0 })
        }),
        settings_step(settings, previous, state, SettingsEvent::Handed { taken: true }) is Store,
        settings_step(settings, previous, state, SettingsEvent::Handed { taken: false }) == (
        SettingsView::Refuse {
            error: "assistant settings cannot change while a prompt is active"@,
        }),
        settings_step(settings, previous, state, SettingsEvent::Stored { result: Ok(()) }) == (
        SettingsView::Apply { clear_completion: !settings.completion }),
        settings_step(settings, previous, state, SettingsEvent::Stored { result: Err(error) }) == (
        SettingsView::TakeBack { error: error@ }),
{
}

/// Every start is looked at on its own: it goes to those that have ended exactly where it has, and
/// the order stays.
pub proof fn law_starts_are_sorted_one_by_one<T>(
    entries: Seq<T>,
    marks: Seq<bool>,
    entry: T,
    mark: bool,
    wanted: bool,
)
    requires
        entries.len() == marks.len(),
    ensures
        mark == wanted ==> with_mark(entries.push(entry), marks.push(mark), wanted) == with_mark(
            entries,
            marks,
            wanted,
        ).push(entry),
        mark != wanted ==> with_mark(entries.push(entry), marks.push(mark), wanted) == with_mark(
            entries,
            marks,
            wanted,
        ),
        with_mark(Seq::<T>::empty(), Seq::<bool>::empty(), wanted).len() == 0,
    decreases entries.len(),
{
    let longer = entries.push(entry);
    let flags = marks.push(mark);
    if entries.len() == 0 {
        assert(longer.skip(1) =~= Seq::<T>::empty());
        assert(with_mark(longer.skip(1), flags.skip(1), wanted) =~= Seq::<T>::empty());
        if mark == wanted {
            assert(with_mark(longer, flags, wanted) =~= seq![entry]);
            assert(with_mark(entries, marks, wanted).push(entry) =~= seq![entry]);
        }
    } else {
        law_starts_are_sorted_one_by_one(entries.skip(1), marks.skip(1), entry, mark, wanted);
        assert(longer.skip(1) =~= entries.skip(1).push(entry));
        assert(flags.skip(1) =~= marks.skip(1).push(mark));
        let rest = with_mark(entries.skip(1), marks.skip(1), wanted);
        if marks[0] == wanted && mark == wanted {
            assert(seq![entries[0]] + rest.push(entry) =~= (seq![entries[0]] + rest).push(entry));
        }
    }
}

/// Closing shuts down everything once, the OpenCode server last; closing again shuts down the
/// server alone. Sound is stopped before the runtime that makes it.
pub proof fn law_closing_shuts_everything_down(step: ExitStep)
    ensures
        exit_sequence(false).contains(step),
        exit_sequence(false).no_duplicates(),
        exit_sequence(false).last() is OpencodeServer,
        exit_sequence(true) == seq![ExitStep::OpencodeServer],
        exit_sequence(false)[0] is Prefetch,
        exit_sequence(false).index_of(ExitStep::LlamaStartups) < exit_sequence(false).index_of(
            ExitStep::LlamaRuntime,
        ),
        exit_sequence(false).index_of(ExitStep::TtsPlayback) < exit_sequence(false).index_of(
            ExitStep::TtsRuntime,
        ),
{
    let all = exit_sequence(false);
    assert(all[0] == ExitStep::Prefetch);
    assert(all[1] == ExitStep::LlamaStartups);
    assert(all[2] == ExitStep::LlamaRuntime);
    assert(all[3] == ExitStep::CompletionRuntime);
    assert(all[4] == ExitStep::Microphone);
    assert(all[5] == ExitStep::TtsPlayback);
    assert(all[6] == ExitStep::TtsRuntime);
    assert(all[7] == ExitStep::OpencodeServer);
    assert(all.contains(ExitStep::LlamaStartups));
    assert(all.contains(ExitStep::LlamaRuntime));
    assert(all.contains(ExitStep::TtsPlayback));
    assert(all.contains(ExitStep::TtsRuntime));
}

} // verus!
