//! A small, runtime-independent scheduler for live transcription snapshots.

use crate::counters;
use vstd::prelude::*;

verus! {

pub type VoiceSessionId = u64;

/// What the caller has to do next.
#[derive(Clone, Debug, PartialEq)]
pub enum PartialTranscriptionAction<S> {
    StartSnapshot { session_id: VoiceSessionId, revision: u64, samples: Vec<S> },
    PublishText { session_id: VoiceSessionId, revision: u64, text: String },
    Ignore,
}

/// When a snapshot is worth taking, and how much of it is copied.
#[derive(Clone, Copy, Debug)]
pub struct PartialTranscriptionConfig {
    pub minimum_samples: usize,
    pub throttle_ms: u64,
    pub maximum_copied_samples: usize,
}

/// A copy of the newest samples of a voice session.
#[derive(Clone, Debug)]
pub struct Snapshot<S> {
    pub session_id: VoiceSessionId,
    pub revision: u64,
    pub samples: Vec<S>,
}

/// Decides which snapshot is transcribed next and which text is shown.
pub struct PartialTranscriptionScheduler<S> {
    pub config: PartialTranscriptionConfig,
    pub session_id: Option<VoiceSessionId>,
    pub next_revision: u64,
    pub in_flight: Option<Snapshot<S>>,
    pub pending: Option<Snapshot<S>>,
    pub pending_updated_ms: Option<u64>,
    pub last_started_ms: Option<u64>,
}

/// A snapshot by its contents.
#[verifier::ext_equal]
pub struct SnapshotView<S> {
    pub session_id: VoiceSessionId,
    pub revision: u64,
    pub samples: Seq<S>,
}

/// A scheduler by its contents.
#[verifier::ext_equal]
pub struct SchedulerView<S> {
    pub config: PartialTranscriptionConfig,
    pub session_id: Option<VoiceSessionId>,
    pub next_revision: u64,
    pub in_flight: Option<SnapshotView<S>>,
    pub pending: Option<SnapshotView<S>>,
    pub pending_updated_ms: Option<u64>,
    pub last_started_ms: Option<u64>,
}

/// An action by its contents.
#[verifier::ext_equal]
pub enum ActionView<S> {
    StartSnapshot(SnapshotView<S>),
    PublishText { session_id: VoiceSessionId, revision: u64, text: Seq<char> },
    Ignore,
}

impl<S> View for Snapshot<S> {
    type V = SnapshotView<S>;

    open spec fn view(&self) -> SnapshotView<S> {
        SnapshotView {
            session_id: self.session_id,
            revision: self.revision,
            samples: self.samples@,
        }
    }
}

/// An optional snapshot by its contents.
pub open spec fn snapshot_view<S>(snapshot: Option<Snapshot<S>>) -> Option<SnapshotView<S>> {
    match snapshot {
        Some(present) => Some(present@),
        None => None,
    }
}

impl<S> View for PartialTranscriptionScheduler<S> {
    type V = SchedulerView<S>;

    open spec fn view(&self) -> SchedulerView<S> {
        SchedulerView {
            config: self.config,
            session_id: self.session_id,
            next_revision: self.next_revision,
            in_flight: snapshot_view(self.in_flight),
            pending: snapshot_view(self.pending),
            pending_updated_ms: self.pending_updated_ms,
            last_started_ms: self.last_started_ms,
        }
    }
}

impl<S> View for PartialTranscriptionAction<S> {
    type V = ActionView<S>;

    open spec fn view(&self) -> ActionView<S> {
        match *self {
            PartialTranscriptionAction::StartSnapshot {
                session_id,
                revision,
                samples,
            } => ActionView::StartSnapshot(
                SnapshotView { session_id, revision, samples: samples@ },
            ),
            PartialTranscriptionAction::PublishText {
                session_id,
                revision,
                text,
            } => ActionView::PublishText { session_id, revision, text: text@ },
            PartialTranscriptionAction::Ignore => ActionView::Ignore,
        }
    }
}

/// The time from `start` to `now`, and zero where the clock went back.
pub open spec fn elapsed(now: u64, start: u64) -> int {
    if now >= start {
        now - start
    } else {
        0
    }
}

/// Whether less than the throttle has passed since `start`; nothing is throttled before the first
/// start.
pub open spec fn throttled(now: u64, start: Option<u64>, throttle_ms: u64) -> bool {
    start is Some && elapsed(now, start->0) < throttle_ms
}

/// The newest samples, as many as may be copied.
pub open spec fn newest<S>(samples: Seq<S>, maximum: usize) -> Seq<S> {
    if samples.len() > maximum {
        samples.skip(samples.len() - maximum)
    } else {
        samples
    }
}

impl<S> SchedulerView<S> {
    /// The scheduler that has just started `snapshot`.
    pub open spec fn started(self, snapshot: SnapshotView<S>, now_ms: u64) -> SchedulerView<S> {
        SchedulerView {
            in_flight: Some(snapshot),
            pending: None,
            pending_updated_ms: None,
            last_started_ms: Some(now_ms),
            ..self
        }
    }

    /// Whether a request is worth a copy: in a session, with enough samples, and not right after
    /// the copy that waits already.
    pub open spec fn copies(self, now_ms: u64, samples: Seq<S>) -> bool {
        &&& self.session_id is Some
        &&& samples.len() >= self.config.minimum_samples
        &&& self.pending is Some ==> !throttled(
            now_ms,
            if self.in_flight is Some {
                self.pending_updated_ms
            } else {
                self.last_started_ms
            },
            self.config.throttle_ms,
        )
    }

    /// The copy that a request makes.
    pub open spec fn copy(self, samples: Seq<S>) -> SnapshotView<S> {
        SnapshotView {
            session_id: self.session_id->0,
            revision: counters::next_number(self.next_revision),
            samples: newest(samples, self.config.maximum_copied_samples),
        }
    }

    /// Whether a copy has to wait: while another one is transcribed, and right after one was
    /// started.
    pub open spec fn waits(self, now_ms: u64) -> bool {
        self.in_flight is Some || throttled(now_ms, self.last_started_ms, self.config.throttle_ms)
    }

    /// The scheduler after a request.
    pub open spec fn requested(self, now_ms: u64, samples: Seq<S>) -> SchedulerView<S> {
        if !self.copies(now_ms, samples) {
            self
        } else {
            let snapshot = self.copy(samples);
            let counted = SchedulerView { next_revision: snapshot.revision, ..self };
            if self.waits(now_ms) {
                SchedulerView {
                    pending: Some(snapshot),
                    pending_updated_ms: Some(now_ms),
                    ..counted
                }
            } else {
                counted.started(snapshot, now_ms)
            }
        }
    }

    /// What the caller has to do after a request.
    pub open spec fn request_action(self, now_ms: u64, samples: Seq<S>) -> ActionView<S> {
        if self.copies(now_ms, samples) && !self.waits(now_ms) {
            ActionView::StartSnapshot(self.copy(samples))
        } else {
            ActionView::Ignore
        }
    }

    /// Whether a result is the one of the snapshot that is being transcribed.
    pub open spec fn expects(self, session_id: VoiceSessionId, revision: u64) -> bool {
        self.in_flight is Some && self.in_flight->0.session_id == session_id
            && self.in_flight->0.revision == revision
    }

    /// Whether the waiting copy may start.
    pub open spec fn pending_due(self, now_ms: u64) -> bool {
        self.pending is Some && elapsed(
            now_ms,
            if self.last_started_ms is Some {
                self.last_started_ms->0
            } else {
                0
            },
        ) >= self.config.throttle_ms
    }

    /// The scheduler after a result.
    pub open spec fn completed(
        self,
        now_ms: u64,
        session_id: VoiceSessionId,
        revision: u64,
    ) -> SchedulerView<S> {
        if !self.expects(session_id, revision) {
            self
        } else if self.pending_due(now_ms) {
            self.started(self.pending->0, now_ms)
        } else {
            SchedulerView { in_flight: None, ..self }
        }
    }

    /// What the caller has to do after a result: start the waiting copy where it may start, else
    /// show the text where it is one of this session and no newer copy waits.
    pub open spec fn completion_action(
        self,
        now_ms: u64,
        session_id: VoiceSessionId,
        revision: u64,
        text: Seq<char>,
    ) -> ActionView<S> {
        if !self.expects(session_id, revision) {
            ActionView::Ignore
        } else if self.pending_due(now_ms) {
            ActionView::StartSnapshot(self.pending->0)
        } else if self.session_id == Some(session_id) && self.pending is None {
            ActionView::PublishText { session_id, revision, text }
        } else {
            ActionView::Ignore
        }
    }

    /// The scheduler in a new session.
    pub open spec fn in_session(self, session_id: VoiceSessionId) -> SchedulerView<S> {
        SchedulerView {
            session_id: Some(session_id),
            pending: None,
            pending_updated_ms: None,
            last_started_ms: None,
            ..self
        }
    }

    /// The scheduler outside any session.
    pub open spec fn outside_sessions(self) -> SchedulerView<S> {
        SchedulerView { session_id: None, pending: None, pending_updated_ms: None, ..self }
    }

    /// What holds of every scheduler: no snapshot has a revision that was not given out, one that
    /// waits is not older than the one being transcribed and belongs to the current session, and
    /// none holds more samples than may be copied.
    pub open spec fn well_formed(self) -> bool {
        &&& self.config.maximum_copied_samples > 0
        &&& self.in_flight is Some ==> self.in_flight->0.revision <= self.next_revision
            && self.in_flight->0.samples.len() <= self.config.maximum_copied_samples
        &&& self.pending is Some ==> self.pending->0.revision <= self.next_revision
            && self.session_id == Some(self.pending->0.session_id)
            && self.pending->0.samples.len() <= self.config.maximum_copied_samples
        &&& self.in_flight is Some && self.pending is Some ==> self.in_flight->0.revision
            <= self.pending->0.revision && (self.in_flight->0.revision < u64::MAX
            ==> self.in_flight->0.revision < self.pending->0.revision)
    }
}

/// The samples of `samples` from `from` on.
fn copy_from<S: Copy>(samples: &[S], from: usize) -> (copy: Vec<S>)
    requires
        from <= samples.len(),
    ensures
        copy@ == samples@.skip(from as int),
{
    let mut copy: Vec<S> = Vec::new();
    let mut i: usize = from;
    while i < samples.len()
        invariant
            from <= i <= samples.len(),
            copy@ == samples@.subrange(from as int, i as int),
        decreases samples.len() - i,
    {
        copy.push(samples[i]);
        i += 1;
    }
    proof {
        assert(samples@.subrange(from as int, samples@.len() as int) == samples@.skip(
            from as int,
        ));
    }
    copy
}

fn is_throttled(now: u64, start: Option<u64>, throttle_ms: u64) -> (result: bool)
    ensures
        result == throttled(now, start, throttle_ms),
{
    match start {
        Some(started) => now.saturating_sub(started) < throttle_ms,
        None => false,
    }
}

impl<S: Copy> PartialTranscriptionScheduler<S> {
    /// A scheduler outside any session.
    pub fn new(config: PartialTranscriptionConfig) -> (scheduler: Self)
        requires
            config.maximum_copied_samples > 0,
        ensures
            scheduler@ == (SchedulerView::<S> {
                config,
                session_id: None,
                next_revision: 0,
                in_flight: None,
                pending: None,
                pending_updated_ms: None,
                last_started_ms: None,
            }),
            scheduler@.well_formed(),
    {
        PartialTranscriptionScheduler {
            config,
            session_id: None,
            next_revision: 0,
            in_flight: None,
            pending: None,
            pending_updated_ms: None,
            last_started_ms: None,
        }
    }

    /// Begins a voice session; what waited for the previous one is dropped.
    pub fn start_session(&mut self, session_id: VoiceSessionId)
        ensures
            final(self)@ == old(self)@.in_session(session_id),
    {
        self.session_id = Some(session_id);
        self.pending = None;
        self.pending_updated_ms = None;
        self.last_started_ms = None;
    }

    /// Ends the voice session; what waited is dropped.
    pub fn reset(&mut self)
        ensures
            final(self)@ == old(self)@.outside_sessions(),
    {
        self.session_id = None;
        self.pending = None;
        self.pending_updated_ms = None;
    }

    /// Ends the voice session because its utterance is complete.
    pub fn finalize(&mut self)
        ensures
            final(self)@ == old(self)@.outside_sessions(),
    {
        self.reset();
    }

    /// Offers the samples heard so far for a snapshot.
    pub fn request_snapshot(&mut self, now_ms: u64, samples: &[S]) -> (action:
        PartialTranscriptionAction<S>)
        ensures
            final(self)@ == old(self)@.requested(now_ms, samples@),
            action@ == old(self)@.request_action(now_ms, samples@),
    {
        let session_id: u64 = match self.session_id {
            Some(session_id) => session_id,
            None => {
                return PartialTranscriptionAction::Ignore;
            },
        };
        if samples.len() < self.config.minimum_samples {
            return PartialTranscriptionAction::Ignore;
        }
        if self.pending.is_some() {
            let copy_throttle_started = if self.in_flight.is_some() {
                self.pending_updated_ms
            } else {
                self.last_started_ms
            };
            if is_throttled(now_ms, copy_throttle_started, self.config.throttle_ms) {
                return PartialTranscriptionAction::Ignore;
            }
        }
        let from: usize = samples.len().saturating_sub(self.config.maximum_copied_samples);
        let snapshot = Snapshot {
            session_id,
            revision: self.next_revision.saturating_add(1),
            samples: copy_from(samples, from),
        };
        proof {
            assert(samples@.skip(0) == samples@);
            assert(snapshot@ == self@.copy(samples@));
        }
        self.next_revision = snapshot.revision;
        if self.in_flight.is_some() || is_throttled(
            now_ms,
            self.last_started_ms,
            self.config.throttle_ms,
        ) {
            self.pending = Some(snapshot);
            self.pending_updated_ms = Some(now_ms);
            return PartialTranscriptionAction::Ignore;
        }
        self.pending = None;
        self.pending_updated_ms = None;
        self.start(snapshot, now_ms)
    }

    /// Reports the text of a snapshot.
    pub fn complete(
        &mut self,
        now_ms: u64,
        session_id: VoiceSessionId,
        revision: u64,
        text: String,
    ) -> (action: PartialTranscriptionAction<S>)
        ensures
            final(self)@ == old(self)@.completed(now_ms, session_id, revision),
            action@ == old(self)@.completion_action(now_ms, session_id, revision, text@),
    {
        let expected = match &self.in_flight {
            Some(active) => active.session_id == session_id && active.revision == revision,
            None => false,
        };
        if !expected {
            return PartialTranscriptionAction::Ignore;
        }
        self.in_flight = None;
        let started: u64 = match self.last_started_ms {
            Some(started) => started,
            None => 0,
        };
        let due = now_ms.saturating_sub(started) >= self.config.throttle_ms;
        match self.pending.take() {
            Some(pending) => {
                if due {
                    return self.start(pending, now_ms);
                }
                // A newer snapshot is pending; never publish the completed older revision.
                self.pending = Some(pending);
                PartialTranscriptionAction::Ignore
            },
            None => {
                let current = match self.session_id {
                    Some(current) => current == session_id,
                    None => false,
                };
                if current {
                    PartialTranscriptionAction::PublishText { session_id, revision, text }
                } else {
                    PartialTranscriptionAction::Ignore
                }
            },
        }
    }

    fn start(&mut self, snapshot: Snapshot<S>, now_ms: u64) -> (action: PartialTranscriptionAction<
        S,
    >)
        requires
            old(self).pending is None,
        ensures
            final(self)@ == old(self)@.started(snapshot@, now_ms),
            action@ == ActionView::<S>::StartSnapshot(snapshot@),
    {
        let samples = copy_from(snapshot.samples.as_slice(), 0);
        proof {
            assert(snapshot.samples@.skip(0) == snapshot.samples@);
        }
        let action = PartialTranscriptionAction::StartSnapshot {
            session_id: snapshot.session_id,
            revision: snapshot.revision,
            samples,
        };
        self.in_flight = Some(snapshot);
        self.pending_updated_ms = None;
        self.last_started_ms = Some(now_ms);
        action
    }
}

/// How many samples a voice session needs before the first snapshot.
pub const PARTIAL_TRANSCRIPTION_MINIMUM_SAMPLES: usize = 8000;

/// How many samples a snapshot holds at most.
pub const PARTIAL_TRANSCRIPTION_MAXIMUM_SAMPLES: usize = 480000;

/// How many milliseconds lie between the starts of two snapshots.
pub const PARTIAL_TRANSCRIPTION_THROTTLE_MS: u64 = 350;

/// The scheduler of the application.
pub fn new_partial_transcription_scheduler<S: Copy>() -> (scheduler: PartialTranscriptionScheduler<
    S,
>)
    ensures
        scheduler@ == (SchedulerView::<S> {
            config: PartialTranscriptionConfig {
                minimum_samples: 8000,
                throttle_ms: 350,
                maximum_copied_samples: 480000,
            },
            session_id: None,
            next_revision: 0,
            in_flight: None,
            pending: None,
            pending_updated_ms: None,
            last_started_ms: None,
        }),
        scheduler@.well_formed(),
{
    PartialTranscriptionScheduler::new(
        PartialTranscriptionConfig {
            minimum_samples: PARTIAL_TRANSCRIPTION_MINIMUM_SAMPLES,
            throttle_ms: PARTIAL_TRANSCRIPTION_THROTTLE_MS,
            maximum_copied_samples: PARTIAL_TRANSCRIPTION_MAXIMUM_SAMPLES,
        },
    )
}

/// Every operation leads a well-formed scheduler to a well-formed one.
pub proof fn law_schedulers_stay_well_formed<S>(
    scheduler: SchedulerView<S>,
    now_ms: u64,
    samples: Seq<S>,
    session_id: VoiceSessionId,
    revision: u64,
)
    requires
        scheduler.well_formed(),
    ensures
        scheduler.requested(now_ms, samples).well_formed(),
        scheduler.completed(now_ms, session_id, revision).well_formed(),
        scheduler.in_session(session_id).well_formed(),
        scheduler.outside_sessions().well_formed(),
{
}

/// Text is shown only for the snapshot that was being transcribed, only in the session it was
/// taken in, and never while a newer snapshot waits.
pub proof fn law_shown_text_is_current<S>(
    scheduler: SchedulerView<S>,
    now_ms: u64,
    session_id: VoiceSessionId,
    revision: u64,
    text: Seq<char>,
)
    requires
        scheduler.well_formed(),
        scheduler.completion_action(now_ms, session_id, revision, text) is PublishText,
    ensures
        scheduler.completion_action(now_ms, session_id, revision, text)
            == (ActionView::<S>::PublishText { session_id, revision, text }),
        scheduler.expects(session_id, revision),
        scheduler.session_id == Some(session_id),
        scheduler.pending is None,
        scheduler.completed(now_ms, session_id, revision).in_flight is None,
{
}

/// After a session has ended no text of it is shown, whatever arrives.
pub proof fn law_ended_sessions_show_nothing<S>(
    scheduler: SchedulerView<S>,
    now_ms: u64,
    session_id: VoiceSessionId,
    revision: u64,
    text: Seq<char>,
    other: VoiceSessionId,
)
    ensures
        !(scheduler.outside_sessions().completion_action(now_ms, session_id, revision, text)
            is PublishText),
        other != session_id ==> !(scheduler.in_session(other).completion_action(
            now_ms,
            session_id,
            revision,
            text,
        ) is PublishText),
{
}

/// A snapshot that starts is the only one being transcribed, has a revision that is newer than
/// every one that started before, holds the newest samples only, and starts no sooner after the
/// previous start than the throttle allows.
pub proof fn law_starts_are_fresh_bounded_and_throttled<S>(
    scheduler: SchedulerView<S>,
    now_ms: u64,
    samples: Seq<S>,
)
    requires
        scheduler.well_formed(),
        scheduler.request_action(now_ms, samples) is StartSnapshot,
    ensures
        scheduler.in_flight is None,
        scheduler.requested(now_ms, samples).in_flight == Some(
            scheduler.request_action(now_ms, samples)->StartSnapshot_0,
        ),
        scheduler.requested(now_ms, samples).pending is None,
        scheduler.next_revision < u64::MAX ==> scheduler.request_action(
            now_ms,
            samples,
        )->StartSnapshot_0.revision > scheduler.next_revision,
        scheduler.request_action(now_ms, samples)->StartSnapshot_0.samples.len()
            <= scheduler.config.maximum_copied_samples,
        scheduler.request_action(now_ms, samples)->StartSnapshot_0.samples.is_suffix_of(samples),
        !throttled(now_ms, scheduler.last_started_ms, scheduler.config.throttle_ms),
{
}

/// A snapshot that starts after a result is the one that waited; it is newer than the one whose
/// result came.
pub proof fn law_waiting_snapshot_supersedes<S>(
    scheduler: SchedulerView<S>,
    now_ms: u64,
    session_id: VoiceSessionId,
    revision: u64,
    text: Seq<char>,
)
    requires
        scheduler.well_formed(),
        scheduler.completion_action(now_ms, session_id, revision, text) is StartSnapshot,
    ensures
        scheduler.completion_action(now_ms, session_id, revision, text)
            == ActionView::<S>::StartSnapshot(scheduler.pending->0),
        scheduler.session_id == Some(scheduler.pending->0.session_id),
        revision < u64::MAX ==> revision < scheduler.pending->0.revision,
        scheduler.completed(now_ms, session_id, revision).in_flight == scheduler.pending,
        scheduler.completed(now_ms, session_id, revision).pending is None,
{
}

/// Requests that come while a snapshot is transcribed leave one copy waiting: the newest one that
/// was made, under the newest revision.
pub proof fn law_busy_requests_coalesce<S>(
    scheduler: SchedulerView<S>,
    now_ms: u64,
    samples: Seq<S>,
)
    requires
        scheduler.in_flight is Some,
    ensures
        scheduler.request_action(now_ms, samples) is Ignore,
        scheduler.requested(now_ms, samples).in_flight == scheduler.in_flight,
        scheduler.copies(now_ms, samples) ==> scheduler.requested(now_ms, samples).pending == Some(
            scheduler.copy(samples),
        ) && scheduler.requested(now_ms, samples).next_revision == counters::next_number(
            scheduler.next_revision,
        ),
        !scheduler.copies(now_ms, samples) ==> scheduler.requested(now_ms, samples) == scheduler,
{
}

/// Whether `now` is sooner after `start` than the throttle allows.
pub open spec fn too_soon(now_ms: u64, start_ms: u64, throttle_ms: u64) -> bool {
    throttle_ms > 0 && now_ms < start_ms + throttle_ms
}

/// The text of the snapshot that was transcribed is shown, word for word, whenever its session
/// goes on and no newer snapshot waits, whatever the time is. Where one waits, that one is started
/// once the throttle allows it, and waits on until then. A result that nobody waits for changes
/// nothing.
pub proof fn law_current_results_are_shown<S>(
    scheduler: SchedulerView<S>,
    now_ms: u64,
    session_id: VoiceSessionId,
    revision: u64,
    text: Seq<char>,
)
    ensures
        ({
            let action = scheduler.completion_action(now_ms, session_id, revision, text);
            let after = scheduler.completed(now_ms, session_id, revision);
            let awaited = scheduler.in_flight matches Some(snapshot) && snapshot.session_id
                == session_id && snapshot.revision == revision;
            let started_ms: u64 = match scheduler.last_started_ms {
                Some(started) => started,
                None => 0,
            };
            let due = !too_soon(now_ms, started_ms, scheduler.config.throttle_ms);
            &&& !awaited ==> action is Ignore && after == scheduler
            &&& awaited && scheduler.pending is None && scheduler.session_id == Some(session_id)
                <==> action == (ActionView::<S>::PublishText { session_id, revision, text })
            &&& awaited && scheduler.pending is Some && due <==> action
                == ActionView::StartSnapshot(scheduler.pending->0) && scheduler.pending is Some
            &&& awaited && scheduler.pending is Some && due ==> {
                &&& after.in_flight == scheduler.pending
                &&& after.pending is None
                &&& after.pending_updated_ms is None
                &&& after.last_started_ms == Some(now_ms)
            }
            &&& awaited && !(scheduler.pending is Some && due) ==> {
                &&& after.in_flight is None
                &&& after.pending == scheduler.pending
                &&& after.pending_updated_ms == scheduler.pending_updated_ms
                &&& after.last_started_ms == scheduler.last_started_ms
            }
            &&& awaited && scheduler.pending is Some && !due ==> action is Ignore
            &&& awaited && scheduler.session_id != Some(session_id) && scheduler.pending is None
                ==> action is Ignore
            &&& after.session_id == scheduler.session_id
            &&& after.next_revision == scheduler.next_revision
            &&& after.config == scheduler.config
        }),
{
}

/// A request for a snapshot is taken exactly where a session goes on, enough was said, and no
/// snapshot that waits was made just now. What is taken holds the newest samples under the next
/// revision; it starts at once where nothing is transcribed and the throttle allows it, and waits
/// in the place of the one before otherwise.
pub proof fn law_snapshots_are_taken_while_somebody_speaks<S>(
    scheduler: SchedulerView<S>,
    now_ms: u64,
    samples: Seq<S>,
)
    ensures
        ({
            let action = scheduler.request_action(now_ms, samples);
            let after = scheduler.requested(now_ms, samples);
            let since: Option<u64> = if scheduler.in_flight is Some {
                scheduler.pending_updated_ms
            } else {
                scheduler.last_started_ms
            };
            let again = scheduler.pending is Some && (since matches Some(start) && too_soon(
                now_ms,
                start,
                scheduler.config.throttle_ms,
            ));
            let taken = scheduler.session_id is Some && samples.len()
                >= scheduler.config.minimum_samples && !again;
            let busy = scheduler.in_flight is Some || (scheduler.last_started_ms matches Some(start)
                && too_soon(now_ms, start, scheduler.config.throttle_ms));
            let made = if busy {
                after.pending
            } else {
                after.in_flight
            };
            let kept = if samples.len() <= scheduler.config.maximum_copied_samples {
                samples.len() as int
            } else {
                scheduler.config.maximum_copied_samples as int
            };
            &&& !taken ==> action is Ignore && after == scheduler
            &&& taken ==> {
                &&& made is Some
                &&& Some(made->0.session_id) == scheduler.session_id
                &&& scheduler.next_revision < u64::MAX ==> made->0.revision
                    == scheduler.next_revision + 1
                &&& made->0.samples == samples.subrange(
                    samples.len() - kept,
                    samples.len() as int,
                )
                &&& after.next_revision == made->0.revision
            }
            &&& taken && !busy ==> {
                &&& action == ActionView::StartSnapshot(made->0)
                &&& after.pending is None
                &&& after.pending_updated_ms is None
                &&& after.last_started_ms == Some(now_ms)
            }
            &&& taken && busy ==> {
                &&& action is Ignore
                &&& after.in_flight == scheduler.in_flight
                &&& after.pending_updated_ms == Some(now_ms)
                &&& after.last_started_ms == scheduler.last_started_ms
            }
            &&& after.session_id == scheduler.session_id
            &&& after.config == scheduler.config
        }),
{
    if samples.len() > scheduler.config.maximum_copied_samples {
        let n = scheduler.config.maximum_copied_samples as int;
        assert(samples.skip(samples.len() - n) == samples.subrange(
            samples.len() - n,
            samples.len() as int,
        ));
    } else {
        assert(samples.subrange(0, samples.len() as int) == samples);
    }
}

/// A session that begins forgets what waited and when anything started, and one that ends forgets
/// what waited; what is being transcribed, and the revisions, go on.
pub proof fn law_sessions_forget_what_waited<S>(
    scheduler: SchedulerView<S>,
    session_id: VoiceSessionId,
)
    ensures
        ({
            let begun = scheduler.in_session(session_id);
            let over = scheduler.outside_sessions();
            &&& begun.session_id == Some(session_id)
            &&& begun.pending is None && over.pending is None
            &&& begun.pending_updated_ms is None && over.pending_updated_ms is None
            &&& begun.last_started_ms is None
            &&& over.last_started_ms == scheduler.last_started_ms
            &&& over.session_id is None
            &&& begun.in_flight == scheduler.in_flight && over.in_flight == scheduler.in_flight
            &&& begun.next_revision == scheduler.next_revision && over.next_revision
                == scheduler.next_revision
            &&& begun.config == scheduler.config && over.config == scheduler.config
        }),
{
}

} // verus!
