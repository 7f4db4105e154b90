//! The update session: which operation may run, what it leaves behind, and how installing an
//! update and leaving the application exclude each other.

use crate::counters;
use crate::text::same_text;
use vstd::prelude::*;
use vstd::string::*;

verus! {

/// Where the session stands.
#[derive(Clone, Copy, Debug, PartialEq, Eq, Structural)]
pub enum UpdatePhase {
    Idle,
    Checking,
    UpToDate,
    Unavailable,
    Unsupported,
    Available,
    Downloading,
    Ready,
    Installing,
    RestartRequired,
}

/// The operations that a session runs, one at a time.
#[derive(Clone, Copy, Debug, PartialEq, Eq, Structural)]
pub enum UpdateOperation {
    Check,
    Download,
    Install,
}

/// What the application does about updates on its own account.
#[derive(Clone, Copy, Debug, PartialEq, Eq, Structural)]
pub enum BackgroundWork {
    Nothing,
    Check,
    Download,
}

/// How far an operation has come.
#[derive(Clone, Copy, Debug, PartialEq, Eq, Structural)]
pub enum UpdateProgressPhase {
    Downloading,
    Verifying,
    Installing,
}

/// The kinds of packages in which the application is shipped.
#[derive(Clone, Copy, Debug, PartialEq, Eq, Structural)]
pub enum BundleType {
    Deb,
    Rpm,
    AppImage,
    Msi,
    Nsis,
    App,
    Dmg,
}

/// The session as the user sees it.
#[derive(Clone, Debug, PartialEq, Eq)]
pub struct UpdateSnapshot {
    pub revision: u64,
    pub phase: UpdatePhase,
    pub operation: Option<UpdateOperation>,
    pub current_version: String,
    pub version: Option<String>,
    pub notes: Option<String>,
    pub progress_phase: Option<UpdateProgressPhase>,
    pub downloaded_bytes: u64,
    pub total_bytes: Option<u64>,
    pub error: Option<String>,
    pub reason: Option<&'static str>,
    pub auto_download_enabled: bool,
}

/// What is known of an update.
#[derive(Clone, Debug)]
pub struct UpdateMetadata {
    pub current_version: String,
    pub version: String,
    pub notes: Option<String>,
}

/// The update that the session holds: one that can be downloaded, or one that was downloaded and
/// verified.
pub enum UpdateResource<U> {
    Available { update: U, metadata: UpdateMetadata },
    Ready { update: U, bytes: Vec<u8>, metadata: UpdateMetadata },
}

/// Who has the application to themselves: nobody, an installation, or the exit.
#[derive(Clone, Copy, Debug, PartialEq, Eq, Structural)]
pub enum InstallExitPhase {
    Open,
    InstallationReserved,
    ExitCommitted,
}

/// Keeps an installation and the exit of the application apart.
#[derive(Clone, Copy, Debug, PartialEq, Eq, Structural)]
pub struct InstallExitCoordinator {
    pub phase: InstallExitPhase,
}

impl Default for InstallExitCoordinator {
    fn default() -> (coordinator: Self)
        ensures
            coordinator.phase == InstallExitPhase::Open,
    {
        InstallExitCoordinator { phase: InstallExitPhase::Open }
    }
}

impl InstallExitCoordinator {
    /// The coordinator after an attempt to reserve the application for an installation.
    pub open spec fn reserved(self) -> Self {
        if self.phase is Open {
            InstallExitCoordinator { phase: InstallExitPhase::InstallationReserved }
        } else {
            self
        }
    }

    /// The coordinator after an installation gave the application back.
    pub open spec fn released(self) -> Self {
        if self.phase is InstallationReserved {
            InstallExitCoordinator { phase: InstallExitPhase::Open }
        } else {
            self
        }
    }

    /// The coordinator after a request to leave the application.
    pub open spec fn exit_requested(self) -> Self {
        if self.phase is InstallationReserved {
            self
        } else {
            InstallExitCoordinator { phase: InstallExitPhase::ExitCommitted }
        }
    }

    /// Why the application cannot be reserved for an installation, where it cannot.
    pub open spec fn refusal(self) -> Option<Seq<char>> {
        match self.phase {
            InstallExitPhase::Open => None,
            InstallExitPhase::InstallationReserved => Some(
                "update installation is already reserved"@,
            ),
            InstallExitPhase::ExitCommitted => Some("application exit is already committed"@),
        }
    }

    /// Reserves the application for an installation.
    pub fn reserve_installation(&mut self) -> (result: Result<(), &'static str>)
        ensures
            *final(self) == old(self).reserved(),
            match result {
                Ok(_) => old(self).refusal() is None,
                Err(message) => old(self).refusal() == Some(message@),
            },
    {
        match self.phase {
            InstallExitPhase::Open => {
                self.phase = InstallExitPhase::InstallationReserved;
                Ok(())
            },
            InstallExitPhase::InstallationReserved => Err(
                "update installation is already reserved",
            ),
            InstallExitPhase::ExitCommitted => Err("application exit is already committed"),
        }
    }

    /// Gives the application back after an installation.
    pub fn release_installation(&mut self)
        ensures
            *final(self) == old(self).released(),
    {
        if matches!(self.phase, InstallExitPhase::InstallationReserved) {
            self.phase = InstallExitPhase::Open;
        }
    }

    /// Whether a request to leave the application has to wait; where it has not, the exit is
    /// settled.
    pub fn handle_exit_request(&mut self) -> (prevented: bool)
        ensures
            prevented == (old(self).phase is InstallationReserved),
            *final(self) == old(self).exit_requested(),
    {
        match self.phase {
            InstallExitPhase::InstallationReserved => true,
            InstallExitPhase::Open | InstallExitPhase::ExitCommitted => {
                self.phase = InstallExitPhase::ExitCommitted;
                false
            },
        }
    }
}

/// Installing and leaving exclude each other: while the application is reserved for an
/// installation no exit is settled, and once an exit is settled nothing is reserved any more.
pub proof fn law_installation_and_exit_exclude_each_other(coordinator: InstallExitCoordinator)
    ensures
        coordinator.reserved().phase is InstallationReserved && coordinator.refusal() is None
            ==> coordinator.reserved().exit_requested() == coordinator.reserved(),
        coordinator.exit_requested().phase is ExitCommitted
            ==> coordinator.exit_requested().refusal() is Some
            && coordinator.exit_requested().reserved() == coordinator.exit_requested()
            && coordinator.exit_requested().released() == coordinator.exit_requested(),
        coordinator.refusal() is None ==> coordinator.reserved().released() == coordinator,
{
}

/// The session: its public face, the update it holds, and which operation runs.
pub struct UpdaterSession<U> {
    pub snapshot: UpdateSnapshot,
    pub resource: Option<UpdateResource<U>>,
    pub suppressed_for_session: bool,
    pub next_operation_id: u64,
    pub active_operation_id: Option<u64>,
    pub install_exit: InstallExitCoordinator,
}

/// The snapshot with the next revision.
pub open spec fn bumped(snapshot: UpdateSnapshot) -> UpdateSnapshot {
    UpdateSnapshot { revision: counters::next_number(snapshot.revision), ..snapshot }
}

/// The snapshot without anything that describes an update.
pub open spec fn without_update(snapshot: UpdateSnapshot) -> UpdateSnapshot {
    UpdateSnapshot {
        version: None,
        notes: None,
        progress_phase: None,
        downloaded_bytes: 0,
        total_bytes: None,
        ..snapshot
    }
}

/// The snapshot that describes an update.
pub open spec fn with_update(snapshot: UpdateSnapshot, metadata: UpdateMetadata) -> UpdateSnapshot {
    UpdateSnapshot {
        current_version: metadata.current_version,
        version: Some(metadata.version),
        notes: metadata.notes,
        progress_phase: None,
        downloaded_bytes: 0,
        total_bytes: None,
        ..snapshot
    }
}

impl<U> UpdaterSession<U> {
    /// Why an operation may not start, where it may not.
    pub open spec fn refusal(self, operation: UpdateOperation, manual: bool) -> Option<Seq<char>> {
        if self.snapshot.phase is RestartRequired {
            Some("restart is required before another update operation"@)
        } else if self.active_operation_id is Some {
            Some("another update operation is already running"@)
        } else {
            match operation {
                UpdateOperation::Check => if !manual && self.suppressed_for_session {
                    Some("automatic update checks are deferred for this session"@)
                } else if self.resource is Some {
                    Some("a downloaded or available update is already retained"@)
                } else {
                    None
                },
                UpdateOperation::Download => if self.holds_available() {
                    None
                } else {
                    Some("there is no update available to download"@)
                },
                UpdateOperation::Install => if self.holds_ready() {
                    None
                } else {
                    Some("there is no verified update ready to install"@)
                },
            }
        }
    }

    /// Whether the session holds an update that can be downloaded.
    pub open spec fn holds_available(self) -> bool {
        self.resource is Some && self.resource->0 is Available
    }

    /// Whether the session holds an update that was downloaded and verified.
    pub open spec fn holds_ready(self) -> bool {
        self.resource is Some && self.resource->0 is Ready
    }

    /// The session in which `operation` has just started.
    pub open spec fn started(self, operation: UpdateOperation, manual: bool) -> Self {
        let base = UpdateSnapshot {
            operation: Some(operation),
            error: None,
            reason: None,
            ..self.snapshot
        };
        let snapshot = match operation {
            UpdateOperation::Check => UpdateSnapshot { phase: UpdatePhase::Checking, ..base },
            UpdateOperation::Download => UpdateSnapshot {
                phase: UpdatePhase::Downloading,
                progress_phase: Some(UpdateProgressPhase::Downloading),
                downloaded_bytes: 0,
                total_bytes: None,
                ..base
            },
            UpdateOperation::Install => UpdateSnapshot {
                phase: UpdatePhase::Installing,
                progress_phase: Some(UpdateProgressPhase::Installing),
                ..base
            },
        };
        UpdaterSession {
            snapshot: bumped(snapshot),
            suppressed_for_session: self.suppressed_for_session && !(operation is Check && manual),
            next_operation_id: counters::next_number(self.next_operation_id),
            active_operation_id: Some(counters::next_number(self.next_operation_id)),
            ..self
        }
    }

    /// The session in which the running operation has just ended.
    pub open spec fn ended(self) -> Self {
        UpdaterSession {
            snapshot: bumped(UpdateSnapshot { operation: None, ..self.snapshot }),
            active_operation_id: None,
            ..self
        }
    }

    /// The session after the operation `id` failed; an operation that does not run changes nothing.
    pub open spec fn failed(self, id: u64, message: String) -> Self {
        if self.active_operation_id != Some(id) {
            self
        } else {
            let ended = self.ended();
            UpdaterSession {
                snapshot: UpdateSnapshot {
                    phase: if self.resource is None {
                        UpdatePhase::Idle
                    } else if self.resource->0 is Available {
                        UpdatePhase::Available
                    } else {
                        UpdatePhase::Ready
                    },
                    progress_phase: None,
                    error: Some(message),
                    ..ended.snapshot
                },
                ..ended
            }
        }
    }

    /// The session after a check found out what there is.
    pub open spec fn checked(
        self,
        id: u64,
        update: Option<U>,
        metadata: Option<UpdateMetadata>,
    ) -> Self {
        if self.active_operation_id != Some(id) {
            self
        } else {
            let ended = self.ended();
            UpdaterSession {
                resource: if update is Some && metadata is Some {
                    Some(UpdateResource::Available { update: update->0, metadata: metadata->0 })
                } else {
                    None
                },
                snapshot: match metadata {
                    Some(found) => with_update(
                        UpdateSnapshot { phase: UpdatePhase::Available, ..ended.snapshot },
                        found,
                    ),
                    None => without_update(
                        UpdateSnapshot { phase: UpdatePhase::UpToDate, ..ended.snapshot },
                    ),
                },
                ..ended
            }
        }
    }

    /// The session after a check found that no release is published.
    pub open spec fn unpublished(self, id: u64) -> Self {
        if self.active_operation_id != Some(id) {
            self
        } else {
            let ended = self.ended();
            UpdaterSession {
                resource: None,
                snapshot: without_update(
                    UpdateSnapshot {
                        phase: UpdatePhase::Unavailable,
                        reason: Some("No updater-enabled release is published yet."),
                        error: None,
                        ..ended.snapshot
                    },
                ),
                ..ended
            }
        }
    }

    /// The session on a platform without updates.
    pub open spec fn unsupported(self, reason: &'static str) -> Self {
        UpdaterSession {
            resource: None,
            snapshot: bumped(
                without_update(
                    UpdateSnapshot {
                        phase: UpdatePhase::Unsupported,
                        operation: None,
                        reason: Some(reason),
                        ..self.snapshot
                    },
                ),
            ),
            ..self
        }
    }

    /// Whether a report on a download is one on the download that runs.
    pub open spec fn downloading(self, id: u64) -> bool {
        self.active_operation_id == Some(id) && self.snapshot.operation == Some(
            UpdateOperation::Download,
        )
    }

    /// The session after `chunk` more bytes arrived.
    pub open spec fn progressed(self, id: u64, chunk: usize, total: Option<u64>) -> Self {
        if self.downloading(id) {
            UpdaterSession {
                snapshot: bumped(
                    UpdateSnapshot {
                        downloaded_bytes: if self.snapshot.downloaded_bytes + chunk <= u64::MAX {
                            (self.snapshot.downloaded_bytes + chunk) as u64
                        } else {
                            u64::MAX
                        },
                        total_bytes: total,
                        progress_phase: Some(UpdateProgressPhase::Downloading),
                        ..self.snapshot
                    },
                ),
                ..self
            }
        } else {
            self
        }
    }

    /// The session while what was downloaded is being verified.
    pub open spec fn being_verified(self, id: u64) -> Self {
        if self.active_operation_id == Some(id) {
            UpdaterSession {
                snapshot: bumped(
                    UpdateSnapshot {
                        progress_phase: Some(UpdateProgressPhase::Verifying),
                        ..self.snapshot
                    },
                ),
                ..self
            }
        } else {
            self
        }
    }

    /// The session after the download was verified and kept.
    pub open spec fn downloaded(self, id: u64, bytes: Vec<u8>) -> Self {
        if self.active_operation_id != Some(id) {
            self
        } else {
            let ended = self.ended();
            match self.resource {
                Some(UpdateResource::Available { update, metadata }) => UpdaterSession {
                    snapshot: UpdateSnapshot {
                        phase: UpdatePhase::Ready,
                        progress_phase: None,
                        ..ended.snapshot
                    },
                    resource: Some(UpdateResource::Ready { update, bytes, metadata }),
                    ..ended
                },
                _ => UpdaterSession { resource: None, ..ended },
            }
        }
    }

    /// The session after the user put a verified update off.
    pub open spec fn deferred(self) -> Self {
        UpdaterSession {
            resource: None,
            suppressed_for_session: true,
            snapshot: bumped(
                without_update(
                    UpdateSnapshot {
                        phase: UpdatePhase::Idle,
                        error: None,
                        reason: None,
                        ..self.snapshot
                    },
                ),
            ),
            ..self
        }
    }

    /// Why a verified update cannot be put off, where it cannot.
    pub open spec fn defer_refusal(self) -> Option<Seq<char>> {
        if self.active_operation_id is Some {
            Some("another update operation is already running"@)
        } else if !self.holds_ready() {
            Some("there is no verified update ready to defer"@)
        } else {
            None
        }
    }

    /// A session that knows of no update.
    pub fn new(current_version: String, auto_download_enabled: bool) -> (session: Self)
        ensures
            session.snapshot == (UpdateSnapshot {
                revision: 0,
                phase: UpdatePhase::Idle,
                operation: None,
                current_version,
                version: None,
                notes: None,
                progress_phase: None,
                downloaded_bytes: 0,
                total_bytes: None,
                error: None,
                reason: None,
                auto_download_enabled,
            }),
            session.resource is None,
            !session.suppressed_for_session,
            session.next_operation_id == 0,
            session.active_operation_id is None,
            session.install_exit.phase is Open,
    {
        UpdaterSession {
            snapshot: UpdateSnapshot {
                revision: 0,
                phase: UpdatePhase::Idle,
                operation: None,
                current_version,
                version: None,
                notes: None,
                progress_phase: None,
                downloaded_bytes: 0,
                total_bytes: None,
                error: None,
                reason: None,
                auto_download_enabled,
            },
            resource: None,
            suppressed_for_session: false,
            next_operation_id: 0,
            active_operation_id: None,
            install_exit: InstallExitCoordinator::default(),
        }
    }

    /// Starts an operation and gives it its number, or says why it may not start.
    pub fn reserve(&mut self, operation: UpdateOperation, manual: bool) -> (result: Result<
        u64,
        String,
    >)
        ensures
            match result {
                Ok(id) => {
                    &&& old(self).refusal(operation, manual) is None
                    &&& id == counters::next_number(old(self).next_operation_id)
                    &&& *final(self) == old(self).started(operation, manual)
                },
                Err(message) => {
                    &&& old(self).refusal(operation, manual) == Some(message@)
                    &&& *final(self) == *old(self)
                },
            },
    {
        if self.snapshot.phase == UpdatePhase::RestartRequired {
            return Err("restart is required before another update operation".to_owned());
        }
        if self.active_operation_id.is_some() {
            return Err("another update operation is already running".to_owned());
        }
        match operation {
            UpdateOperation::Check => {
                if !manual && self.suppressed_for_session {
                    return Err("automatic update checks are deferred for this session".to_owned());
                }
                if self.resource.is_some() {
                    return Err("a downloaded or available update is already retained".to_owned());
                }
            },
            UpdateOperation::Download => {
                if !matches!(self.resource, Some(UpdateResource::Available { .. })) {
                    return Err("there is no update available to download".to_owned());
                }
            },
            UpdateOperation::Install => {
                if !matches!(self.resource, Some(UpdateResource::Ready { .. })) {
                    return Err("there is no verified update ready to install".to_owned());
                }
            },
        }
        if operation == UpdateOperation::Check && manual {
            self.suppressed_for_session = false;
        }
        self.next_operation_id = self.next_operation_id.saturating_add(1);
        self.active_operation_id = Some(self.next_operation_id);
        self.snapshot.operation = Some(operation);
        self.snapshot.error = None;
        self.snapshot.reason = None;
        match operation {
            UpdateOperation::Check => {
                self.snapshot.phase = UpdatePhase::Checking;
            },
            UpdateOperation::Download => {
                self.snapshot.phase = UpdatePhase::Downloading;
                self.snapshot.progress_phase = Some(UpdateProgressPhase::Downloading);
                self.snapshot.downloaded_bytes = 0;
                self.snapshot.total_bytes = None;
            },
            UpdateOperation::Install => {
                self.snapshot.phase = UpdatePhase::Installing;
                self.snapshot.progress_phase = Some(UpdateProgressPhase::Installing);
            },
        }
        self.bump();
        Ok(self.next_operation_id)
    }

    /// Ends a check that found an update, or none.
    pub fn finish_check(&mut self, id: u64, update: Option<U>, metadata: Option<UpdateMetadata>)
        ensures
            *final(self) == old(self).checked(id, update, metadata),
    {
        if !self.finish(id) {
            return;
        }
        match metadata {
            Some(found) => {
                self.snapshot.phase = UpdatePhase::Available;
                self.set_metadata(&found);
                self.resource = match update {
                    Some(update) => Some(UpdateResource::Available { update, metadata: found }),
                    None => None,
                };
            },
            None => {
                self.resource = None;
                self.snapshot.phase = UpdatePhase::UpToDate;
                self.clear_update_fields();
            },
        }
    }

    /// Records that this platform has no updates.
    pub fn finish_unsupported(&mut self, reason: &'static str)
        ensures
            *final(self) == old(self).unsupported(reason),
    {
        self.snapshot.phase = UpdatePhase::Unsupported;
        self.snapshot.operation = None;
        self.snapshot.reason = Some(reason);
        self.resource = None;
        self.clear_update_fields();
        self.bump();
    }

    /// Ends a check that found no published release.
    pub fn finish_unavailable(&mut self, id: u64)
        ensures
            *final(self) == old(self).unpublished(id),
    {
        if !self.finish(id) {
            return;
        }
        self.snapshot.phase = UpdatePhase::Unavailable;
        self.snapshot.reason = Some("No updater-enabled release is published yet.");
        self.snapshot.error = None;
        self.resource = None;
        self.clear_update_fields();
    }

    /// Records that `chunk` more bytes arrived, and says whether the session changed.
    pub fn progress(&mut self, id: u64, chunk: usize, total: Option<u64>) -> (changed: bool)
        ensures
            changed == old(self).downloading(id),
            *final(self) == old(self).progressed(id, chunk, total),
    {
        let running = match self.active_operation_id {
            Some(active) => active == id,
            None => false,
        };
        let downloads = match self.snapshot.operation {
            Some(operation) => operation == UpdateOperation::Download,
            None => false,
        };
        if !running || !downloads {
            return false;
        }
        self.snapshot.downloaded_bytes =
        self.snapshot.downloaded_bytes.saturating_add(chunk as u64);
        self.snapshot.total_bytes = total;
        self.snapshot.progress_phase = Some(UpdateProgressPhase::Downloading);
        self.bump();
        true
    }

    /// Records that what was downloaded is being verified, and says whether the session changed.
    pub fn verifying(&mut self, id: u64) -> (changed: bool)
        ensures
            changed == (old(self).active_operation_id == Some(id)),
            *final(self) == old(self).being_verified(id),
    {
        let running = match self.active_operation_id {
            Some(active) => active == id,
            None => false,
        };
        if !running {
            return false;
        }
        self.snapshot.progress_phase = Some(UpdateProgressPhase::Verifying);
        self.bump();
        true
    }

    /// Ends a download whose bytes were verified.
    pub fn finish_download(&mut self, id: u64, bytes: Vec<u8>)
        ensures
            *final(self) == old(self).downloaded(id, bytes),
    {
        if !self.finish(id) {
            return;
        }
        match self.resource.take() {
            Some(UpdateResource::Available { update, metadata }) => {
                self.snapshot.phase = UpdatePhase::Ready;
                self.snapshot.progress_phase = None;
                self.resource = Some(UpdateResource::Ready { update, bytes, metadata });
            },
            _ => {},
        }
    }

    /// Ends an operation that failed; the update that the session holds stays.
    pub fn finish_failure(&mut self, id: u64, message: String)
        ensures
            *final(self) == old(self).failed(id, message),
    {
        if !self.finish(id) {
            return;
        }
        self.snapshot.phase =
        match self.resource {
            Some(UpdateResource::Available { .. }) => UpdatePhase::Available,
            Some(UpdateResource::Ready { .. }) => UpdatePhase::Ready,
            None => UpdatePhase::Idle,
        };
        self.snapshot.progress_phase = None;
        self.snapshot.error = Some(message);
    }

    /// Puts a verified update off for the rest of the session.
    pub fn defer(&mut self) -> (result: Result<(), String>)
        ensures
            match result {
                Ok(_) => old(self).defer_refusal() is None && *final(self)
                    == old(self).deferred(),
                Err(message) => old(self).defer_refusal() == Some(message@) && *final(self)
                    == *old(self),
            },
    {
        if self.active_operation_id.is_some() {
            return Err("another update operation is already running".to_owned());
        }
        if !matches!(self.resource, Some(UpdateResource::Ready { .. })) {
            return Err("there is no verified update ready to defer".to_owned());
        }
        self.resource = None;
        self.suppressed_for_session = true;
        self.snapshot.phase = UpdatePhase::Idle;
        self.snapshot.error = None;
        self.snapshot.reason = None;
        self.clear_update_fields();
        self.bump();
        Ok(())
    }

    /// Switches automatic downloads.
    pub fn set_auto_download(&mut self, enabled: bool)
        ensures
            *final(self) == (UpdaterSession {
                snapshot: bumped(
                    UpdateSnapshot { auto_download_enabled: enabled, ..old(self).snapshot },
                ),
                ..*old(self)
            }),
    {
        self.snapshot.auto_download_enabled = enabled;
        self.bump();
    }

    /// Takes the verified update out of the session, for the operation that runs.
    pub fn take_ready(&mut self, id: u64) -> (taken: Option<(U, Vec<u8>, UpdateMetadata)>)
        ensures
            match taken {
                Some((update, bytes, metadata)) => {
                    &&& old(self).active_operation_id == Some(id)
                    &&& old(self).resource == Some(
                        UpdateResource::Ready { update, bytes, metadata },
                    )
                    &&& *final(self) == (UpdaterSession { resource: None, ..*old(self) })
                },
                None => {
                    &&& *final(self) == *old(self)
                    &&& !(old(self).active_operation_id == Some(id) && old(self).holds_ready())
                },
            },
    {
        let running = match self.active_operation_id {
            Some(active) => active == id,
            None => false,
        };
        if !running {
            return None;
        }
        match self.resource.take() {
            None => None,
            Some(UpdateResource::Ready { update, bytes, metadata }) => Some(
                (update, bytes, metadata),
            ),
            Some(available) => {
                self.resource = Some(available);
                None
            },
        }
    }

    /// Puts a verified update back after an installation that did not happen.
    pub fn restore_ready(
        &mut self,
        id: u64,
        update: U,
        bytes: Vec<u8>,
        metadata: UpdateMetadata,
        error: String,
    )
        ensures
            *final(self) == (UpdaterSession {
                resource: Some(UpdateResource::Ready { update, bytes, metadata }),
                ..*old(self)
            }).failed(id, error),
    {
        self.resource = Some(UpdateResource::Ready { update, bytes, metadata });
        self.finish_failure(id, error);
    }

    /// Ends an installation whose update was lost.
    pub fn finish_unrecoverable_install_failure(&mut self, id: u64, error: String)
        ensures
            *final(self) == (UpdaterSession {
                install_exit: old(self).install_exit.released(),
                resource: None,
                ..*old(self)
            }).failed(id, error),
    {
        self.install_exit.release_installation();
        self.resource = None;
        self.finish_failure(id, error);
    }

    /// Ends an installation after which only a restart helps; `retained_guard` keeps every other
    /// operation out until then.
    pub fn finish_restart_required<G>(
        &mut self,
        id: u64,
        retained_guard: &mut Option<G>,
        guard: G,
        message: String,
    )
        ensures
            *final(self) == old(self).restart_required(id, message),
            *final(retained_guard) == (if old(self).active_operation_id == Some(id) {
                Some(guard)
            } else {
                *old(retained_guard)
            }),
    {
        if self.finish(id) {
            retain_recovery_state(
                &mut self.snapshot,
                &mut self.resource,
                retained_guard,
                guard,
                message,
            );
        }
    }

    /// The session after an installation after which only a restart helps.
    pub open spec fn restart_required(self, id: u64, message: String) -> Self {
        if self.active_operation_id != Some(id) {
            self
        } else {
            let ended = self.ended();
            UpdaterSession {
                snapshot: recovery_snapshot(ended.snapshot, message),
                resource: None,
                ..ended
            }
        }
    }

    /// The session after the operation `id` installed an update that the next start uses; an
    /// operation that does not run changes nothing.
    pub open spec fn installed(self, id: u64) -> Self {
        if self.active_operation_id != Some(id) {
            self
        } else {
            let ended = self.ended();
            UpdaterSession {
                snapshot: UpdateSnapshot {
                    phase: UpdatePhase::RestartRequired,
                    progress_phase: None,
                    error: None,
                    reason: None,
                    ..ended.snapshot
                },
                resource: None,
                ..ended
            }
        }
    }

    /// Ends an installation whose update the next start uses.
    pub fn finish_installed(&mut self, id: u64)
        ensures
            *final(self) == old(self).installed(id),
    {
        if self.finish(id) {
            self.resource = None;
            self.snapshot.phase = UpdatePhase::RestartRequired;
            self.snapshot.progress_phase = None;
            self.snapshot.error = None;
            self.snapshot.reason = None;
        }
    }

    /// Ends the operation `id`, where it runs.
    pub fn finish(&mut self, id: u64) -> (ended: bool)
        ensures
            ended == (old(self).active_operation_id == Some(id)),
            *final(self) == (if ended {
                old(self).ended()
            } else {
                *old(self)
            }),
    {
        let running = match self.active_operation_id {
            Some(active) => active == id,
            None => false,
        };
        if !running {
            return false;
        }
        self.active_operation_id = None;
        self.snapshot.operation = None;
        self.bump();
        true
    }

    fn set_metadata(&mut self, metadata: &UpdateMetadata)
        ensures
            *final(self) == (UpdaterSession {
                snapshot: with_update(old(self).snapshot, *metadata),
                ..*old(self)
            }),
    {
        self.snapshot.current_version = metadata.current_version.clone();
        self.snapshot.version = Some(metadata.version.clone());
        self.snapshot.notes =
        match &metadata.notes {
            Some(notes) => Some(notes.clone()),
            None => None,
        };
        self.snapshot.downloaded_bytes = 0;
        self.snapshot.total_bytes = None;
        self.snapshot.progress_phase = None;
    }

    fn clear_update_fields(&mut self)
        ensures
            *final(self) == (UpdaterSession {
                snapshot: without_update(old(self).snapshot),
                ..*old(self)
            }),
    {
        self.snapshot.version = None;
        self.snapshot.notes = None;
        self.snapshot.progress_phase = None;
        self.snapshot.downloaded_bytes = 0;
        self.snapshot.total_bytes = None;
    }

    fn bump(&mut self)
        ensures
            *final(self) == (UpdaterSession { snapshot: bumped(old(self).snapshot), ..*old(self) }),
    {
        self.snapshot.revision = self.snapshot.revision.saturating_add(1);
    }
}

/// The snapshot of a session that needs a restart.
pub open spec fn recovery_snapshot(snapshot: UpdateSnapshot, message: String) -> UpdateSnapshot {
    UpdateSnapshot {
        phase: UpdatePhase::RestartRequired,
        progress_phase: None,
        error: Some(message),
        reason: Some(
            "The installer could not be started. Restart VoxGolem before using it again.",
        ),
        ..snapshot
    }
}

/// Leaves the session in the state from which only a restart helps.
pub fn retain_recovery_state<U, G>(
    snapshot: &mut UpdateSnapshot,
    resource: &mut Option<UpdateResource<U>>,
    retained_guard: &mut Option<G>,
    guard: G,
    message: String,
)
    ensures
        *final(snapshot) == recovery_snapshot(*old(snapshot), message),
        *final(resource) is None,
        *final(retained_guard) == Some(guard),
{
    *resource = None;
    snapshot.phase = UpdatePhase::RestartRequired;
    snapshot.progress_phase = None;
    snapshot.error = Some(message);
    snapshot.reason =
    Some("The installer could not be started. Restart VoxGolem before using it again.");
    *retained_guard = Some(guard);
}

/// What the application does about updates on its own account.
pub open spec fn background_work<U>(session: UpdaterSession<U>, enabled: bool) -> BackgroundWork {
    if session.suppressed_for_session || session.active_operation_id is Some {
        BackgroundWork::Nothing
    } else {
        match session.snapshot.phase {
            UpdatePhase::Available => if enabled {
                BackgroundWork::Download
            } else {
                BackgroundWork::Nothing
            },
            UpdatePhase::Idle
            | UpdatePhase::Checking
            | UpdatePhase::UpToDate
            | UpdatePhase::Unavailable
            | UpdatePhase::Unsupported => BackgroundWork::Check,
            _ => BackgroundWork::Nothing,
        }
    }
}

/// What the application does about updates on its own account; `enabled` says whether it may
/// download.
pub fn select_background_work<U>(session: &UpdaterSession<U>, enabled: bool) -> (work:
    BackgroundWork)
    ensures
        work == background_work(*session, enabled),
{
    if session.suppressed_for_session || session.active_operation_id.is_some()
        || session.snapshot.phase == UpdatePhase::RestartRequired {
        return BackgroundWork::Nothing;
    }
    match session.snapshot.phase {
        UpdatePhase::Available => if enabled {
            BackgroundWork::Download
        } else {
            BackgroundWork::Nothing
        },
        UpdatePhase::Ready
        | UpdatePhase::Downloading
        | UpdatePhase::Installing
        | UpdatePhase::RestartRequired => BackgroundWork::Nothing,
        UpdatePhase::Idle
        | UpdatePhase::Checking
        | UpdatePhase::UpToDate
        | UpdatePhase::Unavailable
        | UpdatePhase::Unsupported => BackgroundWork::Check,
    }
}

/// Why an installation made in this way gets no updates, where it gets none.
pub open spec fn unsupported_reason(
    operating_system: Seq<char>,
    bundle_type: Option<BundleType>,
) -> Option<Seq<char>> {
    if operating_system == "linux"@ {
        if bundle_type == Some(BundleType::AppImage) {
            None
        } else {
            Some("Automatic updates require the Linux AppImage."@)
        }
    } else if operating_system == "windows"@ {
        if bundle_type == Some(BundleType::Nsis) {
            None
        } else {
            Some("Automatic updates require the installed Windows application."@)
        }
    } else {
        Some("Automatic updates are currently supported only on Linux and Windows."@)
    }
}

/// Whether an installation made in this way gets updates.
pub fn update_installation_support(
    operating_system: &str,
    bundle_type: Option<BundleType>,
) -> (result: Result<(), &'static str>)
    ensures
        match result {
            Ok(_) => unsupported_reason(operating_system@, bundle_type) is None,
            Err(reason) => unsupported_reason(operating_system@, bundle_type) == Some(reason@),
        },
{
    proof {
        reveal_strlit("linux");
        reveal_strlit("windows");
    }
    if same_text(operating_system, "linux") {
        match bundle_type {
            Some(BundleType::AppImage) => Ok(()),
            _ => Err("Automatic updates require the Linux AppImage."),
        }
    } else if same_text(operating_system, "windows") {
        match bundle_type {
            Some(BundleType::Nsis) => Ok(()),
            _ => Err("Automatic updates require the installed Windows application."),
        }
    } else {
        Err("Automatic updates are currently supported only on Linux and Windows.")
    }
}

} // verus!
