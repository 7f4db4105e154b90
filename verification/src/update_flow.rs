//! Whole update operations on a session: each begins with a decision, hands its outside work to
//! the caller, and ends with a report on that work.

use crate::app_updates;
use crate::app_updates::{
    UpdateMetadata, UpdateOperation, UpdatePhase, UpdateResource, UpdateSnapshot,
    UpdaterSession,
};
use crate::counters;
use crate::text;
use crate::text::concat2;
use vstd::prelude::*;
use vstd::string::*;

verus! {

/// What comes of a request to look for an update.
pub enum CheckStart {
    /// The check runs under this number.
    Reserved(u64),
    /// Nothing runs; the session already says all there is to say.
    Answered,
    /// Nothing runs, and the request is refused.
    Refused(String),
}

/// What looking for an update brought.
pub enum CheckReport<U> {
    Found { update: U, metadata: UpdateMetadata },
    UpToDate,
    ReleaseNotFound,
    Failed(String),
}

/// The session once it knows the version that runs.
pub open spec fn versioned<U>(session: UpdaterSession<U>, version: String) -> UpdaterSession<U> {
    if session.snapshot.current_version@.len() == 0 {
        UpdaterSession {
            snapshot: UpdateSnapshot { current_version: version, ..session.snapshot },
            ..session
        }
    } else {
        session
    }
}

/// Tells the session which version runs, where it does not know yet.
pub fn initialize_version<U>(session: &mut UpdaterSession<U>, version: String)
    ensures
        *final(session) == versioned(*old(session), version),
{
    if session.snapshot.current_version.as_str().is_empty() {
        session.snapshot.current_version = version;
    }
}

/// Begins to look for an update: refused where a restart is due, answered at once where this
/// installation gets no updates or automatic checks are put off.
pub fn begin_check<U>(
    session: &mut UpdaterSession<U>,
    version: String,
    support: Result<(), &'static str>,
    manual: bool,
) -> (start: CheckStart)
    ensures
        ({
            let known = versioned(*old(session), version);
            if known.snapshot.phase is RestartRequired {
                &&& start matches CheckStart::Refused(message)
                &&& message@ == "restart is required before another update operation"@
                &&& *final(session) == known
            } else {
                match support {
                    Err(reason) => start is Answered && *final(session) == known.unsupported(
                        reason,
                    ),
                    Ok(_) => match known.refusal(UpdateOperation::Check, manual) {
                        None => {
                            &&& start == CheckStart::Reserved(
                                counters::next_number(known.next_operation_id),
                            )
                            &&& *final(session) == known.started(UpdateOperation::Check, manual)
                        },
                        Some(message) => {
                            &&& *final(session) == known
                            &&& if !manual && known.suppressed_for_session {
                                start is Answered
                            } else {
                                start matches CheckStart::Refused(text) && text@ == message
                            }
                        },
                    },
                }
            }
        }),
{
    initialize_version(session, version);
    if session.snapshot.phase == UpdatePhase::RestartRequired {
        return CheckStart::Refused(
            "restart is required before another update operation".to_owned(),
        );
    }
    if let Err(reason) = support {
        session.finish_unsupported(reason);
        return CheckStart::Answered;
    }
    match session.reserve(UpdateOperation::Check, manual) {
        Ok(id) => CheckStart::Reserved(id),
        Err(message) => if !manual && session.suppressed_for_session {
            CheckStart::Answered
        } else {
            CheckStart::Refused(message)
        },
    }
}

/// The session after a check has reported.
pub open spec fn after_check<U>(
    session: UpdaterSession<U>,
    id: u64,
    report: CheckReport<U>,
) -> UpdaterSession<U> {
    match report {
        CheckReport::Found { update, metadata } => session.checked(
            id,
            Some(update),
            Some(metadata),
        ),
        CheckReport::UpToDate => session.checked(id, None, None),
        CheckReport::ReleaseNotFound => session.unpublished(id),
        CheckReport::Failed(message) => session.failed(id, message),
    }
}

/// Ends a check with what it brought.
pub fn conclude_check<U>(session: &mut UpdaterSession<U>, id: u64, report: CheckReport<U>)
    ensures
        *final(session) == after_check(*old(session), id, report),
{
    match report {
        CheckReport::Found { update, metadata } => session.finish_check(
            id,
            Some(update),
            Some(metadata),
        ),
        CheckReport::UpToDate => session.finish_check(id, None, None),
        CheckReport::ReleaseNotFound => session.finish_unavailable(id),
        CheckReport::Failed(message) => session.finish_failure(id, message),
    }
}

/// Begins a download: starts the operation and hands the update to the caller.
pub fn begin_download<U>(session: &mut UpdaterSession<U>) -> (result: Result<
    (u64, U, UpdateMetadata),
    String,
>)
    ensures
        match result {
            Ok((id, update, metadata)) => {
                &&& old(session).refusal(UpdateOperation::Download, true) is None
                &&& id == counters::next_number(old(session).next_operation_id)
                &&& old(session).resource == Some(UpdateResource::Available { update, metadata })
                &&& *final(session) == (UpdaterSession {
                    resource: None,
                    ..old(session).started(UpdateOperation::Download, true)
                })
            },
            Err(message) => {
                &&& old(session).refusal(UpdateOperation::Download, true) == Some(message@)
                &&& *final(session) == *old(session)
            },
        },
{
    let id: u64 = match session.reserve(UpdateOperation::Download, true) {
        Ok(id) => id,
        Err(message) => {
            return Err(message);
        },
    };
    match session.resource.take() {
        Some(UpdateResource::Available { update, metadata }) => Ok((id, update, metadata)),
        _ => Err("update resource is unavailable".to_owned()),
    }
}

/// The session after a download has reported.
pub open spec fn after_download<U>(
    session: UpdaterSession<U>,
    id: u64,
    update: U,
    metadata: UpdateMetadata,
    bytes: Result<Vec<u8>, String>,
    failure: String,
) -> UpdaterSession<U> {
    let held = UpdaterSession {
        resource: Some(UpdateResource::Available { update, metadata }),
        ..session
    };
    match bytes {
        Ok(verified) => held.downloaded(id, verified),
        Err(_) => held.failed(id, failure),
    }
}

/// Ends a download with the verified bytes or the reason why there are none.
pub fn conclude_download<U>(
    session: &mut UpdaterSession<U>,
    id: u64,
    update: U,
    metadata: UpdateMetadata,
    downloaded: Result<Vec<u8>, String>,
)
    ensures
        exists|failure: String|
            #![trigger after_download(*old(session), id, update, metadata, downloaded, failure)]
            (downloaded is Err ==> failure@ == "failed to download or verify update: "@
                + downloaded->Err_0@) && *final(session) == after_download(
                *old(session),
                id,
                update,
                metadata,
                downloaded,
                failure,
            ),
{
    let ghost before = *session;
    let ghost report = downloaded;
    session.resource = Some(UpdateResource::Available { update, metadata });
    match downloaded {
        Ok(bytes) => {
            session.finish_download(id, bytes);
            proof {
                let any: String = arbitrary();
                assert(*session == after_download(before, id, update, metadata, report, any));
            }
        },
        Err(error) => {
            let failure = concat2("failed to download or verify update: ", error.as_str());
            let ghost text = failure;
            session.finish_failure(id, failure);
            proof {
                assert(*session == after_download(before, id, update, metadata, report, text));
            }
        },
    }
}

/// Whether a download follows a check that the application made on its own account.
pub fn download_follows_check<U>(
    check_succeeded: bool,
    session: &UpdaterSession<U>,
    enabled: bool,
) -> (follows: bool)
    ensures
        follows == (check_succeeded && app_updates::background_work(*session, enabled)
            is Download),
{
    check_succeeded && app_updates::select_background_work(session, enabled)
        == app_updates::BackgroundWork::Download
}

/// Whether a restart for an update is due: only in the state that asks for it.
pub fn restart_for_update<U>(session: &UpdaterSession<U>) -> (result: Result<(), String>)
    ensures
        text::outcome(result) == restart_admission(session.snapshot.phase),
{
    if session.snapshot.phase == UpdatePhase::RestartRequired {
        Ok(())
    } else {
        Err("an updater recovery restart is not required".to_owned())
    }
}

/// Switches automatic downloads before the session is shown to anyone.
pub fn configure_auto_download<U>(session: &mut UpdaterSession<U>, enabled: bool)
    ensures
        *final(session) == with_auto_download(*old(session), enabled),
{
    session.snapshot.auto_download_enabled = enabled;
}

/// Why an installation may not begin, where it may not.
pub open spec fn install_refusal<U>(session: UpdaterSession<U>) -> Option<Seq<char>> {
    match session.install_exit.refusal() {
        Some(message) => Some(message),
        None => session.refusal(UpdateOperation::Install, true),
    }
}

/// Begins an installation: reserves the application, starts the operation and hands the verified
/// update to the caller. A refusal leaves the session as it was.
pub fn begin_install<U>(session: &mut UpdaterSession<U>) -> (result: Result<
    (u64, U, Vec<u8>, UpdateMetadata),
    String,
>)
    ensures
        match result {
            Ok((id, update, bytes, metadata)) => {
                &&& install_refusal(*old(session)) is None
                &&& id == counters::next_number(old(session).next_operation_id)
                &&& old(session).resource == Some(
                    UpdateResource::Ready { update, bytes, metadata },
                )
                &&& *final(session) == (UpdaterSession {
                    resource: None,
                    install_exit: old(session).install_exit.reserved(),
                    ..old(session).started(UpdateOperation::Install, true)
                })
            },
            Err(message) => {
                &&& install_refusal(*old(session)) == Some(message@)
                &&& *final(session) == *old(session)
            },
        },
{
    match session.install_exit.reserve_installation() {
        Ok(_) => {},
        Err(message) => {
            return Err(message.to_owned());
        },
    }
    let id: u64 = match session.reserve(UpdateOperation::Install, true) {
        Ok(id) => id,
        Err(message) => {
            session.install_exit.release_installation();
            return Err(message);
        },
    };
    match session.take_ready(id) {
        Some((update, bytes, metadata)) => Ok((id, update, bytes, metadata)),
        None => {
            session.install_exit.release_installation();
            Err("verified update resources are unavailable".to_owned())
        },
    }
}

/// The session after an installation that did not get as far as the installer.
pub open spec fn after_abandoned_install<U>(
    session: UpdaterSession<U>,
    id: u64,
    update: U,
    bytes: Vec<u8>,
    metadata: UpdateMetadata,
    error: String,
) -> UpdaterSession<U> {
    (UpdaterSession {
        install_exit: session.install_exit.released(),
        resource: Some(UpdateResource::Ready { update, bytes, metadata }),
        ..session
    }).failed(id, error)
}

/// Gives the application and the verified update back after an installation that did not get as
/// far as the installer.
pub fn restore_install<U>(
    session: &mut UpdaterSession<U>,
    id: u64,
    update: U,
    bytes: Vec<u8>,
    metadata: UpdateMetadata,
    error: String,
)
    ensures
        *final(session) == after_abandoned_install(
            *old(session),
            id,
            update,
            bytes,
            metadata,
            error,
        ),
{
    session.install_exit.release_installation();
    session.restore_ready(id, update, bytes, metadata, error);
}

/// What became of the installer.
pub enum InstallReport<U> {
    /// The task that ran it was lost, and the update with it.
    Lost(String),
    /// It did its work.
    Installed,
    /// It failed.
    Failed { update: U, bytes: Vec<u8>, metadata: UpdateMetadata, error: String },
}

/// The message under which a failed installation is shown.
pub open spec fn install_failure<U>(report: InstallReport<U>) -> Seq<char> {
    match report {
        InstallReport::Lost(error) => "update installer task failed: "@ + error@,
        InstallReport::Installed => seq![],
        InstallReport::Failed { error, .. } => "failed to install update: "@ + error@,
    }
}

/// The session after the installer has reported. Where the installer replaces the running
/// application, it ends the application itself, and a failure leaves only a restart; elsewhere an
/// installed update waits for a restart, and after a failure the verified update is kept, unless
/// it was lost.
pub open spec fn after_install<U>(
    session: UpdaterSession<U>,
    id: u64,
    report: InstallReport<U>,
    on_windows: bool,
    failure: String,
) -> UpdaterSession<U> {
    let open = UpdaterSession { install_exit: session.install_exit.released(), ..session };
    match report {
        InstallReport::Installed => if !on_windows {
            open.installed(id)
        } else if session.active_operation_id == Some(id) {
            open.ended()
        } else {
            open
        },
        InstallReport::Lost(_) => if on_windows {
            open.restart_required(id, failure)
        } else {
            (UpdaterSession { resource: None, ..open }).failed(id, failure)
        },
        InstallReport::Failed { update, bytes, metadata, .. } => if on_windows {
            open.restart_required(id, failure)
        } else {
            (UpdaterSession {
                resource: Some(UpdateResource::Ready { update, bytes, metadata }),
                ..open
            }).failed(id, failure)
        },
    }
}

/// Ends an installation with what became of the installer. The guard that kept other work out
/// stays in `retained_guard` where only a restart helps, and is dropped elsewhere.
pub fn conclude_install<U, G>(
    session: &mut UpdaterSession<U>,
    id: u64,
    report: InstallReport<U>,
    on_windows: bool,
    retained_guard: &mut Option<G>,
    guard: G,
)
    ensures
        exists|failure: String|
            #![trigger after_install(*old(session), id, report, on_windows, failure)]
            (report is Installed || failure@ == install_failure(report)) && *final(session)
                == after_install(*old(session), id, report, on_windows, failure),
        *final(retained_guard) == (if on_windows && !(report is Installed)
            && old(session).active_operation_id == Some(id) {
            Some(guard)
        } else {
            *old(retained_guard)
        }),
{
    let ghost before = *session;
    let ghost given = report;
    match report {
        InstallReport::Lost(error) => {
            let failure = concat2("update installer task failed: ", error.as_str());
            let ghost text = failure;
            if on_windows {
                session.install_exit.release_installation();
                session.finish_restart_required(id, retained_guard, guard, failure);
            } else {
                session.finish_unrecoverable_install_failure(id, failure);
            }
            proof {
                assert(*session == after_install(before, id, given, on_windows, text));
            }
        },
        InstallReport::Installed => {
            session.install_exit.release_installation();
            if on_windows {
                session.finish(id);
            } else {
                session.finish_installed(id);
            }
            proof {
                let any: String = arbitrary();
                assert(*session == after_install(before, id, given, on_windows, any));
            }
        },
        InstallReport::Failed { update, bytes, metadata, error } => {
            let failure = concat2("failed to install update: ", error.as_str());
            let ghost text = failure;
            session.install_exit.release_installation();
            if on_windows {
                session.finish_restart_required(id, retained_guard, guard, failure);
            } else {
                session.restore_ready(id, update, bytes, metadata, failure);
            }
            proof {
                assert(*session == after_install(before, id, given, on_windows, text));
            }
        },
    }
}

/// Runs the installer once the cleanup before it succeeded; a failed cleanup is the result, and
/// the installer does not run.
pub fn run_cleanup_install_handoff<C, I>(cleanup: C, install: I) -> (result: Result<(), String>)
    where C: FnOnce() -> Result<(), String>, I: FnOnce() -> Result<(), String>
    requires
        cleanup.requires(()),
        cleanup.ensures((), Ok(())) ==> install.requires(()),
    ensures
        ({
            ||| result is Err && cleanup.ensures((), result)
            ||| cleanup.ensures((), Ok(())) && install.ensures((), result)
        }),
{
    let cleaned = cleanup();
    match cleaned {
        Ok(done) => {
            proof {
                assert(done == ());
            }
            install()
        },
        Err(_) => cleaned,
    }
}

/// A session whose phase tells what it holds whenever no operation runs, and which holds nothing
/// once it asks for a restart.
pub open spec fn consistent<U>(session: UpdaterSession<U>) -> bool {
    &&& session.active_operation_id is Some ==> session.active_operation_id->0
        <= session.next_operation_id
    &&& session.snapshot.phase is RestartRequired ==> session.active_operation_id is None
        && session.resource is None
    &&& session.active_operation_id is None ==> {
        &&& session.snapshot.phase is Available <==> session.holds_available()
        &&& session.snapshot.phase is Ready <==> session.holds_ready()
        &&& session.snapshot.operation is None
        &&& !(session.snapshot.phase is Checking)
        &&& !(session.snapshot.phase is Downloading)
        &&& !(session.snapshot.phase is Installing)
    }
}

/// A session that has not run any operation is consistent.
pub proof fn law_new_session_is_consistent<U>(session: UpdaterSession<U>)
    requires
        session.snapshot.phase is Idle,
        session.snapshot.operation is None,
        session.resource is None,
        session.active_operation_id is None,
    ensures
        consistent(session),
{
}

/// Every whole operation, from its start to its report, leads a consistent session to a
/// consistent one, and so does putting an update off.
pub proof fn law_operations_keep_sessions_consistent<U>(
    session: UpdaterSession<U>,
    operation: UpdateOperation,
    manual: bool,
    check: CheckReport<U>,
    bytes: Result<Vec<u8>, String>,
    install: InstallReport<U>,
    on_windows: bool,
    message: String,
)
    requires
        consistent(session),
    ensures
        session.refusal(operation, manual) is None ==> {
            let started = session.started(operation, manual);
            let id = started.active_operation_id->0;
            let emptied = UpdaterSession { resource: None, ..started };
            &&& consistent(started)
            &&& operation is Check ==> consistent(after_check(started, id, check))
            &&& operation is Download ==> consistent(
                after_download(
                    emptied,
                    id,
                    session.resource->0->Available_update,
                    session.resource->0->Available_metadata,
                    bytes,
                    message,
                ),
            )
            &&& operation is Install ==> consistent(
                after_install(emptied, id, install, on_windows, message),
            ) || (install is Installed && on_windows)
        },
        session.defer_refusal() is None ==> consistent(session.deferred()),
{
}

/// A download or an installation that fails leaves the session with the very update it had, in
/// the phase it had, and with the error on record; where the installer replaces the running
/// application, only a restart is left.
pub proof fn law_failures_keep_the_update<U>(session: UpdaterSession<U>, error: String)
    requires
        consistent(session),
    ensures
        session.refusal(UpdateOperation::Download, true) is None ==> {
            let started = session.started(UpdateOperation::Download, true);
            let emptied = UpdaterSession { resource: None, ..started };
            let after = after_download(
                emptied,
                started.active_operation_id->0,
                session.resource->0->Available_update,
                session.resource->0->Available_metadata,
                Err(error),
                error,
            );
            &&& after.resource == session.resource
            &&& after.snapshot.phase is Available
            &&& after.snapshot.error == Some(error)
            &&& after.active_operation_id is None
        },
        session.refusal(UpdateOperation::Install, true) is None ==> {
            let started = session.started(UpdateOperation::Install, true);
            let emptied = UpdaterSession { resource: None, ..started };
            let report = InstallReport::Failed {
                update: session.resource->0->Ready_update,
                bytes: session.resource->0->Ready_bytes,
                metadata: session.resource->0->Ready_metadata,
                error,
            };
            let kept = after_install(
                emptied,
                started.active_operation_id->0,
                report,
                false,
                error,
            );
            let restart = after_install(
                emptied,
                started.active_operation_id->0,
                report,
                true,
                error,
            );
            &&& kept.resource == session.resource
            &&& kept.snapshot.phase is Ready
            &&& kept.snapshot.error == Some(error)
            &&& restart.resource is None
            &&& restart.snapshot.phase is RestartRequired
            &&& restart.snapshot.error == Some(error)
        },
{
}

/// Where the installer does not replace the running application, installing and restarting are
/// separate: an installed update waits, without an error, in the state that asks for a restart.
pub proof fn law_installed_updates_wait_for_a_restart<U>(
    session: UpdaterSession<U>,
    id: u64,
    message: String,
)
    requires
        session.active_operation_id == Some(id),
    ensures
        ({
            let after = after_install(session, id, InstallReport::Installed, false, message);
            &&& after.snapshot.phase is RestartRequired
            &&& after.snapshot.error is None
            &&& after.resource is None
            &&& after.active_operation_id is None
            &&& consistent(after)
        }),
{
}

/// A session that asks for a restart refuses every operation, and does nothing on its own account.
pub proof fn law_restart_required_refuses_everything<U>(
    session: UpdaterSession<U>,
    operation: UpdateOperation,
    manual: bool,
    enabled: bool,
)
    requires
        session.snapshot.phase is RestartRequired,
    ensures
        session.refusal(operation, manual) is Some,
        install_refusal(session) is Some,
        app_updates::background_work(session, enabled) is Nothing,
{
}

/// While an operation runs no other one starts, and the number of the one that starts is larger
/// than every number given before, as long as there are larger numbers.
pub proof fn law_one_operation_at_a_time<U>(
    session: UpdaterSession<U>,
    operation: UpdateOperation,
    manual: bool,
    other: UpdateOperation,
    other_manual: bool,
)
    requires
        session.refusal(operation, manual) is None,
    ensures
        session.started(operation, manual).refusal(other, other_manual) is Some,
        session.started(operation, manual).defer_refusal() is Some,
        session.next_operation_id < u64::MAX ==> session.started(
            operation,
            manual,
        ).active_operation_id == Some((session.next_operation_id + 1) as u64),
{
}

/// A report on an operation that does not run changes nothing.
pub proof fn law_stale_reports_change_nothing<U>(
    session: UpdaterSession<U>,
    id: u64,
    check: CheckReport<U>,
    bytes: Vec<u8>,
    message: String,
)
    requires
        session.active_operation_id != Some(id),
    ensures
        after_check(session, id, check) == session,
        session.downloaded(id, bytes) == session,
        session.failed(id, message) == session,
        session.restart_required(id, message) == session,
        !session.downloading(id),
{
}

/// Putting an update off keeps the application from looking for updates on its own account until
/// the user asks for a check.
pub proof fn law_deferring_lasts_until_a_manual_check<U>(
    session: UpdaterSession<U>,
    enabled: bool,
)
    requires
        session.defer_refusal() is None,
        !(session.snapshot.phase is RestartRequired),
    ensures
        session.deferred().resource is None,
        session.deferred().refusal(UpdateOperation::Check, false) is Some,
        app_updates::background_work(session.deferred(), enabled) is Nothing,
        session.deferred().refusal(UpdateOperation::Check, true) is None,
        !session.deferred().started(UpdateOperation::Check, true).suppressed_for_session,
{
}

/// What a user sees never goes back: no step of a session lowers the revision, and each one that
/// changes the snapshot raises it as long as there are larger revisions.
pub proof fn law_revisions_advance<U>(
    session: UpdaterSession<U>,
    operation: UpdateOperation,
    manual: bool,
    id: u64,
    check: CheckReport<U>,
    message: String,
)
    ensures
        session.started(operation, manual).snapshot.revision == counters::next_number(
            session.snapshot.revision,
        ),
        session.deferred().snapshot.revision == counters::next_number(
            session.snapshot.revision,
        ),
        session.active_operation_id == Some(id) ==> after_check(
            session,
            id,
            check,
        ).snapshot.revision == counters::next_number(session.snapshot.revision),
        session.active_operation_id == Some(id) ==> session.failed(id, message).snapshot.revision
            == counters::next_number(session.snapshot.revision),
        session.snapshot.revision < u64::MAX ==> session.snapshot.revision
            < counters::next_number(session.snapshot.revision),
{
}

/// Whether the application may be restarted for an update.
pub open spec fn restart_admission(phase: UpdatePhase) -> Result<(), Seq<char>> {
    if phase is RestartRequired {
        Ok(())
    } else {
        Err("an updater recovery restart is not required"@)
    }
}

/// The session after downloading without being asked was switched.
pub open spec fn with_auto_download<U>(session: UpdaterSession<U>, enabled: bool) -> UpdaterSession<
    U,
> {
    UpdaterSession {
        snapshot: UpdateSnapshot { auto_download_enabled: enabled, ..session.snapshot },
        ..session
    }
}

/// The application is restarted exactly where nothing else helps, and switching downloads without
/// being asked changes nothing else.
pub proof fn law_restarts_are_the_last_resort<U>(session: UpdaterSession<U>, enabled: bool)
    ensures
        restart_admission(session.snapshot.phase) is Ok <==> session.snapshot.phase
            is RestartRequired,
        restart_admission(session.snapshot.phase) matches Err(message) ==> message
            == "an updater recovery restart is not required"@,
        ({
            let after = with_auto_download(session, enabled);
            &&& after.snapshot.auto_download_enabled == enabled
            &&& after.snapshot.phase == session.snapshot.phase
            &&& after.snapshot.operation == session.snapshot.operation
            &&& after.snapshot.revision == session.snapshot.revision
            &&& after.resource == session.resource
            &&& after.active_operation_id == session.active_operation_id
            &&& after.suppressed_for_session == session.suppressed_for_session
        }),
{
}

} // verus!
