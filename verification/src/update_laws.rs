//! What holds of every update session.

use crate::app_updates;
use crate::app_updates::{
    BundleType, InstallExitPhase, UpdateMetadata, UpdateOperation, UpdatePhase,
    UpdateProgressPhase, UpdateResource, UpdaterSession,
};
use crate::update_flow;
use crate::update_flow::{CheckReport, InstallReport};
use vstd::prelude::*;
use vstd::string::*;

verus! {

broadcast use vstd::string::group_string_axioms;

/// The running operation is over, and the snapshot is a newer one; what no operation touches is as
/// it was.
pub open spec fn operation_is_over<U>(before: UpdaterSession<U>, after: UpdaterSession<U>) -> bool {
    &&& after.active_operation_id is None
    &&& after.snapshot.operation is None
    &&& before.snapshot.revision < u64::MAX ==> after.snapshot.revision == before.snapshot.revision
        + 1
    &&& after.suppressed_for_session == before.suppressed_for_session
    &&& after.next_operation_id == before.next_operation_id
    &&& after.snapshot.auto_download_enabled == before.snapshot.auto_download_enabled
}

/// The snapshot tells of no update.
pub open spec fn tells_of_no_update<U>(session: UpdaterSession<U>) -> bool {
    &&& session.snapshot.version is None
    &&& session.snapshot.notes is None
    &&& session.snapshot.progress_phase is None
    &&& session.snapshot.downloaded_bytes == 0
    &&& session.snapshot.total_bytes is None
    &&& session.resource is None
}

/// A check that runs ends with what it found: the update where there is one, that the newest
/// release runs where there is no newer one, that none is published where that is so, and its
/// error otherwise. Each of these is told exactly where it was found.
pub proof fn law_checks_tell_what_there_is<U>(
    session: UpdaterSession<U>,
    id: u64,
    report: CheckReport<U>,
)
    requires
        session.active_operation_id == Some(id),
        session.resource is None,
    ensures
        ({
            let after = update_flow::after_check(session, id, report);
            &&& operation_is_over(session, after)
            &&& after.install_exit == session.install_exit
            &&& after.snapshot.phase is UpToDate <==> report is UpToDate
            &&& after.snapshot.phase is Unavailable <==> report is ReleaseNotFound
            &&& after.snapshot.phase is Available <==> report is Found
            &&& after.snapshot.phase is Idle <==> report is Failed
            &&& report matches CheckReport::Found { update, metadata } ==> {
                &&& after.resource == Some(UpdateResource::Available { update, metadata })
                &&& after.snapshot.current_version == metadata.current_version
                &&& after.snapshot.version == Some(metadata.version)
                &&& after.snapshot.notes == metadata.notes
                &&& after.snapshot.progress_phase is None
                &&& after.snapshot.downloaded_bytes == 0
                &&& after.snapshot.total_bytes is None
                &&& after.snapshot.error == session.snapshot.error
                &&& after.snapshot.reason == session.snapshot.reason
            }
            &&& report is UpToDate ==> {
                &&& tells_of_no_update(after)
                &&& after.snapshot.error == session.snapshot.error
                &&& after.snapshot.reason == session.snapshot.reason
                &&& after.snapshot.current_version == session.snapshot.current_version
            }
            &&& report is ReleaseNotFound ==> {
                &&& tells_of_no_update(after)
                &&& after.snapshot.error is None
                &&& after.snapshot.reason matches Some(reason)
                &&& reason@ == "No updater-enabled release is published yet."@
                &&& after.snapshot.current_version == session.snapshot.current_version
            }
            &&& report matches CheckReport::Failed(message) ==> {
                &&& after.resource is None
                &&& after.snapshot.error == Some(message)
                &&& after.snapshot.progress_phase is None
                &&& after.snapshot.version == session.snapshot.version
                &&& after.snapshot.current_version == session.snapshot.current_version
            }
        }),
{
}

/// An operation that fails leaves the update that the session holds, and the phase tells which one
/// that is.
pub proof fn law_failed_operations_keep_what_is_held<U>(
    session: UpdaterSession<U>,
    id: u64,
    message: String,
)
    requires
        session.active_operation_id == Some(id),
    ensures
        ({
            let after = session.failed(id, message);
            &&& operation_is_over(session, after)
            &&& after.install_exit == session.install_exit
            &&& after.resource == session.resource
            &&& after.snapshot.error == Some(message)
            &&& after.snapshot.progress_phase is None
            &&& after.snapshot.phase == (match session.resource {
                None => UpdatePhase::Idle,
                Some(UpdateResource::Available { .. }) => UpdatePhase::Available,
                Some(UpdateResource::Ready { .. }) => UpdatePhase::Ready,
            })
            &&& after.snapshot.version == session.snapshot.version
            &&& after.snapshot.notes == session.snapshot.notes
            &&& after.snapshot.current_version == session.snapshot.current_version
            &&& after.snapshot.downloaded_bytes == session.snapshot.downloaded_bytes
            &&& after.snapshot.total_bytes == session.snapshot.total_bytes
            &&& after.snapshot.reason == session.snapshot.reason
        }),
{
}

/// An operation may start exactly where no restart is due, no other one runs, and there is
/// something for it to do: a check where nothing is held, and where the application makes it on
/// its own account also where updates were not put off; a download where an update is available;
/// an installation where one is ready.
pub proof fn law_operations_start_where_there_is_something_to_do<U>(
    session: UpdaterSession<U>,
    operation: UpdateOperation,
    manual: bool,
)
    ensures
        ({
            let refusal = session.refusal(operation, manual);
            let due = session.snapshot.phase is RestartRequired;
            let running = !due && session.active_operation_id is Some;
            let free = !due && !running;
            let deferred = free && operation is Check && !manual && session.suppressed_for_session;
            let held = free && operation is Check && !deferred && session.resource is Some;
            let nothing_available = free && operation is Download && !(session.resource matches Some(
                resource,
            ) && resource is Available);
            let nothing_ready = free && operation is Install && !(session.resource matches Some(
                resource,
            ) && resource is Ready);
            &&& refusal is None <==> free && !deferred && !held && !nothing_available
                && !nothing_ready
            &&& due ==> refusal == Some("restart is required before another update operation"@)
            &&& running ==> refusal == Some("another update operation is already running"@)
            &&& deferred ==> refusal == Some(
                "automatic update checks are deferred for this session"@,
            )
            &&& held ==> refusal == Some("a downloaded or available update is already retained"@)
            &&& nothing_available ==> refusal == Some("there is no update available to download"@)
            &&& nothing_ready ==> refusal == Some("there is no verified update ready to install"@)
        }),
{
}

/// An operation that starts is the one that runs, under the next number; it is shown with its
/// phase, and without the error and the reason of the one before.
pub proof fn law_started_operations_are_shown<U>(
    session: UpdaterSession<U>,
    operation: UpdateOperation,
    manual: bool,
)
    ensures
        ({
            let after = session.started(operation, manual);
            &&& session.next_operation_id < u64::MAX ==> after.active_operation_id == Some(
                (session.next_operation_id + 1) as u64,
            ) && after.next_operation_id == session.next_operation_id + 1
            &&& session.snapshot.revision < u64::MAX ==> after.snapshot.revision
                == session.snapshot.revision + 1
            &&& after.snapshot.operation == Some(operation)
            &&& after.snapshot.error is None
            &&& after.snapshot.reason is None
            &&& after.snapshot.phase is Checking <==> operation is Check
            &&& after.snapshot.phase is Downloading <==> operation is Download
            &&& after.snapshot.phase is Installing <==> operation is Install
            &&& operation is Download ==> after.snapshot.progress_phase == Some(
                UpdateProgressPhase::Downloading,
            ) && after.snapshot.downloaded_bytes == 0 && after.snapshot.total_bytes is None
            &&& operation is Install ==> after.snapshot.progress_phase == Some(
                UpdateProgressPhase::Installing,
            )
            &&& !(operation is Download) ==> after.snapshot.downloaded_bytes
                == session.snapshot.downloaded_bytes && after.snapshot.total_bytes
                == session.snapshot.total_bytes
            &&& operation is Check ==> after.snapshot.progress_phase
                == session.snapshot.progress_phase
            &&& after.snapshot.version == session.snapshot.version
            &&& after.snapshot.notes == session.snapshot.notes
            &&& after.snapshot.current_version == session.snapshot.current_version
            &&& after.snapshot.auto_download_enabled == session.snapshot.auto_download_enabled
            &&& after.resource == session.resource
            &&& after.install_exit == session.install_exit
            &&& operation is Check && manual ==> !after.suppressed_for_session
            &&& !(operation is Check && manual) ==> after.suppressed_for_session
                == session.suppressed_for_session
        }),
{
}

/// A download that succeeds leaves the verified bytes ready to be installed, with the update they
/// belong to; one that fails leaves the update available.
pub proof fn law_downloads_make_updates_ready<U>(
    session: UpdaterSession<U>,
    id: u64,
    update: U,
    metadata: UpdateMetadata,
    bytes: Vec<u8>,
    error: String,
    failure: String,
)
    requires
        session.active_operation_id == Some(id),
    ensures
        ({
            let ready = update_flow::after_download(
                session,
                id,
                update,
                metadata,
                Ok(bytes),
                failure,
            );
            let failed = update_flow::after_download(
                session,
                id,
                update,
                metadata,
                Err(error),
                failure,
            );
            &&& operation_is_over(session, ready)
            &&& operation_is_over(session, failed)
            &&& ready.resource == Some(UpdateResource::Ready { update, bytes, metadata })
            &&& ready.snapshot.phase is Ready
            &&& ready.snapshot.progress_phase is None
            &&& ready.snapshot.error == session.snapshot.error
            &&& ready.snapshot.version == session.snapshot.version
            &&& failed.resource == Some(UpdateResource::Available { update, metadata })
            &&& failed.snapshot.phase is Available
            &&& failed.snapshot.progress_phase is None
            &&& failed.snapshot.error == Some(failure)
            &&& ready.install_exit == session.install_exit
            &&& failed.install_exit == session.install_exit
        }),
{
}

/// An installation that is over gives the application back. Off Windows an installed update waits
/// for a restart, and a failure keeps the update unless it was lost; on Windows the installer ends
/// the application itself, and every failure asks for a restart.
pub proof fn law_installations_end_as_their_platform_has_it<U>(
    session: UpdaterSession<U>,
    id: u64,
    report: InstallReport<U>,
    on_windows: bool,
    failure: String,
)
    requires
        session.active_operation_id == Some(id),
        session.install_exit.phase is InstallationReserved,
        session.resource is None,
    ensures
        ({
            let after = update_flow::after_install(session, id, report, on_windows, failure);
            &&& operation_is_over(session, after)
            &&& after.install_exit.phase is Open
            &&& report is Installed && !on_windows ==> after.snapshot.phase is RestartRequired
                && after.snapshot.error is None && after.snapshot.reason is None
                && after.resource is None && after.snapshot.progress_phase is None
            &&& report is Installed && on_windows ==> after.snapshot.phase
                == session.snapshot.phase && after.snapshot.error == session.snapshot.error
            &&& !(report is Installed) ==> after.snapshot.error == Some(failure)
                && after.snapshot.progress_phase is None
            &&& !(report is Installed) && on_windows ==> {
                &&& after.snapshot.phase is RestartRequired
                &&& after.resource is None
                &&& after.snapshot.reason matches Some(reason)
                &&& reason@
                    == "The installer could not be started. Restart VoxGolem before using it again."@
            }
            &&& report is Lost && !on_windows ==> after.snapshot.phase is Idle
                && after.resource is None
            &&& !on_windows ==> (report matches InstallReport::Failed {
                update,
                bytes,
                metadata,
                ..
            } ==> after.snapshot.phase is Ready && after.resource == Some(
                UpdateResource::Ready { update, bytes, metadata },
            ))
        }),
        update_flow::install_failure(report) == (match report {
            InstallReport::Lost(error) => "update installer task failed: "@ + error@,
            InstallReport::Failed { error, .. } => "failed to install update: "@ + error@,
            InstallReport::Installed => Seq::empty(),
        }),
{
}

/// An installation that does not get as far as the installer gives back the application and the
/// verified update.
pub proof fn law_abandoned_installations_give_everything_back<U>(
    session: UpdaterSession<U>,
    id: u64,
    update: U,
    bytes: Vec<u8>,
    metadata: UpdateMetadata,
    error: String,
)
    requires
        session.active_operation_id == Some(id),
        session.install_exit.phase is InstallationReserved,
    ensures
        ({
            let after = update_flow::after_abandoned_install(
                session,
                id,
                update,
                bytes,
                metadata,
                error,
            );
            &&& operation_is_over(session, after)
            &&& after.install_exit.phase is Open
            &&& after.resource == Some(UpdateResource::Ready { update, bytes, metadata })
            &&& after.snapshot.phase is Ready
            &&& after.snapshot.error == Some(error)
        }),
{
}

/// An installation may begin exactly where nobody else has the application and a verified update
/// is ready; who has the application is told first.
pub proof fn law_installations_need_the_application<U>(session: UpdaterSession<U>)
    ensures
        ({
            let refusal = update_flow::install_refusal(session);
            &&& session.install_exit.phase is InstallationReserved ==> refusal == Some(
                "update installation is already reserved"@,
            )
            &&& session.install_exit.phase is ExitCommitted ==> refusal == Some(
                "application exit is already committed"@,
            )
            &&& session.install_exit.phase is Open ==> refusal == session.refusal(
                UpdateOperation::Install,
                true,
            )
        }),
        session.install_exit.reserved().phase == (match session.install_exit.phase {
            InstallExitPhase::Open => InstallExitPhase::InstallationReserved,
            other => other,
        }),
        session.install_exit.released().phase == (match session.install_exit.phase {
            InstallExitPhase::InstallationReserved => InstallExitPhase::Open,
            other => other,
        }),
        session.install_exit.exit_requested().phase == (match session.install_exit.phase {
            InstallExitPhase::InstallationReserved => InstallExitPhase::InstallationReserved,
            _ => InstallExitPhase::ExitCommitted,
        }),
{
}

/// A verified update can be put off exactly where no operation runs, and is forgotten then: the
/// session is idle and tells of no update, and the application looks for none on its own account.
pub proof fn law_updates_that_are_put_off_are_forgotten<U>(session: UpdaterSession<U>)
    ensures
        ({
            let refusal = session.defer_refusal();
            let after = session.deferred();
            let ready = session.resource matches Some(resource) && resource is Ready;
            &&& refusal is None <==> session.active_operation_id is None && ready
            &&& session.active_operation_id is Some ==> refusal == Some(
                "another update operation is already running"@,
            )
            &&& session.active_operation_id is None && !ready ==> refusal == Some(
                "there is no verified update ready to defer"@,
            )
            &&& after.snapshot.phase is Idle
            &&& tells_of_no_update(after)
            &&& after.suppressed_for_session
            &&& after.snapshot.error is None
            &&& after.snapshot.reason is None
            &&& after.active_operation_id == session.active_operation_id
            &&& after.snapshot.current_version == session.snapshot.current_version
            &&& after.install_exit == session.install_exit
            &&& after.next_operation_id == session.next_operation_id
            &&& session.snapshot.revision < u64::MAX ==> after.snapshot.revision
                == session.snapshot.revision + 1
        }),
{
}

/// An installation that gets no updates is told so, with the reason, and holds none.
pub proof fn law_unsupported_installations_say_why<U>(
    session: UpdaterSession<U>,
    reason: &'static str,
)
    ensures
        ({
            let after = session.unsupported(reason);
            &&& after.snapshot.phase is Unsupported
            &&& after.snapshot.reason == Some(reason)
            &&& after.snapshot.operation is None
            &&& tells_of_no_update(after)
            &&& after.snapshot.error == session.snapshot.error
            &&& after.active_operation_id == session.active_operation_id
            &&& after.suppressed_for_session == session.suppressed_for_session
            &&& after.snapshot.current_version == session.snapshot.current_version
            &&& session.snapshot.revision < u64::MAX ==> after.snapshot.revision
                == session.snapshot.revision + 1
        }),
{
}

/// Updates come to the AppImage on Linux and to the installed application on Windows, and to
/// nothing else; every other installation is told what it would need.
pub proof fn law_updates_come_to_two_kinds_of_installations(
    system: Seq<char>,
    bundle: Option<BundleType>,
)
    ensures
        ({
            let reason = app_updates::unsupported_reason(system, bundle);
            let linux = system == "linux"@;
            let windows = system == "windows"@;
            &&& reason is None <==> (linux && bundle == Some(BundleType::AppImage)) || (windows
                && bundle == Some(BundleType::Nsis))
            &&& linux && bundle != Some(BundleType::AppImage) ==> reason == Some(
                "Automatic updates require the Linux AppImage."@,
            )
            &&& windows && bundle != Some(BundleType::Nsis) ==> reason == Some(
                "Automatic updates require the installed Windows application."@,
            )
            &&& !linux && !windows ==> reason == Some(
                "Automatic updates are currently supported only on Linux and Windows."@,
            )
        }),
{
    reveal_strlit("linux");
    reveal_strlit("windows");
    assert("linux"@.len() != "windows"@.len());
}

/// On its own account the application downloads only an update that is available, and only where
/// that is switched on; it looks for one where it knows of none; and it does nothing while an
/// operation runs, once updates are put off, and with an update that is ready or installed.
pub proof fn law_the_application_downloads_only_where_it_may<U>(
    session: UpdaterSession<U>,
    enabled: bool,
)
    ensures
        ({
            let work = app_updates::background_work(session, enabled);
            let free = !session.suppressed_for_session && session.active_operation_id is None;
            let phase = session.snapshot.phase;
            &&& work is Download <==> free && enabled && phase is Available
            &&& work is Check <==> free && (phase is Idle || phase is Checking || phase is UpToDate
                || phase is Unavailable || phase is Unsupported)
        }),
{
}

/// The version that runs is learned once.
pub proof fn law_versions_are_learned_once<U>(
    session: UpdaterSession<U>,
    version: String,
    other: String,
)
    ensures
        ({
            let known = update_flow::versioned(session, version);
            &&& session.snapshot.current_version@.len() == 0 ==> known.snapshot.current_version
                == version
            &&& session.snapshot.current_version@.len() > 0 ==> known == session
            &&& known.snapshot.current_version@.len() > 0 ==> update_flow::versioned(known, other)
                == known
            &&& known.snapshot.phase == session.snapshot.phase
            &&& known.snapshot.revision == session.snapshot.revision
            &&& known.snapshot.error == session.snapshot.error
            &&& known.resource == session.resource
            &&& known.active_operation_id == session.active_operation_id
        }),
{
}

/// Bytes that arrived are counted, as far as numbers go, for the download that runs and for no other
/// operation; the download is then shown as such, and everything else stays.
pub proof fn law_arrived_bytes_are_counted<U>(
    session: UpdaterSession<U>,
    id: u64,
    chunk: usize,
    total: Option<u64>,
)
    ensures
        ({
            let after = session.progressed(id, chunk, total);
            let runs = session.active_operation_id == Some(id) && session.snapshot.operation
                == Some(UpdateOperation::Download);
            let sum = session.snapshot.downloaded_bytes + chunk;
            &&& session.downloading(id) <==> runs
            &&& !runs ==> after == session
            &&& runs && sum <= u64::MAX ==> after.snapshot.downloaded_bytes == sum
            &&& runs && sum > u64::MAX ==> after.snapshot.downloaded_bytes == u64::MAX
            &&& runs ==> {
                &&& after.snapshot.total_bytes == total
                &&& after.snapshot.progress_phase == Some(UpdateProgressPhase::Downloading)
                &&& after.snapshot.phase == session.snapshot.phase
                &&& after.snapshot.operation == session.snapshot.operation
                &&& after.active_operation_id == session.active_operation_id
                &&& after.resource == session.resource
                &&& session.snapshot.revision < u64::MAX ==> after.snapshot.revision
                    == session.snapshot.revision + 1
            }
        }),
{
}

/// What was downloaded is shown as being verified for the operation that runs and for no other, and
/// everything else stays.
pub proof fn law_verification_is_shown<U>(session: UpdaterSession<U>, id: u64)
    ensures
        ({
            let after = session.being_verified(id);
            let runs = session.active_operation_id == Some(id);
            &&& !runs ==> after == session
            &&& runs ==> {
                &&& after.snapshot.progress_phase == Some(UpdateProgressPhase::Verifying)
                &&& after.snapshot.downloaded_bytes == session.snapshot.downloaded_bytes
                &&& after.snapshot.total_bytes == session.snapshot.total_bytes
                &&& after.snapshot.phase == session.snapshot.phase
                &&& after.snapshot.operation == session.snapshot.operation
                &&& after.active_operation_id == session.active_operation_id
                &&& after.resource == session.resource
            }
        }),
{
}

} // verus!
