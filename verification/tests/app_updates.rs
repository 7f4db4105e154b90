use vox_golem::app_updates::{
    retain_recovery_state, select_background_work, update_installation_support, BackgroundWork,
    BundleType, InstallExitCoordinator, UpdateMetadata, UpdateOperation, UpdatePhase,
    UpdateProgressPhase, UpdateResource, UpdaterSession,
};
use vox_golem::update_flow::{
    begin_check, begin_download, begin_install, conclude_check, conclude_download,
    conclude_install, configure_auto_download, download_follows_check, initialize_version,
    restart_for_update, restore_install, run_cleanup_install_handoff, CheckReport, CheckStart,
    InstallReport,
};

fn session() -> UpdaterSession<()> {
    UpdaterSession::new(String::from("1.0.0"), true)
}

fn metadata() -> UpdateMetadata {
    UpdateMetadata {
        current_version: String::from("1.0.0"),
        version: String::from("2.0.0"),
        notes: Some(String::new()),
    }
}

fn available_session() -> UpdaterSession<()> {
    let mut session = session();
    session.snapshot.phase = UpdatePhase::Available;
    session.resource = Some(UpdateResource::Available { update: (), metadata: metadata() });
    session
}

fn ready_session() -> UpdaterSession<()> {
    let mut session = session();
    session.snapshot.phase = UpdatePhase::Ready;
    session.resource = Some(UpdateResource::Ready {
        update: (),
        bytes: vec![1, 2, 3],
        metadata: metadata(),
    });
    session
}

#[test]
fn revisions_advance_for_operation_progress_and_completion() {
    let mut session = session();
    session.resource = Some(UpdateResource::Available { update: (), metadata: metadata() });
    session.snapshot.phase = UpdatePhase::Available;
    let initial = session.snapshot.revision;
    let id = session.reserve(UpdateOperation::Download, true).unwrap();
    let reserved = session.snapshot.revision;
    assert!(session.progress(id, 4, Some(8)));
    let progressed = session.snapshot.revision;
    session.finish_download(id, vec![1, 2, 3, 4]);
    assert!(reserved > initial);
    assert!(progressed > reserved);
    assert!(session.snapshot.revision > progressed);
    assert_eq!(session.snapshot.phase, UpdatePhase::Ready);
}

#[test]
fn download_failure_restores_available_resource_and_records_error() {
    let mut session = session();
    session.resource = Some(UpdateResource::Available { update: (), metadata: metadata() });
    session.snapshot.phase = UpdatePhase::Available;
    let id = session.reserve(UpdateOperation::Download, true).unwrap();
    session.finish_failure(id, String::from("offline"));
    assert_eq!(session.snapshot.phase, UpdatePhase::Available);
    assert_eq!(session.snapshot.error.as_deref(), Some("offline"));
    assert!(matches!(session.resource, Some(UpdateResource::Available { .. })));
}

#[test]
fn later_drops_verified_resource_and_suppresses_background_checks() {
    let mut session = session();
    session.resource = Some(UpdateResource::Ready {
        update: (),
        bytes: vec![1],
        metadata: metadata(),
    });
    session.snapshot.phase = UpdatePhase::Ready;
    session.defer().unwrap();
    assert!(session.resource.is_none());
    assert!(session.suppressed_for_session);
    assert!(session.reserve(UpdateOperation::Check, false).is_err());
    assert!(session.reserve(UpdateOperation::Check, true).is_ok());
}

#[test]
fn manual_check_does_not_reserve_a_download() {
    let mut session = session();
    let id = session.reserve(UpdateOperation::Check, true).unwrap();
    session.finish_check(id, Some(()), Some(metadata()));
    assert_eq!(session.snapshot.phase, UpdatePhase::Available);
    assert_eq!(session.snapshot.operation, None);
}

#[test]
fn missing_release_state_is_retained_for_hydration_without_an_error() {
    let mut session = session();
    let id = session.reserve(UpdateOperation::Check, false).unwrap();
    session.finish_unavailable(id);
    assert_eq!(session.snapshot.phase, UpdatePhase::Unavailable);
    assert_eq!(session.snapshot.error, None);
    assert!(session.snapshot.reason.is_some());
}

#[test]
fn recovery_state_rejects_all_update_operations_without_changing_the_snapshot() {
    let mut session = session();
    session.resource = Some(UpdateResource::Ready {
        update: (),
        bytes: vec![1, 2, 3],
        metadata: metadata(),
    });
    let mut retained_guard = None;
    retain_recovery_state(
        &mut session.snapshot,
        &mut session.resource,
        &mut retained_guard,
        "synthetic write guard",
        String::from("installer launch failed"),
    );
    let before = session.snapshot.clone();

    assert!(session.reserve(UpdateOperation::Check, true).is_err());
    assert!(session.reserve(UpdateOperation::Check, false).is_err());
    assert!(session.reserve(UpdateOperation::Download, true).is_err());
    assert!(session.reserve(UpdateOperation::Install, true).is_err());
    assert_eq!(session.snapshot, before);
    assert_eq!(retained_guard, Some("synthetic write guard"));
    assert!(session.resource.is_none());
}

#[test]
fn background_work_reuses_available_resource_and_preserves_ready_or_recovery_state() {
    let mut available = available_session();
    assert_eq!(select_background_work(&available, true), BackgroundWork::Download);
    let download = available.reserve(UpdateOperation::Download, true).unwrap();
    assert_eq!(select_background_work(&available, true), BackgroundWork::Nothing);
    assert!(available.reserve(UpdateOperation::Download, true).is_err());
    available.finish_failure(download, String::from("offline"));

    let mut ready = ready_session();
    assert_eq!(select_background_work(&ready, true), BackgroundWork::Nothing);
    assert!(matches!(ready.resource, Some(UpdateResource::Ready { .. })));

    let mut retained_guard = None;
    retain_recovery_state(
        &mut ready.snapshot,
        &mut ready.resource,
        &mut retained_guard,
        "guard",
        String::from("install failed"),
    );
    assert_eq!(select_background_work(&ready, true), BackgroundWork::Nothing);
    assert_eq!(retained_guard, Some("guard"));
}

#[test]
fn authoritative_check_reservation_cannot_replace_available_or_ready_resources() {
    let mut available = available_session();
    assert!(available.reserve(UpdateOperation::Check, false).is_err());

    let mut ready = ready_session();
    assert!(ready.reserve(UpdateOperation::Check, true).is_err());
    assert!(matches!(ready.resource, Some(UpdateResource::Ready { .. })));
}

#[test]
fn disabled_auto_download_still_checks_metadata_but_does_not_download() {
    let initial = session();
    assert_eq!(select_background_work(&initial, false), BackgroundWork::Check);

    let available = available_session();
    assert_eq!(select_background_work(&available, false), BackgroundWork::Nothing);

    let mut deferred = session();
    deferred.snapshot.phase = UpdatePhase::Ready;
    deferred.resource = Some(UpdateResource::Ready {
        update: (),
        bytes: vec![1],
        metadata: metadata(),
    });
    deferred.defer().unwrap();
    assert_eq!(select_background_work(&deferred, false), BackgroundWork::Nothing);
}

#[test]
fn lost_installer_task_releases_exit_reservation_and_leaves_a_retryable_snapshot() {
    let mut session = ready_session();
    session.install_exit.reserve_installation().unwrap();
    let id = session.reserve(UpdateOperation::Install, true).unwrap();
    let _lost_resources = session.take_ready(id).unwrap();

    session.finish_unrecoverable_install_failure(id, String::from("installer task lost"));

    assert_eq!(session.snapshot.phase, UpdatePhase::Idle);
    assert_eq!(session.snapshot.operation, None);
    assert_eq!(session.snapshot.error.as_deref(), Some("installer task lost"));
    assert!(!session.install_exit.handle_exit_request());
}

#[test]
fn only_appimage_and_nsis_bundle_markers_are_update_eligible() {
    assert!(update_installation_support("linux", Some(BundleType::AppImage)).is_ok());
    assert!(update_installation_support("windows", Some(BundleType::Nsis)).is_ok());
    assert!(update_installation_support("linux", Some(BundleType::Deb)).is_err());
}

#[test]
fn accepted_exit_prevents_a_later_install_reservation() {
    let mut coordinator = InstallExitCoordinator::default();
    assert!(!coordinator.handle_exit_request());
    assert_eq!(
        coordinator.reserve_installation().unwrap_err(),
        "application exit is already committed"
    );
}

#[test]
fn cleanup_failure_prevents_installer_launch() {
    let started = std::cell::Cell::new(false);
    let result = run_cleanup_install_handoff(
        || Err(String::from("cleanup failed")),
        || {
            started.set(true);
            Ok(())
        },
    );
    assert_eq!(result, Err(String::from("cleanup failed")));
    assert!(!started.get());
}

#[test]
fn cleanup_success_launches_the_installer() {
    let started = std::cell::Cell::new(false);
    let result = run_cleanup_install_handoff(
        || Ok(()),
        || {
            started.set(true);
            Err(String::from("installer missing"))
        },
    );
    assert_eq!(result, Err(String::from("installer missing")));
    assert!(started.get());
}

#[test]
fn reserved_installation_prevents_exit_until_it_is_released() {
    let mut coordinator = InstallExitCoordinator::default();
    coordinator.reserve_installation().unwrap();
    assert_eq!(
        coordinator.reserve_installation().unwrap_err(),
        "update installation is already reserved"
    );
    assert!(coordinator.handle_exit_request());
    coordinator.release_installation();
    assert!(!coordinator.handle_exit_request());
}

#[test]
fn a_check_goes_from_its_request_to_its_report() {
    let mut session: UpdaterSession<u8> = UpdaterSession::new(String::new(), false);
    let id = match begin_check(&mut session, String::from("1.2.3"), Ok(()), true) {
        CheckStart::Reserved(id) => id,
        _ => panic!("the check should run"),
    };
    assert_eq!(id, 1);
    assert_eq!(session.snapshot.current_version, "1.2.3");
    assert_eq!(session.snapshot.phase, UpdatePhase::Checking);
    conclude_check(
        &mut session,
        id,
        CheckReport::Found { update: 7, metadata: metadata() },
    );
    assert_eq!(session.snapshot.phase, UpdatePhase::Available);
    assert_eq!(session.snapshot.version.as_deref(), Some("2.0.0"));
    conclude_check(&mut session, id, CheckReport::Failed(String::from("late")));
    assert_eq!(session.snapshot.error, None);
}

#[test]
fn checks_are_answered_or_refused_where_they_cannot_run() {
    let mut unsupported = session();
    assert!(matches!(
        begin_check(&mut unsupported, String::from("1.0.0"), Err("not packaged"), true),
        CheckStart::Answered
    ));
    assert_eq!(unsupported.snapshot.phase, UpdatePhase::Unsupported);
    assert_eq!(unsupported.snapshot.reason, Some("not packaged"));

    let mut restart = session();
    restart.snapshot.phase = UpdatePhase::RestartRequired;
    match begin_check(&mut restart, String::from("1.0.0"), Ok(()), true) {
        CheckStart::Refused(message) => {
            assert_eq!(message, "restart is required before another update operation")
        }
        _ => panic!("the check should be refused"),
    }
}

#[test]
fn a_failed_download_keeps_the_update_and_names_the_failure() {
    let mut session = available_session();
    let (id, update, found) = begin_download(&mut session).unwrap();
    assert_eq!(session.snapshot.phase, UpdatePhase::Downloading);
    assert!(session.progress(id, 3, None));
    assert!(session.verifying(id));
    assert_eq!(session.snapshot.progress_phase, Some(UpdateProgressPhase::Verifying));
    conclude_download(&mut session, id, update, found, Err(String::from("offline")));
    assert_eq!(session.snapshot.phase, UpdatePhase::Available);
    assert_eq!(
        session.snapshot.error.as_deref(),
        Some("failed to download or verify update: offline")
    );
    let (id, update, found) = begin_download(&mut session).unwrap();
    conclude_download(&mut session, id, update, found, Ok(vec![9]));
    assert_eq!(session.snapshot.phase, UpdatePhase::Ready);
}

#[test]
fn installation_failures_depend_on_the_platform() {
    let mut linux = ready_session();
    let (id, update, bytes, found) = begin_install(&mut linux).unwrap();
    let mut guard: Option<&str> = None;
    conclude_install(
        &mut linux,
        id,
        InstallReport::Failed { update, bytes, metadata: found, error: String::from("denied") },
        false,
        &mut guard,
        "guard",
    );
    assert_eq!(linux.snapshot.phase, UpdatePhase::Ready);
    assert_eq!(linux.snapshot.error.as_deref(), Some("failed to install update: denied"));
    assert_eq!(guard, None);
    assert!(!linux.install_exit.handle_exit_request());

    let mut windows = ready_session();
    let (id, _, _, _) = begin_install(&mut windows).unwrap();
    conclude_install(
        &mut windows,
        id,
        InstallReport::Lost(String::from("gone")),
        true,
        &mut guard,
        "guard",
    );
    assert_eq!(windows.snapshot.phase, UpdatePhase::RestartRequired);
    assert_eq!(guard, Some("guard"));
    assert_eq!(restart_for_update(&windows), Ok(()));
    assert_eq!(
        restart_for_update(&linux),
        Err(String::from("an updater recovery restart is not required"))
    );
}

#[test]
fn an_abandoned_installation_is_taken_back() {
    let mut session = ready_session();
    let (id, update, bytes, found) = begin_install(&mut session).unwrap();
    restore_install(&mut session, id, update, bytes, found, String::from("busy"));
    assert_eq!(session.snapshot.phase, UpdatePhase::Ready);
    assert_eq!(session.snapshot.error.as_deref(), Some("busy"));
    assert!(!session.install_exit.handle_exit_request());
}

#[test]
fn versions_and_switches_are_taken_over() {
    let mut session: UpdaterSession<()> = UpdaterSession::new(String::new(), true);
    initialize_version(&mut session, String::from("3.0.0"));
    initialize_version(&mut session, String::from("4.0.0"));
    assert_eq!(session.snapshot.current_version, "3.0.0");
    configure_auto_download(&mut session, false);
    assert!(!session.snapshot.auto_download_enabled);
    assert!(download_follows_check(true, &available_session(), true));
    assert!(!download_follows_check(false, &available_session(), true));
}

#[test]
fn switching_automatic_downloads_changes_nothing_else() {
    let mut session = available_session();
    let before = session.snapshot.clone();
    session.set_auto_download(false);
    assert!(!session.snapshot.auto_download_enabled);
    assert_eq!(session.snapshot.revision, before.revision + 1);
    assert_eq!(session.snapshot.phase, UpdatePhase::Available);
    assert!(matches!(session.resource, Some(UpdateResource::Available { .. })));
}

#[test]
fn installed_updates_wait_for_a_restart() {
    let mut linux = ready_session();
    let (id, _, _, _) = begin_install(&mut linux).unwrap();
    let mut guard: Option<&str> = None;
    conclude_install(&mut linux, id, InstallReport::Installed, false, &mut guard, "guard");
    assert_eq!(linux.snapshot.phase, UpdatePhase::RestartRequired);
    assert_eq!(linux.snapshot.operation, None);
    assert_eq!(linux.snapshot.error, None);
    assert_eq!(guard, None);
    assert_eq!(restart_for_update(&linux), Ok(()));
    assert!(linux.reserve(UpdateOperation::Check, true).is_err());
    assert!(!linux.install_exit.handle_exit_request());

    let mut windows = ready_session();
    let (id, _, _, _) = begin_install(&mut windows).unwrap();
    conclude_install(&mut windows, id, InstallReport::Installed, true, &mut guard, "guard");
    assert_eq!(windows.snapshot.phase, UpdatePhase::Installing);
    assert!(restart_for_update(&windows).is_err());
}
