use vhost::vhost_user::message::VhostUserVirtioFeatures;
use vhost_user_fs::{
    transfer_joined, IoErrorKind, OsError, PreparationAction, RequestStage, TransferDirection,
    TransferPhase, TransferStage, VhostUserFsBackend,
};

type Backend = VhostUserFsBackend<(), (), (), (), &'static str, u64>;

fn os_error() -> OsError {
    OsError {
        kind: std::io::ErrorKind::BrokenPipe,
        display: "Broken pipe".to_string(),
        debug: "BrokenPipe".to_string(),
    }
}

fn backend() -> Backend {
    Backend::new(()).unwrap()
}

fn log_all() -> u64 {
    VhostUserVirtioFeatures::LOG_ALL.bits()
}

fn preparing() -> Backend {
    let mut backend = backend();
    assert!(matches!(backend.acked_features(log_all()), PreparationAction::Start));
    backend.preparation_started("preparation");
    backend
}

#[test]
fn log_all_starts_one_preparation() {
    let mut backend = preparing();
    assert!(matches!(backend.acked_features(u64::MAX), PreparationAction::Nothing));
    assert_eq!(backend.migration.premigration_thread, Some("preparation"));
}

#[test]
fn clearing_log_all_cancels() {
    let mut backend = preparing();
    assert!(matches!(
        backend.acked_features(!log_all()),
        PreparationAction::Cancel("preparation")
    ));
    assert!(backend.migration.premigration_thread.is_none());
    assert!(matches!(backend.acked_features(0), PreparationAction::Nothing));
    assert!(matches!(backend.acked_features(0x400_0001), PreparationAction::Start));
}

#[test]
fn saving_waits_for_the_preparation() {
    let mut backend = preparing();
    let transfer =
        backend.set_device_state_fd(TransferDirection::Save, TransferPhase::Stopped).unwrap();
    assert_eq!(transfer.request, RequestStage::StartThread);
    assert_eq!(transfer.thread, TransferStage::JoinPreparation);
    assert_eq!(transfer.preparation, Some("preparation"));
    assert!(backend.migration.premigration_thread.is_none());
    assert_eq!(transfer.thread.preparation_joined(true), TransferStage::Serialize);
}

#[test]
fn saving_prepares_if_it_was_not_announced() {
    let transfer = backend()
        .set_device_state_fd(TransferDirection::Save, TransferPhase::Stopped)
        .unwrap();
    assert_eq!(transfer.request, RequestStage::StartThread);
    assert_eq!(transfer.thread, TransferStage::Prepare);
    assert_eq!(transfer.preparation, None);
    assert_eq!(transfer.thread.prepared(), TransferStage::Serialize);
}

#[test]
fn loading_cancels_the_preparation_first() {
    let mut backend = preparing();
    let transfer =
        backend.set_device_state_fd(TransferDirection::Load, TransferPhase::Stopped).unwrap();
    assert_eq!(transfer.request, RequestStage::CancelPreparation);
    assert_eq!(transfer.preparation, Some("preparation"));
    assert!(backend.migration.premigration_thread.is_none());
    let transfer = transfer.preparation_cancelled();
    assert_eq!(transfer.request, RequestStage::StartThread);
    assert_eq!(transfer.thread, TransferStage::Deserialize);
    assert_eq!(transfer.preparation, None);
    assert!(backend.transfer_started(transfer.request, 1).is_ok());
    let transfer =
        backend.set_device_state_fd(TransferDirection::Load, TransferPhase::Stopped).unwrap();
    assert_eq!(transfer.request, RequestStage::StartThread);
    assert_eq!(transfer.thread, TransferStage::Deserialize);
    assert_eq!(transfer.preparation, None);
}

#[test]
fn other_phases_are_rejected() {
    let mut backend = preparing();
    assert!(backend.transfer_started(RequestStage::StartThread, 1).is_ok());
    let error = backend
        .set_device_state_fd(TransferDirection::Save, TransferPhase::Other("RUNNING".to_string()))
        .unwrap_err();
    assert!(matches!(error.kind(), IoErrorKind::Unsupported));
    assert_eq!(error.display(), "Transfer in phase RUNNING is not supported");
    assert_eq!(backend.migration.premigration_thread, Some("preparation"));
    assert_eq!(backend.migration.migration_thread, Some(1));
}

#[test]
fn transfer_is_checked_once() {
    let mut backend = backend();
    assert!(backend.transfer_started(RequestStage::StartThread, 1).is_ok());
    assert!(backend.transfer_started(RequestStage::StartThread, 2).is_ok());
    assert_eq!(backend.check_device_state().unwrap(), 2);
    let error = backend.check_device_state().unwrap_err();
    assert!(matches!(error.kind(), IoErrorKind::InvalidInput));
    assert_eq!(
        error.display(),
        "Front-end attempts to check migration state, but no migration has been done"
    );
}

#[test]
fn refused_transfers_and_log_all_leave_the_transfer_alone() {
    let mut backend = backend();
    let stopped = backend.set_device_state_fd(TransferDirection::Save, TransferPhase::Stopped);
    assert!(backend.transfer_started(stopped.unwrap().request, 1).is_ok());
    backend.acked_features(0);
    let refused = TransferPhase::Other("RUNNING".to_string());
    assert!(backend.set_device_state_fd(TransferDirection::Load, refused).is_err());
    assert_eq!(backend.check_device_state().unwrap(), 1);
    let refused = TransferPhase::Other("RUNNING".to_string());
    assert!(backend.set_device_state_fd(TransferDirection::Load, refused).is_err());
    assert!(backend.check_device_state().is_err());
    let stopped = backend.set_device_state_fd(TransferDirection::Load, TransferPhase::Stopped);
    assert!(backend.transfer_started(stopped.unwrap().request, 2).is_ok());
    assert_eq!(backend.check_device_state().unwrap(), 2);
    assert!(backend.check_device_state().is_err());
}

#[test]
fn transfers_start_by_direction() {
    let start = TransferStage::start;
    assert_eq!(start(TransferDirection::Save, true), TransferStage::JoinPreparation);
    assert_eq!(start(TransferDirection::Save, false), TransferStage::Prepare);
    assert_eq!(start(TransferDirection::Load, true), TransferStage::Deserialize);
    assert_eq!(start(TransferDirection::Load, false), TransferStage::Deserialize);
}

#[test]
fn failed_preparation_ends_the_saving() {
    let stage = TransferStage::start(TransferDirection::Save, true).preparation_joined(false);
    assert_eq!(stage, TransferStage::PreparationFailed);
    let error = stage.preparation_failed().unwrap_err();
    assert!(matches!(error.kind(), IoErrorKind::Other));
    assert_eq!(error.display(), "Failed to finalize serialization preparation");
}

#[test]
fn failed_saving_keeps_kind_and_text() {
    assert!(TransferStage::Serialize.state_saved(Ok(())).is_ok());
    let error = TransferStage::Serialize.state_saved(Err(os_error())).unwrap_err();
    assert!(matches!(error.kind(), IoErrorKind::Reported(std::io::ErrorKind::BrokenPipe)));
    assert_eq!(error.display(), "Failed to save state: Broken pipe");
}

#[test]
fn failed_loading_keeps_kind_and_text() {
    assert!(TransferStage::Deserialize.state_loaded(Ok(())).is_ok());
    let error = TransferStage::Deserialize.state_loaded(Err(os_error())).unwrap_err();
    assert!(matches!(error.kind(), IoErrorKind::Reported(std::io::ErrorKind::BrokenPipe)));
    assert_eq!(error.display(), "Failed to load state: Broken pipe");
}

#[test]
fn transfer_reports_what_its_thread_ended_with() {
    assert!(transfer_joined(Some(Ok(()))).is_ok());
    let loaded = TransferStage::Deserialize.state_loaded(Err(os_error()));
    let error = transfer_joined(Some(loaded)).unwrap_err();
    assert_eq!(error.display(), "Failed to load state: Broken pipe");
    let error = transfer_joined(None).unwrap_err();
    assert!(matches!(error.kind(), IoErrorKind::Other));
    assert_eq!(error.display(), "Failed to join the migration thread");
}
