use leaderboard_updater::updater::{UpdateAction, UpdateChecker, UpdateEvent, UpdatePhase};

#[test]
fn no_newer_version_ends_quietly() {
    let mut c = UpdateChecker::new();
    assert_eq!(c.handle(UpdateEvent::Launched), UpdateAction::CheckForUpdate);
    let a = c.handle(UpdateEvent::CheckFinished { newer_available: false });
    assert_eq!(a, UpdateAction::Nothing);
    assert_eq!(c.phase, UpdatePhase::NoUpdate);
    let later = [
        UpdateEvent::ChunkReceived { length: 10, total: Some(10) },
        UpdateEvent::DownloadFinished,
        UpdateEvent::Installed,
        UpdateEvent::Launched,
    ];
    for e in later {
        assert_eq!(c.handle(e), UpdateAction::Nothing);
    }
    assert_eq!(c.phase, UpdatePhase::NoUpdate);
}

#[test]
fn newer_version_downloads_installs_and_restarts() {
    let mut c = UpdateChecker::new();
    let mut actions = Vec::new();
    actions.push(c.handle(UpdateEvent::Launched));
    actions.push(c.handle(UpdateEvent::CheckFinished { newer_available: true }));
    for length in [100u64, 150, 250] {
        actions.push(c.handle(UpdateEvent::ChunkReceived { length, total: Some(500) }));
    }
    actions.push(c.handle(UpdateEvent::DownloadFinished));
    actions.push(c.handle(UpdateEvent::Installed));
    assert_eq!(
        actions,
        vec![
            UpdateAction::CheckForUpdate,
            UpdateAction::Download,
            UpdateAction::ReportProgress { downloaded: 100, total: Some(500) },
            UpdateAction::ReportProgress { downloaded: 250, total: Some(500) },
            UpdateAction::ReportProgress { downloaded: 500, total: Some(500) },
            UpdateAction::Install,
            UpdateAction::Restart,
        ]
    );
    assert_eq!(c.phase, UpdatePhase::Restarting);
    assert_eq!(c.downloaded, 500);
}

#[test]
fn unknown_total_is_reported_as_unknown() {
    let mut c = UpdateChecker::new();
    c.handle(UpdateEvent::Launched);
    c.handle(UpdateEvent::CheckFinished { newer_available: true });
    let a = c.handle(UpdateEvent::ChunkReceived { length: 7, total: None });
    assert_eq!(a, UpdateAction::ReportProgress { downloaded: 7, total: None });
}

#[test]
fn failure_is_logged_and_final() {
    for steps in 0..3 {
        let mut c = UpdateChecker::new();
        c.handle(UpdateEvent::Launched);
        if steps >= 1 {
            c.handle(UpdateEvent::CheckFinished { newer_available: true });
        }
        if steps >= 2 {
            c.handle(UpdateEvent::DownloadFinished);
        }
        assert_eq!(c.handle(UpdateEvent::Failure), UpdateAction::LogFailure);
        assert_eq!(c.phase, UpdatePhase::Failed);
        assert_eq!(c.handle(UpdateEvent::Installed), UpdateAction::Nothing);
        assert_eq!(c.phase, UpdatePhase::Failed);
    }
}

#[test]
fn byte_count_overflow_fails_the_download() {
    let mut c = UpdateChecker::new();
    c.handle(UpdateEvent::Launched);
    c.handle(UpdateEvent::CheckFinished { newer_available: true });
    c.handle(UpdateEvent::ChunkReceived { length: u64::MAX, total: None });
    let a = c.handle(UpdateEvent::ChunkReceived { length: 1, total: None });
    assert_eq!(a, UpdateAction::LogFailure);
    assert_eq!(c.phase, UpdatePhase::Failed);
    assert_eq!(c.downloaded, u64::MAX);
}

#[test]
fn out_of_phase_events_change_nothing() {
    let mut c = UpdateChecker::new();
    assert_eq!(c.handle(UpdateEvent::Installed), UpdateAction::Nothing);
    assert_eq!(c.handle(UpdateEvent::Failure), UpdateAction::Nothing);
    assert_eq!(c, UpdateChecker::new());
    c.handle(UpdateEvent::Launched);
    let a = c.handle(UpdateEvent::ChunkReceived { length: 3, total: None });
    assert_eq!(a, UpdateAction::Nothing);
    assert_eq!(c.phase, UpdatePhase::Checking);
    assert_eq!(c.downloaded, 0);
}
