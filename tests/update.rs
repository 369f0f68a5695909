use desktop_shell::update::{UpdateAction, UpdateCommand, UpdateEvent, UpdatePhase, UpdateSession};

fn run(command: UpdateCommand, events: Vec<UpdateEvent>) -> (UpdateSession, Vec<UpdateAction>) {
    let mut session = UpdateSession::new(command);
    let mut actions = Vec::new();
    for e in events {
        assert!(session.accepts(&e), "event {:?} out of phase {:?}", e, session.phase);
        actions.push(session.step(e));
    }
    (session, actions)
}

#[test]
fn new_session_starts() {
    let s = UpdateSession::new(UpdateCommand::CheckForUpdate);
    assert_eq!(s.phase, UpdatePhase::Start);
    assert_eq!(s.command, UpdateCommand::CheckForUpdate);
    assert!(!s.is_finished());
}

#[test]
fn check_reports_found_version() {
    let (s, a) = run(
        UpdateCommand::CheckForUpdate,
        vec![UpdateEvent::UpdaterReady, UpdateEvent::Found("1.4.2".to_string())],
    );
    assert_eq!(a, vec![UpdateAction::Check, UpdateAction::ReplyVersion(Some("1.4.2".to_string()))]);
    assert!(s.is_finished());
}

#[test]
fn check_reports_no_update() {
    let (s, a) = run(UpdateCommand::CheckForUpdate, vec![UpdateEvent::UpdaterReady, UpdateEvent::UpToDate]);
    assert_eq!(a, vec![UpdateAction::Check, UpdateAction::ReplyVersion(None)]);
    assert!(s.is_finished());
}

#[test]
fn check_reports_query_error() {
    let (_, a) = run(
        UpdateCommand::CheckForUpdate,
        vec![UpdateEvent::UpdaterReady, UpdateEvent::CheckFailed("network unreachable".to_string())],
    );
    assert_eq!(a[1], UpdateAction::ReplyError("network unreachable".to_string()));
}

#[test]
fn check_without_updater() {
    let (s, a) = run(UpdateCommand::CheckForUpdate, vec![UpdateEvent::UpdaterUnavailable]);
    assert_eq!(a, vec![UpdateAction::ReplyError("Updater not available".to_string())]);
    assert!(s.is_finished());
}

#[test]
fn check_never_waits_on_install() {
    let mut s = UpdateSession::new(UpdateCommand::CheckForUpdate);
    s.step(UpdateEvent::UpdaterReady);
    assert!(!s.accepts(&UpdateEvent::Installed));
    let a = s.step(UpdateEvent::Found("2.0.0".to_string()));
    assert_ne!(a, UpdateAction::DownloadAndInstall);
}

#[test]
fn install_runs_to_success() {
    let (s, a) = run(
        UpdateCommand::InstallUpdate,
        vec![UpdateEvent::UpdaterReady, UpdateEvent::Found("1.4.2".to_string()), UpdateEvent::Installed],
    );
    assert_eq!(
        a,
        vec![UpdateAction::Check, UpdateAction::DownloadAndInstall, UpdateAction::ReplyInstalled]
    );
    assert!(s.is_finished());
}

#[test]
fn install_reports_install_error() {
    let (_, a) = run(
        UpdateCommand::InstallUpdate,
        vec![
            UpdateEvent::UpdaterReady,
            UpdateEvent::Found("1.4.2".to_string()),
            UpdateEvent::InstallFailed("signature mismatch".to_string()),
        ],
    );
    assert_eq!(a[2], UpdateAction::ReplyError("signature mismatch".to_string()));
}

#[test]
fn install_without_update_does_not_download() {
    let (s, a) = run(UpdateCommand::InstallUpdate, vec![UpdateEvent::UpdaterReady, UpdateEvent::UpToDate]);
    assert_eq!(a, vec![UpdateAction::Check, UpdateAction::ReplyError("No update available".to_string())]);
    assert!(!a.contains(&UpdateAction::DownloadAndInstall));
    assert!(s.is_finished());
    assert!(!s.accepts(&UpdateEvent::Found("1.4.2".to_string())));
    assert!(!s.accepts(&UpdateEvent::Installed));
}

#[test]
fn install_reports_query_error() {
    let (_, a) = run(
        UpdateCommand::InstallUpdate,
        vec![UpdateEvent::UpdaterReady, UpdateEvent::CheckFailed("bad manifest".to_string())],
    );
    assert_eq!(a[1], UpdateAction::ReplyError("bad manifest".to_string()));
}

#[test]
fn install_without_updater() {
    let (_, a) = run(UpdateCommand::InstallUpdate, vec![UpdateEvent::UpdaterUnavailable]);
    assert_eq!(a, vec![UpdateAction::ReplyError("Updater not available".to_string())]);
}

#[test]
fn start_takes_only_updater_events() {
    let s = UpdateSession::new(UpdateCommand::InstallUpdate);
    assert!(s.accepts(&UpdateEvent::UpdaterReady));
    assert!(s.accepts(&UpdateEvent::UpdaterUnavailable));
    assert!(!s.accepts(&UpdateEvent::UpToDate));
    assert!(!s.accepts(&UpdateEvent::Installed));
}
