use incident_workbench::{
    finish_vault_reset, get_backend_port, lock_failure_message, locate_failure_message,
    parse_port, plan_vault_reset, port_from_first_line, vault_file_name, BackendPort,
    NotSetError, Phase, SidecarProcess, SidecarSupervisor, DEFAULT_BACKEND_PORT,
};

#[test]
fn get_fails_before_set() {
    let cell = BackendPort::new();
    assert_eq!(cell.get(), Err(NotSetError));
    assert_eq!(cell.get(), Err(NotSetError));
    assert!(!cell.is_set());
}

#[test]
fn get_returns_set_port_repeatedly() {
    let mut cell = BackendPort::new();
    cell.set(4242);
    assert_eq!(cell.get(), Ok(4242));
    assert_eq!(cell.get(), Ok(4242));
    cell.set(0);
    assert_eq!(cell.get(), Ok(0));
    cell.set(65535);
    assert_eq!(cell.get(), Ok(65535));
}

#[test]
fn gateway_reports_unset_port() {
    let cell = BackendPort::new();
    assert_eq!(get_backend_port(&cell), Err("Backend port not yet set".to_string()));
}

#[test]
fn gateway_returns_port() {
    let mut cell = BackendPort::new();
    cell.set(8765);
    assert_eq!(get_backend_port(&cell), Ok(8765));
}

#[test]
fn lock_failure_text() {
    assert_eq!(lock_failure_message("poisoned"), "Failed to lock backend port: poisoned");
}

#[test]
fn slot_store_and_take() {
    let mut slot: SidecarProcess<u32> = SidecarProcess::new();
    assert!(!slot.is_occupied());
    assert_eq!(slot.store(7), None);
    assert!(slot.is_occupied());
    assert_eq!(slot.store(8), Some(7));
    assert_eq!(slot.take(), Some(8));
    assert_eq!(slot.take(), None);
    assert!(!slot.is_occupied());
}

#[test]
fn parse_port_accepts_announcements() {
    assert_eq!(parse_port(b"8765"), Some(8765));
    assert_eq!(parse_port(b"8765\n"), Some(8765));
    assert_eq!(parse_port(b"8765\r\n"), Some(8765));
    assert_eq!(parse_port(b"1"), Some(1));
    assert_eq!(parse_port(b"65535"), Some(65535));
    assert_eq!(parse_port(b"00080"), Some(80));
}

#[test]
fn parse_port_rejects_other_lines() {
    assert_eq!(parse_port(b""), None);
    assert_eq!(parse_port(b"\n"), None);
    assert_eq!(parse_port(b"0"), None);
    assert_eq!(parse_port(b"65536"), None);
    assert_eq!(parse_port(b"123456"), None);
    assert_eq!(parse_port(b"87a5"), None);
    assert_eq!(parse_port(b" 8765"), None);
    assert_eq!(parse_port(b"8765\n\n"), None);
}

#[test]
fn first_line_falls_back_to_default() {
    assert_eq!(port_from_first_line(b"9001\n"), 9001);
    assert_eq!(port_from_first_line(b"listening"), DEFAULT_BACKEND_PORT);
    assert_eq!(DEFAULT_BACKEND_PORT, 8765);
}

#[test]
fn spawn_success_publishes_port_and_keeps_handle() {
    let mut port = BackendPort::new();
    let mut sup: SidecarSupervisor<u32> = SidecarSupervisor::new();
    assert_eq!(sup.phase(), Phase::Idle);
    assert!(sup.begin_spawn());
    assert_eq!(sup.phase(), Phase::Spawning);
    assert!(!sup.begin_spawn());
    sup.spawn_succeeded(&mut port, 31, b"8765\n");
    assert_eq!(sup.phase(), Phase::Running);
    assert!(sup.holds_process());
    assert_eq!(get_backend_port(&port), Ok(8765));
    assert_eq!(sup.shutdown(), Some(31));
    assert_eq!(sup.phase(), Phase::Terminated);
    assert!(!sup.holds_process());
    assert_eq!(sup.shutdown(), None);
}

#[test]
fn spawn_success_with_announced_port() {
    let mut port = BackendPort::new();
    let mut sup: SidecarSupervisor<u32> = SidecarSupervisor::new();
    assert!(sup.begin_spawn());
    sup.spawn_succeeded(&mut port, 5, b"50123\r\n");
    assert_eq!(port.get(), Ok(50123));
}

#[test]
fn spawn_success_silent_worker_uses_default() {
    let mut port = BackendPort::new();
    let mut sup: SidecarSupervisor<u32> = SidecarSupervisor::new();
    assert!(sup.begin_spawn());
    sup.spawn_succeeded(&mut port, 5, b"");
    assert_eq!(get_backend_port(&port), Ok(8765));
}

#[test]
fn spawn_failure_falls_back() {
    let mut port = BackendPort::new();
    let mut sup: SidecarSupervisor<u32> = SidecarSupervisor::new();
    assert!(sup.begin_spawn());
    sup.spawn_failed(&mut port);
    assert_eq!(sup.phase(), Phase::FallbackAssumed);
    assert!(!sup.holds_process());
    assert_eq!(get_backend_port(&port), Ok(8765));
    assert_eq!(sup.shutdown(), None);
    assert_eq!(sup.phase(), Phase::Terminated);
}

#[test]
fn vault_reset_absent_is_success() {
    assert!(!plan_vault_reset(false));
    assert_eq!(finish_vault_reset(None), Ok(()));
}

#[test]
fn vault_reset_present_deletes() {
    assert!(plan_vault_reset(true));
    assert_eq!(finish_vault_reset(Some(Ok(()))), Ok(()));
    assert!(!plan_vault_reset(false));
    assert_eq!(finish_vault_reset(None), Ok(()));
}

#[test]
fn vault_reset_denied_deletion() {
    assert_eq!(
        finish_vault_reset(Some(Err("permission denied".to_string()))),
        Err("Failed to delete credentials vault: permission denied".to_string())
    );
}

#[test]
fn vault_name_and_locate_failure() {
    assert_eq!(vault_file_name(), "credentials.stronghold");
    assert_eq!(
        locate_failure_message("no home"),
        "Failed to locate app data directory: no home"
    );
}
