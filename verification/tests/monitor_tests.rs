use xiv_otp::monitor::{MonitorStep, PortReport, ProcInfo, ProcMonitor, LAUNCHER_PORT};

const SEC: u128 = 1_000_000_000;

fn procs() -> Vec<ProcInfo> {
    vec![
        ProcInfo { pid: 1, comm: "systemd".to_string() },
        ProcInfo { pid: 40, comm: "XIVLauncher.Cor".to_string() },
        ProcInfo { pid: 41, comm: "bash".to_string() },
        ProcInfo { pid: 42, comm: "XIVLauncher".to_string() },
    ]
}

#[test]
fn new_monitor_has_nothing_on_cooldown() {
    let m = ProcMonitor::new();
    assert!(!m.is_on_cooldown(40, 0, 30 * SEC));
}

#[test]
fn scan_lists_matching_processes_in_order() {
    let m = ProcMonitor::new();
    assert_eq!(m.scan_processes(&procs(), "XIVLauncher", 100 * SEC, 30 * SEC), MonitorStep::CheckPorts(vec![40, 42]));
}

#[test]
fn scan_without_match_sleeps_the_check_interval() {
    let m = ProcMonitor::new();
    assert_eq!(m.scan_processes(&procs(), "steam", 100 * SEC, 30 * SEC), MonitorStep::Sleep(30 * SEC));
    assert_eq!(m.scan_processes(&Vec::new(), "XIVLauncher", 0, 30 * SEC), MonitorStep::Sleep(30 * SEC));
}

#[test]
fn first_listening_candidate_is_found_and_cooled_down() {
    let mut m = ProcMonitor::new();
    let reports = vec![
        PortReport { pid: 40, local_ports: Some(vec![22, 631]) },
        PortReport { pid: 42, local_ports: Some(vec![LAUNCHER_PORT, 80]) },
    ];
    assert_eq!(m.check_ports(&reports, LAUNCHER_PORT, 100 * SEC, 30 * SEC, SEC), MonitorStep::Found(42));
    assert!(m.is_on_cooldown(42, 100 * SEC, 30 * SEC));
    assert!(m.is_on_cooldown(42, 129 * SEC, 30 * SEC));
    assert!(!m.is_on_cooldown(42, 130 * SEC, 30 * SEC));
    // Within the interval the reported process is no longer a candidate.
    assert_eq!(m.scan_processes(&procs(), "XIVLauncher", 110 * SEC, 30 * SEC), MonitorStep::CheckPorts(vec![40]));
    // After it, it is again.
    assert_eq!(m.scan_processes(&procs(), "XIVLauncher", 131 * SEC, 30 * SEC), MonitorStep::CheckPorts(vec![40, 42]));
}

#[test]
fn clock_going_back_counts_as_no_time() {
    let mut m = ProcMonitor::new();
    let reports = vec![PortReport { pid: 7, local_ports: Some(vec![LAUNCHER_PORT]) }];
    assert_eq!(m.check_ports(&reports, LAUNCHER_PORT, 50 * SEC, 30 * SEC, SEC), MonitorStep::Found(7));
    assert!(m.is_on_cooldown(7, 10 * SEC, 30 * SEC));
}

#[test]
fn no_listener_sleeps_the_short_interval() {
    let mut m = ProcMonitor::new();
    let reports = vec![
        PortReport { pid: 40, local_ports: None },
        PortReport { pid: 42, local_ports: Some(vec![]) },
    ];
    assert_eq!(m.check_ports(&reports, LAUNCHER_PORT, 0, 30 * SEC, SEC), MonitorStep::Sleep(SEC));
    assert!(!m.is_on_cooldown(40, 0, 30 * SEC));
    assert_eq!(m.check_ports(&Vec::new(), LAUNCHER_PORT, 0, 30 * SEC, SEC), MonitorStep::Sleep(30 * SEC));
}

#[test]
fn unreadable_table_is_skipped() {
    let mut m = ProcMonitor::new();
    let reports = vec![
        PortReport { pid: 40, local_ports: None },
        PortReport { pid: 42, local_ports: Some(vec![LAUNCHER_PORT]) },
    ];
    assert_eq!(m.check_ports(&reports, LAUNCHER_PORT, 0, 30 * SEC, SEC), MonitorStep::Found(42));
}

#[test]
fn reported_process_is_scanned_again_only_after_the_interval() {
    let mut m = ProcMonitor::new();
    let reports = vec![PortReport { pid: 42, local_ports: Some(vec![LAUNCHER_PORT]) }];
    assert_eq!(m.check_ports(&reports, LAUNCHER_PORT, 100 * SEC, 30 * SEC, SEC), MonitorStep::Found(42));
    assert_eq!(m.scan_processes(&procs(), "XIVLauncher", 129 * SEC, 30 * SEC), MonitorStep::CheckPorts(vec![40]));
    assert_eq!(m.scan_processes(&procs(), "XIVLauncher", 130 * SEC, 30 * SEC), MonitorStep::CheckPorts(vec![40, 42]));
}
