use sn_tracer::service::{Action, Command, Dispatcher, Event, ReadFailure, Reply};

const HEADER: &str = "Barcode,Serial Number (HEX),Serial Number (DEC),Manufacture Date";

fn fresh() -> Dispatcher {
    let (dispatcher, startup) = Dispatcher::new();
    assert_eq!(startup, vec![Action::StartScanner(0)]);
    assert!(!dispatcher.connected);
    assert!(!dispatcher.connecting);
    assert!(dispatcher.scanner_alive);
    assert_eq!(dispatcher.scanner_gen, 0);
    assert!(!dispatcher.terminated);
    dispatcher
}

fn connect(d: &mut Dispatcher, name: &str) {
    let (replies, actions) = d.step(Event::Cmd(Command::Connect));
    assert_eq!(replies, vec![]);
    assert_eq!(actions, vec![Action::Discover]);
    let (replies, actions) = d.step(Event::Discovered(vec![name.to_string()]));
    assert_eq!(replies, vec![Reply::Connecting]);
    assert_eq!(actions, vec![Action::Race(vec![name.to_string()])]);
    let (replies, actions) = d.step(Event::ConnectDone(Some(name.to_string())));
    assert_eq!(replies, vec![Reply::Connected(name.to_string())]);
    assert_eq!(actions, vec![]);
    assert!(d.connected);
}

#[test]
fn read_while_disconnected_is_rejected_without_io() {
    let mut d = fresh();
    let (replies, actions) = d.step(Event::Cmd(Command::Read));
    assert_eq!(
        replies,
        vec![Reply::ReadError("Not connected".to_string()), Reply::Disconnected]
    );
    assert_eq!(actions, vec![]);
    assert!(!d.connected);
}

#[test]
fn write_while_disconnected_is_rejected_without_io() {
    let mut d = fresh();
    let (replies, actions) = d.step(Event::Cmd(Command::Write("hello".to_string())));
    assert_eq!(
        replies,
        vec![Reply::WriteError("Not connected".to_string()), Reply::Disconnected]
    );
    assert_eq!(actions, vec![]);
}

#[test]
fn successful_connect_flow() {
    let mut d = fresh();
    connect(&mut d, "/dev/ttyUSB0");
}

#[test]
fn discovery_without_candidates_reports_disconnected() {
    let mut d = fresh();
    let (_, actions) = d.step(Event::Cmd(Command::Connect));
    assert_eq!(actions, vec![Action::Discover]);
    let (replies, actions) = d.step(Event::Discovered(vec![]));
    assert_eq!(replies, vec![Reply::Disconnected]);
    assert_eq!(actions, vec![]);
    assert!(!d.connected);
    assert!(!d.connecting);
}

#[test]
fn lost_race_reports_disconnected() {
    let mut d = fresh();
    d.step(Event::Cmd(Command::Connect));
    d.step(Event::Discovered(vec!["/dev/ttyUSB0".to_string()]));
    let (replies, actions) = d.step(Event::ConnectDone(None));
    assert_eq!(replies, vec![Reply::Disconnected]);
    assert_eq!(actions, vec![]);
    assert!(!d.connected);
}

#[test]
fn read_returns_the_trimmed_info_record() {
    let mut d = fresh();
    connect(&mut d, "dev");
    let (replies, actions) = d.step(Event::Cmd(Command::Read));
    assert_eq!(replies, vec![]);
    assert_eq!(actions, vec![Action::ReadInfo]);
    let (replies, actions) = d.step(Event::ReadDone(Ok("  1A2B,42,2024-01-01 \r\n".to_string())));
    assert_eq!(replies, vec![Reply::Read("1A2B,42,2024-01-01".to_string())]);
    assert_eq!(actions, vec![]);
    assert!(d.connected);
}

#[test]
fn read_io_failure_drops_the_session() {
    let mut d = fresh();
    connect(&mut d, "dev");
    d.step(Event::Cmd(Command::Read));
    let (replies, actions) = d.step(Event::ReadDone(Err(ReadFailure::Io(
        "device unplugged".to_string(),
    ))));
    assert_eq!(
        replies,
        vec![Reply::ReadError("device unplugged".to_string()), Reply::Disconnected]
    );
    assert_eq!(actions, vec![Action::CloseSession]);
    assert!(!d.connected);
}

#[test]
fn read_timeout_drops_the_session() {
    let mut d = fresh();
    connect(&mut d, "dev");
    d.step(Event::Cmd(Command::Read));
    let (replies, actions) = d.step(Event::ReadDone(Err(ReadFailure::Timeout)));
    assert_eq!(
        replies,
        vec![Reply::ReadError("Connection timeout".to_string()), Reply::Disconnected]
    );
    assert_eq!(actions, vec![Action::CloseSession]);
    assert!(!d.connected);
}

#[test]
fn write_failure_drops_the_session() {
    let mut d = fresh();
    connect(&mut d, "dev");
    let (_, actions) = d.step(Event::Cmd(Command::Write("data".to_string())));
    assert_eq!(actions, vec![Action::WriteLine("data".to_string())]);
    let (replies, actions) = d.step(Event::WriteDone(Some("broken pipe".to_string())));
    assert_eq!(
        replies,
        vec![Reply::WriteError("broken pipe".to_string()), Reply::Disconnected]
    );
    assert_eq!(actions, vec![Action::CloseSession]);
    assert!(!d.connected);
}

#[test]
fn successful_write_is_silent() {
    let mut d = fresh();
    connect(&mut d, "dev");
    d.step(Event::Cmd(Command::Write("data".to_string())));
    let (replies, actions) = d.step(Event::WriteDone(None));
    assert_eq!(replies, vec![]);
    assert_eq!(actions, vec![]);
    assert!(d.connected);
}

#[test]
fn failed_probe_emits_one_disconnected_and_clears_the_session() {
    let mut d = fresh();
    connect(&mut d, "dev");
    let (replies, actions) = d.step(Event::Probe(false));
    assert_eq!(replies, vec![Reply::Disconnected]);
    assert_eq!(actions, vec![Action::CloseSession]);
    assert!(!d.connected);
    // The session was cleared, not left dangling: the next read is rejected.
    let (replies, actions) = d.step(Event::Cmd(Command::Read));
    assert_eq!(
        replies,
        vec![Reply::ReadError("Not connected".to_string()), Reply::Disconnected]
    );
    assert_eq!(actions, vec![]);
}

#[test]
fn successful_probe_changes_nothing() {
    let mut d = fresh();
    connect(&mut d, "dev");
    let (replies, actions) = d.step(Event::Probe(true));
    assert_eq!(replies, vec![]);
    assert_eq!(actions, vec![]);
    assert!(d.connected);
}

#[test]
fn probe_without_session_is_ignored() {
    let mut d = fresh();
    let (replies, actions) = d.step(Event::Probe(false));
    assert_eq!(replies, vec![]);
    assert_eq!(actions, vec![]);
}

#[test]
fn download_builds_the_file_in_any_state() {
    let mut d = fresh();
    let (replies, actions) = d.step(Event::Cmd(Command::Download(
        "/tmp/record.csv".to_string(),
        vec!["A".to_string(), "B".to_string(), "C".to_string()],
        vec!["x".to_string(), "y".to_string()],
    )));
    assert_eq!(replies, vec![]);
    assert_eq!(
        actions,
        vec![Action::WriteFile(
            "/tmp/record.csv".to_string(),
            format!("{HEADER}\nA,x\nB,y\nC,"),
        )]
    );
}

#[test]
fn download_failure_is_local() {
    let mut d = fresh();
    connect(&mut d, "dev");
    let (replies, actions) = d.step(Event::DownloadDone(Some("permission denied".to_string())));
    assert_eq!(replies, vec![Reply::DownloadError("permission denied".to_string())]);
    assert_eq!(actions, vec![]);
    assert!(d.connected);
}

#[test]
fn download_success_is_silent() {
    let mut d = fresh();
    let (replies, actions) = d.step(Event::DownloadDone(None));
    assert_eq!(replies, vec![]);
    assert_eq!(actions, vec![]);
}

#[test]
fn stop_then_start_leaves_exactly_one_scanner_task() {
    let mut d = fresh();
    let (replies, actions) = d.step(Event::Cmd(Command::StopScanner));
    assert_eq!(replies, vec![]);
    assert_eq!(actions, vec![Action::StopScanner(0)]);
    assert!(!d.scanner_alive);
    let (replies, actions) = d.step(Event::Cmd(Command::StartScanner));
    assert_eq!(replies, vec![]);
    // Exactly one start across both steps, under the fresh generation.
    assert_eq!(actions, vec![Action::StartScanner(1)]);
    assert!(d.scanner_alive);
    assert_eq!(d.scanner_gen, 1);
    // The old task's leftover output is stale and dropped...
    let (replies, _) = d.step(Event::ScannerLine(0, "stale\n".to_string()));
    assert_eq!(replies, vec![]);
    // ...while the new task's output is delivered.
    let (replies, _) = d.step(Event::ScannerLine(1, "fresh\n".to_string()));
    assert_eq!(replies, vec![Reply::BarcodeOutput("fresh".to_string())]);
}

#[test]
fn restart_without_stop_cancels_the_old_task_first() {
    let mut d = fresh();
    let (_, actions) = d.step(Event::Cmd(Command::StartScanner));
    assert_eq!(actions, vec![Action::StopScanner(0), Action::StartScanner(1)]);
    assert!(d.scanner_alive);
}

#[test]
fn scanner_lines_are_trimmed_and_forwarded() {
    let mut d = fresh();
    let (replies, actions) = d.step(Event::ScannerLine(0, " 4006381333931 \n".to_string()));
    assert_eq!(replies, vec![Reply::BarcodeOutput("4006381333931".to_string())]);
    assert_eq!(actions, vec![]);
}

#[test]
fn scanner_failure_is_reported_exactly_once() {
    let mut d = fresh();
    let (replies, _) = d.step(Event::ScannerFail(0));
    assert_eq!(replies, vec![Reply::ScannerStartFail]);
    assert!(!d.scanner_alive);
    // The task is gone: repeated failure reports and late lines are dropped,
    // and there is no implicit restart.
    let (replies, actions) = d.step(Event::ScannerFail(0));
    assert_eq!(replies, vec![]);
    assert_eq!(actions, vec![]);
    let (replies, _) = d.step(Event::ScannerLine(0, "late".to_string()));
    assert_eq!(replies, vec![]);
}

#[test]
fn stale_scanner_failure_is_ignored() {
    let mut d = fresh();
    d.step(Event::Cmd(Command::StartScanner));
    let (replies, _) = d.step(Event::ScannerFail(0));
    assert_eq!(replies, vec![]);
    assert!(d.scanner_alive);
}

#[test]
fn terminate_releases_everything_and_is_terminal() {
    let mut d = fresh();
    connect(&mut d, "dev");
    let (replies, actions) = d.step(Event::Cmd(Command::Terminate));
    assert_eq!(replies, vec![]);
    assert_eq!(actions, vec![Action::CloseSession, Action::StopScanner(0)]);
    assert!(d.terminated);
    assert!(!d.connected);
    assert!(!d.scanner_alive);
    // Terminal: everything after it is ignored.
    let (replies, actions) = d.step(Event::Cmd(Command::Connect));
    assert_eq!(replies, vec![]);
    assert_eq!(actions, vec![]);
    let (replies, actions) = d.step(Event::Cmd(Command::Read));
    assert_eq!(replies, vec![]);
    assert_eq!(actions, vec![]);
}

#[test]
fn connect_while_connected_replaces_the_session() {
    let mut d = fresh();
    connect(&mut d, "dev");
    let (replies, actions) = d.step(Event::Cmd(Command::Connect));
    assert_eq!(replies, vec![]);
    assert_eq!(actions, vec![Action::CloseSession, Action::Discover]);
    assert!(!d.connected);
    assert!(d.connecting);
}
