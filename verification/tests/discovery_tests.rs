use sn_tracer::discovery::{approved_pid, filter_candidates, PortInfo, APPROVED_PID_A, APPROVED_PID_B};

fn port(name: &str, usb_pid: Option<u16>) -> PortInfo {
    PortInfo { name: name.to_string(), usb_pid }
}

#[test]
fn approved_pids() {
    assert!(approved_pid(APPROVED_PID_A));
    assert!(approved_pid(APPROVED_PID_B));
    assert!(approved_pid(24577));
    assert!(approved_pid(29987));
    assert!(!approved_pid(1234));
    assert!(!approved_pid(0));
}

#[test]
fn keeps_only_approved_usb_ports_in_order() {
    let ports = vec![
        port("/dev/ttyUSB0", Some(24577)),
        port("/dev/ttyS0", None),
        port("/dev/ttyUSB1", Some(1234)),
        port("/dev/ttyUSB2", Some(29987)),
    ];
    let names = filter_candidates(ports);
    assert_eq!(names, vec!["/dev/ttyUSB0".to_string(), "/dev/ttyUSB2".to_string()]);
}

#[test]
fn empty_enumeration_gives_no_devices() {
    let names = filter_candidates(Vec::new());
    assert!(names.is_empty());
}

#[test]
fn non_usb_ports_are_never_candidates() {
    let ports = vec![port("/dev/ttyS0", None), port("/dev/ttyS1", None)];
    assert!(filter_candidates(ports).is_empty());
}
