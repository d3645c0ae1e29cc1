use clamhub::model::ScanCommand;
use clamhub::scan::{count_threat_lines, interpret_scan_output, launch_failure, scan_arguments};

#[test]
fn recursive_scan_uses_multiscan() {
    let cmd = ScanCommand { path: String::from("/data"), recursive: true };
    assert_eq!(scan_arguments(&cmd), vec!["--fdpass", "--multiscan", "/data"]);
}

#[test]
fn flat_scan_omits_multiscan() {
    let cmd = ScanCommand { path: String::from("/home"), recursive: false };
    assert_eq!(scan_arguments(&cmd), vec!["--fdpass", "/home"]);
}

#[test]
fn counts_lines_with_marker() {
    let out = b"/a: Eicar FOUND\n/b: OK\n/c: Trojan FOUND FOUND\r\n\n----------- SCAN SUMMARY\n/d: X FOUND";
    assert_eq!(count_threat_lines(out), 3);
    assert_eq!(count_threat_lines(b""), 0);
    assert_eq!(count_threat_lines(b"FOUND\n"), 0);
    assert_eq!(count_threat_lines(b" FOUN\nD FOUND"), 1);
}

#[test]
fn exit_one_counts_threats() {
    let r = interpret_scan_output(Some(1), b"/x: Eicar FOUND\n/y: Eicar FOUND\n", b"");
    assert!(r.success);
    assert_eq!(r.infected_files, 2);
    assert_eq!(r.details, "/x: Eicar FOUND\n/y: Eicar FOUND\n");
}

#[test]
fn exit_zero_is_clean() {
    let r = interpret_scan_output(Some(0), b"/x: OK FOUND\n", b"");
    assert!(r.success);
    assert_eq!(r.infected_files, 0);
}

#[test]
fn other_exit_is_failure_with_stderr_details() {
    let r = interpret_scan_output(Some(2), b"", b"cannot connect");
    assert!(!r.success);
    assert_eq!(r.infected_files, 0);
    assert_eq!(r.details, "cannot connect");
    let r = interpret_scan_output(None, b"", b"");
    assert!(!r.success);
    assert_eq!(r.details, "");
}

#[test]
fn invalid_utf8_is_replaced() {
    let r = interpret_scan_output(Some(0), &[0x66, 0xff, 0x6f], b"");
    assert_eq!(r.details, "f\u{fffd}o");
}

#[test]
fn launch_failure_names_the_reason() {
    let r = launch_failure("No such file or directory");
    assert!(!r.success);
    assert_eq!(r.infected_files, 0);
    assert_eq!(r.details, "Failed to execute clamdscan: No such file or directory");
}
