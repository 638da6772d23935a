use android_proxy_setter::device::{
    check_adb_availability, get_connected_devices, is_adb_running, lists_process,
    parse_device_list, restart_adb_server, version_line,
};
use android_proxy_setter::error::AppError;
use android_proxy_setter::execution::ExecutionResult;

fn run(success: bool, stdout: &[u8]) -> Result<ExecutionResult, String> {
    Ok(ExecutionResult { success, stdout: stdout.to_vec(), stderr: Vec::new() })
}

#[test]
fn device_listing_in_order() {
    let r = get_connected_devices(run(
        true,
        b"List of devices attached\nABC123\tdevice\n\nDEF456\toffline\n",
    ));
    assert_eq!(r.unwrap(), vec!["ABC123", "DEF456"]);
}

#[test]
fn header_only_listing_is_no_devices() {
    let r = get_connected_devices(run(true, b"List of devices attached\n"));
    assert!(matches!(r, Err(AppError::NoDevicesConnected)));
}

#[test]
fn empty_listing_is_no_devices() {
    assert!(matches!(parse_device_list(""), Err(AppError::NoDevicesConnected)));
}

#[test]
fn listing_skips_first_line_repeated_header_and_blank_ids() {
    let r = parse_device_list("whatever\nList of devices attached\n  \t\n XYZ \tdevice\r\nplain");
    assert_eq!(r.unwrap(), vec!["XYZ", "plain"]);
}

#[test]
fn failed_listing_is_command_failure() {
    let r = get_connected_devices(run(false, b"List of devices attached\nA\tdevice"));
    assert!(matches!(r, Err(AppError::AdbCommandFailed { .. })));
}

#[test]
fn version_first_line() {
    let r = check_adb_availability(run(true, b"Android Debug Bridge version 1.0.41\nVersion 34\n"));
    assert_eq!(r.unwrap(), "Android Debug Bridge version 1.0.41");
}

#[test]
fn version_unknown_when_empty() {
    assert_eq!(check_adb_availability(run(true, b"")).unwrap(), "Unknown");
}

#[test]
fn version_probe_failures_are_not_found() {
    assert!(matches!(check_adb_availability(run(false, b"x")), Err(AppError::AdbNotFound)));
    assert!(matches!(
        check_adb_availability(Err("missing".to_string())),
        Err(AppError::AdbNotFound)
    ));
}

#[test]
fn restart_outcomes() {
    assert!(restart_adb_server(Ok(true)).is_ok());
    match restart_adb_server(Ok(false)) {
        Err(AppError::RestartFailed { reason }) => {
            assert_eq!(reason, "the restart script exited with failure");
        }
        other => panic!("unexpected {:?}", other),
    }
    match restart_adb_server(Err("denied".to_string())) {
        Err(AppError::RestartFailed { reason }) => assert_eq!(reason, "denied"),
        other => panic!("unexpected {:?}", other),
    }
}

#[test]
fn liveness_probe() {
    assert!(is_adb_running(Ok(b"1234\n5678\n".to_vec())));
    assert!(is_adb_running(Ok(b"junk +42".to_vec())));
    assert!(!is_adb_running(Ok(b"".to_vec())));
    assert!(!is_adb_running(Ok(b"abc -1 99999999999".to_vec())));
    assert!(!is_adb_running(Err("no pgrep".to_string())));
}

#[test]
fn version_line_of_text() {
    assert_eq!(version_line("v1\nv2"), "v1");
    assert_eq!(version_line(""), "Unknown");
    assert_eq!(version_line("\nsecond"), "");
}

#[test]
fn process_ids_in_text() {
    assert!(lists_process(" 12 "));
    assert!(!lists_process("adb server"));
    assert!(!lists_process(""));
}

#[test]
fn failed_listing_start_is_spawn_error() {
    let r = get_connected_devices(Err("no such file".to_string()));
    assert!(matches!(r, Err(AppError::AdbSpawnFailed { .. })));
}
