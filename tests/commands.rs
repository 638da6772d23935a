use android_proxy_setter::commands::AdbCommand;
use android_proxy_setter::error::AppError;
use android_proxy_setter::execution::{
    execute_adb_command, execute_adb_command_string, ExecutionResult,
};

fn run(success: bool, stdout: &[u8], stderr: &[u8]) -> Result<ExecutionResult, String> {
    Ok(ExecutionResult { success, stdout: stdout.to_vec(), stderr: stderr.to_vec() })
}

#[test]
fn get_proxy_args() {
    assert_eq!(
        AdbCommand::GetProxy.to_args(),
        vec!["shell", "settings", "get", "global", "http_proxy"]
    );
}

#[test]
fn set_proxy_args_end_with_value_unmodified() {
    let value = "  10.0.0.5:8083 ";
    let args = AdbCommand::SetProxy(value.to_string()).to_args();
    assert_eq!(args, vec!["shell", "settings", "put", "global", "http_proxy", value]);
    assert_eq!(args.last().unwrap(), value);
}

#[test]
fn clear_proxy_renders_as_write_of_unset_value() {
    assert_eq!(
        AdbCommand::ClearProxy.to_args(),
        AdbCommand::SetProxy(":0".to_string()).to_args()
    );
}

#[test]
fn get_devices_args() {
    assert_eq!(AdbCommand::GetDevices.to_args(), vec!["devices"]);
}

#[test]
fn rendering_is_deterministic() {
    for c in [
        AdbCommand::GetProxy,
        AdbCommand::SetProxy("1.2.3.4:5".to_string()),
        AdbCommand::ClearProxy,
        AdbCommand::GetDevices,
    ] {
        assert_eq!(c.to_args(), c.clone().to_args());
        assert_eq!(c.description(), c.clone().description());
    }
}

#[test]
fn descriptions() {
    assert_eq!(AdbCommand::GetProxy.description(), "get proxy settings");
    assert_eq!(
        AdbCommand::SetProxy("203.0.113.5:8083".to_string()).description(),
        "set proxy to 203.0.113.5:8083"
    );
    assert_eq!(AdbCommand::ClearProxy.description(), "clear proxy settings");
    assert_eq!(AdbCommand::GetDevices.description(), "get connected devices");
}

#[test]
fn non_zero_exit_is_command_failure_whatever_stdout_holds() {
    let r = execute_adb_command_string(AdbCommand::GetProxy, run(false, b"10.0.0.5:8083\n", b"error: no devices"));
    match r {
        Err(AppError::AdbCommandFailed { command, reason }) => {
            assert_eq!(command, "get proxy settings");
            assert_eq!(reason, "error: no devices");
        }
        other => panic!("unexpected {:?}", other),
    }
}

#[test]
fn non_zero_exit_with_invalid_stderr_is_decoded_lossily() {
    let r = execute_adb_command(AdbCommand::ClearProxy, run(false, b"", b"bad \xff"));
    match r {
        Err(AppError::AdbCommandFailed { command, reason }) => {
            assert_eq!(command, "clear proxy settings");
            assert_eq!(reason, "bad \u{FFFD}");
        }
        other => panic!("unexpected {:?}", other.map(|_| ())),
    }
}

#[test]
fn spawn_failure_is_spawn_error() {
    let r = execute_adb_command_string(AdbCommand::GetDevices, Err("not found".to_string()));
    match r {
        Err(AppError::AdbSpawnFailed { command, reason }) => {
            assert_eq!(command, "get connected devices");
            assert_eq!(reason, "not found");
        }
        other => panic!("unexpected {:?}", other),
    }
}

#[test]
fn success_output_is_trimmed() {
    let r = execute_adb_command_string(AdbCommand::GetProxy, run(true, b"  10.0.0.5:8083\r\n", b""));
    assert_eq!(r.unwrap(), "10.0.0.5:8083");
}

#[test]
fn success_with_invalid_utf8_is_encoding_error() {
    let bytes = b"\xc3\x28".to_vec();
    let expected = String::from_utf8(bytes.clone()).unwrap_err().to_string();
    let r = execute_adb_command_string(AdbCommand::GetProxy, run(true, &bytes, b""));
    match r {
        Err(AppError::Utf8Error { reason }) => assert_eq!(reason, expected),
        other => panic!("unexpected {:?}", other),
    }
}

#[test]
fn success_keeps_output() {
    let r = execute_adb_command(AdbCommand::GetDevices, run(true, b"x", b"y")).unwrap();
    assert!(r.success);
    assert_eq!(r.stdout, b"x".to_vec());
    assert_eq!(r.stderr, b"y".to_vec());
}

#[test]
fn error_messages() {
    assert_eq!(
        AppError::adb_command_failed("get proxy settings", "x".to_string()).message(),
        "ADB command failed: get proxy settings"
    );
    assert_eq!(AppError::AdbNotFound.message(), "ADB not found or not in PATH");
    assert_eq!(
        AppError::AdbSpawnFailed { command: "get connected devices".to_string(), reason: "x".to_string() }
            .message(),
        "Failed to start ADB command: get connected devices"
    );
    assert_eq!(
        AppError::RestartFailed { reason: "r".to_string() }.message(),
        "Failed to restart ADB server: r"
    );
    assert_eq!(AppError::NoDevicesConnected.message(), "No connected Android devices found");
    assert_eq!(
        AppError::proxy_clear_failed("boom".to_string()).message(),
        "Failed to clear proxy: boom"
    );
    assert_eq!(
        AppError::proxy_get_failed("boom".to_string()).message(),
        "Failed to get proxy settings: boom"
    );
    assert_eq!(
        AppError::LocalIpError { reason: "r".to_string() }.message(),
        "Failed to get local IP address: r"
    );
    assert_eq!(AppError::IoError { reason: "r".to_string() }.message(), "I/O error: r");
    assert_eq!(
        AppError::Utf8Error { reason: "r".to_string() }.message(),
        "UTF-8 conversion error: r"
    );
}
