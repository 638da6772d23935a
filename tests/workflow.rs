use android_proxy_setter::commands::AdbCommand;
use android_proxy_setter::error::AppError;
use android_proxy_setter::execution::ExecutionResult;
use android_proxy_setter::workflow::{
    clear_proxy_start, clear_proxy_step, set_proxy_start, set_proxy_step, ClearProxyStage,
    ClearProxyStep, SetProxyStage, SetProxyStep,
};

fn ok(stdout: &str) -> Result<ExecutionResult, String> {
    Ok(ExecutionResult { success: true, stdout: stdout.as_bytes().to_vec(), stderr: Vec::new() })
}

fn failed(stderr: &str) -> Result<ExecutionResult, String> {
    Ok(ExecutionResult { success: false, stdout: Vec::new(), stderr: stderr.as_bytes().to_vec() })
}

/// A device that holds one proxy value, as the bridge tool reaches it.
struct Device {
    setting: String,
}

impl Device {
    fn run(&mut self, command: &AdbCommand) -> Result<ExecutionResult, String> {
        let args = command.to_args();
        if args.len() == 6 && args[2] == "put" {
            self.setting = args[5].clone();
            ok("")
        } else if args.len() == 5 && args[2] == "get" {
            ok(&format!("{}\n", self.setting))
        } else {
            ok("")
        }
    }
}

fn run_set(device: &mut Device, proxy: &str) -> Result<bool, AppError> {
    let mut step = set_proxy_start();
    loop {
        match step {
            SetProxyStep::Run(stage, command) => {
                let outcome = device.run(&command);
                step = set_proxy_step(proxy, stage, outcome);
            }
            SetProxyStep::Done(r) => return r,
        }
    }
}

fn run_clear(device: &mut Device) -> Result<bool, AppError> {
    let mut step = clear_proxy_start();
    loop {
        match step {
            ClearProxyStep::Run(stage, command) => {
                let outcome = device.run(&command);
                step = clear_proxy_step(stage, outcome);
            }
            ClearProxyStep::Done(r) => return r,
        }
    }
}

#[test]
fn set_workflow_starts_with_clearing() {
    assert!(matches!(
        set_proxy_start(),
        SetProxyStep::Run(SetProxyStage::PreClear, AdbCommand::ClearProxy)
    ));
}

#[test]
fn failed_pre_clear_is_discarded() {
    for outcome in [failed("boom"), Err("cannot start".to_string()), ok("")] {
        match set_proxy_step("10.0.0.5:8083", SetProxyStage::PreClear, outcome) {
            SetProxyStep::Run(SetProxyStage::Write, AdbCommand::SetProxy(v)) => {
                assert_eq!(v, "10.0.0.5:8083")
            }
            other => panic!("unexpected {:?}", other),
        }
    }
}

#[test]
fn failed_write_ends_set_workflow() {
    match set_proxy_step("1.2.3.4:5", SetProxyStage::Write, failed("denied")) {
        SetProxyStep::Done(Err(AppError::AdbCommandFailed { command, reason })) => {
            assert_eq!(command, "set proxy to 1.2.3.4:5");
            assert_eq!(reason, "denied");
        }
        other => panic!("unexpected {:?}", other),
    }
    match set_proxy_step("1.2.3.4:5", SetProxyStage::Write, Err("gone".to_string())) {
        SetProxyStep::Done(Err(AppError::AdbSpawnFailed { command, reason })) => {
            assert_eq!(command, "set proxy to 1.2.3.4:5");
            assert_eq!(reason, "gone");
        }
        other => panic!("unexpected {:?}", other),
    }
}

#[test]
fn successful_write_is_verified() {
    assert!(matches!(
        set_proxy_step("1.2.3.4:5", SetProxyStage::Write, ok("")),
        SetProxyStep::Run(SetProxyStage::Verify, AdbCommand::GetProxy)
    ));
}

#[test]
fn verify_outcomes_of_set_workflow() {
    assert!(matches!(
        set_proxy_step("1.2.3.4:5", SetProxyStage::Verify, ok("1.2.3.4:5\n")),
        SetProxyStep::Done(Ok(true))
    ));
    assert!(matches!(
        set_proxy_step("1.2.3.4:5", SetProxyStage::Verify, ok("9.9.9.9:1\n")),
        SetProxyStep::Done(Ok(false))
    ));
    match set_proxy_step("1.2.3.4:5", SetProxyStage::Verify, failed("x")) {
        SetProxyStep::Done(Err(AppError::ProxyGetFailed { reason })) => {
            assert_eq!(reason, "ADB command failed: get proxy settings")
        }
        other => panic!("unexpected {:?}", other),
    }
}

#[test]
fn set_then_read_back_on_device() {
    let mut device = Device { setting: "5.5.5.5:1".to_string() };
    assert!(run_set(&mut device, "192.168.1.10:9000").unwrap());
    assert_eq!(device.setting, "192.168.1.10:9000");
}

#[test]
fn clear_twice_on_device() {
    let mut device = Device { setting: "192.168.1.10:9000".to_string() };
    assert!(run_clear(&mut device).unwrap());
    assert_eq!(device.setting, ":0");
    assert!(run_clear(&mut device).unwrap());
    assert_eq!(device.setting, ":0");
}

#[test]
fn clear_workflow_steps() {
    assert!(matches!(
        clear_proxy_start(),
        ClearProxyStep::Run(ClearProxyStage::Clear, AdbCommand::ClearProxy)
    ));
    assert!(matches!(
        clear_proxy_step(ClearProxyStage::Clear, ok("")),
        ClearProxyStep::Run(ClearProxyStage::Verify, AdbCommand::GetProxy)
    ));
    match clear_proxy_step(ClearProxyStage::Clear, failed("x")) {
        ClearProxyStep::Done(Err(AppError::ProxyClearFailed { reason })) => {
            assert_eq!(reason, "ADB command failed: clear proxy settings")
        }
        other => panic!("unexpected {:?}", other),
    }
    assert!(matches!(
        clear_proxy_step(ClearProxyStage::Verify, ok("10.0.0.5:8083\n")),
        ClearProxyStep::Done(Ok(false))
    ));
    assert!(matches!(
        clear_proxy_step(ClearProxyStage::Verify, ok("\n")),
        ClearProxyStep::Done(Ok(true))
    ));
    assert!(matches!(
        clear_proxy_step(ClearProxyStage::Verify, Err("gone".to_string())),
        ClearProxyStep::Done(Err(AppError::ProxyGetFailed { .. }))
    ));
}
