//! The proxy workflows as step functions: each takes the outcome of the run
//! just made and says which run comes next, or how the workflow ended. The
//! caller performs the runs and the settle waits between them.
use vstd::prelude::*;
use vstd::string::*;
use crate::commands::{AdbCommand, description_of};
use crate::error::AppError;
use crate::execution::{
    ExecutionResult, decoded_text, execute_adb_command, is_command_failure, is_spawn_failure,
    lossy_utf8,
};
use crate::manager::{
    clear_proxy_internal, read_failure_reason, read_proxy_setting, read_succeeds,
    verify_proxy_cleared, verify_proxy_settings,
};
use crate::proxy::is_unset;

verus! {

/// The runs of the set-proxy workflow.
#[derive(Debug, Clone, Copy, PartialEq, Eq, Structural)]
pub enum SetProxyStage {
    /// Clearing the current setting first; its failure is ignored.
    PreClear,
    /// Writing the new value.
    Write,
    /// Reading the value back.
    Verify,
}

/// What the set-proxy workflow does next.
#[derive(Debug)]
pub enum SetProxyStep {
    /// Run this command; its outcome belongs to this stage.
    Run(SetProxyStage, AdbCommand),
    /// The workflow ended: `Ok(true)` if the value read back is the value
    /// written, `Ok(false)` if it differs (worth a warning), or the error.
    Done(Result<bool, AppError>),
}

/// The first run of the set-proxy workflow: the clearing.
pub fn set_proxy_start() -> (r: SetProxyStep)
    ensures
        r matches SetProxyStep::Run(SetProxyStage::PreClear, AdbCommand::ClearProxy),
{
    SetProxyStep::Run(SetProxyStage::PreClear, AdbCommand::ClearProxy)
}

/// The next step of the workflow that sets the proxy to `proxy`, given the
/// outcome of the run of `stage`. The clearing's outcome is discarded; a
/// failed write or read ends the workflow with its error; a value read back
/// that differs from `proxy` ends it with `Ok(false)`.
pub fn set_proxy_step(proxy: &str, stage: SetProxyStage, outcome: Result<ExecutionResult, String>) -> (r:
    SetProxyStep)
    ensures
        stage is PreClear ==> (r matches SetProxyStep::Run(
            SetProxyStage::Write,
            AdbCommand::SetProxy(v),
        ) && v@ == proxy@),
        stage is Write && outcome is Ok && outcome->Ok_0.success ==> r matches SetProxyStep::Run(
            SetProxyStage::Verify,
            AdbCommand::GetProxy,
        ),
        stage is Write && outcome is Err ==> (r matches SetProxyStep::Done(Err(e))
            && is_spawn_failure(e, "set proxy to "@ + proxy@, outcome->Err_0@)),
        stage is Write && outcome is Ok && !outcome->Ok_0.success ==> (r matches SetProxyStep::Done(
            Err(e),
        ) && is_command_failure(e, "set proxy to "@ + proxy@, lossy_utf8(outcome->Ok_0.stderr@))),
        stage is Verify ==> (r matches SetProxyStep::Done(res) && (res is Ok <==> read_succeeds(
            outcome,
        )) && (res is Ok ==> res->Ok_0 == (decoded_text(outcome->Ok_0.stdout@) == proxy@)) && (
        res is Err ==> (res->Err_0 matches AppError::ProxyGetFailed { reason } && reason@
            == read_failure_reason(outcome)))),
{
    match stage {
        SetProxyStage::PreClear => SetProxyStep::Run(
            SetProxyStage::Write,
            AdbCommand::SetProxy(proxy.to_owned()),
        ),
        SetProxyStage::Write => {
            let command = AdbCommand::SetProxy(proxy.to_owned());
            match execute_adb_command(command, outcome) {
                Ok(_) => SetProxyStep::Run(SetProxyStage::Verify, AdbCommand::GetProxy),
                Err(e) => SetProxyStep::Done(Err(e)),
            }
        },
        SetProxyStage::Verify => match read_proxy_setting(outcome) {
            Ok(current) => SetProxyStep::Done(Ok(verify_proxy_settings(proxy, current.as_str()))),
            Err(e) => SetProxyStep::Done(Err(e)),
        },
    }
}

/// The runs of the clear-proxy workflow.
#[derive(Debug, Clone, Copy, PartialEq, Eq, Structural)]
pub enum ClearProxyStage {
    /// Clearing the setting.
    Clear,
    /// Reading the setting back.
    Verify,
}

/// What the clear-proxy workflow does next.
#[derive(Debug)]
pub enum ClearProxyStep {
    /// Run this command; its outcome belongs to this stage.
    Run(ClearProxyStage, AdbCommand),
    /// The workflow ended: `Ok(true)` if the value read back means no proxy
    /// is set, `Ok(false)` if not (worth a warning), or the error.
    Done(Result<bool, AppError>),
}

/// The first run of the clear-proxy workflow.
pub fn clear_proxy_start() -> (r: ClearProxyStep)
    ensures
        r matches ClearProxyStep::Run(ClearProxyStage::Clear, AdbCommand::ClearProxy),
{
    ClearProxyStep::Run(ClearProxyStage::Clear, AdbCommand::ClearProxy)
}

/// The next step of the clear-proxy workflow, given the outcome of the run of
/// `stage`. A failed clearing or read ends the workflow with its error.
pub fn clear_proxy_step(stage: ClearProxyStage, outcome: Result<ExecutionResult, String>) -> (r:
    ClearProxyStep)
    ensures
        stage is Clear && outcome is Ok && outcome->Ok_0.success ==> r matches ClearProxyStep::Run(
            ClearProxyStage::Verify,
            AdbCommand::GetProxy,
        ),
        stage is Clear && !(outcome is Ok && outcome->Ok_0.success) ==> (r matches ClearProxyStep::Done(
            Err(e),
        ) && (e matches AppError::ProxyClearFailed { reason } && (outcome is Err ==> reason@
            == "Failed to start ADB command: "@ + description_of(AdbCommand::ClearProxy)) && (
        outcome is Ok ==> reason@ == "ADB command failed: "@ + description_of(
            AdbCommand::ClearProxy,
        )))),
        stage is Verify ==> (r matches ClearProxyStep::Done(res) && (res is Ok <==> read_succeeds(
            outcome,
        )) && (res is Ok ==> res->Ok_0 == is_unset(decoded_text(outcome->Ok_0.stdout@))) && (
        res is Err ==> (res->Err_0 matches AppError::ProxyGetFailed { reason } && reason@
            == read_failure_reason(outcome)))),
{
    match stage {
        ClearProxyStage::Clear => match clear_proxy_internal(outcome) {
            Ok(()) => ClearProxyStep::Run(ClearProxyStage::Verify, AdbCommand::GetProxy),
            Err(e) => ClearProxyStep::Done(Err(e)),
        },
        ClearProxyStage::Verify => match read_proxy_setting(outcome) {
            Ok(current) => ClearProxyStep::Done(Ok(verify_proxy_cleared(current.as_str()))),
            Err(e) => ClearProxyStep::Done(Err(e)),
        },
    }
}

} // verus!
