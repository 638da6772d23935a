//! The error type of the library and the text each error reads as.
use vstd::prelude::*;
use vstd::string::*;

verus! {

/// The result of an operation of the library.
pub type AppResult<T> = Result<T, AppError>;

/// What can go wrong while talking to the bridge tool or the device.
#[derive(Debug)]
pub enum AppError {
    /// The bridge tool ran and reported failure.
    AdbCommandFailed { command: String, reason: String },
    /// The bridge tool could not be started at all.
    AdbSpawnFailed { command: String, reason: String },
    /// The bridge tool is missing or unusable.
    AdbNotFound,
    /// The device listing held no device.
    NoDevicesConnected,
    /// The address of this machine could not be found.
    LocalIpError { reason: String },
    /// The bridge server could not be restarted.
    RestartFailed { reason: String },
    /// Resetting the proxy setting failed.
    ProxyClearFailed { reason: String },
    /// Reading the proxy setting failed.
    ProxyGetFailed { reason: String },
    /// An operating-system call failed.
    IoError { reason: String },
    /// Output that had to be UTF-8 was not.
    Utf8Error { reason: String },
}

/// The text that `AppError::message` gives for `e`.
pub open spec fn message_of(e: AppError) -> Seq<char> {
    match e {
        AppError::AdbCommandFailed { command, .. } => "ADB command failed: "@ + command@,
        AppError::AdbSpawnFailed { command, .. } => "Failed to start ADB command: "@ + command@,
        AppError::AdbNotFound => "ADB not found or not in PATH"@,
        AppError::NoDevicesConnected => "No connected Android devices found"@,
        AppError::LocalIpError { reason } => "Failed to get local IP address: "@ + reason@,
        AppError::RestartFailed { reason } => "Failed to restart ADB server: "@ + reason@,
        AppError::ProxyClearFailed { reason } => "Failed to clear proxy: "@ + reason@,
        AppError::ProxyGetFailed { reason } => "Failed to get proxy settings: "@ + reason@,
        AppError::IoError { reason } => "I/O error: "@ + reason@,
        AppError::Utf8Error { reason } => "UTF-8 conversion error: "@ + reason@,
    }
}

fn prefixed(prefix: &str, detail: &String) -> (r: String)
    ensures
        r@ == prefix@ + detail@,
{
    let mut m = String::from_str(prefix);
    m.append(detail.as_str());
    m
}

impl AppError {
    /// An `AdbCommandFailed` error for the command described by `command`.
    pub fn adb_command_failed(command: &str, reason: String) -> (r: AppError)
        ensures
            r matches AppError::AdbCommandFailed { command: c, reason: why }
                && c@ == command@ && why@ == reason@,
    {
        AppError::AdbCommandFailed { command: command.to_owned(), reason }
    }

    /// A `ProxyClearFailed` error with the given reason.
    pub fn proxy_clear_failed(reason: String) -> (r: AppError)
        ensures
            r matches AppError::ProxyClearFailed { reason: why } && why@ == reason@,
    {
        AppError::ProxyClearFailed { reason }
    }

    /// A `ProxyGetFailed` error with the given reason.
    pub fn proxy_get_failed(reason: String) -> (r: AppError)
        ensures
            r matches AppError::ProxyGetFailed { reason: why } && why@ == reason@,
    {
        AppError::ProxyGetFailed { reason }
    }

    /// The human-readable text of the error.
    pub fn message(&self) -> (r: String)
        ensures
            r@ == message_of(*self),
    {
        match self {
            AppError::AdbCommandFailed { command, .. } => prefixed("ADB command failed: ", command),
            AppError::AdbSpawnFailed { command, .. } => prefixed("Failed to start ADB command: ", command),
            AppError::AdbNotFound => String::from_str("ADB not found or not in PATH"),
            AppError::NoDevicesConnected => String::from_str("No connected Android devices found"),
            AppError::LocalIpError { reason } => prefixed("Failed to get local IP address: ", reason),
            AppError::RestartFailed { reason } => prefixed("Failed to restart ADB server: ", reason),
            AppError::ProxyClearFailed { reason } => prefixed("Failed to clear proxy: ", reason),
            AppError::ProxyGetFailed { reason } => prefixed("Failed to get proxy settings: ", reason),
            AppError::IoError { reason } => prefixed("I/O error: ", reason),
            AppError::Utf8Error { reason } => prefixed("UTF-8 conversion error: ", reason),
        }
    }
}

} // verus!
