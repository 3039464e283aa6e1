//! The failure categories that the library reports: process failures,
//! timeouts, parse failures, and the per-feature error kinds, each carrying
//! the text that explains it.

use vstd::prelude::*;
use vstd::string::*;

verus! {

#[derive(Debug, Clone, PartialEq, Eq)]
pub enum ADBError {
    IO(String),
    DeviceNotFound(String),
    CommandFailed(String),
    Timeout(String),
    Parse(String),
    ScreenRecording(String),
    SystemInfo(String),
    BatteryInfo(String),
    PackageManagement(String),
    Debug(String),
    InputEvent(String),
    ConnectionTimeout(String),
    ConnectionRetry(String),
    WirelessConnection(String),
    FileTransfer(String),
    Package(String),
    DeviceProperty(String),
    Connection(String),
    Authorization(String),
    PackageInstallation(String),
    PackageUninstallation(String),
    InvalidArgument(String),
    DeviceState(String),
    ScreenCapture(String),
    ShellExecution(String),
    Logcat(String),
    Backup(String),
    Restore(String),
    SplitPackageInstallation(String),
    Network(String),
    PermissionDenied(String),
}

/// The text that each error renders to: a fixed heading, then the detail
/// the error carries.
pub open spec fn error_message_of(e: ADBError) -> Seq<char> {
    match e {
        ADBError::IO(m) => "IO error: "@ + m@,
        ADBError::DeviceNotFound(m) => "Device not found: "@ + m@,
        ADBError::CommandFailed(m) => "Command failed: "@ + m@,
        ADBError::Timeout(m) => "Timeout error: "@ + m@,
        ADBError::Parse(m) => "Parse error: "@ + m@,
        ADBError::ScreenRecording(m) => "Screen recording error: "@ + m@,
        ADBError::SystemInfo(m) => "System info error: "@ + m@,
        ADBError::BatteryInfo(m) => "Battery info error: "@ + m@,
        ADBError::PackageManagement(m) => "Package management error: "@ + m@,
        ADBError::Debug(m) => "Debug error: "@ + m@,
        ADBError::InputEvent(m) => "Input event error: "@ + m@,
        ADBError::ConnectionTimeout(m) => "Connection timeout: "@ + m@,
        ADBError::ConnectionRetry(m) => "Connection retry failed: "@ + m@,
        ADBError::WirelessConnection(m) => "Wireless connection error: "@ + m@,
        ADBError::FileTransfer(m) => "File transfer error: "@ + m@,
        ADBError::Package(m) => "Package error: "@ + m@,
        ADBError::DeviceProperty(m) => "Device property error: "@ + m@,
        ADBError::Connection(m) => "Connection error: "@ + m@,
        ADBError::Authorization(m) => "Device authorization error: "@ + m@,
        ADBError::PackageInstallation(m) => "Package installation error: "@ + m@,
        ADBError::PackageUninstallation(m) => "Package uninstallation error: "@ + m@,
        ADBError::InvalidArgument(m) => "Invalid argument: "@ + m@,
        ADBError::DeviceState(m) => "Device state error: "@ + m@,
        ADBError::ScreenCapture(m) => "Screen capture error: "@ + m@,
        ADBError::ShellExecution(m) => "Shell execution error: "@ + m@,
        ADBError::Logcat(m) => "Logcat error: "@ + m@,
        ADBError::Backup(m) => "Backup error: "@ + m@,
        ADBError::Restore(m) => "Restore error: "@ + m@,
        ADBError::SplitPackageInstallation(m) => "Split APK installation error: "@ + m@,
        ADBError::Network(m) => "Network error: "@ + m@,
        ADBError::PermissionDenied(m) => "Permission denied: "@ + m@,
    }
}

impl ADBError {
    /// The rendered error text.
    pub fn message(&self) -> (r: String)
        ensures
            r@ == error_message_of(*self),
    {
        let (head, detail): (&str, &String) = match self {
            ADBError::IO(m) => ("IO error: ", m),
            ADBError::DeviceNotFound(m) => ("Device not found: ", m),
            ADBError::CommandFailed(m) => ("Command failed: ", m),
            ADBError::Timeout(m) => ("Timeout error: ", m),
            ADBError::Parse(m) => ("Parse error: ", m),
            ADBError::ScreenRecording(m) => ("Screen recording error: ", m),
            ADBError::SystemInfo(m) => ("System info error: ", m),
            ADBError::BatteryInfo(m) => ("Battery info error: ", m),
            ADBError::PackageManagement(m) => ("Package management error: ", m),
            ADBError::Debug(m) => ("Debug error: ", m),
            ADBError::InputEvent(m) => ("Input event error: ", m),
            ADBError::ConnectionTimeout(m) => ("Connection timeout: ", m),
            ADBError::ConnectionRetry(m) => ("Connection retry failed: ", m),
            ADBError::WirelessConnection(m) => ("Wireless connection error: ", m),
            ADBError::FileTransfer(m) => ("File transfer error: ", m),
            ADBError::Package(m) => ("Package error: ", m),
            ADBError::DeviceProperty(m) => ("Device property error: ", m),
            ADBError::Connection(m) => ("Connection error: ", m),
            ADBError::Authorization(m) => ("Device authorization error: ", m),
            ADBError::PackageInstallation(m) => ("Package installation error: ", m),
            ADBError::PackageUninstallation(m) => ("Package uninstallation error: ", m),
            ADBError::InvalidArgument(m) => ("Invalid argument: ", m),
            ADBError::DeviceState(m) => ("Device state error: ", m),
            ADBError::ScreenCapture(m) => ("Screen capture error: ", m),
            ADBError::ShellExecution(m) => ("Shell execution error: ", m),
            ADBError::Logcat(m) => ("Logcat error: ", m),
            ADBError::Backup(m) => ("Backup error: ", m),
            ADBError::Restore(m) => ("Restore error: ", m),
            ADBError::SplitPackageInstallation(m) => ("Split APK installation error: ", m),
            ADBError::Network(m) => ("Network error: ", m),
            ADBError::PermissionDenied(m) => ("Permission denied: ", m),
        };
        let mut out = head.to_owned();
        out.append(detail.as_str());
        out
    }
}

} // verus!
