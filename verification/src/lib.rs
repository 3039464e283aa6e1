//! Host-side client library for a device-bridge command-line tool.
//!
//! Every operation of the bridge is a textual subprocess invocation: the
//! caller runs the external binary with an argument string and parses its
//! human-readable output.  This crate holds the verified core of that work:
//! the command-line builders, the line-oriented output parsers, the success
//! predicates on command output, and the retry decision logic.  The
//! unverified shell around it (process spawning, timeouts, logging) lives
//! outside the library and hands plain strings in and out.

pub mod advanced_device;
pub mod automation;
pub mod debug;
pub mod device;
pub mod device_management;
pub mod error;
pub mod file_ops;
pub mod input;
pub mod package;
pub mod retry;
pub mod screen_recording;
pub mod system_info;
pub mod text;
pub mod wireless;

pub use crate::debug::LogcatOptions;
pub use crate::debug::LogcatPreset;
pub use crate::debug::NetworkStats;
pub use crate::device::Device;
pub use crate::device_management::AppDataSize;
pub use crate::device_management::AppPermissions;
pub use crate::device_management::ProcessInfo;
pub use crate::error::ADBError;
pub use crate::input::InputSource;
pub use crate::input::TouchEvent;
pub use crate::package::PackageInfo;
pub use crate::screen_recording::ScreenRecordOptions;
pub use crate::system_info::BatteryInfo;
pub use crate::system_info::SystemInfo;
pub use crate::wireless::NetworkDiagnostics;
