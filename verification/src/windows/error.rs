use vstd::prelude::*;

use crate::text::{numeral, u32_to_hex_padded, zero_padded};

verus! {

/// Why a Windows capture could not be started, queried or stopped.
#[derive(Debug)]
pub enum RecordError {
    /// Administrator privileges are required.
    NotElevated,
    /// ERROR_ALREADY_EXISTS (183) from StartTrace — another tool holds the NT Kernel Logger.
    KernelLoggerConflict,
    EtwSession { code: u32, message: String },
    EtwConsumer(String),
    WprFailed(String),
    WprNotFound,
    AlreadyRunning,
    NotRunning,
    Internal(String),
}

/// Win32 `ERROR_ALREADY_EXISTS`.
pub const ERROR_ALREADY_EXISTS: u32 = 183;

/// The human-readable text of a capture error.
pub open spec fn record_error_message(e: RecordError) -> Seq<char> {
    match e {
        RecordError::NotElevated => "Process Analyzer requires Administrator privileges. Please re-run as Administrator (right-click → Run as administrator)."@,
        RecordError::KernelLoggerConflict => "The NT Kernel Logger session is already running. Another profiling tool (e.g. WPA, PerfView, xperf) may be active. Stop that conflicting session and try again."@,
        RecordError::EtwSession { code, message } => "ETW session error (Win32 code "@ + seq!['0', 'x'] + zero_padded(
            numeral(code as nat, 16),
            8,
        ) + "): "@ + message@,
        RecordError::EtwConsumer(d) => "ETW consumer thread error: "@ + d@,
        RecordError::WprFailed(d) => "wpr.exe fallback failed: "@ + d@,
        RecordError::WprNotFound => "wpr.exe not found. Install the Windows Performance Toolkit (part of the Windows SDK or ADK) to use the wpr.exe fallback."@,
        RecordError::AlreadyRunning => "A capture session is already active; call stop() before starting a new one"@,
        RecordError::NotRunning => "No capture session is currently active"@,
        RecordError::Internal(d) => "Internal error: "@ + d@,
    }
}

impl RecordError {
    /// The error's message text.
    pub fn message(&self) -> (m: String)
        ensures
            m@ == record_error_message(*self),
    {
        match self {
            RecordError::NotElevated => String::from_str(
                "Process Analyzer requires Administrator privileges. Please re-run as Administrator (right-click → Run as administrator).",
            ),
            RecordError::KernelLoggerConflict => String::from_str(
                "The NT Kernel Logger session is already running. Another profiling tool (e.g. WPA, PerfView, xperf) may be active. Stop that conflicting session and try again.",
            ),
            RecordError::EtwSession { code, message } => {
                let mut m = String::from_str("ETW session error (Win32 code ");
                let h = u32_to_hex_padded(*code);
                m.append(h.as_str());
                m.append("): ");
                m.append(message.as_str());
                m
            },
            RecordError::EtwConsumer(d) => {
                let mut m = String::from_str("ETW consumer thread error: ");
                m.append(d.as_str());
                m
            },
            RecordError::WprFailed(d) => {
                let mut m = String::from_str("wpr.exe fallback failed: ");
                m.append(d.as_str());
                m
            },
            RecordError::WprNotFound => String::from_str(
                "wpr.exe not found. Install the Windows Performance Toolkit (part of the Windows SDK or ADK) to use the wpr.exe fallback.",
            ),
            RecordError::AlreadyRunning => String::from_str(
                "A capture session is already active; call stop() before starting a new one",
            ),
            RecordError::NotRunning => String::from_str("No capture session is currently active"),
            RecordError::Internal(d) => {
                let mut m = String::from_str("Internal error: ");
                m.append(d.as_str());
                m
            },
        }
    }

    /// The error for a failed Win32 call returning `code`, whose system message
    /// is `message`: `ERROR_ALREADY_EXISTS` means another tool holds the NT
    /// Kernel Logger.
    pub fn from_win32(code: u32, message: String) -> (e: RecordError)
        ensures
            code == ERROR_ALREADY_EXISTS ==> e is KernelLoggerConflict,
            code != ERROR_ALREADY_EXISTS ==> (e matches RecordError::EtwSession { code: c, message: m }
                && c == code && m@ == message@),
    {
        if code == ERROR_ALREADY_EXISTS {
            return RecordError::KernelLoggerConflict;
        }
        RecordError::EtwSession { code, message }
    }
}

} // verus!
