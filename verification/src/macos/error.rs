use vstd::prelude::*;

use crate::text::{decimal, numeral, u32_to_hex_padded, u64_to_hex_padded, u64_to_decimal, zero_padded};

verus! {

/// Why a macOS recording could not be started, continued or finished.
#[derive(Debug)]
pub enum RecordError {
    /// `task_for_pid` was denied. Run as root or sign with
    /// `com.apple.security.cs.debugger`.
    PermissionDenied { pid: u32, detail: String },
    ProcessNotFound(u32),
    MachError { code: i32, context: &'static str },
    /// DTrace failed to start or produced an error; I/O and scheduling events
    /// will be absent.
    DTraceUnavailable(String),
    XctraceError(String),
    XctraceNotFound,
    /// An I/O failure, with its message.
    Io(String),
    AlreadyRecording(u32),
    NotRecording,
    MemoryReadFailed { address: u64, detail: String },
    DyldInfoUnavailable(String),
}

/// The text of a hexadecimal code as `{:#010x}` writes it.
pub open spec fn hex8(x: u32) -> Seq<char> {
    seq!['0', 'x'] + zero_padded(numeral(x as nat, 16), 8)
}

/// The human-readable text of a recording error.
pub open spec fn record_error_message(e: RecordError) -> Seq<char> {
    match e {
        RecordError::PermissionDenied { pid, detail } => "permission denied acquiring task port for pid "@
            + decimal(pid as nat) + ": "@ + detail@
            + "\nRemediation: run as root, or codesign with com.apple.security.cs.debugger entitlement, or use xctrace fallback"@,
        RecordError::ProcessNotFound(pid) => "process not found: pid "@ + decimal(pid as nat),
        RecordError::MachError { code, context } => "mach kernel error "@ + hex8(code as u32) + " in "@ + context@,
        RecordError::DTraceUnavailable(d) => "DTrace unavailable: "@ + d@
            + "\nSIP may be restricting DTrace. Disable with `csrutil enable --without dtrace` or use xctrace fallback."@,
        RecordError::XctraceError(d) => "xctrace error: "@ + d@,
        RecordError::XctraceNotFound => "xctrace not found — install Xcode Command Line Tools: xcode-select --install"@,
        RecordError::Io(d) => "I/O error: "@ + d@,
        RecordError::AlreadyRecording(pid) => "already recording pid "@ + decimal(pid as nat),
        RecordError::NotRecording => "not recording"@,
        RecordError::MemoryReadFailed { address, detail } => "remote memory read failed at "@ + seq!['0', 'x']
            + zero_padded(numeral(address as nat, 16), 16) + ": "@ + detail@,
        RecordError::DyldInfoUnavailable(d) => "dyld image list unavailable: "@ + d@,
    }
}

impl RecordError {
    /// The error's message text.
    pub fn message(&self) -> (m: String)
        ensures
            m@ == record_error_message(*self),
    {
        match self {
            RecordError::PermissionDenied { pid, detail } => {
                let mut m = String::from_str("permission denied acquiring task port for pid ");
                let p = u64_to_decimal(*pid as u64);
                m.append(p.as_str());
                m.append(": ");
                m.append(detail.as_str());
                m.append("\nRemediation: run as root, or codesign with com.apple.security.cs.debugger entitlement, or use xctrace fallback");
                m
            },
            RecordError::ProcessNotFound(pid) => {
                let mut m = String::from_str("process not found: pid ");
                let p = u64_to_decimal(*pid as u64);
                m.append(p.as_str());
                m
            },
            RecordError::MachError { code, context } => {
                let mut m = String::from_str("mach kernel error ");
                let h = u32_to_hex_padded(*code as u32);
                m.append(h.as_str());
                m.append(" in ");
                m.append(context);
                m
            },
            RecordError::DTraceUnavailable(d) => {
                let mut m = String::from_str("DTrace unavailable: ");
                m.append(d.as_str());
                m.append("\nSIP may be restricting DTrace. Disable with `csrutil enable --without dtrace` or use xctrace fallback.");
                m
            },
            RecordError::XctraceError(d) => {
                let mut m = String::from_str("xctrace error: ");
                m.append(d.as_str());
                m
            },
            RecordError::XctraceNotFound => String::from_str(
                "xctrace not found — install Xcode Command Line Tools: xcode-select --install",
            ),
            RecordError::Io(d) => {
                let mut m = String::from_str("I/O error: ");
                m.append(d.as_str());
                m
            },
            RecordError::AlreadyRecording(pid) => {
                let mut m = String::from_str("already recording pid ");
                let p = u64_to_decimal(*pid as u64);
                m.append(p.as_str());
                m
            },
            RecordError::NotRecording => String::from_str("not recording"),
            RecordError::MemoryReadFailed { address, detail } => {
                let mut m = String::from_str("remote memory read failed at ");
                let h = u64_to_hex_padded(*address);
                m.append(h.as_str());
                m.append(": ");
                m.append(detail.as_str());
                m
            },
            RecordError::DyldInfoUnavailable(d) => {
                let mut m = String::from_str("dyld image list unavailable: ");
                m.append(d.as_str());
                m
            },
        }
    }

    /// True when the error is due to insufficient privilege, meaning xctrace
    /// is a viable fallback.
    pub fn is_permission_error(&self) -> (b: bool)
        ensures
            b == (self is PermissionDenied),
    {
        matches!(self, RecordError::PermissionDenied { .. })
    }
}

} // verus!
