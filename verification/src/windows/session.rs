use vstd::prelude::*;

use super::error::RecordError;
use super::recorder::RecordConfig;

verus! {

/// Code units of the session name `"NT Kernel Logger"` and its NUL.
pub const KERNEL_LOGGER_NAME_UNITS: usize = 17;
/// Bytes of the session name in UTF-16.
pub const KERNEL_LOGGER_NAME_BYTES: usize = 34;
/// `EVENT_TRACE_REAL_TIME_MODE`.
pub const LOG_FILE_MODE_REALTIME: u32 = 0x0000_0100;
/// `WNODE_FLAG_TRACED_GUID`.
pub const WNODE_FLAG_TRACED_GUID: u32 = 0x0002_0000;
/// Win32 `ERROR_MORE_DATA`, which stopping a session may answer harmlessly.
pub const ERROR_MORE_DATA: u32 = 234;

/// The session name `"NT Kernel Logger"` with its NUL, as UTF-16 code units.
pub open spec fn kernel_logger_name() -> Seq<u16> {
    seq![
        0x004Eu16, 0x0054, 0x0020, 0x004B, 0x0065, 0x0072, 0x006E, 0x0065, 0x006C, 0x0020, 0x004C, 0x006F,
        0x0067, 0x0067, 0x0065, 0x0072, 0x0000,
    ]
}

/// The session name as UTF-16 code units.
pub fn kernel_logger_name_units() -> (v: Vec<u16>)
    ensures
        v@ == kernel_logger_name(),
{
    let v: Vec<u16> = vec![
        0x004E, 0x0054, 0x0020, 0x004B, 0x0065, 0x0072, 0x006E, 0x0065, 0x006C, 0x0020, 0x004C, 0x006F,
        0x0067, 0x0067, 0x0065, 0x0072, 0x0000,
    ];
    assert(v@ =~= kernel_logger_name());
    v
}

/// The buffer handed to `StartTraceW` and `ControlTraceW`: an
/// `EVENT_TRACE_PROPERTIES` of `props_size` bytes followed by the session
/// name in UTF-16.
pub struct PropsBuffer {
    props_size: usize,
    data: Vec<u8>,
}

impl PropsBuffer {
    pub closed spec fn bytes(&self) -> Seq<u8> {
        self.data@
    }

    pub closed spec fn props_size(&self) -> nat {
        self.props_size as nat
    }

    /// A zeroed buffer for properties of `props_size` bytes and the name.
    pub fn new(props_size: usize) -> (b: PropsBuffer)
        requires
            props_size + KERNEL_LOGGER_NAME_BYTES <= usize::MAX,
        ensures
            b.props_size() == props_size,
            b.bytes().len() == props_size + KERNEL_LOGGER_NAME_BYTES,
            forall|i: int| 0 <= i < b.bytes().len() ==> #[trigger] b.bytes()[i] == 0,
    {
        let n = props_size + KERNEL_LOGGER_NAME_BYTES;
        let mut data: Vec<u8> = Vec::new();
        let mut i: usize = 0;
        while i < n
            invariant
                0 <= i <= n,
                data@.len() == i,
                forall|k: int| 0 <= k < i ==> #[trigger] data@[k] == 0,
            decreases n - i,
        {
            data.push(0);
            i = i + 1;
        }
        PropsBuffer { props_size, data }
    }

    /// The buffer's size in bytes, which the properties' `Wnode.BufferSize`
    /// carries.
    pub fn total_size(&self) -> (n: usize)
        ensures
            n == self.bytes().len(),
    {
        self.data.len()
    }

    /// Writes the session name, UTF-16 little-endian, into the bytes after the
    /// properties.
    pub fn write_logger_name(&mut self)
        requires
            old(self).bytes().len() == old(self).props_size() + KERNEL_LOGGER_NAME_BYTES,
        ensures
            final(self).props_size() == old(self).props_size(),
            final(self).bytes().len() == old(self).bytes().len(),
            forall|i: int| 0 <= i < old(self).props_size() ==> #[trigger] final(self).bytes()[i] == old(self).bytes()[i],
            forall|k: int| 0 <= k < KERNEL_LOGGER_NAME_UNITS ==> {
                &&& #[trigger] final(self).bytes()[old(self).props_size() + 2 * k] == (kernel_logger_name()[k] % 256) as u8
                &&& final(self).bytes()[old(self).props_size() + 2 * k + 1] == (kernel_logger_name()[k] / 256) as u8
            },
    {
        let name = kernel_logger_name_units();
        let base = self.props_size;
        let n = self.data.len();
        let mut i: usize = 0;
        while i < KERNEL_LOGGER_NAME_UNITS
            invariant
                n == base + KERNEL_LOGGER_NAME_BYTES,
                name@ == kernel_logger_name(),
                base == self.props_size,
                self.props_size == old(self).props_size,
                self.data@.len() == base + KERNEL_LOGGER_NAME_BYTES,
                0 <= i <= KERNEL_LOGGER_NAME_UNITS,
                forall|j: int| 0 <= j < base ==> #[trigger] self.data@[j] == old(self).data@[j],
                forall|k: int| 0 <= k < i ==> {
                    &&& #[trigger] self.data@[base + 2 * k] == (kernel_logger_name()[k] % 256) as u8
                    &&& self.data@[base + 2 * k + 1] == (kernel_logger_name()[k] / 256) as u8
                },
            decreases KERNEL_LOGGER_NAME_UNITS - i,
        {
            let w = name[i];
            let lo = (w % 256) as u8;
            let hi = (w / 256) as u8;
            let ghost before = self.data@;
            self.data.set(base + 2 * i, lo);
            self.data.set(base + 2 * i + 1, hi);
            assert forall|k: int| 0 <= k < i + 1 implies {
                &&& #[trigger] self.data@[base + 2 * k] == (kernel_logger_name()[k] % 256) as u8
                &&& self.data@[base + 2 * k + 1] == (kernel_logger_name()[k] / 256) as u8
            } by {
                if k < i {
                    assert(self.data@[base + 2 * k] == before[base + 2 * k]);
                    assert(self.data@[base + 2 * k + 1] == before[base + 2 * k + 1]);
                }
            }
            i = i + 1;
        }
    }
}

/// The settings a start request writes into the session properties: the
/// buffer size and buffer count only where the configuration gives one
/// (zero keeps the system default), the kernel providers, real-time mode and
/// a traced-GUID node.
#[derive(Debug, Clone, Copy, PartialEq, Eq, Structural)]
pub struct SessionSettings {
    pub buffer_size_kb: Option<u32>,
    pub max_buffers: Option<u32>,
    pub enable_flags: u32,
    pub log_file_mode: u32,
    pub wnode_flags: u32,
}

/// The property settings for starting a session with `config`.
pub fn session_settings(config: &RecordConfig) -> (s: SessionSettings)
    ensures
        s.buffer_size_kb == (if config.buffer_size_kb > 0 { Some(config.buffer_size_kb) } else { None::<u32> }),
        s.max_buffers == (if config.max_buffers > 0 { Some(config.max_buffers) } else { None::<u32> }),
        s.enable_flags == config.kernel_flags.spec_bits(),
        s.log_file_mode == LOG_FILE_MODE_REALTIME,
        s.wnode_flags == WNODE_FLAG_TRACED_GUID,
{
    SessionSettings {
        buffer_size_kb: if config.buffer_size_kb > 0 { Some(config.buffer_size_kb) } else { None },
        max_buffers: if config.max_buffers > 0 { Some(config.max_buffers) } else { None },
        enable_flags: config.kernel_flags.bits(),
        log_file_mode: LOG_FILE_MODE_REALTIME,
        wnode_flags: WNODE_FLAG_TRACED_GUID,
    }
}

/// The outcome of `ControlTraceW(EVENT_TRACE_CONTROL_STOP)` answering `code`
/// (with the system message `message`): success, or `ERROR_MORE_DATA`, which
/// is harmless here, stop the session; any other code is an error.
pub fn stop_outcome(code: u32, message: String) -> (r: Result<(), RecordError>)
    ensures
        (code == 0 || code == ERROR_MORE_DATA) <==> r is Ok,
        r matches Err(e) ==> (code == super::error::ERROR_ALREADY_EXISTS ==> e is KernelLoggerConflict)
            && (code != super::error::ERROR_ALREADY_EXISTS ==> (e matches RecordError::EtwSession { code: c, message: m }
            && c == code && m@ == message@)),
{
    if code == 0 || code == ERROR_MORE_DATA {
        Ok(())
    } else {
        Err(RecordError::from_win32(code, message))
    }
}

} // verus!
