use vstd::prelude::*;

use super::recorder::KernelFlags;

verus! {

/// A GUID as Windows lays it out.
#[derive(Debug, Clone, Copy, PartialEq, Eq)]
pub struct Guid {
    pub data1: u32,
    pub data2: u16,
    pub data3: u16,
    pub data4: [u8; 8],
}

/// `PerfInfoGuid`, the provider of PROFILE (sampled profile) events.
pub fn perf_info_guid() -> (g: Guid)
    ensures
        g.data1 == 0xce1d_bfb4 && g.data2 == 0x137e && g.data3 == 0x4da6
            && g.data4@ == seq![0x87u8, 0xb0, 0x3f, 0x59, 0xaa, 0x10, 0x2c, 0xbc],
{
    let g = Guid { data1: 0xce1d_bfb4, data2: 0x137e, data3: 0x4da6, data4: [0x87, 0xb0, 0x3f, 0x59, 0xaa, 0x10, 0x2c, 0xbc] };
    assert(g.data4@ =~= seq![0x87u8, 0xb0, 0x3f, 0x59, 0xaa, 0x10, 0x2c, 0xbc]);
    g
}

/// `ThreadGuid`, the provider of thread and context-switch events.
pub fn thread_guid() -> (g: Guid)
    ensures
        g.data1 == 0x3d6f_a8d1 && g.data2 == 0xfe05 && g.data3 == 0x11d0
            && g.data4@ == seq![0x9du8, 0xda, 0x00, 0xc0, 0x4f, 0xd7, 0xba, 0x7c],
{
    let g = Guid { data1: 0x3d6f_a8d1, data2: 0xfe05, data3: 0x11d0, data4: [0x9d, 0xda, 0x00, 0xc0, 0x4f, 0xd7, 0xba, 0x7c] };
    assert(g.data4@ =~= seq![0x9du8, 0xda, 0x00, 0xc0, 0x4f, 0xd7, 0xba, 0x7c]);
    g
}

/// Opcode of the `SampledProfile` event.
pub const OPCODE_SAMPLED_PROFILE: u8 = 46;
/// Opcode of the `CSwitch` event.
pub const OPCODE_CSWITCH: u8 = 36;

/// A classic ETW event: its provider and opcode.
#[derive(Debug, Clone, Copy, PartialEq, Eq)]
pub struct ClassicEventId {
    pub guid: Guid,
    pub opcode: u8,
}

/// The events whose call stacks the kernel is asked to record: sampled
/// profiles when PROFILE is enabled, then context switches when CSWITCH is.
pub fn stack_tracing_ids(flags: KernelFlags) -> (v: Vec<ClassicEventId>)
    ensures
        ({
            let profile = flags.spec_bits() & 0x0100_0000 == 0x0100_0000;
            let cswitch = flags.spec_bits() & 0x0000_0010 == 0x0000_0010;
            &&& v@.len() == (if profile { 1nat } else { 0 }) + (if cswitch { 1nat } else { 0 })
            &&& profile ==> v@[0].guid.data1 == 0xce1d_bfb4 && v@[0].opcode == OPCODE_SAMPLED_PROFILE
            &&& cswitch ==> v@[v@.len() - 1].guid.data1 == 0x3d6f_a8d1 && v@[v@.len() - 1].opcode == OPCODE_CSWITCH
        }),
{
    let mut v: Vec<ClassicEventId> = Vec::new();
    if flags.contains(KernelFlags::profile()) {
        v.push(ClassicEventId { guid: perf_info_guid(), opcode: OPCODE_SAMPLED_PROFILE });
    }
    if flags.contains(KernelFlags::cswitch()) {
        v.push(ClassicEventId { guid: thread_guid(), opcode: OPCODE_CSWITCH });
    }
    v
}

} // verus!
