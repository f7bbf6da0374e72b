use vstd::prelude::*;

verus! {

/// CPU architecture of the *target* process (may differ from the host on
/// Apple Silicon when the target runs under Rosetta 2).
#[derive(Debug, Clone, Copy, PartialEq, Eq, Structural)]
pub enum Arch {
    Arm64,
    X86_64,
}

/// `CPU_TYPE_X86_64` from `<mach/machine.h>`.
pub const CPU_TYPE_X86_64: i32 = 0x0100_0007;
/// `CPU_TYPE_ARM64` from `<mach/machine.h>`.
pub const CPU_TYPE_ARM64: i32 = 0x0100_000C;

/// The architecture a Mach-O `cputype` names; `host` for any other cputype.
pub open spec fn arch_of_cputype(cputype: i32, host: Arch) -> Arch {
    if cputype == CPU_TYPE_ARM64 {
        Arch::Arm64
    } else if cputype == CPU_TYPE_X86_64 {
        Arch::X86_64
    } else {
        host
    }
}

impl Arch {
    /// The architecture a Mach-O `cputype` names; an unknown cputype falls back
    /// to `host`, the architecture this code runs on.
    pub fn from_cputype(cputype: i32, host: Arch) -> (a: Arch)
        ensures
            a == arch_of_cputype(cputype, host),
    {
        if cputype == CPU_TYPE_ARM64 {
            Arch::Arm64
        } else if cputype == CPU_TYPE_X86_64 {
            Arch::X86_64
        } else {
            host
        }
    }
}

/// Strip pointer-authentication code bits: keep the low 48 bits, which is wider
/// than any user-space virtual address on current ARM64 and x86_64 hardware.
pub fn strip_pac(addr: u64) -> (r: u64)
    ensures
        r == addr % 0x1_0000_0000_0000,
{
    let r = addr & 0x0000_FFFF_FFFF_FFFF;
    assert(addr & 0x0000_FFFF_FFFF_FFFF == addr % 0x1_0000_0000_0000) by (bit_vector);
    r
}

} // verus!
