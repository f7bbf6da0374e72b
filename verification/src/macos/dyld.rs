use vstd::prelude::*;

use crate::import::perf::{le_u64, read_u64_le};
use super::arch::Arch;
use super::types::DyldImage;

verus! {

/// Magic number of a 64-bit Mach-O header.
pub const MH_MAGIC_64: u32 = 0xfeed_facf;
/// Load command holding the image's 16-byte build UUID.
pub const LC_UUID: u32 = 0x1b;
/// Load command of a 64-bit segment; the first one is `__TEXT`.
pub const LC_SEGMENT_64: u32 = 0x19;
/// Size of `mach_header_64`.
pub const MACH_HEADER_64_SIZE: u64 = 32;
/// Size of the generic `load_command` header (`cmd`, `cmdsize`).
pub const LOAD_COMMAND_SIZE: u32 = 8;
/// Offset of `vmaddr` within `segment_command_64`.
pub const SEGMENT_VMADDR_OFFSET: u64 = 24;
/// Maximum load commands walked per image (guards against corrupt headers).
pub const MAX_LOAD_CMDS: u32 = 512;
/// Maximum number of images enumerated (guards against corrupt lists).
pub const MAX_IMAGES: u32 = 4096;
/// Maximum path length read for one image.
pub const MAX_PATH_LEN: usize = 4096;
/// Size of one `dyld_image_info` entry.
pub const DYLD_IMAGE_INFO_SIZE: usize = 24;

/// The all-zero UUID that stands for an unknown one.
pub open spec fn zero_uuid() -> Seq<u8> {
    Seq::new(16, |i: int| 0u8)
}

/// What the load-command walk needs read from the target next.
#[derive(Debug, Clone, Copy, PartialEq, Eq, Structural)]
pub enum ScanRead {
    /// The generic `load_command` header (`cmd`, `cmdsize`) at this address.
    LoadCommand(u64),
    /// The `uuid_command` at this address.
    Uuid(u64),
    /// The `vmaddr` `u64` of a `segment_command_64` at this address.
    Vmaddr(u64),
    /// Nothing more: the walk is over.
    Finished,
}

/// The walk over an image's Mach-O load commands that finds its build UUID
/// (`LC_UUID`) and the preferred load address of its first segment
/// (`LC_SEGMENT_64`), from which its ASLR slide follows. The target's memory
/// is read by the caller, one answer per `ScanRead`.
pub struct LoadCommandScan {
    load_address: u64,
    offset: u64,
    remaining: u32,
    uuid: [u8; 16],
    found_uuid: bool,
    preferred_load: u64,
    found_text: bool,
    done: bool,
    /// The `(cmd, cmdsize)` of the command whose extra read is awaited.
    pending: Option<(u32, u32)>,
}

impl LoadCommandScan {
    pub closed spec fn load_address(&self) -> u64 {
        self.load_address
    }

    /// Address of the next load command.
    pub closed spec fn offset(&self) -> u64 {
        self.offset
    }

    /// Load commands left to walk.
    pub closed spec fn remaining(&self) -> u32 {
        self.remaining
    }

    pub closed spec fn uuid(&self) -> Option<[u8; 16]> {
        if self.found_uuid {
            Some(self.uuid)
        } else {
            None
        }
    }

    /// The first segment's preferred load address, once read.
    pub closed spec fn preferred_load(&self) -> Option<u64> {
        if self.found_text {
            Some(self.preferred_load)
        } else {
            None
        }
    }

    pub closed spec fn done(&self) -> bool {
        self.done
    }

    pub closed spec fn pending(&self) -> Option<(u32, u32)> {
        self.pending
    }

    /// The read the walk asks for in this state.
    pub open spec fn next_read_spec(&self) -> ScanRead {
        match self.pending() {
            Some((cmd, _)) => if cmd == LC_UUID {
                ScanRead::Uuid(self.offset())
            } else {
                ScanRead::Vmaddr((self.offset() + SEGMENT_VMADDR_OFFSET) as u64)
            },
            None => if self.done() || self.remaining() == 0 {
                ScanRead::Finished
            } else {
                ScanRead::LoadCommand(self.offset())
            },
        }
    }

    /// The walk's invariant: a pending read is the UUID of an `LC_UUID` or the
    /// `vmaddr` of the first `LC_SEGMENT_64`, whose address fits.
    pub open spec fn wf(&self) -> bool {
        &&& self.pending() matches Some((cmd, size)) ==> {
            &&& !self.done()
            &&& self.remaining() > 0
            &&& size >= LOAD_COMMAND_SIZE
            &&& self.offset() + size <= u64::MAX
            &&& (cmd == LC_UUID || (cmd == LC_SEGMENT_64 && self.preferred_load() is None))
            &&& cmd == LC_SEGMENT_64 ==> self.offset() + SEGMENT_VMADDR_OFFSET <= u64::MAX
        }
    }

    /// Starts the walk over the image at `load_address` whose `mach_header_64`
    /// holds `magic` and `ncmds`; `None` when the magic is not `MH_MAGIC_64`.
    /// At most `MAX_LOAD_CMDS` commands are walked, from just past the header.
    pub fn start(load_address: u64, magic: u32, ncmds: u32) -> (r: Option<LoadCommandScan>)
        requires
            load_address + MACH_HEADER_64_SIZE <= u64::MAX,
        ensures
            magic != MH_MAGIC_64 <==> r is None,
            r matches Some(s) ==> {
                &&& s.wf()
                &&& s.load_address() == load_address
                &&& s.offset() == load_address + MACH_HEADER_64_SIZE
                &&& s.remaining() == if ncmds < MAX_LOAD_CMDS { ncmds } else { MAX_LOAD_CMDS }
                &&& s.uuid() is None && s.preferred_load() is None && !s.done() && s.pending() is None
            },
    {
        if magic != MH_MAGIC_64 {
            return None;
        }
        let remaining = if ncmds < MAX_LOAD_CMDS { ncmds } else { MAX_LOAD_CMDS };
        Some(LoadCommandScan {
            load_address,
            offset: load_address + MACH_HEADER_64_SIZE,
            remaining,
            uuid: [0u8; 16],
            found_uuid: false,
            preferred_load: 0,
            found_text: false,
            done: false,
            pending: None,
        })
    }

    /// The read the walk asks for next.
    pub fn next_read(&self) -> (r: ScanRead)
        requires
            self.wf(),
        ensures
            r == self.next_read_spec(),
    {
        match self.pending {
            Some((cmd, _)) => {
                if cmd == LC_UUID {
                    ScanRead::Uuid(self.offset)
                } else {
                    ScanRead::Vmaddr(self.offset + SEGMENT_VMADDR_OFFSET)
                }
            },
            None => {
                if self.done || self.remaining == 0 {
                    ScanRead::Finished
                } else {
                    ScanRead::LoadCommand(self.offset)
                }
            },
        }
    }

    /// Moves past the current command; the walk ends once both the UUID and
    /// the first segment are known.
    fn advance(&mut self, size: u32)
        requires
            !old(self).done,
            old(self).remaining > 0,
            old(self).offset + size <= u64::MAX,
        ensures
            final(self).pending is None,
            final(self).load_address == old(self).load_address,
            final(self).uuid == old(self).uuid && final(self).found_uuid == old(self).found_uuid,
            final(self).preferred_load == old(self).preferred_load && final(self).found_text == old(self).found_text,
            (old(self).found_uuid && old(self).found_text) ==> final(self).done && final(self).offset == old(self).offset
                && final(self).remaining == old(self).remaining,
            !(old(self).found_uuid && old(self).found_text) ==> !final(self).done && final(self).offset == old(self).offset
                + size && final(self).remaining == old(self).remaining - 1,
    {
        self.pending = None;
        if self.found_uuid && self.found_text {
            self.done = true;
            return;
        }
        self.offset = self.offset + size as u64;
        self.remaining = self.remaining - 1;
    }

    /// Answers a `LoadCommand` read with the command's `(cmd, cmdsize)`, or
    /// `None` when the read failed. A failed read or a size below the command
    /// header ends the walk; an `LC_UUID`, and the first `LC_SEGMENT_64`, ask
    /// for one more read; any other command is passed over.
    pub fn on_load_command(&mut self, lc: Option<(u32, u32)>)
        requires
            old(self).wf(),
            old(self).next_read_spec() is LoadCommand,
            lc matches Some((cmd, size)) ==> old(self).offset() + size <= u64::MAX
                && (cmd == LC_SEGMENT_64 ==> old(self).offset() + SEGMENT_VMADDR_OFFSET <= u64::MAX),
        ensures
            final(self).wf(),
            final(self).load_address() == old(self).load_address(),
            final(self).uuid() == old(self).uuid(),
            final(self).preferred_load() == old(self).preferred_load(),
            match lc {
                None => final(self).done() && final(self).pending() is None,
                Some((cmd, size)) => if size < LOAD_COMMAND_SIZE {
                    final(self).done() && final(self).pending() is None
                } else if cmd == LC_UUID || (cmd == LC_SEGMENT_64 && old(self).preferred_load() is None) {
                    final(self).pending() == Some((cmd, size)) && final(self).offset() == old(self).offset()
                        && final(self).remaining() == old(self).remaining() && !final(self).done()
                } else if old(self).uuid() is Some && old(self).preferred_load() is Some {
                    final(self).done() && final(self).pending() is None
                } else {
                    final(self).pending() is None && !final(self).done() && final(self).offset() == old(self).offset()
                        + size && final(self).remaining() == old(self).remaining() - 1
                },
            },
    {
        match lc {
            None => {
                self.done = true;
            },
            Some((cmd, size)) => {
                if size < LOAD_COMMAND_SIZE {
                    self.done = true;
                } else if cmd == LC_UUID || (cmd == LC_SEGMENT_64 && !self.found_text) {
                    self.pending = Some((cmd, size));
                } else {
                    self.advance(size);
                }
            },
        }
    }

    /// Answers a `Uuid` read with the command's UUID bytes, or `None` when the
    /// read failed; the walk then moves past the command.
    pub fn on_uuid(&mut self, uuid: Option<[u8; 16]>)
        requires
            old(self).wf(),
            old(self).next_read_spec() is Uuid,
        ensures
            final(self).wf(),
            final(self).pending() is None,
            final(self).load_address() == old(self).load_address(),
            final(self).uuid() == match uuid {
                Some(u) => Some(u),
                None => old(self).uuid(),
            },
            final(self).preferred_load() == old(self).preferred_load(),
            (final(self).uuid() is Some && old(self).preferred_load() is Some) ==> final(self).done()
                && final(self).offset() == old(self).offset(),
            !(final(self).uuid() is Some && old(self).preferred_load() is Some) ==> !final(self).done()
                && final(self).offset() == old(self).offset() + (old(self).pending()->0).1
                && final(self).remaining() == old(self).remaining() - 1,
    {
        let size = match self.pending {
            Some((_, s)) => s,
            None => 0,
        };
        if let Some(u) = uuid {
            self.uuid = u;
            self.found_uuid = true;
        }
        self.advance(size);
    }

    /// Answers a `Vmaddr` read with the segment's preferred load address, or
    /// `None` when the read failed; the walk then moves past the command.
    pub fn on_vmaddr(&mut self, vmaddr: Option<u64>)
        requires
            old(self).wf(),
            old(self).next_read_spec() is Vmaddr,
        ensures
            final(self).wf(),
            final(self).pending() is None,
            final(self).load_address() == old(self).load_address(),
            final(self).uuid() == old(self).uuid(),
            final(self).preferred_load() == match vmaddr {
                Some(v) => Some(v),
                None => old(self).preferred_load(),
            },
            (old(self).uuid() is Some && final(self).preferred_load() is Some) ==> final(self).done()
                && final(self).offset() == old(self).offset(),
            !(old(self).uuid() is Some && final(self).preferred_load() is Some) ==> !final(self).done()
                && final(self).offset() == old(self).offset() + (old(self).pending()->0).1
                && final(self).remaining() == old(self).remaining() - 1,
    {
        let size = match self.pending {
            Some((_, s)) => s,
            None => 0,
        };
        if let Some(v) = vmaddr {
            self.preferred_load = v;
            self.found_text = true;
        }
        self.advance(size);
    }

    /// Whether the slide fits in an `i64`.
    pub open spec fn slide_fits(&self) -> bool {
        self.preferred_load() matches Some(p) ==> i64::MIN <= (self.load_address() as i64) - (p as i64)
            <= i64::MAX
    }

    /// Whether the slide fits in an `i64`.
    pub fn check_slide(&self) -> (b: bool)
        ensures
            b == self.slide_fits(),
    {
        if !self.found_text {
            return true;
        }
        let l = self.load_address as i64;
        let p = self.preferred_load as i64;
        if p >= 0 {
            l >= i64::MIN + p
        } else {
            l <= i64::MAX + p
        }
    }

    /// The image's UUID (zeros when none was found) and its slide: load address
    /// minus the first segment's preferred load address, or 0 when unknown.
    pub fn finish(&self) -> (r: ([u8; 16], i64))
        requires
            self.slide_fits(),
        ensures
            r.0@ == match self.uuid() {
                Some(u) => u@,
                None => zero_uuid(),
            },
            r.1 == match self.preferred_load() {
                Some(p) => ((self.load_address() as i64) - (p as i64)) as i64,
                None => 0,
            },
    {
        let slide: i64 = if self.found_text {
            self.load_address as i64 - self.preferred_load as i64
        } else {
            0
        };
        if self.found_uuid {
            (self.uuid, slide)
        } else {
            ([0u8; 16], slide)
        }
    }
}

/// One `dyld_image_info` entry of the target's image list.
#[derive(Debug, Clone, Copy, PartialEq, Eq, Structural)]
pub struct ImageInfo {
    /// Address of the image's Mach-O header in the target.
    pub image_load_address: u64,
    /// Address of the image's path, a C string, in the target.
    pub image_file_path: u64,
    pub image_file_mod_date: u64,
}

/// The entry whose 24 bytes start at `off`.
pub open spec fn image_info_at(b: Seq<u8>, off: int) -> ImageInfo {
    ImageInfo {
        image_load_address: le_u64(b, off),
        image_file_path: le_u64(b, off + 8),
        image_file_mod_date: le_u64(b, off + 16),
    }
}

/// Cuts the raw image list into its entries (a trailing partial entry is
/// ignored).
pub fn decode_image_infos(buf: &[u8]) -> (r: Vec<ImageInfo>)
    ensures
        r@.len() == buf@.len() / 24,
        forall|k: int| 0 <= k < r@.len() ==> #[trigger] r@[k] == image_info_at(buf@, 24 * k),
{
    let mut r: Vec<ImageInfo> = Vec::new();
    let len = buf.len();
    let n = len / DYLD_IMAGE_INFO_SIZE;
    let mut k: usize = 0;
    while k < n
        invariant
            len == buf@.len(),
            n == len / 24,
            0 <= k <= n,
            r@.len() == k,
            forall|m: int| 0 <= m < k ==> #[trigger] r@[m] == image_info_at(buf@, 24 * m),
        decreases n - k,
    {
        assert(k * 24 + 24 <= len) by (nonlinear_arith)
            requires
                k < n,
                n == len / 24,
        ;
        let off = k * DYLD_IMAGE_INFO_SIZE;
        let a = read_u64_le(buf, off).unwrap();
        let p = read_u64_le(buf, off + 8).unwrap();
        let d = read_u64_le(buf, off + 16).unwrap();
        r.push(ImageInfo { image_load_address: a, image_file_path: p, image_file_mod_date: d });
        k = k + 1;
    }
    r
}

/// How many entries of the image list to read: the list's count, at most
/// `MAX_IMAGES`, and none when the list's address is null.
pub fn image_count(info_array_count: u32, info_array: u64) -> (n: u32)
    ensures
        n == if info_array == 0 {
            0
        } else if info_array_count < MAX_IMAGES {
            info_array_count
        } else {
            MAX_IMAGES
        },
{
    let n = if info_array_count < MAX_IMAGES { info_array_count } else { MAX_IMAGES };
    if info_array == 0 {
        0
    } else {
        n
    }
}

/// The image an entry describes, given the path and Mach-O metadata read for
/// it: `None` for an entry without load address; an unreadable path becomes
/// `<unknown>`, unreadable metadata a zero UUID and slide.
pub fn image_from_entry(entry: &ImageInfo, path: Option<String>, metadata: Option<([u8; 16], i64)>) -> (r: Option<DyldImage>)
    ensures
        entry.image_load_address == 0 <==> r is None,
        r matches Some(img) ==> {
            &&& img.load_address == entry.image_load_address
            &&& img.path@ == match path {
                Some(p) => p@,
                None => "<unknown>"@,
            }
            &&& img.uuid@ == match metadata {
                Some(m) => m.0@,
                None => zero_uuid(),
            }
            &&& img.slide == match metadata {
                Some(m) => m.1,
                None => 0,
            }
        },
{
    if entry.image_load_address == 0 {
        return None;
    }
    let path = match path {
        Some(p) => p,
        None => String::from_str("<unknown>"),
    };
    let (uuid, slide) = match metadata {
        Some(m) => m,
        None => ([0u8; 16], 0i64),
    };
    Some(DyldImage { load_address: entry.image_load_address, slide, path, uuid })
}

/// The length of a C string read into `buf`: up to its first NUL, or all of
/// `buf` without one.
pub fn cstring_len(buf: &[u8]) -> (n: usize)
    ensures
        n <= buf@.len(),
        forall|i: int| 0 <= i < n ==> buf@[i] != 0,
        n < buf@.len() ==> buf@[n as int] == 0,
{
    let mut i: usize = 0;
    while i < buf.len()
        invariant
            0 <= i <= buf@.len(),
            forall|j: int| 0 <= j < i ==> buf@[j] != 0,
        decreases buf@.len() - i,
    {
        if buf[i] == 0 {
            return i;
        }
        i = i + 1;
    }
    i
}

/// The target's architecture, read from the `(magic, cputype)` of its first
/// image's Mach-O header; the host's when there is no image, the header could
/// not be read, or it is not a 64-bit Mach-O header.
pub fn arch_from_first_header(header: Option<(u32, i32)>, host: Arch) -> (a: Arch)
    ensures
        match header {
            Some((magic, cputype)) => if magic == MH_MAGIC_64 {
                a == crate::macos::arch::arch_of_cputype(cputype, host)
            } else {
                a == host
            },
            None => a == host,
        },
{
    match header {
        Some((magic, cputype)) => {
            if magic == MH_MAGIC_64 {
                Arch::from_cputype(cputype, host)
            } else {
                host
            }
        },
        None => host,
    }
}

} // verus!
