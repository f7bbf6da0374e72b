use vstd::prelude::*;

use super::arch::strip_pac;

verus! {

/// Maximum frames recorded per stack.
pub const MAX_FRAMES: usize = 128;

/// Lowest address treated as a user-space frame (avoids reading near null).
pub const MIN_FRAME_ADDR: u64 = 0x1000;

/// A frame-pointer walk of a thread's stack. Each frame record at `fp` is
/// `[saved_fp, return_address]`; the caller reads the 16 bytes the walk asks
/// for from the target and hands them back. The stack grows down, so every
/// saved frame pointer must lie strictly above the current one.
pub struct StackWalk {
    frames: Vec<u64>,
    fp: u64,
    done: bool,
}

impl StackWalk {
    /// The frames recorded so far, innermost first.
    pub closed spec fn frames(&self) -> Seq<u64> {
        self.frames@
    }

    /// The frame pointer whose record is read next.
    pub closed spec fn fp(&self) -> u64 {
        self.fp
    }

    pub closed spec fn done(&self) -> bool {
        self.done
    }

    /// Whether the walk asks for another frame record.
    pub open spec fn wants_record(&self) -> bool {
        !self.done() && self.fp() >= MIN_FRAME_ADDR && self.frames().len() < MAX_FRAMES
    }

    /// The walk's invariant: it holds at least the sampled program counter and
    /// at most `MAX_FRAMES` frames, and every return address it recorded lies
    /// in user space.
    pub open spec fn wf(&self) -> bool {
        &&& 1 <= self.frames().len() <= MAX_FRAMES
        &&& forall|i: int| 1 <= i < self.frames().len() ==> #[trigger] self.frames()[i] >= MIN_FRAME_ADDR
    }

    /// Starts the walk at program counter `pc` and frame pointer `fp`.
    pub fn new(pc: u64, fp: u64) -> (w: StackWalk)
        ensures
            w.wf(),
            w.frames() == seq![pc],
            w.fp() == fp,
            !w.done(),
    {
        let mut frames: Vec<u64> = Vec::new();
        frames.push(pc);
        StackWalk { frames, fp, done: false }
    }

    /// The address of the next frame record to read, while the walk goes on.
    pub fn next_record(&self) -> (r: Option<u64>)
        requires
            self.wf(),
        ensures
            r is Some <==> self.wants_record(),
            r matches Some(a) ==> a == self.fp(),
    {
        if !self.done && self.fp >= MIN_FRAME_ADDR && self.frames.len() < MAX_FRAMES {
            Some(self.fp)
        } else {
            None
        }
    }

    /// Answers the read of the record at `fp()` with `(saved_fp,
    /// return_address)`, or `None` when it failed. Both values lose their
    /// pointer-authentication bits. A failed read, or a return address below
    /// `MIN_FRAME_ADDR`, ends the walk; otherwise the return address is
    /// recorded, and the walk moves to the saved frame pointer if that lies
    /// strictly above the current one, and ends if not.
    pub fn on_record(&mut self, record: Option<(u64, u64)>)
        requires
            old(self).wf(),
            old(self).wants_record(),
        ensures
            final(self).wf(),
            final(self).done() || final(self).fp() > old(self).fp(),
            match record {
                None => final(self).done() && final(self).frames() == old(self).frames(),
                Some((saved, ret)) => {
                    let saved_fp = saved % 0x1_0000_0000_0000;
                    let ret_addr = ret % 0x1_0000_0000_0000;
                    if ret_addr < MIN_FRAME_ADDR {
                        final(self).done() && final(self).frames() == old(self).frames()
                    } else {
                        &&& final(self).frames() == old(self).frames().push(ret_addr as u64)
                        &&& (saved_fp <= old(self).fp()) == final(self).done()
                        &&& saved_fp > old(self).fp() ==> final(self).fp() == saved_fp
                    }
                },
            },
    {
        match record {
            None => {
                self.done = true;
            },
            Some((saved, ret)) => {
                let saved_fp = strip_pac(saved);
                let ret_addr = strip_pac(ret);
                if ret_addr < MIN_FRAME_ADDR {
                    self.done = true;
                    return;
                }
                self.frames.push(ret_addr);
                if saved_fp <= self.fp {
                    self.done = true;
                } else {
                    self.fp = saved_fp;
                }
            },
        }
    }

    /// The frames recorded, innermost first.
    pub fn into_frames(self) -> (v: Vec<u64>)
        ensures
            v@ == self.frames(),
    {
        self.frames
    }
}

} // verus!
