use vstd::prelude::*;
use crate::sipo::{Sipo, latch_pulse, shift_writes};

verus! {

/// Bits in one frame.
pub const FRAME_BITS: u8 = 16;

/// What a frame pusher is: the transport's record, the buffered frame, and how
/// many of its bits have gone out in the current push.
pub struct PusherView {
    pub writes: Seq<crate::sipo::LineWrite>,
    pub frame: u16,
    pub cursor: nat,
}

/// Bit `k` of the push order: most significant first.
pub open spec fn frame_bit(frame: u16, k: int) -> bool {
    (frame >> ((15 - k) as u16)) & 1u16 == 1u16
}

/// The writes that shift out bits `lo..hi` of `frame`, in push order.
pub open spec fn bits_writes(frame: u16, lo: int, hi: int) -> Seq<crate::sipo::LineWrite>
    decreases hi - lo,
{
    if hi <= lo {
        Seq::empty()
    } else {
        bits_writes(frame, lo, hi - 1) + shift_writes(frame_bit(frame, hi - 1))
    }
}

/// The writes of one whole frame: sixteen bits, most significant first, then a latch.
pub open spec fn frame_writes(frame: u16) -> Seq<crate::sipo::LineWrite> {
    bits_writes(frame, 0, 16) + latch_pulse()
}

/// Replacing the buffered frame restarts the push.
pub open spec fn pusher_set_data(v: PusherView, frame: u16) -> PusherView {
    PusherView { frame, cursor: 0, ..v }
}

/// One step: shift the bit under the cursor; after the last bit latch, rewind,
/// and report the frame complete.
pub open spec fn pusher_step(v: PusherView) -> (PusherView, bool) {
    let w = v.writes + shift_writes(frame_bit(v.frame, v.cursor as int));
    if v.cursor >= 15 {
        (PusherView { writes: w + latch_pulse(), cursor: 0, ..v }, true)
    } else {
        (PusherView { writes: w, cursor: v.cursor + 1, ..v }, false)
    }
}

/// `n` steps in a row: the state after them and what each returned.
pub open spec fn pusher_run(v: PusherView, n: nat) -> (PusherView, Seq<bool>)
    decreases n,
{
    if n == 0 {
        (v, Seq::empty())
    } else {
        let (v1, rs) = pusher_run(v, (n - 1) as nat);
        let (v2, r) = pusher_step(v1);
        (v2, rs.push(r))
    }
}

proof fn lemma_pusher_prefix(s: PusherView, k: nat)
    requires
        s.cursor == 0,
        k <= 15,
    ensures
        pusher_run(s, k).0 == (PusherView { writes: s.writes + bits_writes(s.frame, 0, k as int), cursor: k, ..s }),
        pusher_run(s, k).1 == Seq::new(k, |i: int| false),
    decreases k,
{
    if k > 0 {
        lemma_pusher_prefix(s, (k - 1) as nat);
        assert(pusher_run(s, k).0.writes =~= s.writes + bits_writes(s.frame, 0, k as int));
        assert(pusher_run(s, k).1 =~= Seq::new(k, |i: int| false));
    } else {
        assert(s.writes + bits_writes(s.frame, 0, 0) =~= s.writes);
        assert(pusher_run(s, k).1 =~= Seq::new(k, |i: int| false));
    }
}

/// Sixteen steps after a frame is buffered send its bits on the transport, most
/// significant first, then latch it; only the sixteenth step reports the frame
/// complete, and the pusher is then ready for the next frame.
pub proof fn lemma_frame_in_sixteen_steps(v: PusherView, frame: u16)
    ensures
        pusher_run(pusher_set_data(v, frame), 16).0 == (PusherView {
            writes: v.writes + frame_writes(frame),
            frame,
            cursor: 0,
        }),
        pusher_run(pusher_set_data(v, frame), 16).1 == Seq::new(15, |i: int| false).push(true),
{
    let s = pusher_set_data(v, frame);
    lemma_pusher_prefix(s, 15);
    assert(pusher_run(s, 16).0.writes =~= v.writes + frame_writes(frame));
    assert(pusher_run(s, 16).1 =~= Seq::new(15, |i: int| false).push(true));
}

/// The frame pusher: a sixteen-bit frame buffer over the transport, sent one bit per step.
pub struct FilledSipo {
    shift_register: Sipo,
    data: u16,
    update_step: u8,
}

impl View for FilledSipo {
    type V = PusherView;

    closed spec fn view(&self) -> PusherView {
        PusherView { writes: self.shift_register@, frame: self.data, cursor: self.update_step as nat }
    }
}

impl FilledSipo {
    /// The cursor stays within the frame.
    pub open spec fn wf(&self) -> bool {
        self@.cursor < 16
    }

    pub fn create(shift_register: Sipo) -> (p: FilledSipo)
        ensures
            p.wf(),
            p@ == (PusherView { writes: shift_register@, frame: 0, cursor: 0 }),
    {
        FilledSipo { shift_register, data: 0, update_step: 0 }
    }

    /// Replaces the buffered frame; the next step sends its first bit.
    pub fn set_data(&mut self, data: u16)
        requires
            old(self).wf(),
        ensures
            final(self).wf(),
            final(self)@ == pusher_set_data(old(self)@, data),
    {
        self.data = data;
        self.reset();
    }

    /// Sends the rest of the current frame and latches it. Meant for setup paths only.
    pub fn push_block(&mut self)
        requires
            old(self).wf(),
        ensures
            final(self).wf(),
            final(self)@ == (PusherView {
                writes: old(self)@.writes + bits_writes(old(self)@.frame, old(self)@.cursor as int, 16)
                    + latch_pulse(),
                cursor: 0,
                ..old(self)@
            }),
    {
        let ghost start = self@;
        loop
            invariant_except_break
                start.cursor <= self@.cursor,
                self@.writes == start.writes + bits_writes(start.frame, start.cursor as int, self@.cursor as int),
            invariant
                self.wf(),
                self@.frame == start.frame,
            ensures
                self@.cursor == 0,
                self@.writes == start.writes + bits_writes(start.frame, start.cursor as int, 16) + latch_pulse(),
            decreases 16 - self@.cursor,
        {
            let done = self.step();
            if done {
                assert(bits_writes(start.frame, start.cursor as int, 16) == bits_writes(
                    start.frame,
                    start.cursor as int,
                    15,
                ) + shift_writes(frame_bit(start.frame, 15)));
                assert(self@.writes =~= start.writes + bits_writes(start.frame, start.cursor as int, 16)
                    + latch_pulse());
                break;
            }
            assert(self@.writes =~= start.writes + bits_writes(start.frame, start.cursor as int, self@.cursor as int));
        }
    }

    /// Sends one bit; returns whether that bit completed (and latched) the frame.
    pub fn step(&mut self) -> (complete: bool)
        requires
            old(self).wf(),
        ensures
            final(self).wf(),
            (final(self)@, complete) == pusher_step(old(self)@),
    {
        let bit = (self.data >> ((15 - self.update_step) as u16)) & 1u16 == 1u16;
        self.shift_register.shift_value(bit);
        if self.update_step >= 15 {
            self.update_step = 0;
            self.shift_register.show();
            return true;
        }
        self.update_step = self.update_step + 1;
        false
    }

    /// Restarts the push of the current frame.
    pub fn reset(&mut self)
        ensures
            final(self)@ == (PusherView { cursor: 0, ..old(self)@ }),
            final(self).wf(),
    {
        self.update_step = 0;
    }

    /// Buffers the all-zero frame.
    pub fn clear(&mut self)
        requires
            old(self).wf(),
        ensures
            final(self).wf(),
            final(self)@ == pusher_set_data(old(self)@, 0),
    {
        self.set_data(0);
        self.reset();
    }

    /// Hands out the transport's recorded writes and forgets them.
    pub fn take_writes(&mut self) -> (w: Vec<crate::sipo::LineWrite>)
        ensures
            w@ == old(self)@.writes,
            final(self)@ == (PusherView { writes: Seq::empty(), ..old(self)@ }),
            final(self).wf() == old(self).wf(),
    {
        self.shift_register.take_writes()
    }
}

} // verus!
