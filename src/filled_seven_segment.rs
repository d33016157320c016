use vstd::prelude::*;
use crate::filled_sipo::{
    FilledSipo, PusherView, bits_writes, frame_bit, frame_writes, pusher_set_data, pusher_step,
};
use crate::sipo::{latch_pulse, shift_writes};
use crate::seven_segment::{EncoderView, SevenSegment, composite_for};

verus! {

/// Number of digit slots.
pub const DIGIT_SLOTS: usize = 4;

/// What a display multiplexer is: its encoder, its frame pusher, the four digit
/// slots (`None` is blank), the hide mask (bit `i` hides digit `i`) and the
/// sweep cursor.
pub struct DisplayView {
    pub encoder: EncoderView,
    pub pusher: PusherView,
    pub digits: Seq<Option<u8>>,
    pub hide: u8,
    pub cursor: nat,
}

pub open spec fn digit_hidden(hide: u8, index: int) -> bool {
    (hide & (1u8 << (index as u8))) != 0u8
}

/// The frame that shows slot `index`: all zero when the slot is hidden or blank,
/// else the encoder's frame for its value (`None` when the encoder has no such
/// position).
pub open spec fn slot_frame(v: DisplayView, index: int) -> Option<u16> {
    if digit_hidden(v.hide, index) || v.digits[index] is None {
        Some(0u16)
    } else {
        composite_for(v.encoder, v.digits[index]->Some_0, index)
    }
}

/// Buffering the frame of slot `index` in the pusher.
pub open spec fn load_slot(v: DisplayView, index: int) -> DisplayView {
    if index < 0 || index > 3 {
        v
    } else {
        match slot_frame(v, index) {
            Some(f) => DisplayView { pusher: pusher_set_data(v.pusher, f), ..v },
            None => v,
        }
    }
}

/// One multiplexer step. At the start of a sweep slot 0 is loaded; every step
/// sends one bit; when a frame completes the cursor moves on and the next slot is
/// loaded. Once the cursor passes the last digit the sweep is over: the cursor
/// rewinds and the step reports it.
pub open spec fn display_step(v: DisplayView) -> (DisplayView, bool) {
    let n = v.encoder.digits as nat;
    let v1 = if v.cursor == 0 { DisplayView { cursor: 1, ..load_slot(v, 0) } } else { v };
    let (next_pusher, done) = pusher_step(v1.pusher);
    let v2 = DisplayView { pusher: next_pusher, ..v1 };
    let v3 = if done {
        let moved = DisplayView { cursor: v2.cursor + 1, ..v2 };
        if moved.cursor <= n { load_slot(moved, moved.cursor - 1) } else { moved }
    } else {
        v2
    };
    if v3.cursor > n {
        (DisplayView { cursor: 0, ..v3 }, true)
    } else {
        (v3, false)
    }
}

/// A bound on the steps left before the current sweep completes.
pub open spec fn sweep_remaining(v: DisplayView) -> nat {
    if v.cursor == 0 {
        16 * (v.encoder.digits as nat + 2)
    } else {
        16 * ((v.encoder.digits as nat + 1 - v.cursor) as nat) + (16 - v.pusher.cursor) as nat
    }
}

pub open spec fn display_wf(v: DisplayView) -> bool {
    &&& v.encoder.digits <= 4
    &&& v.pusher.cursor < 16
    &&& v.digits.len() == 4
    &&& v.cursor <= v.encoder.digits
}

/// The display with digit `index` hidden; other indices change nothing.
pub open spec fn hide_digit_view(v: DisplayView, index: int) -> DisplayView {
    if 0 <= index < 4 {
        DisplayView { hide: v.hide | (1u8 << (index as u8)), ..v }
    } else {
        v
    }
}

/// The display with digit `index` shown; other indices change nothing.
pub open spec fn show_digit_view(v: DisplayView, index: int) -> DisplayView {
    if 0 <= index < 4 {
        DisplayView { hide: v.hide & !(1u8 << (index as u8)), ..v }
    } else {
        v
    }
}

pub open spec fn hide_all_view(v: DisplayView) -> DisplayView {
    DisplayView { hide: 0xFF, ..v }
}

pub open spec fn show_all_view(v: DisplayView) -> DisplayView {
    DisplayView { hide: 0, ..v }
}

/// The display with slot `index` holding `digit`; other indices change nothing.
pub open spec fn set_digit_view(v: DisplayView, index: int, digit: Option<u8>) -> DisplayView {
    if 0 <= index < 4 {
        DisplayView { digits: v.digits.update(index, digit), ..v }
    } else {
        v
    }
}

/// The display with slot `i` holding `number[i]`, for the four slots.
pub open spec fn set_number_view(v: DisplayView, number: Seq<u8>) -> DisplayView {
    DisplayView { digits: seq![Some(number[0]), Some(number[1]), Some(number[2]), Some(number[3])], ..v }
}

/// The display multiplexer: four digit slots shown one after another through
/// the encoder and the frame pusher, one bit per step.
pub struct FilledSevenSegment {
    seven_segment: SevenSegment,
    sipo: FilledSipo,
    digits: [Option<u8>; 4],
    hide: u8,
    update_step: usize,
}

impl View for FilledSevenSegment {
    type V = DisplayView;

    closed spec fn view(&self) -> DisplayView {
        DisplayView {
            encoder: self.seven_segment@,
            pusher: self.sipo@,
            digits: self.digits@,
            hide: self.hide,
            cursor: self.update_step as nat,
        }
    }
}

impl FilledSevenSegment {
    pub open spec fn wf(&self) -> bool {
        display_wf(self@)
    }

    /// A display of blank, shown slots over `seven_segment`, which drives at most four digits.
    pub fn create(seven_segment: SevenSegment, sipo: FilledSipo) -> (d: FilledSevenSegment)
        requires
            seven_segment@.digits <= 4,
            sipo.wf(),
        ensures
            d.wf(),
            d@ == (DisplayView {
                encoder: seven_segment@,
                pusher: sipo@,
                digits: seq![None, None, None, None],
                hide: 0,
                cursor: 0,
            }),
    {
        let d = FilledSevenSegment { seven_segment, sipo, digits: [None, None, None, None], hide: 0, update_step: 0 };
        assert(d@.digits =~= seq![None, None, None, None]);
        d
    }

    /// Hides digit `digit_index`; other indices are ignored.
    pub fn hide_digit(&mut self, digit_index: usize)
        requires
            old(self).wf(),
        ensures
            final(self).wf(),
            final(self)@ == hide_digit_view(old(self)@, digit_index as int),
    {
        if digit_index < 4 {
            self.hide = self.hide | (1u8 << (digit_index as u8));
        }
    }

    /// Shows digit `digit_index` again; other indices are ignored.
    pub fn show_digit(&mut self, digit_index: usize)
        requires
            old(self).wf(),
        ensures
            final(self).wf(),
            final(self)@ == show_digit_view(old(self)@, digit_index as int),
    {
        if digit_index < 4 {
            self.hide = self.hide & !(1u8 << (digit_index as u8));
        }
    }

    pub fn hide_all_digits(&mut self)
        requires
            old(self).wf(),
        ensures
            final(self).wf(),
            final(self)@ == hide_all_view(old(self)@),
    {
        self.hide = 0xFF;
    }

    pub fn show_all_digits(&mut self)
        requires
            old(self).wf(),
        ensures
            final(self).wf(),
            final(self)@ == show_all_view(old(self)@),
    {
        self.hide = 0;
    }

    /// Writes slot `digit_index` (`None` blanks it); other indices are ignored.
    pub fn set_digit(&mut self, digit_index: usize, digit: Option<u8>)
        requires
            old(self).wf(),
        ensures
            final(self).wf(),
            final(self)@ == set_digit_view(old(self)@, digit_index as int, digit),
    {
        if digit_index < 4 {
            self.digits[digit_index] = digit;
        }
    }

    /// Writes all four slots, slot `i` taking `number[i]`.
    pub fn set_number(&mut self, number: [u8; 4])
        requires
            old(self).wf(),
        ensures
            final(self).wf(),
            final(self)@ == set_number_view(old(self)@, number@),
    {
        self.digits = [Some(number[0]), Some(number[1]), Some(number[2]), Some(number[3])];
        assert(self@.digits =~= seq![Some(number[0]), Some(number[1]), Some(number[2]), Some(number[3])]);
    }

    fn fill_digit(&mut self, digit_index: usize)
        requires
            old(self).sipo.wf(),
            old(self).seven_segment.wf(),
            old(self)@.digits.len() == 4,
        ensures
            final(self).sipo.wf(),
            final(self)@ == load_slot(old(self)@, digit_index as int),
    {
        if digit_index > 3 {
            return;
        }
        if (self.hide & (1u8 << (digit_index as u8))) != 0 {
            self.sipo.clear();
            return;
        }
        match self.digits[digit_index] {
            Some(digit) => {
                self.seven_segment.fill_digit(&mut self.sipo, digit, digit_index);
            },
            None => {
                self.sipo.clear();
            },
        }
    }

    /// One multiplexer step; returns whether it completed a sweep.
    pub fn step(&mut self) -> (complete: bool)
        requires
            old(self).wf(),
        ensures
            final(self).wf(),
            (final(self)@, complete) == display_step(old(self)@),
    {
        if self.update_step == 0 {
            self.fill_digit(0);
            self.update_step = 1;
        }
        if self.sipo.step() {
            self.update_step = self.update_step + 1;
            if self.update_step <= self.seven_segment.digits() as usize {
                self.fill_digit(self.update_step - 1);
            }
        }
        if self.update_step > self.seven_segment.digits() as usize {
            self.update_step = 0;
            return true;
        }
        false
    }

    /// Runs steps until the current sweep completes. Meant for setup paths only.
    pub fn show_number_block(&mut self)
        requires
            old(self).wf(),
        ensures
            final(self).wf(),
            final(self)@.cursor == 0,
            exists|n: nat|
                n >= 1 && #[trigger] display_run(old(self)@, n).0 == final(self)@
                    && display_run(old(self)@, n).1 == Seq::new((n - 1) as nat, |i: int| false).push(true),
    {
        let ghost start = self@;
        let ghost count: nat = 0;
        assert(display_run(start, 0).1 =~= Seq::new(0, |i: int| false));
        loop
            invariant_except_break
                display_run(start, count).0 == self@,
                display_run(start, count).1 == Seq::new(count, |i: int| false),
            invariant
                self.wf(),
            ensures
                self@.cursor == 0,
                count >= 1,
                display_run(start, count).0 == self@,
                display_run(start, count).1 == Seq::new((count - 1) as nat, |i: int| false).push(true),
            decreases sweep_remaining(self@),
        {
            let done = self.step();
            proof {
                count = count + 1;
            }
            if done {
                assert(display_run(start, count).1 =~= Seq::new((count - 1) as nat, |i: int| false).push(true));
                break;
            }
            assert(display_run(start, count).1 =~= Seq::new(count, |i: int| false));
        }
    }

    /// Restarts the sweep at slot 0.
    pub fn reset(&mut self)
        requires
            old(self).wf(),
        ensures
            final(self).wf(),
            final(self)@ == (DisplayView { cursor: 0, ..old(self)@ }),
    {
        self.update_step = 0;
    }

    /// Blanks every slot.
    pub fn clear(&mut self)
        requires
            old(self).wf(),
        ensures
            final(self).wf(),
            final(self)@ == (DisplayView { digits: seq![None, None, None, None], ..old(self)@ }),
    {
        self.digits = [None, None, None, None];
        assert(self@.digits =~= seq![None, None, None, None]);
    }

    /// What slot `digit_index` holds; `None` for a blank slot or another index.
    pub fn digit(&self, digit_index: usize) -> (r: Option<u8>)
        requires
            self.wf(),
        ensures
            r == if digit_index < 4 { self@.digits[digit_index as int] } else { None },
    {
        if digit_index < 4 {
            self.digits[digit_index]
        } else {
            None
        }
    }

    /// Whether digit `digit_index` is hidden; false for other indices.
    pub fn is_hidden(&self, digit_index: usize) -> (r: bool)
        ensures
            r == (digit_index < 4 && digit_hidden(self@.hide, digit_index as int)),
    {
        digit_index < 4 && (self.hide & (1u8 << (digit_index as u8))) != 0
    }

    /// Hands out the transport's recorded writes and forgets them.
    pub fn take_writes(&mut self) -> (w: Vec<crate::sipo::LineWrite>)
        requires
            old(self).wf(),
        ensures
            final(self).wf(),
            w@ == old(self)@.pusher.writes,
            final(self)@ == (DisplayView {
                pusher: PusherView { writes: Seq::empty(), ..old(self)@.pusher },
                ..old(self)@
            }),
    {
        self.sipo.take_writes()
    }
}

/// `n` multiplexer steps in a row: the state after them and what each returned.
pub open spec fn display_run(v: DisplayView, n: nat) -> (DisplayView, Seq<bool>)
    decreases n,
{
    if n == 0 {
        (v, Seq::empty())
    } else {
        let (v1, rs) = display_run(v, (n - 1) as nat);
        let (v2, r) = display_step(v1);
        (v2, rs.push(r))
    }
}

} // verus!

verus! {

/// The writes of the frames of slots `0..k`, in index order.
pub open spec fn sweep_writes(v: DisplayView, k: nat) -> Seq<crate::sipo::LineWrite>
    decreases k,
{
    if k == 0 {
        Seq::empty()
    } else {
        sweep_writes(v, (k - 1) as nat) + frame_writes(slot_frame(v, k - 1)->Some_0)
    }
}

proof fn lemma_run_split(v: DisplayView, a: nat, b: nat)
    ensures
        display_run(v, a + b).0 == display_run(display_run(v, a).0, b).0,
        display_run(v, a + b).1 == display_run(v, a).1 + display_run(display_run(v, a).0, b).1,
    decreases b,
{
    if b == 0 {
        assert(display_run(v, a).1 + display_run(display_run(v, a).0, 0).1 =~= display_run(v, a).1);
    } else {
        lemma_run_split(v, a, (b - 1) as nat);
        assert((a + b - 1) as nat == a + (b - 1) as nat);
        assert(display_run(v, a + b).1 =~= display_run(v, a).1 + display_run(display_run(v, a).0, b).1);
    }
}

proof fn lemma_run_same_first_step(v: DisplayView, w: DisplayView, k: nat)
    requires
        display_step(v) == display_step(w),
        k >= 1,
    ensures
        display_run(v, k) == display_run(w, k),
    decreases k,
{
    if k > 1 {
        lemma_run_same_first_step(v, w, (k - 1) as nat);
    } else {
        assert(display_run(v, 0) == (v, Seq::<bool>::empty()));
        assert(display_run(w, 0) == (w, Seq::<bool>::empty()));
    }
}

/// Within a frame: `j` steps send bits `0..j` of the loaded frame and change nothing else.
proof fn lemma_frame_bits(v: DisplayView, j: nat)
    requires
        display_wf(v),
        1 <= v.cursor,
        v.pusher.cursor == 0,
        j <= 15,
    ensures
        display_run(v, j).0 == (DisplayView {
            pusher: PusherView {
                writes: v.pusher.writes + bits_writes(v.pusher.frame, 0, j as int),
                cursor: j,
                ..v.pusher
            },
            ..v
        }),
        display_run(v, j).1 == Seq::new(j, |i: int| false),
    decreases j,
{
    if j == 0 {
        assert(v.pusher.writes + bits_writes(v.pusher.frame, 0, 0) =~= v.pusher.writes);
        assert(display_run(v, 0).1 =~= Seq::new(0, |i: int| false));
    } else {
        lemma_frame_bits(v, (j - 1) as nat);
        assert(display_run(v, j).0.pusher.writes =~= v.pusher.writes + bits_writes(v.pusher.frame, 0, j as int));
        assert(display_run(v, j).1 =~= Seq::new(j, |i: int| false));
    }
}

/// The state after the frame under the cursor has been sent and latched.
pub open spec fn after_frame(v: DisplayView) -> DisplayView {
    let n = v.encoder.digits as nat;
    let moved = DisplayView {
        pusher: PusherView { writes: v.pusher.writes + frame_writes(v.pusher.frame), cursor: 0, ..v.pusher },
        cursor: v.cursor + 1,
        ..v
    };
    if moved.cursor <= n {
        load_slot(moved, moved.cursor - 1)
    } else {
        DisplayView { cursor: 0, ..moved }
    }
}

proof fn lemma_one_frame(v: DisplayView)
    requires
        display_wf(v),
        1 <= v.cursor,
        v.pusher.cursor == 0,
    ensures
        display_run(v, 16).0 == after_frame(v),
        display_run(v, 16).1 == Seq::new(15, |i: int| false).push(v.cursor + 1 > v.encoder.digits),
{
    lemma_frame_bits(v, 15);
    let w = display_run(v, 15).0;
    assert(w.pusher.writes + shift_writes(frame_bit(v.pusher.frame, 15)) + latch_pulse() =~= v.pusher.writes
        + frame_writes(v.pusher.frame));
    assert(display_run(v, 16).0 == after_frame(v));
    assert(display_run(v, 16).1 =~= Seq::new(15, |i: int| false).push(v.cursor + 1 > v.encoder.digits));
}

proof fn lemma_sweep_from(v0: DisplayView, u: DisplayView, i: nat)
    requires
        display_wf(v0),
        v0.encoder.digits >= 1,
        i < v0.encoder.digits,
        u.encoder == v0.encoder,
        u.digits == v0.digits,
        u.hide == v0.hide,
        u.cursor == i + 1,
        u.pusher.cursor == 0,
        u.pusher.frame == slot_frame(v0, i as int)->Some_0,
        u.pusher.writes == v0.pusher.writes + sweep_writes(v0, i),
    ensures
        ({
            let (fin, rs) = display_run(u, (16 * (v0.encoder.digits - i)) as nat);
            &&& fin.pusher.writes == v0.pusher.writes + sweep_writes(v0, v0.encoder.digits as nat)
            &&& fin.pusher.cursor == 0
            &&& fin.cursor == 0
            &&& fin.encoder == v0.encoder
            &&& fin.digits == v0.digits
            &&& fin.hide == v0.hide
            &&& rs == Seq::new((16 * (v0.encoder.digits - i) - 1) as nat, |k: int| false).push(true)
        }),
    decreases v0.encoder.digits - i,
{
    let n = v0.encoder.digits as nat;
    lemma_one_frame(u);
    let next = after_frame(u);
    assert(next.pusher.writes =~= v0.pusher.writes + sweep_writes(v0, i + 1)) by {
        assert(sweep_writes(v0, i + 1) == sweep_writes(v0, i) + frame_writes(slot_frame(v0, i as int)->Some_0));
    }
    if i + 1 < n {
        assert(slot_frame(v0, (i + 1) as int) is Some);
        lemma_sweep_from(v0, next, i + 1);
        lemma_run_split(u, 16, (16 * (n - i - 1)) as nat);
        assert((16 + 16 * (n - i - 1)) as nat == (16 * (n - i)) as nat);
        assert(display_run(u, (16 * (n - i)) as nat).1 =~= Seq::new((16 * (n - i) - 1) as nat, |k: int| false).push(
            true,
        ));
    } else {
        assert((16 * (n - i)) as nat == 16);
        assert(Seq::new(15, |k: int| false).push(true) =~= Seq::new((16 * (n - i) - 1) as nat, |k: int| false).push(
            true,
        ));
    }
}

/// A sweep from its start takes sixteen steps per digit. It sends the frame of
/// every slot exactly once, in increasing index order (a hidden or blank slot
/// sends the all-zero frame), reports completion on its last step and on no
/// other, and leaves the slots, the mask and the encoder as they were, with the
/// cursor back at the start.
pub proof fn lemma_display_sweep(v: DisplayView)
    requires
        display_wf(v),
        v.cursor == 0,
        v.encoder.digits >= 1,
    ensures
        ({
            let (fin, rs) = display_run(v, (16 * v.encoder.digits) as nat);
            &&& fin.pusher.writes == v.pusher.writes + sweep_writes(v, v.encoder.digits as nat)
            &&& fin.pusher.cursor == 0
            &&& fin.cursor == 0
            &&& fin.encoder == v.encoder
            &&& fin.digits == v.digits
            &&& fin.hide == v.hide
            &&& rs == Seq::new((16 * v.encoder.digits - 1) as nat, |k: int| false).push(true)
        }),
{
    let u = DisplayView { cursor: 1, ..load_slot(v, 0) };
    assert(slot_frame(v, 0) is Some);
    assert(display_step(v) == display_step(u));
    assert(v.pusher.writes + sweep_writes(v, 0) =~= v.pusher.writes);
    lemma_sweep_from(v, u, 0);
    lemma_run_same_first_step(v, u, (16 * v.encoder.digits) as nat);
}

} // verus!
