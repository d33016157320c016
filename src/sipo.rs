use vstd::prelude::*;

verus! {

/// One of the four lines of the serial-in, parallel-out shift register.
#[derive(Clone, Copy, Debug, PartialEq, Eq, Structural)]
pub enum Line {
    /// Shift clock: a rising edge moves every stage one step and takes in the data line.
    Clock,
    /// Asynchronous clear, active low.
    Clear,
    /// Serial data input.
    Data,
    /// Storage clock: a rising edge copies the stages to the parallel outputs.
    Latch,
}

/// Driving one line to one level.
#[derive(Clone, Copy, Debug, PartialEq, Eq, Structural)]
pub struct LineWrite {
    pub line: Line,
    pub high: bool,
}

pub open spec fn line_write(line: Line, high: bool) -> LineWrite {
    LineWrite { line, high }
}

/// Clear pulse: the clear line low, then high.
pub open spec fn clear_pulse() -> Seq<LineWrite> {
    seq![line_write(Line::Clear, false), line_write(Line::Clear, true)]
}

/// Clock pulse: low, high, low.
pub open spec fn clock_pulse() -> Seq<LineWrite> {
    seq![line_write(Line::Clock, false), line_write(Line::Clock, true), line_write(Line::Clock, false)]
}

/// Latch pulse: low, high, low.
pub open spec fn latch_pulse() -> Seq<LineWrite> {
    seq![line_write(Line::Latch, false), line_write(Line::Latch, true), line_write(Line::Latch, false)]
}

/// Shifting one bit in: the data line set to the bit, then a clock pulse.
pub open spec fn shift_writes(bit: bool) -> Seq<LineWrite> {
    seq![line_write(Line::Data, bit)] + clock_pulse()
}

/// What bringing the register to a known state writes: clear, then latch the zeros.
pub open spec fn setup_writes() -> Seq<LineWrite> {
    clear_pulse() + latch_pulse()
}

/// The transport. It owns no pins: it records, in order, every line write it
/// makes since the last `take_writes`, and that record is its whole state.
pub struct Sipo {
    writes: Vec<LineWrite>,
}

impl View for Sipo {
    type V = Seq<LineWrite>;

    closed spec fn view(&self) -> Seq<LineWrite> {
        self.writes@
    }
}

impl Sipo {
    /// A transport whose register has been cleared and latched.
    pub fn create() -> (s: Sipo)
        ensures
            s@ == setup_writes(),
    {
        let mut s = Sipo { writes: Vec::new() };
        s.setup();
        assert(s@ =~= setup_writes());
        s
    }

    fn write(&mut self, line: Line, high: bool)
        ensures
            final(self)@ == old(self)@.push(line_write(line, high)),
    {
        self.writes.push(LineWrite { line, high });
    }

    /// Clears every stage and latches the cleared contents.
    pub fn setup(&mut self)
        ensures
            final(self)@ == old(self)@ + setup_writes(),
    {
        self.clear();
        self.show();
        assert(final(self)@ =~= old(self)@ + setup_writes());
    }

    /// Sets the data line to `value`.
    pub fn set(&mut self, value: bool)
        ensures
            final(self)@ == old(self)@.push(line_write(Line::Data, value)),
    {
        self.write(Line::Data, value);
    }

    /// Pulses the shift clock.
    pub fn shift(&mut self)
        ensures
            final(self)@ == old(self)@ + clock_pulse(),
    {
        self.write(Line::Clock, false);
        self.write(Line::Clock, true);
        self.write(Line::Clock, false);
        assert(final(self)@ =~= old(self)@ + clock_pulse());
    }

    /// Shifts `value` into the first stage.
    pub fn shift_value(&mut self, value: bool)
        ensures
            final(self)@ == old(self)@ + shift_writes(value),
    {
        self.set(value);
        self.shift();
        assert(final(self)@ =~= old(self)@ + shift_writes(value));
    }

    /// Pulses the latch, copying the stages to the outputs at once.
    pub fn show(&mut self)
        ensures
            final(self)@ == old(self)@ + latch_pulse(),
    {
        self.write(Line::Latch, false);
        self.write(Line::Latch, true);
        self.write(Line::Latch, false);
        assert(final(self)@ =~= old(self)@ + latch_pulse());
    }

    /// Zeroes every stage through the asynchronous clear line.
    pub fn clear(&mut self)
        ensures
            final(self)@ == old(self)@ + clear_pulse(),
    {
        self.write(Line::Clear, false);
        self.write(Line::Clear, true);
        assert(final(self)@ =~= old(self)@ + clear_pulse());
    }

    /// Hands out the recorded writes, oldest first, and forgets them.
    pub fn take_writes(&mut self) -> (w: Vec<LineWrite>)
        ensures
            w@ == old(self)@,
            final(self)@ == Seq::<LineWrite>::empty(),
    {
        let mut w: Vec<LineWrite> = Vec::new();
        std::mem::swap(&mut w, &mut self.writes);
        w
    }
}

} // verus!
