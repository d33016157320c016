use vstd::prelude::*;
use crate::filled_seven_segment::{
    DisplayView, FilledSevenSegment, hide_all_view, hide_digit_view, set_digit_view, set_number_view,
    show_all_view, show_digit_view,
};
use crate::led_matrix::{LEDMatrix, MatrixView, data_view, set_view};

verus! {

/// Highlight stages of the win animation.
pub const WIN_ANIMATION_MAX_LED_OUTER_STEP: u8 = 5;

/// Positions per stage of the win animation.
pub const WIN_ANIMATION_MAX_LED_STEP: u8 = 4;

/// Coarse ticks per position of the win animation, less one.
pub const WIN_ANIMATION_MAX_LED_INNER_STEP: u8 = 10;

/// Coarse ticks per blink of the greeting.
pub const HELO_ANIMATION_MAX_INNER_STEP: u8 = 20;

/// Blinks of the greeting.
pub const HELO_ANIMATION_MAX_OUTER_STEP: u8 = 5;

/// Coarse ticks the guess flash lasts.
pub const GUESS_ANIMATION_MAX_STEP: u8 = 12;

/// Coarse ticks the digit flash lasts.
pub const DIGIT_INCREMENT_ANIMATION_MAX_STEP: u8 = 4;

/// Calls of `step` per coarse tick.
pub const SUB_STEPS: u8 = 255;

#[derive(Clone, Copy, Debug, PartialEq, Eq, Structural)]
pub enum AnimationState {
    Running,
    End,
}

/// The time divider: one call moves the fine counter, and every `SUB_STEPS`
/// calls the coarse one. Returns (coarse, fine).
pub open spec fn divide(coarse: u8, fine: u8) -> (u8, u8) {
    if fine + 1 == SUB_STEPS {
        ((coarse + 1) as u8, 0u8)
    } else {
        (coarse, (fine + 1) as u8)
    }
}

/// A bounded visual sequence over the display and the matrix. Each kind states
/// what one step and a cleanup do through its spec functions.
pub trait Animation: Sized {
    /// The counters are within their ranges.
    spec fn inv(&self) -> bool;

    spec fn running_spec(&self) -> bool;

    /// The animation, display and matrix after one step, and what it returned.
    spec fn step_spec(&self, d: DisplayView, m: MatrixView) -> (Self, DisplayView, MatrixView, AnimationState);

    /// The display and matrix after a cleanup.
    spec fn cleanup_spec(&self, d: DisplayView, m: MatrixView) -> (DisplayView, MatrixView);

    fn step(&mut self, seven_segment: &mut FilledSevenSegment, led_matrix: &mut LEDMatrix) -> (r: AnimationState)
        requires
            old(self).inv(),
            old(seven_segment).wf(),
            old(led_matrix).wf(),
        ensures
            final(self).inv(),
            final(seven_segment).wf(),
            final(led_matrix).wf(),
            (*final(self), final(seven_segment)@, final(led_matrix)@, r) == old(self).step_spec(
                old(seven_segment)@,
                old(led_matrix)@,
            ),
    ;

    /// Puts the display and matrix back in a neutral state.
    fn cleanup(&mut self, seven_segment: &mut FilledSevenSegment, led_matrix: &mut LEDMatrix)
        requires
            old(self).inv(),
            old(seven_segment).wf(),
            old(led_matrix).wf(),
        ensures
            *final(self) == *old(self),
            final(seven_segment).wf(),
            final(led_matrix).wf(),
            (final(seven_segment)@, final(led_matrix)@) == old(self).cleanup_spec(
                old(seven_segment)@,
                old(led_matrix)@,
            ),
    ;

    fn running(&self) -> (r: bool)
        ensures
            r == self.running_spec(),
    ;
}

/// `n` steps in a row.
pub open spec fn run_animation<A: Animation>(a: A, d: DisplayView, m: MatrixView, n: nat) -> (A, DisplayView, MatrixView)
    decreases n,
{
    if n == 0 {
        (a, d, m)
    } else {
        let (a1, d1, m1) = run_animation(a, d, m, (n - 1) as nat);
        let (a2, d2, m2, r) = a1.step_spec(d1, m1);
        (a2, d2, m2)
    }
}

/// Hides one digit for a while: the acknowledgement of a press that changed it.
pub struct DigitIncrementAnimation {
    pub digit_index: usize,
    pub step: u8,
    pub internal_step: u8,
}

impl DigitIncrementAnimation {
    pub fn create(digit_index: usize) -> (a: DigitIncrementAnimation)
        ensures
            a == (DigitIncrementAnimation { digit_index, step: 0, internal_step: 0 }),
    {
        DigitIncrementAnimation { step: 0, digit_index, internal_step: 0 }
    }

    /// Starts over on digit `digit_index`.
    pub fn reset(&mut self, digit_index: usize)
        ensures
            *final(self) == (DigitIncrementAnimation { digit_index, step: 0, internal_step: 0 }),
    {
        self.digit_index = digit_index;
        self.step = 0;
        self.internal_step = 0;
    }
}

impl Animation for DigitIncrementAnimation {
    open spec fn inv(&self) -> bool {
        self.step <= DIGIT_INCREMENT_ANIMATION_MAX_STEP && self.internal_step < SUB_STEPS
    }

    open spec fn running_spec(&self) -> bool {
        self.step < DIGIT_INCREMENT_ANIMATION_MAX_STEP
    }

    /// While running: hide the digit during the first coarse tick, then count.
    open spec fn step_spec(&self, d: DisplayView, m: MatrixView) -> (Self, DisplayView, MatrixView, AnimationState) {
        if !self.running_spec() {
            (*self, d, m, AnimationState::End)
        } else {
            let d1 = if self.step == 0 { hide_digit_view(d, self.digit_index as int) } else { d };
            let (s, i) = divide(self.step, self.internal_step);
            (DigitIncrementAnimation { step: s, internal_step: i, ..*self }, d1, m, AnimationState::Running)
        }
    }

    /// Shows the digit again.
    open spec fn cleanup_spec(&self, d: DisplayView, m: MatrixView) -> (DisplayView, MatrixView) {
        (show_digit_view(d, self.digit_index as int), m)
    }

    fn step(&mut self, seven_segment: &mut FilledSevenSegment, led_matrix: &mut LEDMatrix) -> (r: AnimationState) {
        if !self.running() {
            return AnimationState::End;
        }
        if self.step == 0 {
            seven_segment.hide_digit(self.digit_index);
        }
        self.internal_step = self.internal_step + 1;
        if self.internal_step == SUB_STEPS {
            self.step = self.step + 1;
            self.internal_step = 0;
        }
        AnimationState::Running
    }

    fn cleanup(&mut self, seven_segment: &mut FilledSevenSegment, led_matrix: &mut LEDMatrix) {
        seven_segment.show_digit(self.digit_index);
    }

    fn running(&self) -> (r: bool) {
        self.step < DIGIT_INCREMENT_ANIMATION_MAX_STEP
    }
}

/// Hides every digit for a while, drawing the eye to the matrix.
pub struct GuessAnimation {
    pub step: u8,
    pub internal_step: u8,
}

impl GuessAnimation {
    pub fn create() -> (a: GuessAnimation)
        ensures
            a == (GuessAnimation { step: 0, internal_step: 0 }),
    {
        GuessAnimation { step: 0, internal_step: 0 }
    }

    pub fn reset(&mut self)
        ensures
            *final(self) == (GuessAnimation { step: 0, internal_step: 0 }),
    {
        self.step = 0;
        self.internal_step = 0;
    }
}

impl Animation for GuessAnimation {
    open spec fn inv(&self) -> bool {
        self.step <= GUESS_ANIMATION_MAX_STEP && self.internal_step < SUB_STEPS
    }

    open spec fn running_spec(&self) -> bool {
        self.step < GUESS_ANIMATION_MAX_STEP
    }

    /// While running: hide every digit during the first coarse tick, then count.
    open spec fn step_spec(&self, d: DisplayView, m: MatrixView) -> (Self, DisplayView, MatrixView, AnimationState) {
        if !self.running_spec() {
            (*self, d, m, AnimationState::End)
        } else {
            let d1 = if self.step == 0 { hide_all_view(d) } else { d };
            let (s, i) = divide(self.step, self.internal_step);
            (GuessAnimation { step: s, internal_step: i }, d1, m, AnimationState::Running)
        }
    }

    /// Shows every digit again.
    open spec fn cleanup_spec(&self, d: DisplayView, m: MatrixView) -> (DisplayView, MatrixView) {
        (show_all_view(d), m)
    }

    fn step(&mut self, seven_segment: &mut FilledSevenSegment, led_matrix: &mut LEDMatrix) -> (r: AnimationState) {
        if !self.running() {
            return AnimationState::End;
        }
        if self.step == 0 {
            seven_segment.hide_all_digits();
        }
        self.internal_step = self.internal_step + 1;
        if self.internal_step == SUB_STEPS {
            self.step = self.step + 1;
            self.internal_step = 0;
        }
        AnimationState::Running
    }

    fn cleanup(&mut self, seven_segment: &mut FilledSevenSegment, led_matrix: &mut LEDMatrix) {
        seven_segment.show_all_digits();
    }

    fn running(&self) -> (r: bool) {
        self.step < GUESS_ANIMATION_MAX_STEP
    }
}

} // verus!

verus! {

/// Both points of columns `0..k`, lit.
pub open spec fn fill_columns(m: MatrixView, k: int) -> MatrixView
    decreases k,
{
    if k <= 0 {
        m
    } else {
        let m1 = fill_columns(m, k - 1);
        set_view(set_view(m1, k - 1, 0, true), k - 1, 1, true)
    }
}

/// The highlight of stage `stage` at position `quarter`: one cell, then a column,
/// then a column moving the other way, then every column up to the position.
pub open spec fn win_pattern(m: MatrixView, stage: u8, quarter: u8) -> MatrixView {
    if stage < 2 {
        set_view(m, quarter as int, stage as int, true)
    } else if stage == 2 {
        set_view(set_view(m, quarter as int, 0, true), quarter as int, 1, true)
    } else if stage == 3 {
        set_view(set_view(m, 3 - quarter, 0, true), 3 - quarter, 1, true)
    } else {
        fill_columns(m, quarter + 1)
    }
}

/// Shows the winning number, sweeps a growing highlight over the matrix and
/// blinks the digits.
pub struct WinAnimation {
    pub number: [u8; 4],
    pub led_step: u8,
    pub led_quarter: u8,
    pub led_inner: u8,
    pub hidden: bool,
    pub internal_step: u8,
}

impl WinAnimation {
    pub fn create(number: [u8; 4]) -> (a: WinAnimation)
        ensures
            a == (WinAnimation { number, led_step: 0, led_quarter: 0, led_inner: 0, hidden: true, internal_step: 0 }),
    {
        WinAnimation { number, led_inner: 0, led_quarter: 0, led_step: 0, hidden: true, internal_step: 0 }
    }

    /// Starts over with `number`.
    pub fn reset(&mut self, number: [u8; 4])
        ensures
            *final(self) == (WinAnimation {
                number,
                led_step: 0,
                led_quarter: 0,
                led_inner: 0,
                hidden: true,
                internal_step: 0,
            }),
    {
        self.number = number;
        self.led_step = 0;
        self.led_quarter = 0;
        self.led_inner = 0;
        self.hidden = true;
        self.internal_step = 0;
    }
}

impl Animation for WinAnimation {
    open spec fn inv(&self) -> bool {
        &&& self.led_quarter < WIN_ANIMATION_MAX_LED_STEP
        &&& self.led_inner <= WIN_ANIMATION_MAX_LED_INNER_STEP + 1
        &&& self.internal_step < SUB_STEPS
        &&& (self.led_step <= WIN_ANIMATION_MAX_LED_OUTER_STEP || (self.led_step
            == WIN_ANIMATION_MAX_LED_OUTER_STEP + 1 && self.led_quarter == 0 && self.led_inner
            <= WIN_ANIMATION_MAX_LED_INNER_STEP))
    }

    open spec fn running_spec(&self) -> bool {
        self.led_step < WIN_ANIMATION_MAX_LED_OUTER_STEP
    }

    /// At the very start the number is shown and the matrix cleared. The
    /// position advances past its last coarse tick, the stage past its last
    /// position; past the last stage the animation ends. Otherwise the matrix
    /// shows the highlight alone, and on the first coarse tick of positions 0
    /// and 2 every call flips the digits between shown and hidden.
    open spec fn step_spec(&self, d: DisplayView, m: MatrixView) -> (Self, DisplayView, MatrixView, AnimationState) {
        let start = self.led_inner == 0 && self.led_quarter == 0 && self.led_step == 0;
        let d0 = if start { set_number_view(d, self.number@) } else { d };
        let m0 = if start { data_view(m, 0) } else { m };
        let wrap = self.led_inner > WIN_ANIMATION_MAX_LED_INNER_STEP;
        let inner1 = if wrap { 0u8 } else { self.led_inner };
        let q1 = if wrap { (self.led_quarter + 1) as u8 } else { self.led_quarter };
        let next_stage = q1 >= WIN_ANIMATION_MAX_LED_STEP;
        let q2 = if next_stage { 0u8 } else { q1 };
        let s2 = if next_stage { (self.led_step + 1) as u8 } else { self.led_step };
        if s2 > WIN_ANIMATION_MAX_LED_OUTER_STEP {
            (
                WinAnimation { led_inner: inner1, led_quarter: q2, led_step: s2, ..*self },
                d0,
                m0,
                AnimationState::End,
            )
        } else {
            let m1 = win_pattern(data_view(m0, 0), s2, q2);
            let toggle = (q2 == 2 || q2 == 0) && inner1 == 0;
            let d1 = if toggle {
                if self.hidden { show_all_view(d0) } else { hide_all_view(d0) }
            } else {
                d0
            };
            let (inner2, fine) = divide(inner1, self.internal_step);
            (
                WinAnimation {
                    led_inner: inner2,
                    led_quarter: q2,
                    led_step: s2,
                    hidden: if toggle { !self.hidden } else { self.hidden },
                    internal_step: fine,
                    ..*self
                },
                d1,
                m1,
                AnimationState::Running,
            )
        }
    }

    /// Lights the whole matrix and shows every digit.
    open spec fn cleanup_spec(&self, d: DisplayView, m: MatrixView) -> (DisplayView, MatrixView) {
        (show_all_view(d), data_view(m, 0xFF))
    }

    fn step(&mut self, seven_segment: &mut FilledSevenSegment, led_matrix: &mut LEDMatrix) -> (r: AnimationState) {
        if self.led_inner == 0 && self.led_quarter == 0 && self.led_step == 0 {
            seven_segment.set_number(self.number);
            led_matrix.clear();
        }
        if self.led_inner > WIN_ANIMATION_MAX_LED_INNER_STEP {
            self.led_inner = 0;
            self.led_quarter = self.led_quarter + 1;
        }
        if self.led_quarter >= WIN_ANIMATION_MAX_LED_STEP {
            self.led_quarter = 0;
            self.led_step = self.led_step + 1;
        }
        if self.led_step > WIN_ANIMATION_MAX_LED_OUTER_STEP {
            return AnimationState::End;
        }
        led_matrix.clear();
        let ghost cleared = led_matrix@;
        if self.led_step < 2 {
            led_matrix.set(self.led_quarter, self.led_step, true);
        } else if self.led_step == 2 {
            led_matrix.set(self.led_quarter, 0, true);
            led_matrix.set(self.led_quarter, 1, true);
        } else if self.led_step == 3 {
            led_matrix.set(3 - self.led_quarter, 0, true);
            led_matrix.set(3 - self.led_quarter, 1, true);
        } else {
            let mut i: u8 = 0;
            while i <= self.led_quarter
                invariant
                    led_matrix.wf(),
                    self.led_quarter < 4,
                    i <= self.led_quarter + 1,
                    led_matrix@ == fill_columns(cleared, i as int),
                decreases self.led_quarter + 1 - i,
            {
                led_matrix.set(i, 0, true);
                led_matrix.set(i, 1, true);
                i = i + 1;
            }
        }
        if (self.led_quarter == 2 || self.led_quarter == 0) && self.led_inner == 0 {
            if self.hidden {
                seven_segment.show_all_digits();
            } else {
                seven_segment.hide_all_digits();
            }
            self.hidden = !self.hidden;
        }
        self.internal_step = self.internal_step + 1;
        if self.internal_step == SUB_STEPS {
            self.led_inner = self.led_inner + 1;
            self.internal_step = 0;
        }
        AnimationState::Running
    }

    fn cleanup(&mut self, seven_segment: &mut FilledSevenSegment, led_matrix: &mut LEDMatrix) {
        led_matrix.set_data(0xFF);
        seven_segment.show_all_digits();
    }

    fn running(&self) -> (r: bool) {
        self.led_step < WIN_ANIMATION_MAX_LED_OUTER_STEP
    }
}

/// Greets with HELO, blinking the digits and inverting the matrix.
pub struct HelloAnimation {
    pub inner_step: u8,
    pub outer_step: u8,
    pub hidden: bool,
    pub internal_step: u8,
}

impl HelloAnimation {
    pub fn create() -> (a: HelloAnimation)
        ensures
            a == (HelloAnimation { inner_step: 0, outer_step: 0, hidden: false, internal_step: 0 }),
    {
        HelloAnimation { inner_step: 0, outer_step: 0, hidden: false, internal_step: 0 }
    }
}

/// The display reading HELO, left to right from slot 3 down to slot 0.
pub open spec fn helo_view(d: DisplayView) -> DisplayView {
    set_digit_view(
        set_digit_view(set_digit_view(set_digit_view(d, 3, Some(72u8)), 2, Some(69u8)), 1, Some(76u8)),
        0,
        Some(79u8),
    )
}

impl Animation for HelloAnimation {
    open spec fn inv(&self) -> bool {
        &&& self.inner_step <= HELO_ANIMATION_MAX_INNER_STEP
        &&& self.outer_step <= HELO_ANIMATION_MAX_OUTER_STEP
        &&& (self.outer_step == HELO_ANIMATION_MAX_OUTER_STEP ==> self.inner_step < HELO_ANIMATION_MAX_INNER_STEP)
        &&& self.internal_step < SUB_STEPS
    }

    open spec fn running_spec(&self) -> bool {
        self.outer_step < HELO_ANIMATION_MAX_OUTER_STEP
    }

    /// At the very start the word is written and the matrix lit. After each
    /// blink period the matrix is inverted and the digits flip between shown and
    /// hidden; after the last one the animation ends.
    open spec fn step_spec(&self, d: DisplayView, m: MatrixView) -> (Self, DisplayView, MatrixView, AnimationState) {
        let start = self.inner_step == 0 && self.outer_step == 0;
        let d0 = if start { helo_view(d) } else { d };
        let m0 = if start { data_view(m, 0xFF) } else { m };
        let wrap = self.inner_step >= HELO_ANIMATION_MAX_INNER_STEP;
        let inner1 = if wrap { 0u8 } else { self.inner_step };
        let outer1 = if wrap { (self.outer_step + 1) as u8 } else { self.outer_step };
        let m1 = if wrap { data_view(m0, !m0.data) } else { m0 };
        let d1 = if wrap {
            if self.hidden { show_all_view(d0) } else { hide_all_view(d0) }
        } else {
            d0
        };
        let hidden1 = if wrap { !self.hidden } else { self.hidden };
        if outer1 == HELO_ANIMATION_MAX_OUTER_STEP {
            (
                HelloAnimation { inner_step: inner1, outer_step: outer1, hidden: hidden1, ..*self },
                d1,
                m1,
                AnimationState::End,
            )
        } else {
            let (inner2, fine) = divide(inner1, self.internal_step);
            (
                HelloAnimation { inner_step: inner2, outer_step: outer1, hidden: hidden1, internal_step: fine },
                d1,
                m1,
                AnimationState::Running,
            )
        }
    }

    /// Darkens the matrix and shows every digit.
    open spec fn cleanup_spec(&self, d: DisplayView, m: MatrixView) -> (DisplayView, MatrixView) {
        (show_all_view(d), data_view(m, 0))
    }

    fn step(&mut self, seven_segment: &mut FilledSevenSegment, led_matrix: &mut LEDMatrix) -> (r: AnimationState) {
        if self.inner_step == 0 && self.outer_step == 0 {
            seven_segment.set_digit(3, Some(72));  // H
            seven_segment.set_digit(2, Some(69));  // E
            seven_segment.set_digit(1, Some(76));  // L
            seven_segment.set_digit(0, Some(79));  // O
            led_matrix.set_data(0xFF);
        }
        if self.inner_step >= HELO_ANIMATION_MAX_INNER_STEP {
            self.inner_step = 0;
            self.outer_step = self.outer_step + 1;
            let matrix_data = led_matrix.data();
            led_matrix.set_data(!matrix_data);
            if self.hidden {
                seven_segment.show_all_digits();
            } else {
                seven_segment.hide_all_digits();
            }
            self.hidden = !self.hidden;
        }
        if self.outer_step == HELO_ANIMATION_MAX_OUTER_STEP {
            return AnimationState::End;
        }
        self.internal_step = self.internal_step + 1;
        if self.internal_step == SUB_STEPS {
            self.inner_step = self.inner_step + 1;
            self.internal_step = 0;
        }
        AnimationState::Running
    }

    fn cleanup(&mut self, seven_segment: &mut FilledSevenSegment, led_matrix: &mut LEDMatrix) {
        led_matrix.clear();
        seven_segment.show_all_digits();
    }

    fn running(&self) -> (r: bool) {
        self.outer_step < HELO_ANIMATION_MAX_OUTER_STEP
    }
}

} // verus!

verus! {

/// The one animation that is active: a tagged choice among the four kinds.
pub enum ActiveAnimation {
    Hello(HelloAnimation),
    Win(WinAnimation),
    Guess(GuessAnimation),
    DigitIncrement(DigitIncrementAnimation),
}

impl Animation for ActiveAnimation {
    open spec fn inv(&self) -> bool {
        match self {
            ActiveAnimation::Hello(a) => a.inv(),
            ActiveAnimation::Win(a) => a.inv(),
            ActiveAnimation::Guess(a) => a.inv(),
            ActiveAnimation::DigitIncrement(a) => a.inv(),
        }
    }

    open spec fn running_spec(&self) -> bool {
        match self {
            ActiveAnimation::Hello(a) => a.running_spec(),
            ActiveAnimation::Win(a) => a.running_spec(),
            ActiveAnimation::Guess(a) => a.running_spec(),
            ActiveAnimation::DigitIncrement(a) => a.running_spec(),
        }
    }

    open spec fn step_spec(&self, d: DisplayView, m: MatrixView) -> (Self, DisplayView, MatrixView, AnimationState) {
        match self {
            ActiveAnimation::Hello(a) => {
                let (a1, d1, m1, r) = a.step_spec(d, m);
                (ActiveAnimation::Hello(a1), d1, m1, r)
            },
            ActiveAnimation::Win(a) => {
                let (a1, d1, m1, r) = a.step_spec(d, m);
                (ActiveAnimation::Win(a1), d1, m1, r)
            },
            ActiveAnimation::Guess(a) => {
                let (a1, d1, m1, r) = a.step_spec(d, m);
                (ActiveAnimation::Guess(a1), d1, m1, r)
            },
            ActiveAnimation::DigitIncrement(a) => {
                let (a1, d1, m1, r) = a.step_spec(d, m);
                (ActiveAnimation::DigitIncrement(a1), d1, m1, r)
            },
        }
    }

    open spec fn cleanup_spec(&self, d: DisplayView, m: MatrixView) -> (DisplayView, MatrixView) {
        match self {
            ActiveAnimation::Hello(a) => a.cleanup_spec(d, m),
            ActiveAnimation::Win(a) => a.cleanup_spec(d, m),
            ActiveAnimation::Guess(a) => a.cleanup_spec(d, m),
            ActiveAnimation::DigitIncrement(a) => a.cleanup_spec(d, m),
        }
    }

    fn step(&mut self, seven_segment: &mut FilledSevenSegment, led_matrix: &mut LEDMatrix) -> (r: AnimationState) {
        match self {
            ActiveAnimation::Hello(a) => a.step(seven_segment, led_matrix),
            ActiveAnimation::Win(a) => a.step(seven_segment, led_matrix),
            ActiveAnimation::Guess(a) => a.step(seven_segment, led_matrix),
            ActiveAnimation::DigitIncrement(a) => a.step(seven_segment, led_matrix),
        }
    }

    fn cleanup(&mut self, seven_segment: &mut FilledSevenSegment, led_matrix: &mut LEDMatrix) {
        match self {
            ActiveAnimation::Hello(a) => a.cleanup(seven_segment, led_matrix),
            ActiveAnimation::Win(a) => a.cleanup(seven_segment, led_matrix),
            ActiveAnimation::Guess(a) => a.cleanup(seven_segment, led_matrix),
            ActiveAnimation::DigitIncrement(a) => a.cleanup(seven_segment, led_matrix),
        }
    }

    fn running(&self) -> (r: bool) {
        match self {
            ActiveAnimation::Hello(a) => a.running(),
            ActiveAnimation::Win(a) => a.running(),
            ActiveAnimation::Guess(a) => a.running(),
            ActiveAnimation::DigitIncrement(a) => a.running(),
        }
    }
}

/// Cleaning up twice leaves the display and the matrix as cleaning up once.
pub proof fn lemma_cleanup_idempotent(a: ActiveAnimation, d: DisplayView, m: MatrixView)
    ensures
        a.cleanup_spec(a.cleanup_spec(d, m).0, a.cleanup_spec(d, m).1) == a.cleanup_spec(d, m),
{
    if let ActiveAnimation::DigitIncrement(b) = a {
        let i = b.digit_index as int;
        if 0 <= i < 4 {
            let bit = 1u8 << (i as u8);
            let h = d.hide;
            assert((h & !bit) & !bit == h & !bit) by (bit_vector);
        }
    }
}

/// Steps of a freshly started win animation, however many, leave the winning
/// number in the slots; a cleanup after them shows all of it, unhidden, with
/// the whole matrix lit.
pub proof fn lemma_win_ends_on_number(number: [u8; 4], d: DisplayView, m: MatrixView, n: nat)
    requires
        n >= 1,
    ensures
        ({
            let a = WinAnimation {
                number,
                led_step: 0,
                led_quarter: 0,
                led_inner: 0,
                hidden: true,
                internal_step: 0,
            };
            let (a1, d1, m1) = run_animation(a, d, m, n);
            let (d2, m2) = a1.cleanup_spec(d1, m1);
            &&& d1.digits == seq![Some(number[0]), Some(number[1]), Some(number[2]), Some(number[3])]
            &&& d2.digits == d1.digits
            &&& d2.hide == 0
            &&& m2.data == 0xFF
        }),
    decreases n,
{
    let a = WinAnimation { number, led_step: 0, led_quarter: 0, led_inner: 0, hidden: true, internal_step: 0 };
    if n > 1 {
        lemma_win_ends_on_number(number, d, m, (n - 1) as nat);
        lemma_win_keeps_number(a, d, m, (n - 1) as nat);
        let (a1, d1, m1) = run_animation(a, d, m, (n - 1) as nat);
        lemma_win_step_keeps_digits(a1, d1, m1);
    } else {
        let (a0, d0, m0) = run_animation(a, d, m, 0);
        assert(a0 == a && d0 == d && m0 == m);
    }
}

proof fn lemma_win_step_keeps_digits(a: WinAnimation, d: DisplayView, m: MatrixView)
    requires
        d.digits == set_number_view(d, a.number@).digits,
    ensures
        a.step_spec(d, m).1.digits == d.digits,
{
}

proof fn lemma_win_keeps_number(a: WinAnimation, d: DisplayView, m: MatrixView, n: nat)
    ensures
        run_animation(a, d, m, n).0.number == a.number,
    decreases n,
{
    if n > 0 {
        lemma_win_keeps_number(a, d, m, (n - 1) as nat);
    }
}

} // verus!

verus! {

/// A started guess flash counts one coarse tick per `SUB_STEPS` steps, so it
/// runs for exactly `GUESS_ANIMATION_MAX_STEP * SUB_STEPS` steps.
pub proof fn lemma_guess_duration(d: DisplayView, m: MatrixView, k: nat)
    requires
        k <= GUESS_ANIMATION_MAX_STEP * SUB_STEPS,
    ensures
        run_animation(GuessAnimation { step: 0, internal_step: 0 }, d, m, k).0 == (GuessAnimation {
            step: (k / 255) as u8,
            internal_step: (k % 255) as u8,
        }),
        run_animation(GuessAnimation { step: 0, internal_step: 0 }, d, m, k).0.running_spec() == (k
            < GUESS_ANIMATION_MAX_STEP * SUB_STEPS),
    decreases k,
{
    if k > 0 {
        lemma_guess_duration(d, m, (k - 1) as nat);
    }
}

/// A started digit flash counts one coarse tick per `SUB_STEPS` steps, so it
/// runs for exactly `DIGIT_INCREMENT_ANIMATION_MAX_STEP * SUB_STEPS` steps.
pub proof fn lemma_digit_increment_duration(digit_index: usize, d: DisplayView, m: MatrixView, k: nat)
    requires
        k <= DIGIT_INCREMENT_ANIMATION_MAX_STEP * SUB_STEPS,
    ensures
        run_animation(DigitIncrementAnimation { digit_index, step: 0, internal_step: 0 }, d, m, k).0 == (
        DigitIncrementAnimation { digit_index, step: (k / 255) as u8, internal_step: (k % 255) as u8 }),
        run_animation(DigitIncrementAnimation { digit_index, step: 0, internal_step: 0 }, d, m, k).0.running_spec()
            == (k < DIGIT_INCREMENT_ANIMATION_MAX_STEP * SUB_STEPS),
    decreases k,
{
    if k > 0 {
        lemma_digit_increment_duration(digit_index, d, m, (k - 1) as nat);
    }
}

} // verus!
