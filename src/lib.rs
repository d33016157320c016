//! Multiplexed output and debounced input for a small number-guessing appliance:
//! a shift-register transport, a seven-segment encoder and display multiplexer,
//! a row-scanned LED matrix, self-terminating animations and button gestures.
//!
//! Every component is a state machine over plain values. Pin activity is not
//! performed here: each output component records the exact line writes it makes,
//! in order, and the hardware layer replays them on the real lines.

pub mod sipo;
pub mod filled_sipo;
pub mod seven_segment;
pub mod filled_seven_segment;
pub mod led_matrix;
pub mod button;
pub mod rng;
pub mod animation;
pub mod game;

pub use sipo::{Line, LineWrite, Sipo};
pub use filled_sipo::FilledSipo;
pub use seven_segment::SevenSegment;
pub use filled_seven_segment::FilledSevenSegment;
pub use led_matrix::{LEDMatrix, MatrixLine, MatrixWrite};
pub use button::{Button, ButtonEvent, ButtonState};
pub use rng::{Rng, seeds_or_default};
pub use animation::{
    ActiveAnimation, Animation, AnimationState, DigitIncrementAnimation, GuessAnimation, HelloAnimation,
    WinAnimation,
};
pub use game::{Game, GameState};
