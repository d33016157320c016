use vstd::prelude::*;
use crate::animation::{
    ActiveAnimation, Animation, AnimationState, DigitIncrementAnimation, GuessAnimation, WinAnimation,
};
use crate::button::{Button, ButtonState, ButtonView, button_tick, button_wf, raw_active, state_of};
use crate::filled_seven_segment::{DisplayView, FilledSevenSegment, display_step, display_wf, set_number_view};
use crate::led_matrix::{LEDMatrix, MatrixView, data_view, matrix_step, matrix_wf, set_view};
use crate::rng::{Rng, RngView, rng_round};

verus! {

/// Digits of a number.
pub const DIGITS: usize = 4;

/// Matrix row that marks digits in the right place.
pub const LED_MATRIX_CORRECT_ROW: u8 = 0;

/// Matrix row that marks digits that occur elsewhere in the secret.
pub const LED_MATRIX_INCORRECT_POSITION_ROW: u8 = 1;

/// Control-loop ticks per matrix scan step, less one.
pub const MATRIX_DIVIDER: u8 = 50;

#[derive(Clone, Copy, Debug, PartialEq, Eq, Structural)]
pub enum GameState {
    Start,
    Play,
    Won,
}

/// What a game is: its outputs, its phase, the secret and the current guess as
/// digit sequences (slot `i` is digit `i`), the active animation, the
/// generator, the four digit buttons, the confirm button and the matrix divider.
pub struct GameView {
    pub display: DisplayView,
    pub matrix: MatrixView,
    pub state: GameState,
    pub guessing: Option<[u8; 4]>,
    pub current: Option<Seq<u8>>,
    pub animation: Option<ActiveAnimation>,
    pub rng: RngView,
    pub buttons: Seq<ButtonView>,
    pub confirm: ButtonView,
    pub divider: u8,
}

pub open spec fn digits_valid(n: Seq<u8>) -> bool {
    n.len() == 4 && forall|i: int| 0 <= i < 4 ==> #[trigger] n[i] < 10
}

pub open spec fn game_wf(g: GameView) -> bool {
    &&& display_wf(g.display)
    &&& matrix_wf(g.matrix)
    &&& g.buttons.len() == 4
    &&& forall|i: int| 0 <= i < 4 ==> button_wf(#[trigger] g.buttons[i])
    &&& button_wf(g.confirm)
    &&& (g.animation is Some ==> g.animation->Some_0.inv())
    &&& (g.state == GameState::Play ==> g.guessing is Some && g.current is Some && digits_valid(
        g.current->Some_0,
    ))
    &&& (g.current is Some ==> g.current->Some_0.len() == 4)
    &&& g.divider <= MATRIX_DIVIDER
}

/// The game after the active animation, if any, has cleaned up (it stays active).
pub open spec fn cleaned(g: GameView) -> GameView {
    match g.animation {
        Some(a) => {
            let (d, m) = a.cleanup_spec(g.display, g.matrix);
            GameView { display: d, matrix: m, ..g }
        },
        None => g,
    }
}

/// Replacing the active animation: the outgoing one cleans up first.
pub open spec fn replace_animation(g: GameView, a: ActiveAnimation) -> GameView {
    GameView { animation: Some(a), ..cleaned(g) }
}

pub open spec fn any_pressed(g: GameView) -> bool {
    (exists|i: int| 0 <= i < 4 && state_of(#[trigger] g.buttons[i]) == ButtonState::Pressed) || state_of(g.confirm)
        == ButtonState::Pressed
}

/// A digit counts up, wrapping from 9 to 0.
pub open spec fn next_digit(d: u8) -> u8 {
    if d + 1 == 10 { 0 } else { (d + 1) as u8 }
}

/// The game after digit `i` of the guess counts up; the display shows the new guess.
pub open spec fn increased(g: GameView, i: int) -> GameView {
    let cur = g.current->Some_0;
    let n = cur.update(i, next_digit(cur[i]));
    GameView { current: Some(n), display: set_number_view(g.display, n), ..g }
}

/// Digit `i` of the guess occurs at another position of the secret that the
/// guess does not already match.
pub open spec fn misplaced_at(cur: Seq<u8>, guess: Seq<u8>, i: int) -> bool {
    exists|j: int| 0 <= j < 4 && j != i && cur[j] != guess[j] && #[trigger] guess[j] == cur[i]
}

/// The feedback for digits `0..k` drawn on `m`: column `i` lit in the correct
/// row when digit `i` is right, and in the misplaced row when it is misplaced.
pub open spec fn feedback_view(m: MatrixView, cur: Seq<u8>, guess: Seq<u8>, k: int) -> MatrixView
    decreases k,
{
    if k <= 0 {
        m
    } else {
        let m1 = feedback_view(m, cur, guess, k - 1);
        let m2 = if cur[k - 1] == guess[k - 1] {
            set_view(m1, k - 1, LED_MATRIX_CORRECT_ROW as int, true)
        } else {
            m1
        };
        if misplaced_at(cur, guess, k - 1) {
            set_view(m2, k - 1, LED_MATRIX_INCORRECT_POSITION_ROW as int, true)
        } else {
            m2
        }
    }
}

/// `k` rounds of the generator.
pub open spec fn rng_rounds(r: RngView, k: nat) -> RngView
    decreases k,
{
    if k == 0 {
        r
    } else {
        rng_round(rng_rounds(r, (k - 1) as nat))
    }
}

/// A new game: the active animation cleans up and goes, the secret is four
/// draws of the generator modulo ten, the guess starts at 0000 and is shown,
/// and the matrix is dark.
pub open spec fn start_game(g: GameView) -> GameView {
    let g1 = GameView { animation: None, ..cleaned(g) };
    let secret = [
        (rng_rounds(g.rng, 1).c % 10) as u8,
        (rng_rounds(g.rng, 2).c % 10) as u8,
        (rng_rounds(g.rng, 3).c % 10) as u8,
        (rng_rounds(g.rng, 4).c % 10) as u8,
    ];
    let cur = seq![0u8, 0u8, 0u8, 0u8];
    GameView {
        guessing: Some(secret),
        current: Some(cur),
        display: set_number_view(g1.display, cur),
        matrix: data_view(g1.matrix, 0),
        state: GameState::Play,
        rng: rng_rounds(g.rng, 4),
        ..g1
    }
}

/// The game won: the win animation starts on the secret and the numbers are forgotten.
pub open spec fn end_game(g: GameView) -> GameView {
    let win = WinAnimation {
        number: g.guessing->Some_0,
        led_step: 0,
        led_quarter: 0,
        led_inner: 0,
        hidden: true,
        internal_step: 0,
    };
    GameView { guessing: None, current: None, state: GameState::Won, ..replace_animation(g, ActiveAnimation::Win(win)) }
}

/// Which digit buttons read as just pressed.
pub open spec fn pressed_digits(g: GameView) -> Seq<bool> {
    Seq::new(4, |i: int| state_of(g.buttons[i]) == ButtonState::Pressed)
}

/// Handling digit buttons `0..k`: button `i` counts digit `3 - i` up and starts
/// that digit's flash.
pub open spec fn press_digits(g: GameView, pressed: Seq<bool>, k: int) -> GameView
    decreases k,
{
    if k <= 0 {
        g
    } else {
        let g1 = press_digits(g, pressed, k - 1);
        if pressed[k - 1] {
            let index = 3 - (k - 1);
            replace_animation(
                increased(g1, index),
                ActiveAnimation::DigitIncrement(
                    DigitIncrementAnimation { digit_index: index as usize, step: 0, internal_step: 0 },
                ),
            )
        } else {
            g1
        }
    }
}

/// One decision of the game. Before a game and after a win, any press starts a
/// new game. In play, confirming the secret wins; confirming anything else
/// draws the feedback and flashes the digits; then each pressed digit button
/// counts its digit up.
pub open spec fn game_step(g: GameView) -> GameView {
    if g.state == GameState::Play {
        let confirmed = state_of(g.confirm) == ButtonState::Pressed;
        let cur = g.current->Some_0;
        let guess = g.guessing->Some_0@;
        if confirmed && cur == guess {
            end_game(g)
        } else {
            let g1 = if confirmed {
                replace_animation(
                    GameView { matrix: feedback_view(data_view(g.matrix, 0), cur, guess, 4), ..g },
                    ActiveAnimation::Guess(GuessAnimation { step: 0, internal_step: 0 }),
                )
            } else {
                g
            };
            press_digits(g1, pressed_digits(g), 4)
        }
    } else if any_pressed(g) {
        start_game(g)
    } else {
        g
    }
}

/// The outputs' and buttons' part of a tick: a display step, a matrix step on
/// every `MATRIX_DIVIDER + 1`-th tick, and one tick of each button given
/// whether its input reads low.
pub open spec fn scan_and_sample(g: GameView, inputs: Seq<bool>, confirm_low: bool) -> GameView {
    let div = g.divider + 1;
    GameView {
        display: display_step(g.display).0,
        matrix: if div > MATRIX_DIVIDER { matrix_step(g.matrix).0 } else { g.matrix },
        divider: if div > MATRIX_DIVIDER { 0u8 } else { div as u8 },
        buttons: Seq::new(
            4,
            |i: int| button_tick(g.buttons[i], raw_active(g.buttons[i].active_high, inputs[i])),
        ),
        confirm: button_tick(g.confirm, raw_active(g.confirm.active_high, confirm_low)),
        ..g
    }
}

/// The animation's part of a tick: a running animation steps, and one that has
/// ended or stopped running cleans up and goes.
pub open spec fn animate(g: GameView) -> GameView {
    match g.animation {
        Some(a) => {
            if a.running_spec() {
                let (a1, d1, m1, r) = a.step_spec(g.display, g.matrix);
                if r == AnimationState::End {
                    let (d2, m2) = a1.cleanup_spec(d1, m1);
                    GameView { display: d2, matrix: m2, animation: None, ..g }
                } else {
                    GameView { display: d1, matrix: m1, animation: Some(a1), ..g }
                }
            } else {
                let (d2, m2) = a.cleanup_spec(g.display, g.matrix);
                GameView { display: d2, matrix: m2, animation: None, ..g }
            }
        },
        None => g,
    }
}

/// The game layer of the appliance: it owns the outputs, the buttons and the
/// one active animation, and runs the control loop's work one tick at a time.
pub struct Game {
    seven_segment: FilledSevenSegment,
    led_matrix: LEDMatrix,
    state: GameState,
    guessing_number: Option<[u8; 4]>,
    current_number: Option<[u8; 4]>,
    animation: Option<ActiveAnimation>,
    rng: Rng,
    buttons: [Button; 4],
    confirm: Button,
    matrix_divider: u8,
}

impl View for Game {
    type V = GameView;

    closed spec fn view(&self) -> GameView {
        GameView {
            display: self.seven_segment@,
            matrix: self.led_matrix@,
            state: self.state,
            guessing: self.guessing_number,
            current: match self.current_number {
                Some(c) => Some(c@),
                None => None,
            },
            animation: self.animation,
            rng: self.rng@,
            buttons: self.buttons@.map_values(|b: Button| b@),
            confirm: self.confirm@,
            divider: self.matrix_divider,
        }
    }
}

impl Game {
    pub open spec fn wf(&self) -> bool {
        game_wf(self@)
    }

    /// A game waiting for its first press, with no animation. The feedback uses
    /// matrix column `i` for digit `i`, row 0 for right digits and row 1 for
    /// misplaced ones.
    pub fn create(
        seven_segment: FilledSevenSegment,
        led_matrix: LEDMatrix,
        rng: Rng,
        buttons: [Button; 4],
        confirm: Button,
    ) -> (g: Game)
        requires
            seven_segment.wf(),
            led_matrix.wf(),
            forall|i: int| 0 <= i < 4 ==> (#[trigger] buttons[i]).wf(),
            confirm.wf(),
        ensures
            g.wf(),
            g@ == (GameView {
                display: seven_segment@,
                matrix: led_matrix@,
                state: GameState::Start,
                guessing: None,
                current: None,
                animation: None,
                rng: rng@,
                buttons: buttons@.map_values(|b: Button| b@),
                confirm: confirm@,
                divider: 0,
            }),
    {
        let g = Game {
            seven_segment,
            led_matrix,
            state: GameState::Start,
            guessing_number: None,
            current_number: None,
            animation: None,
            rng,
            buttons,
            confirm,
            matrix_divider: 0,
        };
        assert forall|i: int| 0 <= i < 4 implies button_wf(#[trigger] g@.buttons[i]) by {
            assert(buttons[i].wf());
        }
        g
    }

    /// Makes `animation` the active one; the outgoing animation cleans up first.
    pub fn set_animation(&mut self, animation: ActiveAnimation)
        requires
            old(self).wf(),
            animation.inv(),
        ensures
            final(self).wf(),
            final(self)@ == replace_animation(old(self)@, animation),
    {
        if let Some(current_animation) = &mut self.animation {
            current_animation.cleanup(&mut self.seven_segment, &mut self.led_matrix);
        }
        self.animation = Some(animation);
    }

    fn cleanup_current_game(&mut self)
        ensures
            final(self)@ == (GameView { guessing: None, current: None, ..old(self)@ }),
    {
        self.guessing_number = None;
        self.current_number = None;
    }

    fn any_button_pressed(&self) -> (r: bool)
        requires
            self.wf(),
        ensures
            r == any_pressed(self@),
    {
        let mut i: usize = 0;
        while i < DIGITS
            invariant
                i <= 4,
                self.wf(),
                forall|k: int| 0 <= k < i ==> state_of(#[trigger] self@.buttons[k]) != ButtonState::Pressed,
            decreases 4 - i,
        {
            if self.buttons[i].state() == ButtonState::Pressed {
                assert(self@.buttons[i as int] == self.buttons[i as int]@);
                return true;
            }
            i = i + 1;
        }
        self.confirm.state() == ButtonState::Pressed
    }

    fn increase_digit(&mut self, digit_index: usize)
        requires
            old(self).wf(),
            old(self)@.state == GameState::Play,
            digit_index < 4,
        ensures
            final(self).wf(),
            final(self)@ == increased(old(self)@, digit_index as int),
    {
        let mut current_number = self.current_number.unwrap();
        let mut current_digit = current_number[digit_index];
        current_digit = current_digit + 1;
        if current_digit == 10 {
            current_digit = 0;
        }
        current_number[digit_index] = current_digit;
        self.current_number = Some(current_number);
        self.seven_segment.set_number(current_number);
        assert(self@.current->Some_0 =~= old(self)@.current->Some_0.update(
            digit_index as int,
            next_digit(old(self)@.current->Some_0[digit_index as int]),
        ));
    }

    fn update_led_matrix(&mut self)
        requires
            old(self).wf(),
            old(self)@.state == GameState::Play,
        ensures
            final(self).wf(),
            final(self)@ == (GameView {
                matrix: feedback_view(
                    data_view(old(self)@.matrix, 0),
                    old(self)@.current->Some_0,
                    old(self)@.guessing->Some_0@,
                    4,
                ),
                ..old(self)@
            }),
    {
        self.led_matrix.clear();
        let ghost cleared = self.led_matrix@;
        let current_digits = self.current_number.unwrap();
        let guessing_digits = self.guessing_number.unwrap();
        let ghost cur = current_digits@;
        let ghost guess = guessing_digits@;
        let mut i: usize = 0;
        while i < DIGITS
            invariant
                i <= 4,
                self.wf(),
                self@ == (GameView { matrix: self@.matrix, ..old(self)@ }),
                cur == old(self)@.current->Some_0,
                guess == old(self)@.guessing->Some_0@,
                cur == current_digits@,
                guess == guessing_digits@,
                self@.matrix == feedback_view(cleared, cur, guess, i as int),
            decreases 4 - i,
        {
            if current_digits[i] == guessing_digits[i] {
                self.led_matrix.set(i as u8, LED_MATRIX_CORRECT_ROW, true);
            }
            let mut misplaced = false;
            let mut j: usize = 0;
            while j < DIGITS
                invariant
                    i < 4,
                    j <= 4,
                    cur == current_digits@,
                    guess == guessing_digits@,
                    misplaced == exists|jj: int|
                        0 <= jj < j && jj != i && cur[jj] != guess[jj] && #[trigger] guess[jj] == cur[i as int],
                decreases 4 - j,
            {
                if i != j && current_digits[j] != guessing_digits[j] && current_digits[i] == guessing_digits[j] {
                    misplaced = true;
                }
                j = j + 1;
            }
            if misplaced {
                self.led_matrix.set(i as u8, LED_MATRIX_INCORRECT_POSITION_ROW, true);
            }
            i = i + 1;
        }
    }

    fn numbers_match(current: [u8; 4], guessing: [u8; 4]) -> (r: bool)
        ensures
            r == (current@ == guessing@),
    {
        let r = current[0] == guessing[0] && current[1] == guessing[1] && current[2] == guessing[2] && current[3]
            == guessing[3];
        if r {
            assert(current@ =~= guessing@);
        } else {
            assert(exists|i: int| 0 <= i < 4 && current@[i] != guessing@[i]);
        }
        r
    }

    fn start_new_game(&mut self)
        requires
            old(self).wf(),
        ensures
            final(self).wf(),
            final(self)@ == start_game(old(self)@),
    {
        if let Some(animation) = &mut self.animation {
            animation.cleanup(&mut self.seven_segment, &mut self.led_matrix);
        }
        self.animation = None;
        let guessing_number = Self::draw_secret(&mut self.rng);
        let current_number: [u8; 4] = [0, 0, 0, 0];
        self.guessing_number = Some(guessing_number);
        self.current_number = Some(current_number);
        self.seven_segment.set_number(current_number);
        self.led_matrix.clear();
        self.state = GameState::Play;
        assert(self@.current->Some_0 =~= seq![0u8, 0u8, 0u8, 0u8]);
    }

    fn draw_secret(rng: &mut Rng) -> (n: [u8; 4])
        ensures
            n == [
                (rng_rounds(old(rng)@, 1).c % 10) as u8,
                (rng_rounds(old(rng)@, 2).c % 10) as u8,
                (rng_rounds(old(rng)@, 3).c % 10) as u8,
                (rng_rounds(old(rng)@, 4).c % 10) as u8,
            ],
            final(rng)@ == rng_rounds(old(rng)@, 4),
    {
        let d0 = rng.take_u8() % 10;
        let d1 = rng.take_u8() % 10;
        let d2 = rng.take_u8() % 10;
        let d3 = rng.take_u8() % 10;
        assert(rng_rounds(old(rng)@, 1) == rng_round(old(rng)@)) by {
            assert(rng_rounds(old(rng)@, 0) == old(rng)@);
        }
        [d0, d1, d2, d3]
    }

    fn end_current_game(&mut self)
        requires
            old(self).wf(),
            old(self)@.state == GameState::Play,
        ensures
            final(self).wf(),
            final(self)@ == end_game(old(self)@),
    {
        let number = self.guessing_number.unwrap();
        self.set_animation(ActiveAnimation::Win(WinAnimation::create(number)));
        self.cleanup_current_game();
        self.state = GameState::Won;
    }

    /// One decision of the game on the buttons' current states.
    pub fn step(&mut self)
        requires
            old(self).wf(),
        ensures
            final(self).wf(),
            final(self)@ == game_step(old(self)@),
    {
        if self.state != GameState::Play {
            if self.any_button_pressed() {
                self.start_new_game();
            }
            return;
        }
        if self.confirm.state() == ButtonState::Pressed {
            if Self::numbers_match(self.current_number.unwrap(), self.guessing_number.unwrap()) {
                self.end_current_game();
                return;
            }
            self.update_led_matrix();
            self.set_animation(ActiveAnimation::Guess(GuessAnimation::create()));
        }
        let ghost g1 = self@;
        let ghost pressed = pressed_digits(old(self)@);
        let mut btns_pressed: [bool; 4] = [false, false, false, false];
        let mut i: usize = 0;
        while i < DIGITS
            invariant
                i <= 4,
                self@ == g1,
                self.wf(),
                g1.buttons == old(self)@.buttons,
                btns_pressed@.len() == 4,
                pressed == pressed_digits(old(self)@),
                pressed.len() == 4,
                forall|k: int| 0 <= k < i ==> btns_pressed@[k] == pressed[k],
            decreases 4 - i,
        {
            assert(self@.buttons[i as int] == self.buttons@[i as int]@);
            btns_pressed[i] = self.buttons[i].state() == ButtonState::Pressed;
            i = i + 1;
        }
        let mut i: usize = 0;
        while i < DIGITS
            invariant
                i <= 4,
                self.wf(),
                self@.state == GameState::Play,
                pressed.len() == 4,
                btns_pressed@.len() == 4,
                forall|k: int| 0 <= k < 4 ==> btns_pressed@[k] == pressed[k],
                self@ == press_digits(g1, pressed, i as int),
            decreases 4 - i,
        {
            if btns_pressed[i] {
                let digit_index = DIGITS - 1 - i;
                self.increase_digit(digit_index);
                self.set_animation(ActiveAnimation::DigitIncrement(DigitIncrementAnimation::create(digit_index)));
            }
            i = i + 1;
        }
    }

    fn step_animation(&mut self)
        requires
            old(self).wf(),
        ensures
            final(self).wf(),
            final(self)@ == animate(old(self)@),
    {
        let mut ended = false;
        if let Some(animation) = &mut self.animation {
            if animation.running() {
                let state = animation.step(&mut self.seven_segment, &mut self.led_matrix);
                if state == AnimationState::End {
                    animation.cleanup(&mut self.seven_segment, &mut self.led_matrix);
                    ended = true;
                }
            } else {
                animation.cleanup(&mut self.seven_segment, &mut self.led_matrix);
                ended = true;
            }
        }
        if ended {
            self.animation = None;
        }
    }

    /// One tick of the control loop: scan the outputs, sample the buttons
    /// (`inputs[i]` and `confirm_low` tell whether each input reads low), run
    /// the active animation, then let the game decide.
    pub fn tick(&mut self, inputs: [bool; 4], confirm_low: bool)
        requires
            old(self).wf(),
        ensures
            final(self).wf(),
            final(self)@ == game_step(animate(scan_and_sample(old(self)@, inputs@, confirm_low))),
    {
        self.matrix_divider = self.matrix_divider + 1;
        self.seven_segment.step();
        if self.matrix_divider > MATRIX_DIVIDER {
            self.led_matrix.step();
            self.matrix_divider = 0;
        }
        let ghost before = self@;
        let mut i: usize = 0;
        while i < DIGITS
            invariant
                i <= 4,
                self@ == (GameView { buttons: self@.buttons, ..before }),
                self@.buttons.len() == 4,
                forall|k: int| 0 <= k < 4 ==> button_wf(#[trigger] self@.buttons[k]),
                forall|k: int|
                    0 <= k < i ==> #[trigger] self@.buttons[k] == button_tick(
                        old(self)@.buttons[k],
                        raw_active(old(self)@.buttons[k].active_high, inputs[k]),
                    ),
                forall|k: int| i <= k < 4 ==> #[trigger] self@.buttons[k] == old(self)@.buttons[k],
                game_wf(old(self)@),
            decreases 4 - i,
        {
            let ghost prev = self@;
            let mut b = self.buttons[i];
            assert(b@ == self@.buttons[i as int]);
            b.step(inputs[i]);
            self.buttons[i] = b;
            assert forall|k: int| 0 <= k < 4 implies #[trigger] self@.buttons[k] == if k == i {
                b@
            } else {
                prev.buttons[k]
            } by {
                assert(self@.buttons[k] == self.buttons@[k]@);
            }
            i = i + 1;
        }
        self.confirm.step(confirm_low);
        assert(self@.buttons =~= scan_and_sample(old(self)@, inputs@, confirm_low).buttons);
        assert(self@ == scan_and_sample(old(self)@, inputs@, confirm_low));
        self.step_animation();
        self.step();
    }

    /// The guess being edited, while a game is in play.
    pub fn current_number(&self) -> (r: Option<[u8; 4]>)
        ensures
            r is Some <==> self@.current is Some,
            r is Some ==> r->Some_0@ == self@.current->Some_0,
    {
        self.current_number
    }

    pub fn seven_segment(&self) -> (d: &FilledSevenSegment)
        ensures
            d@ == self@.display,
    {
        &self.seven_segment
    }

    pub fn led_matrix(&self) -> (m: &LEDMatrix)
        ensures
            m@ == self@.matrix,
    {
        &self.led_matrix
    }

    pub fn state(&self) -> (s: GameState)
        ensures
            s == self@.state,
    {
        self.state
    }

    /// Hands out the display transport's recorded line writes and forgets them.
    pub fn take_display_writes(&mut self) -> (w: Vec<crate::sipo::LineWrite>)
        requires
            old(self).wf(),
        ensures
            final(self).wf(),
            w@ == old(self)@.display.pusher.writes,
            final(self)@ == (GameView {
                display: DisplayView {
                    pusher: crate::filled_sipo::PusherView { writes: Seq::empty(), ..old(self)@.display.pusher },
                    ..old(self)@.display
                },
                ..old(self)@
            }),
    {
        self.seven_segment.take_writes()
    }

    /// Hands out the matrix's recorded line writes and forgets them.
    pub fn take_matrix_writes(&mut self) -> (w: Vec<crate::led_matrix::MatrixWrite>)
        requires
            old(self).wf(),
        ensures
            final(self).wf(),
            w@ == old(self)@.matrix.writes,
            final(self)@ == (GameView { matrix: MatrixView { writes: Seq::empty(), ..old(self)@.matrix }, ..old(self)@ }),
    {
        self.led_matrix.take_writes()
    }
}

} // verus!
