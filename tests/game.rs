use guessbox::{
    seeds_or_default, ActiveAnimation, Button, FilledSevenSegment, FilledSipo, Game, GameState, HelloAnimation,
    LEDMatrix, Rng, Sipo, SevenSegment,
};

fn new_game() -> Game {
    let display = FilledSevenSegment::create(SevenSegment::create(4, true, false), FilledSipo::create(Sipo::create()));
    let mut matrix = LEDMatrix::create(4, 2);
    for _ in 0..4 {
        matrix.add_anode();
    }
    matrix.add_cathode();
    matrix.add_cathode();
    let buttons = [Button::create(false), Button::create(false), Button::create(false), Button::create(false)];
    let mut g = Game::create(display, matrix, Rng::init(125, 139, 45), buttons, Button::create(false));
    g.set_animation(ActiveAnimation::Hello(HelloAnimation::create()));
    g
}

fn secret() -> [u8; 4] {
    let mut r = Rng::init(125, 139, 45);
    [r.take_u8() % 10, r.take_u8() % 10, r.take_u8() % 10, r.take_u8() % 10]
}

/// Holds the digit buttons and the confirm button for `n` ticks (pressed reads low).
fn hold(g: &mut Game, digits: [bool; 4], confirm: bool, n: usize) {
    for _ in 0..n {
        g.tick(digits, confirm);
        g.take_display_writes();
        g.take_matrix_writes();
    }
}

fn press(g: &mut Game, digits: [bool; 4], confirm: bool) {
    hold(g, digits, confirm, 50);
    hold(g, [false; 4], false, 50);
}

#[test]
fn seeds_fall_back_when_store_is_blank() {
    assert_eq!(seeds_or_default([0, 0, 0]), [125, 139, 45]);
    assert_eq!(seeds_or_default([0, 0, 1]), [0, 0, 1]);
}

#[test]
fn rng_is_deterministic_per_seed() {
    let mut a = Rng::init(1, 2, 3);
    let mut b = Rng::init(1, 2, 3);
    let x = a.take_u16();
    let hi = b.take_u8() as u16;
    let lo = b.take_u8() as u16;
    assert_eq!(x, hi << 8 | lo);
    // init: x = 1, a = 1 ^ 3 ^ 1 = 3, b = 2 + 3 = 5, c = (3 + (5 >> 1)) ^ 3 = 6
    let mut c = Rng::init(1, 2, 3);
    assert_eq!(c.take_u8(), {
        // round two: x = 2, a = 3 ^ 6 ^ 2 = 7, b = 5 + 7 = 12, c = (6 + 6) ^ 7 = 11
        11
    });
}

#[test]
fn game_starts_on_any_press() {
    let mut g = new_game();
    hold(&mut g, [false; 4], false, 10);
    assert!(g.state() == GameState::Start);
    hold(&mut g, [false; 4], true, 50);
    assert!(g.state() == GameState::Play);
    assert_eq!(g.current_number(), Some([0, 0, 0, 0]));
    assert_eq!(g.led_matrix().data(), 0);
    assert!((0..4).all(|i| g.seven_segment().digit(i) == Some(0)));
}

#[test]
fn digit_button_counts_its_digit_up() {
    let mut g = new_game();
    press(&mut g, [false; 4], true);
    press(&mut g, [true, false, false, false], false);
    assert_eq!(g.current_number(), Some([0, 0, 0, 1]));
    assert!(g.seven_segment().is_hidden(3));
    press(&mut g, [false, false, false, true], false);
    assert_eq!(g.current_number(), Some([1, 0, 0, 1]));
    assert_eq!(g.seven_segment().digit(0), Some(1));
    for _ in 0..9 {
        press(&mut g, [false, false, false, true], false);
    }
    assert_eq!(g.current_number(), Some([0, 0, 0, 1]));
}

#[test]
fn wrong_guess_draws_feedback() {
    let s = secret();
    let mut g = new_game();
    press(&mut g, [false; 4], true);
    let cur = [0u8, 0, 0, 0];
    if cur == s {
        return;
    }
    hold(&mut g, [false; 4], true, 50);
    let mut expected = 0u8;
    for i in 0..4 {
        if cur[i] == s[i] {
            expected |= 1 << i;
        }
        if (0..4).any(|j| j != i && cur[j] != s[j] && cur[i] == s[j]) {
            expected |= 1 << (4 + i);
        }
    }
    assert!(g.state() == GameState::Play);
    assert_eq!(g.led_matrix().data(), expected);
    // the flash starts on the next tick, when the animation first runs
    hold(&mut g, [false; 4], true, 1);
    assert!((0..4).all(|i| g.seven_segment().is_hidden(i)));
}

#[test]
fn right_guess_wins() {
    let s = secret();
    let mut g = new_game();
    press(&mut g, [false; 4], true);
    for slot in 0..4 {
        // button i counts digit 3 - i
        let mut buttons = [false; 4];
        buttons[3 - slot] = true;
        for _ in 0..s[slot] {
            press(&mut g, buttons, false);
        }
    }
    assert_eq!(g.current_number(), Some(s));
    hold(&mut g, [false; 4], true, 50);
    assert!(g.state() == GameState::Won);
    assert_eq!(g.current_number(), None);
    assert!((0..4).all(|i| g.seven_segment().digit(i) == Some(s[i])));
}
