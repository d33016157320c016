use guessbox::{
    ActiveAnimation, Animation, AnimationState, DigitIncrementAnimation, FilledSevenSegment, FilledSipo,
    GuessAnimation, HelloAnimation, LEDMatrix, Sipo, SevenSegment, WinAnimation,
};

fn outputs() -> (FilledSevenSegment, LEDMatrix) {
    let d = FilledSevenSegment::create(SevenSegment::create(4, true, false), FilledSipo::create(Sipo::create()));
    (d, LEDMatrix::create(4, 2))
}

fn snapshot(d: &FilledSevenSegment, m: &LEDMatrix) -> (Vec<Option<u8>>, Vec<bool>, u8) {
    ((0..4).map(|i| d.digit(i)).collect(), (0..4).map(|i| d.is_hidden(i)).collect(), m.data())
}

#[test]
fn win_ends_showing_the_number() {
    let (mut d, mut m) = outputs();
    d.set_number([9, 9, 9, 9]);
    m.set_data(0x3C);
    let mut a = WinAnimation::create([1, 2, 3, 4]);
    let mut steps = 0u32;
    while a.running() {
        assert!(a.step(&mut d, &mut m) == AnimationState::Running);
        steps += 1;
        assert!(steps < 1_000_000);
    }
    a.cleanup(&mut d, &mut m);
    assert_eq!(snapshot(&d, &m), (vec![Some(1), Some(2), Some(3), Some(4)], vec![false; 4], 0xFF));
}

#[test]
fn win_first_step_shows_number_and_first_cell() {
    let (mut d, mut m) = outputs();
    let mut a = WinAnimation::create([5, 6, 7, 8]);
    assert!(a.step(&mut d, &mut m) == AnimationState::Running);
    assert_eq!(d.digit(0), Some(5));
    assert_eq!(d.digit(3), Some(8));
    assert_eq!(m.data(), 0b0000_0001);
    // the digits flip on every call of the first coarse tick
    assert!(!d.is_hidden(0));
    a.step(&mut d, &mut m);
    assert!(d.is_hidden(0));
}

#[test]
fn win_reset_starts_over() {
    let (mut d, mut m) = outputs();
    let mut a = WinAnimation::create([1, 1, 1, 1]);
    for _ in 0..3000 {
        a.step(&mut d, &mut m);
    }
    a.reset([2, 2, 2, 2]);
    assert_eq!(a.led_step, 0);
    assert_eq!(a.led_quarter, 0);
    a.step(&mut d, &mut m);
    assert_eq!(d.digit(1), Some(2));
}

#[test]
fn hello_writes_helo_and_ends() {
    let (mut d, mut m) = outputs();
    let mut a = HelloAnimation::create();
    a.step(&mut d, &mut m);
    assert_eq!((d.digit(3), d.digit(2), d.digit(1), d.digit(0)), (Some(72), Some(69), Some(76), Some(79)));
    assert_eq!(m.data(), 0xFF);
    let mut steps = 1u32;
    let mut last = AnimationState::Running;
    while a.running() {
        last = a.step(&mut d, &mut m);
        steps += 1;
    }
    assert!(last == AnimationState::End);
    // five blink periods of 20 coarse ticks of 255 calls
    assert_eq!(steps, 5 * 20 * 255 + 1);
    assert!(a.step(&mut d, &mut m) == AnimationState::End);
    a.cleanup(&mut d, &mut m);
    assert_eq!(m.data(), 0);
    assert!((0..4).all(|i| !d.is_hidden(i)));
}

#[test]
fn hello_inverts_matrix_each_period() {
    let (mut d, mut m) = outputs();
    let mut a = HelloAnimation::create();
    for _ in 0..(20 * 255 + 1) {
        a.step(&mut d, &mut m);
    }
    assert_eq!(m.data(), 0x00);
    assert!(d.is_hidden(0));
}

#[test]
fn guess_hides_all_then_restores() {
    let (mut d, mut m) = outputs();
    let mut a = GuessAnimation::create();
    a.step(&mut d, &mut m);
    assert!((0..4).all(|i| d.is_hidden(i)));
    let mut steps = 1u32;
    while a.running() {
        a.step(&mut d, &mut m);
        steps += 1;
    }
    assert_eq!(steps, 12 * 255);
    assert!(a.step(&mut d, &mut m) == AnimationState::End);
    a.cleanup(&mut d, &mut m);
    assert!((0..4).all(|i| !d.is_hidden(i)));
    a.reset();
    assert!(a.running());
}

#[test]
fn digit_increment_hides_one_digit() {
    let (mut d, mut m) = outputs();
    let mut a = DigitIncrementAnimation::create(2);
    a.step(&mut d, &mut m);
    assert_eq!((0..4).map(|i| d.is_hidden(i)).collect::<Vec<_>>(), vec![false, false, true, false]);
    let mut steps = 1u32;
    while a.running() {
        a.step(&mut d, &mut m);
        steps += 1;
    }
    assert_eq!(steps, 4 * 255);
    a.cleanup(&mut d, &mut m);
    assert!(!d.is_hidden(2));
    a.reset(1);
    a.step(&mut d, &mut m);
    assert!(d.is_hidden(1));
}

#[test]
fn cleanup_twice_is_cleanup_once() {
    let kinds = vec![
        ActiveAnimation::Hello(HelloAnimation::create()),
        ActiveAnimation::Win(WinAnimation::create([3, 1, 4, 1])),
        ActiveAnimation::Guess(GuessAnimation::create()),
        ActiveAnimation::DigitIncrement(DigitIncrementAnimation::create(0)),
    ];
    for mut a in kinds {
        let (mut d, mut m) = outputs();
        for _ in 0..300 {
            a.step(&mut d, &mut m);
        }
        d.hide_digit(3);
        m.set(2, 1, true);
        a.cleanup(&mut d, &mut m);
        let once = snapshot(&d, &m);
        a.cleanup(&mut d, &mut m);
        assert_eq!(snapshot(&d, &m), once);
    }
}

#[test]
fn enum_dispatches_to_the_kind() {
    let (mut d, mut m) = outputs();
    let mut a = ActiveAnimation::DigitIncrement(DigitIncrementAnimation::create(3));
    assert!(a.running());
    a.step(&mut d, &mut m);
    assert!(d.is_hidden(3) && !d.is_hidden(0));
    a.cleanup(&mut d, &mut m);
    assert!(!d.is_hidden(3));
}
