use guessbox::{Button, ButtonEvent, ButtonState};

fn ticks(b: &mut Button, pressed: bool, n: usize) {
    for _ in 0..n {
        // active low: a pressed button reads low
        b.step(pressed);
    }
}

#[test]
fn press_needs_fifty_agreeing_ticks() {
    let mut b = Button::create(false);
    ticks(&mut b, true, 49);
    assert!(b.state() == ButtonState::Inactive);
    ticks(&mut b, true, 1);
    assert!(b.state() == ButtonState::Pressed);
    ticks(&mut b, true, 1);
    assert!(b.state() == ButtonState::Active);
}

#[test]
fn release_needs_fifty_agreeing_ticks() {
    let mut b = Button::create(false);
    ticks(&mut b, true, 60);
    ticks(&mut b, false, 49);
    assert!(b.state() == ButtonState::Active);
    ticks(&mut b, false, 1);
    assert!(b.state() == ButtonState::Released);
    ticks(&mut b, false, 1);
    assert!(b.state() == ButtonState::Inactive);
}

#[test]
fn single_glitch_does_not_flip() {
    let mut b = Button::create(false);
    ticks(&mut b, true, 60);
    ticks(&mut b, false, 1);
    assert!(b.state() == ButtonState::Active);
    ticks(&mut b, true, 1);
    assert!(b.state() == ButtonState::Active);
    let mut r = Button::create(false);
    ticks(&mut r, false, 5);
    ticks(&mut r, true, 1);
    assert!(r.state() == ButtonState::Inactive);
    ticks(&mut r, true, 30);
    ticks(&mut r, false, 1);
    ticks(&mut r, true, 19);
    assert!(r.state() == ButtonState::Inactive);
}

#[test]
fn active_high_polarity() {
    let mut b = Button::create(true);
    ticks(&mut b, false, 50);
    assert!(b.state() == ButtonState::Pressed);
}

#[test]
fn long_press_then_continuous() {
    let mut b = Button::create(false);
    ticks(&mut b, false, 1100);
    assert!(b.event() == ButtonEvent::NoEvent);
    // 50 ticks to settle, then the pressed count runs from 1
    ticks(&mut b, true, 50 + 998);
    assert!(b.event() == ButtonEvent::NoEvent);
    ticks(&mut b, true, 1);
    assert!(b.event() == ButtonEvent::LongClick);
    assert!(b.event() == ButtonEvent::NoEvent);
    ticks(&mut b, true, 999);
    assert!(b.event() == ButtonEvent::NoEvent);
    ticks(&mut b, true, 1);
    assert!(b.event() == ButtonEvent::LongClickContinuous);
    ticks(&mut b, true, 1000);
    assert!(b.event() == ButtonEvent::LongClickContinuous);
}

#[test]
fn untaken_long_click_blocks_continuous() {
    let mut b = Button::create(false);
    ticks(&mut b, false, 1100);
    ticks(&mut b, true, 50 + 999 + 1000);
    assert!(b.event() == ButtonEvent::LongClick);
}

#[test]
fn click_fires_after_the_double_click_window() {
    let mut b = Button::create(false);
    ticks(&mut b, false, 1100);
    ticks(&mut b, true, 60);
    ticks(&mut b, false, 50);
    assert!(b.state() == ButtonState::Released);
    ticks(&mut b, false, 998);
    assert!(b.event() == ButtonEvent::NoEvent);
    ticks(&mut b, false, 1);
    assert!(b.event() == ButtonEvent::Click);
    ticks(&mut b, false, 2000);
    assert!(b.event() == ButtonEvent::NoEvent);
}

#[test]
fn second_press_soon_is_double_click() {
    let mut b = Button::create(false);
    ticks(&mut b, false, 1100);
    ticks(&mut b, true, 60);
    ticks(&mut b, false, 100);
    ticks(&mut b, true, 49);
    assert!(b.event() == ButtonEvent::NoEvent);
    ticks(&mut b, true, 1);
    assert!(b.event() == ButtonEvent::DoubleClick);
}

#[test]
fn event_is_read_once() {
    let mut b = Button::create(false);
    ticks(&mut b, true, 50);
    assert!(b.event() == ButtonEvent::DoubleClick);
    assert!(b.event() == ButtonEvent::NoEvent);
}

#[test]
fn saturated_hold_fires_nothing_more() {
    let mut b = Button::create(false);
    ticks(&mut b, false, 1100);
    // settled at tick 50 with count 1; the count saturates at 65000
    ticks(&mut b, true, 50 + 64998);
    assert!(b.event() == ButtonEvent::LongClick);
    ticks(&mut b, true, 1);
    assert!(b.event() == ButtonEvent::LongClickContinuous);
    ticks(&mut b, true, 10);
    assert!(b.event() == ButtonEvent::NoEvent);
}

#[test]
fn no_click_while_pressed() {
    let mut b = Button::create(false);
    ticks(&mut b, false, 1100);
    ticks(&mut b, true, 50 + 1100);
    assert!(b.event() == ButtonEvent::LongClick);
    // released for 1000 ticks after settling: no click after a long press
    ticks(&mut b, false, 50 + 950);
    ticks(&mut b, true, 49);
    assert!(b.event() == ButtonEvent::NoEvent);
    // the press settles just as the window closes
    ticks(&mut b, true, 1);
    assert!(b.state() == ButtonState::Pressed);
    ticks(&mut b, true, 5);
    assert!(b.event() == ButtonEvent::NoEvent);
}
