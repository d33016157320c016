use guessbox::{FilledSevenSegment, FilledSipo, Line, LineWrite, Sipo, SevenSegment};

fn display(digits: u8) -> FilledSevenSegment {
    let mut d = FilledSevenSegment::create(SevenSegment::create(digits, true, false), FilledSipo::create(Sipo::create()));
    d.take_writes();
    d
}

fn frame_writes(frame: u16) -> Vec<LineWrite> {
    let mut w = Vec::new();
    for k in 0..16 {
        let bit = (frame >> (15 - k)) & 1 == 1;
        w.push(LineWrite { line: Line::Data, high: bit });
        w.push(LineWrite { line: Line::Clock, high: false });
        w.push(LineWrite { line: Line::Clock, high: true });
        w.push(LineWrite { line: Line::Clock, high: false });
    }
    w.push(LineWrite { line: Line::Latch, high: false });
    w.push(LineWrite { line: Line::Latch, high: true });
    w.push(LineWrite { line: Line::Latch, high: false });
    w
}

#[test]
fn sweep_visits_digits_in_order_once() {
    let mut d = display(4);
    d.set_number([1, 2, 3, 4]);
    d.hide_digit(2);
    for k in 0..64 {
        assert_eq!(d.step(), k == 63, "step {}", k);
    }
    let mut expected = frame_writes(0x08F9);
    expected.extend(frame_writes(0x04A4));
    expected.extend(frame_writes(0x0000));
    expected.extend(frame_writes(0x0199));
    assert_eq!(d.take_writes(), expected);
}

#[test]
fn sweeps_repeat() {
    let mut d = display(4);
    d.set_number([5, 6, 7, 8]);
    let mut completions = 0;
    for _ in 0..64 * 3 {
        if d.step() {
            completions += 1;
        }
    }
    assert_eq!(completions, 3);
    let w = d.take_writes();
    assert_eq!(w.len(), 3 * 4 * (16 * 4 + 3));
}

#[test]
fn blank_slots_send_zero_frames() {
    let mut d = display(2);
    d.set_digit(1, Some(8));
    for k in 0..32 {
        assert_eq!(d.step(), k == 31);
    }
    let mut expected = frame_writes(0x0000);
    expected.extend(frame_writes((1u16 << 8) | 0x80));
    assert_eq!(d.take_writes(), expected);
}

#[test]
fn set_digit_out_of_range_is_ignored() {
    let mut d = display(4);
    d.set_digit(4, Some(1));
    d.set_digit(2, Some(7));
    assert_eq!(d.digit(2), Some(7));
    assert_eq!(d.digit(4), None);
    assert_eq!(d.digit(0), None);
}

#[test]
fn hide_and_show_digits() {
    let mut d = display(4);
    d.hide_digit(1);
    assert!(d.is_hidden(1));
    assert!(!d.is_hidden(0));
    d.hide_digit(9);
    assert!(!d.is_hidden(9));
    d.show_digit(1);
    assert!(!d.is_hidden(1));
    d.hide_all_digits();
    assert!((0..4).all(|i| d.is_hidden(i)));
    d.show_all_digits();
    assert!((0..4).all(|i| !d.is_hidden(i)));
}

#[test]
fn clear_blanks_every_slot() {
    let mut d = display(4);
    d.set_number([9, 9, 9, 9]);
    d.clear();
    assert!((0..4).all(|i| d.digit(i).is_none()));
}

#[test]
fn show_number_block_finishes_the_sweep() {
    let mut d = display(4);
    d.set_number([0, 1, 2, 3]);
    d.step();
    d.step();
    d.take_writes();
    d.show_number_block();
    assert_eq!(d.take_writes().len(), 62 * 4 + 4 * 3);
    // the next step starts a new sweep at slot 0
    d.step();
    assert_eq!(d.take_writes()[0], LineWrite { line: Line::Data, high: false });
}

#[test]
fn reset_restarts_the_sweep() {
    let mut d = display(4);
    d.set_number([1, 1, 1, 1]);
    for _ in 0..20 {
        d.step();
    }
    d.reset();
    d.take_writes();
    for k in 0..64 {
        assert_eq!(d.step(), k == 63);
    }
}
