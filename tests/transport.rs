use guessbox::{FilledSipo, Line, LineWrite, Sipo};

fn lw(line: Line, high: bool) -> LineWrite {
    LineWrite { line, high }
}

fn shift(bit: bool) -> Vec<LineWrite> {
    vec![lw(Line::Data, bit), lw(Line::Clock, false), lw(Line::Clock, true), lw(Line::Clock, false)]
}

fn latch() -> Vec<LineWrite> {
    vec![lw(Line::Latch, false), lw(Line::Latch, true), lw(Line::Latch, false)]
}

#[test]
fn create_clears_and_latches() {
    let mut s = Sipo::create();
    let w = s.take_writes();
    let mut expected = vec![lw(Line::Clear, false), lw(Line::Clear, true)];
    expected.extend(latch());
    assert_eq!(w, expected);
    assert!(s.take_writes().is_empty());
}

#[test]
fn shift_value_sets_data_then_pulses_clock() {
    let mut s = Sipo::create();
    s.take_writes();
    s.shift_value(true);
    s.shift_value(false);
    let mut expected = shift(true);
    expected.extend(shift(false));
    assert_eq!(s.take_writes(), expected);
}

#[test]
fn clear_and_show_pulses() {
    let mut s = Sipo::create();
    s.take_writes();
    s.clear();
    s.show();
    s.set(true);
    s.shift();
    let mut expected = vec![lw(Line::Clear, false), lw(Line::Clear, true)];
    expected.extend(latch());
    expected.extend(shift(true));
    assert_eq!(s.take_writes(), expected);
}

#[test]
fn frame_goes_out_msb_first_in_sixteen_steps() {
    let mut p = FilledSipo::create(Sipo::create());
    p.take_writes();
    p.set_data(0xA5C3);
    for k in 0..16 {
        let complete = p.step();
        assert_eq!(complete, k == 15, "step {}", k);
    }
    let bits = [1, 0, 1, 0, 0, 1, 0, 1, 1, 1, 0, 0, 0, 0, 1, 1];
    let mut expected = Vec::new();
    for b in bits {
        expected.extend(shift(b == 1));
    }
    expected.extend(latch());
    assert_eq!(p.take_writes(), expected);
}

#[test]
fn frame_repeats_after_completion() {
    let mut p = FilledSipo::create(Sipo::create());
    p.set_data(0x8001);
    for _ in 0..16 {
        p.step();
    }
    p.take_writes();
    for k in 0..16 {
        assert_eq!(p.step(), k == 15);
    }
    let w = p.take_writes();
    assert_eq!(w.len(), 16 * 4 + 3);
    assert_eq!(w[0], lw(Line::Data, true));
    assert_eq!(w[4], lw(Line::Data, false));
    assert_eq!(w[60], lw(Line::Data, true));
}

#[test]
fn push_block_sends_the_rest_of_the_frame() {
    let mut p = FilledSipo::create(Sipo::create());
    p.set_data(0xFFFF);
    p.step();
    p.step();
    p.take_writes();
    p.push_block();
    let w = p.take_writes();
    assert_eq!(w.len(), 14 * 4 + 3);
    assert_eq!(w[w.len() - 3..].to_vec(), latch());
}

#[test]
fn set_data_restarts_the_push() {
    let mut p = FilledSipo::create(Sipo::create());
    p.set_data(0xFFFF);
    for _ in 0..5 {
        p.step();
    }
    p.set_data(0x0000);
    p.take_writes();
    for k in 0..16 {
        assert_eq!(p.step(), k == 15);
    }
    let w = p.take_writes();
    assert!(w.iter().filter(|x| x.line == Line::Data).all(|x| !x.high));
}

#[test]
fn clear_buffers_the_zero_frame() {
    let mut p = FilledSipo::create(Sipo::create());
    p.set_data(0xFFFF);
    p.step();
    p.clear();
    p.take_writes();
    p.push_block();
    let w = p.take_writes();
    assert_eq!(w.len(), 16 * 4 + 3);
    assert!(w.iter().filter(|x| x.line == Line::Data).all(|x| !x.high));
}

#[test]
fn reset_rewinds_the_cursor() {
    let mut p = FilledSipo::create(Sipo::create());
    p.set_data(0x8000);
    p.step();
    p.step();
    p.reset();
    p.take_writes();
    p.step();
    assert_eq!(p.take_writes(), shift(true));
}
