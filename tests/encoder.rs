use guessbox::{FilledSipo, Line, Sipo, SevenSegment};

#[test]
fn composite_common_anode_with_point() {
    let e = SevenSegment::create(4, true, false);
    // selector 1 << 3, segments of 1 inverted
    assert_eq!(e.composite_frame(1, 0), Some(0x08F9));
    assert_eq!(e.composite_frame(2, 1), Some(0x04A4));
    assert_eq!(e.composite_frame(4, 3), Some(0x0199));
}

#[test]
fn composite_common_cathode_without_point() {
    let e = SevenSegment::create(4, false, true);
    // selector !(1 << 0) above seven segment bits
    assert_eq!(e.composite_frame(8, 3), Some(0x7F7F));
    assert_eq!(e.composite_frame(0, 0), Some((0xF7u16 << 7) | 0x3F));
}

#[test]
fn composite_letters() {
    let e = SevenSegment::create(4, true, true);
    assert_eq!(e.composite_frame(72, 0), Some((0xF7u16 << 8) | 0x76));
    assert_eq!(e.composite_frame(69, 1), Some((0xFBu16 << 8) | 0x79));
    assert_eq!(e.composite_frame(76, 2), Some((0xFDu16 << 8) | 0x38));
    assert_eq!(e.composite_frame(79, 3), Some((0xFEu16 << 8) | 0x3F));
}

#[test]
fn unmapped_code_lights_nothing() {
    let e = SevenSegment::create(4, true, true);
    assert_eq!(e.composite_frame(200, 0), Some(0xF700));
    let a = SevenSegment::create(4, true, false);
    assert_eq!(a.composite_frame(200, 0), Some(0x08FF));
}

#[test]
fn composite_out_of_range_is_none() {
    let e = SevenSegment::create(4, true, false);
    assert_eq!(e.composite_frame(1, 4), None);
    assert_eq!(e.composite_frame(1, 100), None);
}

#[test]
fn getters_report_configuration() {
    let e = SevenSegment::create(3, false, true);
    assert_eq!(e.digits(), 3);
    assert!(!e.dp());
    assert!(e.common_cathode());
}

#[test]
fn fill_digit_buffers_the_frame() {
    let e = SevenSegment::create(4, true, false);
    let mut p = FilledSipo::create(Sipo::create());
    assert!(e.fill_digit(&mut p, 1, 0));
    p.take_writes();
    p.push_block();
    let bits: Vec<bool> = p.take_writes().iter().filter(|w| w.line == Line::Data).map(|w| w.high).collect();
    let expected: Vec<bool> = (0..16).map(|k| (0x08F9u16 >> (15 - k)) & 1 == 1).collect();
    assert_eq!(bits, expected);
}

#[test]
fn fill_digit_out_of_range_leaves_the_pusher() {
    let e = SevenSegment::create(2, true, false);
    let mut p = FilledSipo::create(Sipo::create());
    p.set_data(0x1234);
    p.step();
    assert!(!e.fill_digit(&mut p, 1, 2));
    p.take_writes();
    p.step();
    let w = p.take_writes();
    // the second bit of 0x1234 goes out next
    assert!(!w[0].high);
    assert_eq!(w.len(), 4);
}
