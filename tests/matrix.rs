use guessbox::{LEDMatrix, MatrixLine, MatrixWrite};

fn c(index: usize, high: bool) -> MatrixWrite {
    MatrixWrite { line: MatrixLine::Cathode, index, high }
}

fn a(index: usize, high: bool) -> MatrixWrite {
    MatrixWrite { line: MatrixLine::Anode, index, high }
}

fn matrix() -> LEDMatrix {
    let mut m = LEDMatrix::create(4, 2);
    for _ in 0..4 {
        m.add_anode();
    }
    m.add_cathode();
    m.add_cathode();
    m
}

#[test]
fn single_point_lights_alone() {
    let mut m = matrix();
    m.set(1, 1, true);
    assert_eq!(m.data(), 1 << 5);
    assert!(!m.step());
    assert_eq!(m.take_writes(), vec![c(0, true), c(1, true), a(0, false), a(1, false), a(2, false), a(3, false)]);
    assert!(m.step());
    assert_eq!(
        m.take_writes(),
        vec![c(0, true), c(1, true), a(0, false), a(1, true), a(2, false), a(3, false), c(1, false)]
    );
}

#[test]
fn scan_wraps_after_last_row() {
    let mut m = matrix();
    m.set(3, 0, true);
    assert!(!m.step());
    assert!(m.step());
    m.take_writes();
    assert!(!m.step());
    assert_eq!(
        m.take_writes(),
        vec![c(0, true), c(1, true), a(0, false), a(1, false), a(2, false), a(3, true), c(0, false)]
    );
}

#[test]
fn set_outside_is_ignored() {
    let mut m = matrix();
    m.set(4, 0, true);
    m.set(0, 2, true);
    assert_eq!(m.data(), 0);
    m.set(0, 0, true);
    m.set(2, 1, true);
    assert_eq!(m.data(), 0b0100_0001);
    m.set(0, 0, false);
    assert_eq!(m.data(), 0b0100_0000);
}

#[test]
fn clear_and_set_data() {
    let mut m = matrix();
    m.set_data(0xFF);
    assert_eq!(m.data(), 0xFF);
    m.clear();
    assert_eq!(m.data(), 0);
}

#[test]
fn full_row_lights_every_anode() {
    let mut m = matrix();
    m.set_data(0x0F);
    m.step();
    assert_eq!(
        m.take_writes(),
        vec![c(0, true), c(1, true), a(0, true), a(1, true), a(2, true), a(3, true), c(0, false)]
    );
}

#[test]
fn row_without_cathode_stays_off() {
    let mut m = LEDMatrix::create(2, 2);
    m.add_anode();
    m.add_anode();
    m.add_cathode();
    m.set_data(0b1100);
    m.step();
    m.take_writes();
    assert!(m.step());
    assert_eq!(m.take_writes(), vec![c(0, true), a(0, true), a(1, true)]);
}
