use vstd::prelude::*;
use crate::filled_sipo::{FilledSipo, pusher_set_data};

verus! {

/// Segment pattern of a character code, bit 0 = segment A up to bit 7 = the
/// decimal point. Digits 0 to 9 are codes 0 to 9; letters are their ASCII codes.
/// Codes without a glyph light nothing.
pub open spec fn segments_for(code: u8) -> u8 {
    match code {
        0 => 0b00111111u8,
        1 => 0b00000110u8,
        2 => 0b01011011u8,
        3 => 0b01001111u8,
        4 => 0b01100110u8,
        5 => 0b01101101u8,
        6 => 0b01111101u8,
        7 => 0b00000111u8,
        8 => 0b01111111u8,
        9 => 0b01101111u8,
        65 => 0b01110111u8,
        98 => 0b01111100u8,
        67 => 0b00111001u8,
        99 => 0b01011000u8,
        100 => 0b01011110u8,
        69 => 0b01111001u8,
        70 => 0b01110001u8,
        71 => 0b00111101u8,
        103 => 0b01101111u8,
        72 => 0b01110110u8,
        104 => 0b01110100u8,
        73 => 0b00000110u8,
        76 => 0b00111000u8,
        108 => 0b00110000u8,
        110 => 0b01010100u8,
        78 => 0b00110111u8,
        79 => 0b00111111u8,
        111 => 0b01011100u8,
        80 => 0b01110011u8,
        81 => 0b01100111u8,
        114 => 0b01010000u8,
        83 => 0b01101101u8,
        116 => 0b01111000u8,
        85 => 0b00111110u8,
        _ => 0u8,
    }
}

/// The one-hot selector of digit `index` among `count`: bit `count - 1 - index`.
pub open spec fn selector_for(count: u8, index: int) -> u8 {
    1u8 << ((count - 1 - index) as u8)
}

/// How an encoder is wired.
pub struct EncoderView {
    pub digits: u8,
    pub dp: bool,
    pub common_cathode: bool,
}

/// The frame that lights `code` on digit `index`, if there is such a digit.
/// A common-cathode display takes the selector inverted, a common-anode one the
/// segments inverted. With a decimal point the selector sits above eight segment
/// bits, without one above seven.
pub open spec fn composite_for(e: EncoderView, code: u8, index: int) -> Option<u16> {
    if index < 0 || index >= e.digits {
        None
    } else {
        let segments = if e.common_cathode { segments_for(code) } else { !segments_for(code) };
        let selector = if e.common_cathode {
            !selector_for(e.digits, index)
        } else {
            selector_for(e.digits, index)
        };
        if e.dp {
            Some(((selector as u16) << 8u16) | (segments as u16))
        } else {
            Some(((selector as u16) << 7u16) | ((segments & 0x7Fu8) as u16))
        }
    }
}

/// The seven-segment encoder: a pure mapping from a character and a digit
/// position to a frame, for a display of up to eight digits.
#[derive(Clone, Copy)]
pub struct SevenSegment {
    digits: u8,
    dp: bool,
    common_cathode: bool,
}

impl View for SevenSegment {
    type V = EncoderView;

    closed spec fn view(&self) -> EncoderView {
        EncoderView { digits: self.digits, dp: self.dp, common_cathode: self.common_cathode }
    }
}

impl SevenSegment {
    /// An encoder for `digits` digits, with or without the decimal-point segment,
    /// for a common-cathode or a common-anode display.
    pub fn create(digits: u8, dp: bool, common_cathode: bool) -> (e: SevenSegment)
        requires
            digits <= 8,
        ensures
            e@ == (EncoderView { digits, dp, common_cathode }),
    {
        SevenSegment { digits, dp, common_cathode }
    }

    /// At most eight digits: the selector field is eight bits wide.
    pub open spec fn wf(&self) -> bool {
        self@.digits <= 8
    }

    fn get_digit_segments(digit: u8) -> (r: u8)
        ensures
            r == segments_for(digit),
    {
        match digit {
            0 => 0b00111111,
            1 => 0b00000110,
            2 => 0b01011011,
            3 => 0b01001111,
            4 => 0b01100110,
            5 => 0b01101101,
            6 => 0b01111101,
            7 => 0b00000111,
            8 => 0b01111111,
            9 => 0b01101111,
            65 => 0b01110111,  // A
            98 => 0b01111100,  // b
            67 => 0b00111001,  // C
            99 => 0b01011000,  // c
            100 => 0b01011110,  // d
            69 => 0b01111001,  // E
            70 => 0b01110001,  // F
            71 => 0b00111101,  // G
            103 => 0b01101111,  // g
            72 => 0b01110110,  // H
            104 => 0b01110100,  // h
            73 => 0b00000110,  // I
            76 => 0b00111000,  // L
            108 => 0b00110000,  // l
            110 => 0b01010100,  // n
            78 => 0b00110111,  // N
            79 => 0b00111111,  // O
            111 => 0b01011100,  // o
            80 => 0b01110011,  // P
            81 => 0b01100111,  // Q
            114 => 0b01010000,  // r
            83 => 0b01101101,  // S
            116 => 0b01111000,  // t
            85 => 0b00111110,  // U
            _ => 0b00000000,
        }
    }

    pub fn digits(&self) -> (r: u8)
        ensures
            r == self@.digits,
    {
        self.digits
    }

    pub fn dp(&self) -> (r: bool)
        ensures
            r == self@.dp,
    {
        self.dp
    }

    pub fn common_cathode(&self) -> (r: bool)
        ensures
            r == self@.common_cathode,
    {
        self.common_cathode
    }

    fn get_digit_selector(digit_count: u8, digit_index: usize) -> (r: u8)
        requires
            digit_index < digit_count <= 8,
        ensures
            r == selector_for(digit_count, digit_index as int),
    {
        1u8 << ((digit_count - 1 - digit_index as u8) as u8)
    }

    /// The frame lighting `digit` on position `digit_index`, or `None` when the
    /// display has no such position.
    pub fn composite_frame(&self, digit: u8, digit_index: usize) -> (r: Option<u16>)
        requires
            self.wf(),
        ensures
            r == composite_for(self@, digit, digit_index as int),
    {
        if digit_index >= self.digits as usize {
            return None;
        }
        let mut segments = SevenSegment::get_digit_segments(digit);
        let mut digit_selector = SevenSegment::get_digit_selector(self.digits, digit_index);
        if self.common_cathode {
            digit_selector = !digit_selector;
        } else {
            segments = !segments;
        }
        let segments: u16 = segments as u16;
        let digit_selector: u16 = digit_selector as u16;
        if self.dp {
            Some(digit_selector << 8u16 | segments)
        } else {
            Some(digit_selector << 7u16 | (segments & 0x7F))
        }
    }

    /// Buffers in `sipo` the frame of `digit` on position `digit_index`; returns
    /// false, leaving `sipo` alone, when the display has no such position.
    pub fn fill_digit(&self, sipo: &mut FilledSipo, digit: u8, digit_index: usize) -> (r: bool)
        requires
            self.wf(),
            old(sipo).wf(),
        ensures
            final(sipo).wf(),
            r == (digit_index < self@.digits),
            r ==> final(sipo)@ == pusher_set_data(
                old(sipo)@,
                composite_for(self@, digit, digit_index as int)->Some_0,
            ),
            !r ==> final(sipo)@ == old(sipo)@,
    {
        match self.composite_frame(digit, digit_index) {
            Some(frame) => {
                sipo.set_data(frame);
                true
            },
            None => false,
        }
    }
}

} // verus!
