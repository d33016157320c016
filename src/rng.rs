use vstd::prelude::*;

verus! {

/// The generator's four bytes.
pub struct RngView {
    pub a: u8,
    pub b: u8,
    pub c: u8,
    pub x: u8,
}

/// Byte addition modulo 256.
pub open spec fn add_mod(x: u8, y: u8) -> u8 {
    ((x as int + y as int) % 256) as u8
}

/// One round: bump the counter, then mix; all byte arithmetic wraps. The new
/// `c` is the output.
pub open spec fn rng_round(s: RngView) -> RngView {
    let x = add_mod(s.x, 1);
    let a = s.a ^ s.c ^ x;
    let b = add_mod(s.b, a);
    let c = add_mod(s.c, b >> 1u8) ^ a;
    RngView { a, b, c, x }
}

/// Stored seeds, or the built-in ones when the store holds only zeros (it was
/// never written).
pub fn seeds_or_default(stored: [u8; 3]) -> (seeds: [u8; 3])
    ensures
        seeds == if stored[0] == 0 && stored[1] == 0 && stored[2] == 0 { [125u8, 139u8, 45u8] } else { stored },
{
    if stored[0] == 0 && stored[1] == 0 && stored[2] == 0 {
        [125, 139, 45]
    } else {
        stored
    }
}

/// A small 8-bit pseudo-random generator, seeded with three bytes.
pub struct Rng {
    a: u8,
    b: u8,
    c: u8,
    x: u8,
}

impl View for Rng {
    type V = RngView;

    closed spec fn view(&self) -> RngView {
        RngView { a: self.a, b: self.b, c: self.c, x: self.x }
    }
}

impl Rng {
    /// A generator seeded with `s1`, `s2`, `s3`, after one round.
    pub fn init(s1: u8, s2: u8, s3: u8) -> (r: Rng)
        ensures
            r@ == rng_round(RngView { a: s1, b: s2, c: s3, x: 0 }),
    {
        let mut rng = Rng { a: 0, b: 0, c: 0, x: 0 };
        rng.a = rng.a ^ s1;
        rng.b = rng.b ^ s2;
        rng.c = rng.c ^ s3;
        assert(0u8 ^ s1 == s1 && 0u8 ^ s2 == s2 && 0u8 ^ s3 == s3) by (bit_vector);
        rng.randomize();
        rng
    }

    fn randomize(&mut self) -> (r: u8)
        ensures
            final(self)@ == rng_round(old(self)@),
            r == final(self)@.c,
    {
        self.x = self.x.wrapping_add(1);
        self.a = self.a ^ self.c ^ self.x;
        self.b = self.b.wrapping_add(self.a);
        self.c = self.c.wrapping_add(self.b >> 1u8) ^ self.a;
        self.c
    }

    /// The next byte.
    pub fn take_u8(&mut self) -> (r: u8)
        ensures
            final(self)@ == rng_round(old(self)@),
            r == final(self)@.c,
    {
        self.randomize()
    }

    /// The next two bytes, the first as the high byte.
    pub fn take_u16(&mut self) -> (r: u16)
        ensures
            final(self)@ == rng_round(rng_round(old(self)@)),
            r == (rng_round(old(self)@).c as u16) * 256 + final(self)@.c as u16,
    {
        let first: u16 = self.randomize() as u16;
        let second: u16 = self.randomize() as u16;
        assert((first << 8u16) | second == first * 256 + second) by (bit_vector)
            requires
                first < 256,
                second < 256,
        ;
        first << 8u16 | second
    }
}

} // verus!
