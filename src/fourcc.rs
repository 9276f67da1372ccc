use vstd::prelude::*;

verus! {

/// Little-endian bytes of a 32-bit code, lowest byte first.
pub open spec fn le_bytes(code: u32) -> Seq<u8> {
    seq![
        (code % 256) as u8,
        ((code / 256) % 256) as u8,
        ((code / 65536) % 256) as u8,
        ((code / 16777216) % 256) as u8,
    ]
}

/// Four-character code naming a pixel format.
#[derive(Clone, Copy, Debug, PartialEq, Eq)]
pub struct FourCC {
    pub repr: [u8; 4],
}

impl FourCC {
    /// Builds a code from its four characters.
    pub fn new(repr: &[u8; 4]) -> (r: FourCC)
        ensures
            r.repr@ == repr@,
    {
        FourCC { repr: *repr }
    }

    /// Builds a code from its wire integer, whose lowest byte is the first character.
    pub fn from_code(code: u32) -> (r: FourCC)
        ensures
            r.repr@ == le_bytes(code),
    {
        let b0: u8 = (code & 0xff) as u8;
        let b1: u8 = ((code >> 8u32) & 0xff) as u8;
        let b2: u8 = ((code >> 16u32) & 0xff) as u8;
        let b3: u8 = ((code >> 24u32) & 0xff) as u8;
        assert(code & 0xff == code % 256) by (bit_vector);
        assert((code >> 8u32) & 0xff == (code / 256) % 256) by (bit_vector);
        assert((code >> 16u32) & 0xff == (code / 65536) % 256) by (bit_vector);
        assert((code >> 24u32) & 0xff == (code / 16777216) % 256) by (bit_vector);
        let r = FourCC { repr: [b0, b1, b2, b3] };
        assert(r.repr@ =~= le_bytes(code));
        r
    }
}

/// A rational number of seconds, as the device reports it.
#[derive(Clone, Copy, Debug, PartialEq, Eq, Structural)]
pub struct Fraction {
    pub numerator: u32,
    pub denominator: u32,
}

impl Fraction {
    pub fn new(numerator: u32, denominator: u32) -> (r: Fraction)
        ensures
            r.numerator == numerator,
            r.denominator == denominator,
    {
        Fraction { numerator, denominator }
    }
}

} // verus!
