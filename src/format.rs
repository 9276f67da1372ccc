use vstd::prelude::*;

use vstd::slice::slice_subrange;

use crate::fourcc::{le_bytes, FourCC};

verus! {

/// Wire bit of the compressed-format capability.
pub const COMPRESSED: u32 = 0x0001;
/// Wire bit of a format that a library emulates in software.
pub const EMULATED: u32 = 0x0002;
/// Wire bit of a continuous-bitstream format.
pub const CONTINUOUS_BITSTREAM: u32 = 0x0004;
/// Wire bit of a format that can change resolution on the fly.
pub const DYN_RESOLUTION: u32 = 0x0008;
/// All the bits that name a capability.
pub const ALL_FLAGS: u32 = 0x000f;

/// Capabilities of a pixel format, one boolean per flag.
#[derive(Clone, Copy, Debug, PartialEq, Eq, Structural)]
pub struct Flags {
    pub compressed: bool,
    pub emulated: bool,
    pub continuous_bitstream: bool,
    pub dyn_resolution: bool,
}

/// The capabilities that a wire integer names; bits that name none are ignored.
pub open spec fn flags_of(bits: u32) -> Flags {
    Flags {
        compressed: bits & COMPRESSED != 0,
        emulated: bits & EMULATED != 0,
        continuous_bitstream: bits & CONTINUOUS_BITSTREAM != 0,
        dyn_resolution: bits & DYN_RESOLUTION != 0,
    }
}

/// The wire integer of a set of capabilities.
pub open spec fn bits_of(f: Flags) -> u32 {
    (if f.compressed { COMPRESSED } else { 0u32 }) | (if f.emulated { EMULATED } else { 0u32 }) | (
    if f.continuous_bitstream { CONTINUOUS_BITSTREAM } else { 0u32 }) | (if f.dyn_resolution {
        DYN_RESOLUTION
    } else {
        0u32
    })
}

impl Flags {
    /// The capabilities named by `bits`, dropping the bits that name none.
    pub fn from_bits_truncate(bits: u32) -> (r: Flags)
        ensures
            r == flags_of(bits),
    {
        Flags {
            compressed: bits & COMPRESSED != 0,
            emulated: bits & EMULATED != 0,
            continuous_bitstream: bits & CONTINUOUS_BITSTREAM != 0,
            dyn_resolution: bits & DYN_RESOLUTION != 0,
        }
    }

    /// The wire integer of these capabilities.
    pub fn bits(&self) -> (r: u32)
        ensures
            r == bits_of(*self),
    {
        let c: u32 = if self.compressed { COMPRESSED } else { 0u32 };
        let e: u32 = if self.emulated { EMULATED } else { 0u32 };
        let s: u32 = if self.continuous_bitstream { CONTINUOUS_BITSTREAM } else { 0u32 };
        let d: u32 = if self.dyn_resolution { DYN_RESOLUTION } else { 0u32 };
        c | e | s | d
    }
}

impl From<u32> for Flags {
    /// Reads a wire integer as in `Flags::from_bits_truncate`.
    fn from(bits: u32) -> (r: Flags) {
        Flags::from_bits_truncate(bits)
    }
}

impl vstd::std_specs::convert::FromSpecImpl<u32> for Flags {
    open spec fn obeys_from_spec() -> bool {
        true
    }

    open spec fn from_spec(bits: u32) -> Flags {
        flags_of(bits)
    }
}

impl From<Flags> for u32 {
    /// Writes a set of capabilities as in `Flags::bits`.
    fn from(f: Flags) -> (r: u32) {
        f.bits()
    }
}

impl vstd::std_specs::convert::FromSpecImpl<Flags> for u32 {
    open spec fn obeys_from_spec() -> bool {
        true
    }

    open spec fn from_spec(f: Flags) -> u32 {
        bits_of(f)
    }
}

/// Round trip from the wire: reading an integer and writing it back keeps exactly the bits
/// that name a capability.
pub proof fn lemma_bits_round_trip(bits: u32)
    ensures
        bits_of(flags_of(bits)) == bits & ALL_FLAGS,
{
    assert(((if bits & 1u32 != 0 { 1u32 } else { 0u32 }) | (if bits & 2u32 != 0 {
        2u32
    } else {
        0u32
    }) | (if bits & 4u32 != 0 { 4u32 } else { 0u32 }) | (if bits & 8u32 != 0 {
        8u32
    } else {
        0u32
    })) == bits & 0xfu32) by (bit_vector);
}

/// Round trip to the wire: writing a set of capabilities and reading it back gives the same set.
pub proof fn lemma_flags_round_trip(f: Flags)
    ensures
        flags_of(bits_of(f)) == f,
{
    let c = f.compressed;
    let e = f.emulated;
    let s = f.continuous_bitstream;
    let d = f.dyn_resolution;
    let b = bits_of(f);
    assert(b == (if c { 1u32 } else { 0u32 }) | (if e { 2u32 } else { 0u32 }) | (if s {
        4u32
    } else {
        0u32
    }) | (if d { 8u32 } else { 0u32 }));
    assert((b & 1u32 != 0) == c && (b & 2u32 != 0) == e && (b & 4u32 != 0) == s && (b & 8u32
        != 0) == d) by (bit_vector)
        requires
            b == (if c { 1u32 } else { 0u32 }) | (if e { 2u32 } else { 0u32 }) | (if s {
                4u32
            } else {
                0u32
            }) | (if d { 8u32 } else { 0u32 }),
    ;
}

/// What `String::from_utf8_lossy` makes of a byte sequence.
pub uninterp spec fn utf8_lossy(b: Seq<u8>) -> Seq<char>;

/// Bytes below 0x80 are ASCII: each is one character of the same value.
pub open spec fn is_ascii(b: Seq<u8>) -> bool {
    forall|i: int| 0 <= i < b.len() ==> #[trigger] b[i] < 128
}

/// Relies on `String::from_utf8_lossy`: the text depends on the bytes alone, and valid UTF-8,
/// ASCII among it, is decoded as it stands.
#[verifier::external_body]
fn decode_text(b: &[u8]) -> (r: String)
    ensures
        r@ == utf8_lossy(b@),
        is_ascii(b@) ==> r@ == b@.map_values(|x: u8| x as char),
{
    String::from_utf8_lossy(b).into_owned()
}

/// Index of the first zero byte at or after `i`, or the length if there is none.
pub open spec fn nul_index(s: Seq<u8>, i: int) -> int
    decreases s.len() - i,
{
    if i >= s.len() {
        s.len() as int
    } else if s[i] == 0 {
        i
    } else {
        nul_index(s, i + 1)
    }
}

/// The bytes of a zero-terminated string, without the terminator.
pub open spec fn c_string(s: Seq<u8>) -> Seq<u8> {
    s.subrange(0, nul_index(s, 0))
}

/// A format description record as the device enumerates it.
#[derive(Clone, Copy, Debug)]
pub struct FormatRecord {
    pub index: u32,
    pub typ: u32,
    pub flags: u32,
    pub description: [u8; 32],
    pub pixelformat: u32,
}

/// Format description as the device enumerates it.
#[derive(Debug)]
pub struct FormatDescription {
    pub index: u32,
    pub typ: u32,
    pub flags: Flags,
    pub description: String,
    pub fourcc: FourCC,
}

impl FormatDescription {
    /// Reads a description from its record: the flags keep the bits that name a capability,
    /// the text ends at the first zero byte.
    pub fn from(desc: FormatRecord) -> (r: FormatDescription)
        ensures
            r.index == desc.index,
            r.typ == desc.typ,
            r.flags == flags_of(desc.flags),
            r.description@ == utf8_lossy(c_string(desc.description@)),
            is_ascii(c_string(desc.description@)) ==> r.description@ == c_string(
                desc.description@,
            ).map_values(|x: u8| x as char),
            r.fourcc.repr@ == le_bytes(desc.pixelformat),
    {
        let bytes: &[u8] = desc.description.as_slice();
        let mut n: usize = 0;
        while n < bytes.len()
            invariant
                n <= bytes@.len(),
                nul_index(bytes@, 0) == nul_index(bytes@, n as int),
            ensures
                n == nul_index(bytes@, 0),
            decreases bytes@.len() - n,
        {
            if bytes[n] == 0 {
                break;
            }
            n = n + 1;
        }
        let text = slice_subrange(bytes, 0, n);
        FormatDescription {
            index: desc.index,
            typ: desc.typ,
            flags: Flags::from_bits_truncate(desc.flags),
            description: decode_text(text),
            fourcc: FourCC::from_code(desc.pixelformat),
        }
    }
}

} // verus!
