//! Decoding of the sensor's 18-byte measurement response.
//!
//! The response holds three 6-byte words, for CO2, temperature and humidity in
//! that order. Each word is `[d0, d1, check, d2, d3, check]`: the four data bytes
//! are a big-endian IEEE-754 single-precision bit pattern, and the check bytes
//! are skipped without being validated.
use vstd::prelude::*;

verus! {

/// Length of a measurement response on the wire.
pub const RESPONSE_LEN: usize = 18;

/// Length of one word of a measurement response.
pub const WORD_LEN: usize = 6;

/// One reading, each value as the bit pattern of an IEEE-754 single-precision
/// float in the sensor's engineering units.
#[derive(Clone, Copy, Debug, PartialEq, Eq, Structural)]
pub struct Measurement {
    /// CO2 concentration in ppm.
    pub co2: u32,
    /// Relative humidity in %RH.
    pub humidity: u32,
    /// Temperature in degrees Celsius.
    pub temperature: u32,
}

/// The value of four bytes read most significant first.
pub open spec fn be_u32_value(b0: u8, b1: u8, b2: u8, b3: u8) -> int {
    b0 as int * 0x1000000 + b1 as int * 0x10000 + b2 as int * 0x100 + b3 as int
}

/// The data value of the word that starts at `start` in `buf`: the bytes at
/// relative offsets 0, 1, 3 and 4, big-endian.
pub open spec fn word_value(buf: Seq<u8>, start: int) -> int {
    be_u32_value(buf[start], buf[start + 1], buf[start + 3], buf[start + 4])
}

/// The reading that a response `buf` of `RESPONSE_LEN` bytes carries.
pub open spec fn spec_decode(buf: Seq<u8>) -> Measurement {
    Measurement {
        co2: word_value(buf, 0) as u32,
        temperature: word_value(buf, 6) as u32,
        humidity: word_value(buf, 12) as u32,
    }
}

/// Four bytes read most significant first.
pub fn be_u32(b0: u8, b1: u8, b2: u8, b3: u8) -> (r: u32)
    ensures
        r as int == be_u32_value(b0, b1, b2, b3),
{
    (b0 as u32) * 0x1000000 + (b1 as u32) * 0x10000 + (b2 as u32) * 0x100 + (b3 as u32)
}

/// The data value of one 6-byte word, its check bytes skipped.
pub fn decode_word(word: &[u8; WORD_LEN]) -> (r: u32)
    ensures
        r as int == word_value(word@, 0),
{
    be_u32(word[0], word[1], word[3], word[4])
}

/// The reading carried by a full measurement response.
pub fn decode_measurement(buf: &[u8; RESPONSE_LEN]) -> (r: Measurement)
    ensures
        r == spec_decode(buf@),
{
    Measurement {
        co2: be_u32(buf[0], buf[1], buf[3], buf[4]),
        temperature: be_u32(buf[6], buf[7], buf[9], buf[10]),
        humidity: be_u32(buf[12], buf[13], buf[15], buf[16]),
    }
}

/// Decoding the word `[b0, b1, c0, b2, b3, c1]` gives the big-endian value of
/// `b0, b1, b2, b3`, whatever the check bytes `c0` and `c1` are.
pub proof fn lemma_word_skips_check_bytes(b0: u8, b1: u8, b2: u8, b3: u8, c0: u8, c1: u8)
    ensures
        word_value(seq![b0, b1, c0, b2, b3, c1], 0) == be_u32_value(b0, b1, b2, b3),
{
}

/// Two responses that differ only in their check bytes decode to the same reading.
pub proof fn lemma_decode_ignores_check_bytes(a: Seq<u8>, b: Seq<u8>)
    requires
        a.len() == RESPONSE_LEN,
        b.len() == RESPONSE_LEN,
        forall|i: int| 0 <= i < RESPONSE_LEN && i % 3 != 2 ==> #[trigger] a[i] == b[i],
    ensures
        spec_decode(a) == spec_decode(b),
{
    assert(a[0] == b[0] && a[1] == b[1] && a[3] == b[3] && a[4] == b[4]);
    assert(a[6] == b[6] && a[7] == b[7] && a[9] == b[9] && a[10] == b[10]);
    assert(a[12] == b[12] && a[13] == b[13] && a[15] == b[15] && a[16] == b[16]);
}

} // verus!
