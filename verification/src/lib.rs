//! Decoder for the fixed 48-byte network time-synchronization packet header.
//!
//! The header packs three small fields into its first byte, carries two raw
//! bytes and one signed byte, and then a run of big-endian unsigned integers:
//! three 32-bit words and four 64-bit timestamps. `NtpPacket::parse` turns a
//! byte buffer into an [`NtpPacket`] record, rejecting any buffer whose length
//! is not exactly 48 bytes. The spec functions below state the wire layout
//! field by field, and the decoder's contract ties every field of the result
//! to them.

use vstd::prelude::*;

verus! {

/// The one way decoding can fail: the buffer is not exactly 48 bytes long.
#[derive(Debug)]
pub enum NtpError {
    InvalidLength,
}

/// One decoded time-synchronization message.
///
/// Every field is a plain scalar copied or assembled from the 48-byte header;
/// no field is derived from another, and none is interpreted further (the
/// reference identifier stays an opaque 32-bit word, the timestamps stay raw
/// fixed-point values).
#[derive(Debug)]
pub struct NtpPacket {
    pub leap_indicator: u8,
    pub version: u8,
    pub mode: u8,
    pub stratum: u8,
    pub poll: u8,
    pub precision: i8,
    pub root_delay: u32,
    pub root_dispersion: u32,
    pub reference_id: u32,
    pub reference_timestamp: u64,
    pub originate_timestamp: u64,
    pub receive_timestamp: u64,
    pub transmit_timestamp: u64,
}

/// The leap indicator: bits 7 and 6 of the first header byte.
pub open spec fn leap_of(b: u8) -> u8 {
    (b >> 6) & 0x03
}

/// The protocol version: bits 5 through 3 of the first header byte.
pub open spec fn version_of(b: u8) -> u8 {
    (b >> 3) & 0x07
}

/// The association mode: bits 2 through 0 of the first header byte.
pub open spec fn mode_of(b: u8) -> u8 {
    b & 0x07
}

/// The byte reinterpreted as a signed two's-complement value: the bit
/// pattern is kept, so bytes at or above 0x80 come out negative.
pub open spec fn signed_of(b: u8) -> int {
    if b < 0x80 {
        b as int
    } else {
        b as int - 256
    }
}

/// The unsigned big-endian value of the four bytes of `s` starting at `i`:
/// the first byte is the most significant.
pub open spec fn be32_of(s: Seq<u8>, i: int) -> int
    recommends
        0 <= i,
        i + 4 <= s.len(),
{
    (s[i] as int) * 0x100_0000 + (s[i + 1] as int) * 0x1_0000 + (s[i + 2] as int) * 0x100
        + (s[i + 3] as int)
}

/// The unsigned big-endian value of the eight bytes of `s` starting at `i`:
/// the first four bytes form the high word.
pub open spec fn be64_of(s: Seq<u8>, i: int) -> int
    recommends
        0 <= i,
        i + 8 <= s.len(),
{
    be32_of(s, i) * 0x1_0000_0000 + be32_of(s, i + 4)
}

/// Every field of `p` holds exactly what the 48-byte header layout assigns
/// it over the bytes `s`: the three bit fields of byte 0, the raw bytes 1
/// and 2, the signed byte 3, and the seven big-endian words that fill bytes
/// 4 through 47 with no gap.
pub open spec fn decodes_to(s: Seq<u8>, p: NtpPacket) -> bool
    recommends
        s.len() == 48,
{
    &&& p.leap_indicator == leap_of(s[0])
    &&& p.version == version_of(s[0])
    &&& p.mode == mode_of(s[0])
    &&& p.stratum == s[1]
    &&& p.poll == s[2]
    &&& p.precision == signed_of(s[3])
    &&& p.root_delay == be32_of(s, 4)
    &&& p.root_dispersion == be32_of(s, 8)
    &&& p.reference_id == be32_of(s, 12)
    &&& p.reference_timestamp == be64_of(s, 16)
    &&& p.originate_timestamp == be64_of(s, 24)
    &&& p.receive_timestamp == be64_of(s, 32)
    &&& p.transmit_timestamp == be64_of(s, 40)
}

/// The bit fields of the first header byte stay within their widths: the
/// two-bit leap indicator never exceeds 3, the three-bit version and mode
/// never exceed 7, whatever the byte holds.
pub proof fn lemma_header_fields_in_range(b: u8)
    by (bit_vector)
    ensures
        leap_of(b) <= 3,
        version_of(b) <= 7,
        mode_of(b) <= 7,
{
}

/// Decoding is deterministic: the layout assigns each field one value, so
/// two records decoded from the same bytes agree in every field.
pub proof fn lemma_decode_deterministic(s: Seq<u8>, p1: NtpPacket, p2: NtpPacket)
    requires
        decodes_to(s, p1),
        decodes_to(s, p2),
    ensures
        p1 == p2,
{
}

/// Reads the big-endian 32-bit word at offset `i`.
fn read_be32(payload: &[u8], i: usize) -> (r: u32)
    requires
        i + 4 <= payload@.len(),
    ensures
        r == be32_of(payload@, i as int),
{
    (payload[i] as u32) * 0x100_0000 + (payload[i + 1] as u32) * 0x1_0000 + (payload[i + 2]
        as u32) * 0x100 + (payload[i + 3] as u32)
}

/// Reads the big-endian 64-bit word at offset `i`.
fn read_be64(payload: &[u8], i: usize) -> (r: u64)
    requires
        i + 8 <= payload@.len(),
        i + 8 <= usize::MAX,
    ensures
        r == be64_of(payload@, i as int),
{
    let hi: u32 = read_be32(payload, i);
    let lo: u32 = read_be32(payload, i + 4);
    (hi as u64) * 0x1_0000_0000 + (lo as u64)
}

/// Reinterprets a byte as a signed two's-complement value.
fn signed_byte(b: u8) -> (r: i8)
    ensures
        r as int == signed_of(b),
{
    if b < 0x80 {
        b as i8
    } else {
        ((b as i16) - 256) as i8
    }
}

impl NtpPacket {
    /// Decodes a 48-byte packet header.
    ///
    /// Succeeds on every buffer of exactly 48 bytes — length is the only
    /// condition checked — and then every field of the record holds what the
    /// wire layout assigns it. Any other length is rejected with
    /// [`NtpError::InvalidLength`] and no partial result. The buffer is only
    /// read; the call allocates nothing but the record.
    pub fn parse(payload: &[u8]) -> (r: Result<NtpPacket, NtpError>)
        ensures
            payload@.len() == 48 ==> (r matches Ok(p) && decodes_to(payload@, p)),
            payload@.len() != 48 ==> r == Err::<NtpPacket, NtpError>(NtpError::InvalidLength),
            r matches Ok(p) ==> p.leap_indicator <= 3 && p.version <= 7 && p.mode <= 7,
    {
        if payload.len() != 48 {
            return Err(NtpError::InvalidLength);
        }
        let b0: u8 = payload[0];
        proof {
            lemma_header_fields_in_range(b0);
        }
        Ok(
            NtpPacket {
                leap_indicator: (b0 >> 6) & 0x03,
                version: (b0 >> 3) & 0x07,
                mode: b0 & 0x07,
                stratum: payload[1],
                poll: payload[2],
                precision: signed_byte(payload[3]),
                root_delay: read_be32(payload, 4),
                root_dispersion: read_be32(payload, 8),
                reference_id: read_be32(payload, 12),
                reference_timestamp: read_be64(payload, 16),
                originate_timestamp: read_be64(payload, 24),
                receive_timestamp: read_be64(payload, 32),
                transmit_timestamp: read_be64(payload, 40),
            },
        )
    }
}

} // verus!
