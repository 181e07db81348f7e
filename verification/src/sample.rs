//! Sample frames: the reply to a force/torque request, as raw counts.
//!
//! A sample frame is sixteen bytes: an unsigned 16-bit header, an unsigned
//! 16-bit status and six signed 16-bit channel readings (force x, y, z, then
//! torque x, y, z), every field big-endian. A reply may be longer; only the
//! first sixteen bytes mean anything.

use vstd::prelude::*;

verus! {

/// Number of bytes a reply must hold before it can be decoded.
pub const SAMPLE_LEN: usize = 16;

/// The unsigned number that two bytes spell, most significant byte first.
pub open spec fn be_u16(hi: u8, lo: u8) -> int {
    hi as int * 256 + lo as int
}

/// The two's complement number that two bytes spell, most significant byte
/// first: the unsigned number, less 2^16 from 2^15 on.
pub open spec fn be_i16(hi: u8, lo: u8) -> int {
    if be_u16(hi, lo) < 32768 {
        be_u16(hi, lo)
    } else {
        be_u16(hi, lo) - 65536
    }
}

/// Reads two bytes as a big-endian unsigned number.
pub fn u16_from_be(hi: u8, lo: u8) -> (value: u16)
    ensures
        value == be_u16(hi, lo),
{
    (hi as u16) * 256 + (lo as u16)
}

/// Reads two bytes as a big-endian two's complement number.
pub fn i16_from_be(hi: u8, lo: u8) -> (value: i16)
    ensures
        value == be_i16(hi, lo),
{
    let unsigned: u16 = u16_from_be(hi, lo);
    if unsigned < 32768 {
        unsigned as i16
    } else {
        (unsigned as i32 - 65536) as i16
    }
}

/// A decoded sample frame: the channel readings are still raw counts.
#[derive(Clone, Copy, Debug, PartialEq, Eq)]
pub struct RawSample {
    pub header: u16,
    pub status: u16,
    pub force_x: i16,
    pub force_y: i16,
    pub force_z: i16,
    pub torque_x: i16,
    pub torque_y: i16,
    pub torque_z: i16,
}

/// A reply was too short to hold a sample frame.
#[derive(Clone, Copy, Debug, PartialEq, Eq)]
pub struct DecodeError {
    /// Number of bytes that did arrive; always below [`SAMPLE_LEN`].
    pub received: usize,
}

impl RawSample {
    /// The sample that the first sixteen bytes of `bytes` spell.
    pub open spec fn of_bytes(bytes: Seq<u8>) -> RawSample
        recommends
            bytes.len() >= 16,
    {
        RawSample {
            header: be_u16(bytes[0], bytes[1]) as u16,
            status: be_u16(bytes[2], bytes[3]) as u16,
            force_x: be_i16(bytes[4], bytes[5]) as i16,
            force_y: be_i16(bytes[6], bytes[7]) as i16,
            force_z: be_i16(bytes[8], bytes[9]) as i16,
            torque_x: be_i16(bytes[10], bytes[11]) as i16,
            torque_y: be_i16(bytes[12], bytes[13]) as i16,
            torque_z: be_i16(bytes[14], bytes[15]) as i16,
        }
    }

    /// What decoding a reply gives: the sample spelt by its first sixteen
    /// bytes, or an error that carries the length where it has fewer.
    pub open spec fn decode_spec(bytes: Seq<u8>) -> Result<RawSample, DecodeError> {
        if bytes.len() < 16 {
            Err(DecodeError { received: bytes.len() as usize })
        } else {
            Ok(RawSample::of_bytes(bytes))
        }
    }

    /// Decodes a reply. The length is checked before any byte is read, so a
    /// short reply is refused and never yields a sample.
    pub fn decode(response: &[u8]) -> (result: Result<RawSample, DecodeError>)
        ensures
            result == RawSample::decode_spec(response@),
            result is Err <==> response@.len() < 16,
            result matches Ok(sample) ==> {
                &&& sample.header == be_u16(response@[0], response@[1])
                &&& sample.status == be_u16(response@[2], response@[3])
                &&& sample.force_x == be_i16(response@[4], response@[5])
                &&& sample.force_y == be_i16(response@[6], response@[7])
                &&& sample.force_z == be_i16(response@[8], response@[9])
                &&& sample.torque_x == be_i16(response@[10], response@[11])
                &&& sample.torque_y == be_i16(response@[12], response@[13])
                &&& sample.torque_z == be_i16(response@[14], response@[15])
            },
            result matches Err(error) ==> error.received == response@.len(),
    {
        if response.len() < SAMPLE_LEN {
            return Err(DecodeError { received: response.len() });
        }
        Ok(
            RawSample {
                header: u16_from_be(response[0], response[1]),
                status: u16_from_be(response[2], response[3]),
                force_x: i16_from_be(response[4], response[5]),
                force_y: i16_from_be(response[6], response[7]),
                force_z: i16_from_be(response[8], response[9]),
                torque_x: i16_from_be(response[10], response[11]),
                torque_y: i16_from_be(response[12], response[13]),
                torque_z: i16_from_be(response[14], response[15]),
            },
        )
    }
}

/// Two bytes and the unsigned number they spell determine each other.
pub proof fn lemma_be_u16_injective(hi: u8, lo: u8, hi2: u8, lo2: u8)
    ensures
        0 <= be_u16(hi, lo) <= u16::MAX,
        be_u16(hi, lo) == be_u16(hi2, lo2) <==> hi == hi2 && lo == lo2,
{
}

/// Two bytes and the signed number they spell determine each other.
pub proof fn lemma_be_i16_injective(hi: u8, lo: u8, hi2: u8, lo2: u8)
    ensures
        i16::MIN <= be_i16(hi, lo) <= i16::MAX,
        be_i16(hi, lo) == be_i16(hi2, lo2) <==> hi == hi2 && lo == lo2,
{
}

/// Exactly the first sixteen bytes of a reply are meaningful: two replies
/// of sufficient length decode to the same sample if and only if they agree
/// on their first sixteen bytes.
pub proof fn lemma_sample_is_first_sixteen_bytes(a: Seq<u8>, b: Seq<u8>)
    requires
        a.len() >= 16,
        b.len() >= 16,
    ensures
        RawSample::of_bytes(a) == RawSample::of_bytes(b) <==> a.subrange(0, 16) == b.subrange(
            0,
            16,
        ),
{
    let left = a.subrange(0, 16);
    let right = b.subrange(0, 16);
    if RawSample::of_bytes(a) == RawSample::of_bytes(b) {
        lemma_be_u16_injective(a[0], a[1], b[0], b[1]);
        lemma_be_u16_injective(a[2], a[3], b[2], b[3]);
        lemma_be_i16_injective(a[4], a[5], b[4], b[5]);
        lemma_be_i16_injective(a[6], a[7], b[6], b[7]);
        lemma_be_i16_injective(a[8], a[9], b[8], b[9]);
        lemma_be_i16_injective(a[10], a[11], b[10], b[11]);
        lemma_be_i16_injective(a[12], a[13], b[12], b[13]);
        lemma_be_i16_injective(a[14], a[15], b[14], b[15]);
        assert(left =~= right);
    }
    if left == right {
        assert forall|i: int| 0 <= i < 16 implies a[i] == b[i] by {
            assert(left[i] == a[i]);
            assert(right[i] == b[i]);
        }
    }
}

} // verus!
