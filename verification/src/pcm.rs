//! Signed 16-bit little-endian PCM: the bytes of samples, and samples from
//! bytes.

use vstd::prelude::*;
use byteorder::{ByteOrder, LittleEndian};
use crate::params::CHUNK_SIZE;

verus! {

/// The sample whose little-endian bytes are `lo`, `hi`.
pub open spec fn sample_of(lo: u8, hi: u8) -> int {
    if hi < 128 {
        hi * 256 + lo
    } else {
        hi * 256 + lo - 65536
    }
}

/// The low byte of a sample.
pub open spec fn low_byte(sample: i16) -> int {
    (if sample < 0 {
        sample + 65536
    } else {
        sample as int
    }) % 256
}

/// The high byte of a sample.
pub open spec fn high_byte(sample: i16) -> int {
    (if sample < 0 {
        sample + 65536
    } else {
        sample as int
    }) / 256
}

/// The little-endian bytes of a run of samples, two for each.
pub open spec fn bytes_of(pcm: Seq<i16>) -> Seq<u8> {
    Seq::new(
        2 * pcm.len(),
        |i: int|
            if i % 2 == 0 {
                low_byte(pcm[i / 2]) as u8
            } else {
                high_byte(pcm[i / 2]) as u8
            },
    )
}

/// `byteorder::LittleEndian::read_i16` on a buffer of the two bytes: the
/// 16-bit value with `lo` as its low and `hi` as its high byte, read as a
/// signed number.
#[verifier::external_body]
fn read_le(lo: u8, hi: u8) -> (sample: i16)
    ensures
        sample == sample_of(lo, hi),
{
    LittleEndian::read_i16(&[lo, hi])
}

/// `byteorder::LittleEndian::write_i16` into a buffer of two bytes: the low
/// byte of the sample's 16-bit pattern comes first, the high byte second.
#[verifier::external_body]
fn write_le(sample: i16) -> (bytes: [u8; 2])
    ensures
        bytes[0] == low_byte(sample),
        bytes[1] == high_byte(sample),
{
    let mut bytes = [0u8; 2];
    LittleEndian::write_i16(&mut bytes, sample);
    bytes
}

/// The sample that a decoder delivered as the bytes `lo`, `hi`.
pub fn decode_sample(lo: u8, hi: u8) -> (sample: i16)
    ensures
        sample == sample_of(lo, hi),
        low_byte(sample) == lo,
        high_byte(sample) == hi,
{
    read_le(lo, hi)
}

/// The output bytes of a run of samples.
pub fn encode_samples(pcm: &Vec<i16>) -> (bytes: Vec<u8>)
    requires
        2 * pcm@.len() <= usize::MAX,
    ensures
        bytes@ == bytes_of(pcm@),
        bytes@.len() == 2 * pcm@.len(),
{
    let mut bytes: Vec<u8> = Vec::new();
    let n = pcm.len();
    let mut i: usize = 0;
    while i < n
        invariant
            n == pcm@.len(),
            i <= n,
            bytes@ == bytes_of(pcm@.subrange(0, i as int)),
        decreases n - i,
    {
        let pair = write_le(pcm[i]);
        bytes.push(pair[0]);
        bytes.push(pair[1]);
        i = i + 1;
        assert(bytes@ =~= bytes_of(pcm@.subrange(0, i as int)));
    }
    assert(pcm@.subrange(0, n as int) =~= pcm@);
    bytes
}

/// The output bytes of one chunk of silence.
pub fn silent_chunk() -> (bytes: Vec<u8>)
    ensures
        bytes@.len() == 2 * CHUNK_SIZE,
        forall|i: int| 0 <= i < bytes@.len() ==> bytes@[i] == 0,
{
    let mut bytes: Vec<u8> = Vec::new();
    let mut i: usize = 0;
    while i < CHUNK_SIZE
        invariant
            i <= CHUNK_SIZE,
            bytes@.len() == 2 * i,
            forall|k: int| 0 <= k < bytes@.len() ==> bytes@[k] == 0,
        decreases CHUNK_SIZE - i,
    {
        let pair = write_le(0i16);
        bytes.push(pair[0]);
        bytes.push(pair[1]);
        i = i + 1;
    }
    bytes
}

} // verus!
