use vstd::prelude::*;
use crate::checksum::{crc32, crc32_of};

verus! {

/// Largest data length that a chunk's 32-bit length field can declare.
pub const MAX_CHUNK_DATA: usize = 0xffff_ffff;

/// Why a PNG could not be encoded.
#[derive(Clone, Copy, Debug, PartialEq, Eq, Structural)]
pub enum EncodeError {
    /// A chunk's data is longer than its 32-bit length field can declare.
    ChunkTooLarge,
    /// The zlib encoder gave no stream; `encode_png` never returns this, since
    /// the encoder's contract says it always gives one.
    Compression,
}

/// The four big-endian bytes of `n`.
pub open spec fn be32(n: u32) -> Seq<u8> {
    seq![
        (n / 0x100_0000) as u8,
        (n / 0x1_0000 % 0x100) as u8,
        (n / 0x100 % 0x100) as u8,
        (n % 0x100) as u8,
    ]
}

/// The number that four bytes denote, most significant first.
pub open spec fn read_be32(s: Seq<u8>) -> nat {
    (s[0] as nat) * 0x100_0000 + (s[1] as nat) * 0x1_0000 + (s[2] as nat) * 0x100 + (s[3] as nat)
}

/// One complete chunk: data length, type tag, data, and the CRC-32 of tag and data.
pub open spec fn chunk_bytes(tag: Seq<u8>, data: Seq<u8>) -> Seq<u8> {
    be32(data.len() as u32) + tag + data + be32(crc32_of(tag + data))
}

/// A chunk as a reader finds it: declared length, tag, data and stored CRC.
pub struct ChunkRecord {
    pub length: nat,
    pub tag: Seq<u8>,
    pub data: Seq<u8>,
    pub crc: nat,
}

/// The record that reading `chunk_bytes(tag, data)` should give.
pub open spec fn record_of(tag: Seq<u8>, data: Seq<u8>) -> ChunkRecord {
    ChunkRecord { length: data.len(), tag, data, crc: crc32_of(tag + data) as nat }
}

/// The declared length matches the data and the stored CRC is that of tag and data.
pub open spec fn record_is_sound(c: ChunkRecord) -> bool {
    c.length == c.data.len() && c.crc == crc32_of(c.tag + c.data) as nat
}

/// Reads a chunk stream: each chunk's 4-byte length decides where its data
/// ends and its CRC begins. `None` when a chunk runs past the end.
#[verifier::opaque]
pub open spec fn read_chunks(s: Seq<u8>) -> Option<Seq<ChunkRecord>>
    decreases s.len(),
{
    if s.len() == 0 {
        Some(Seq::empty())
    } else if s.len() < 12 {
        None
    } else {
        let length = read_be32(s.subrange(0, 4));
        if s.len() < 12 + length {
            None
        } else {
            let record = ChunkRecord {
                length,
                tag: s.subrange(4, 8),
                data: s.subrange(8, 8 + length as int),
                crc: read_be32(s.subrange(8 + length as int, 12 + length as int)),
            };
            match read_chunks(s.subrange(12 + length as int, s.len() as int)) {
                Some(rest) => Some(seq![record] + rest),
                None => None,
            }
        }
    }
}

/// Reading a chunk written by `chunk_bytes` gives back its record, then reads on.
pub proof fn lemma_read_chunk(tag: Seq<u8>, data: Seq<u8>, rest: Seq<u8>)
    requires
        tag.len() == 4,
        data.len() <= MAX_CHUNK_DATA,
    ensures
        read_chunks(chunk_bytes(tag, data) + rest) == match read_chunks(rest) {
            Some(cs) => Some(seq![record_of(tag, data)] + cs),
            None => None::<Seq<ChunkRecord>>,
        },
{
    reveal(read_chunks);
    let s = chunk_bytes(tag, data) + rest;
    let n = data.len();
    lemma_read_be32(n as u32);
    lemma_read_be32(crc32_of(tag + data));
    assert(s.subrange(0, 4) =~= be32(n as u32));
    assert(s.subrange(4, 8) =~= tag);
    assert(s.subrange(8, 8 + n as int) =~= data);
    assert(s.subrange(8 + n as int, 12 + n as int) =~= be32(crc32_of(tag + data)));
    assert(s.subrange(12 + n as int, s.len() as int) =~= rest);
}

/// Reading back the big-endian bytes of `n` gives `n`.
pub proof fn lemma_read_be32(n: u32)
    ensures
        read_be32(be32(n)) == n,
{
    let s = be32(n);
    assert(s[0] as nat == n / 0x100_0000);
    assert(s[1] as nat == n / 0x1_0000 % 0x100);
    assert(s[2] as nat == n / 0x100 % 0x100);
    assert(s[3] as nat == n % 0x100);
    assert((n / 0x100_0000) * 0x100_0000 + (n / 0x1_0000 % 0x100) * 0x1_0000
        + (n / 0x100 % 0x100) * 0x100 + n % 0x100 == n) by (nonlinear_arith);
}

/// Appends `bytes` to `out`.
pub fn append_bytes(out: &mut Vec<u8>, bytes: &[u8])
    ensures
        final(out)@ == old(out)@ + bytes@,
{
    let ghost start = out@;
    let mut i: usize = 0;
    while i < bytes.len()
        invariant
            i <= bytes@.len(),
            out@ == start + bytes@.subrange(0, i as int),
        decreases bytes@.len() - i,
    {
        out.push(bytes[i]);
        i = i + 1;
        assert(out@ =~= start + bytes@.subrange(0, i as int));
    }
    assert(bytes@.subrange(0, i as int) =~= bytes@);
}

/// Appends the big-endian bytes of `n` to `out`.
pub fn push_be32(out: &mut Vec<u8>, n: u32)
    ensures
        final(out)@ == old(out)@ + be32(n),
{
    out.push((n / 0x100_0000) as u8);
    out.push((n / 0x1_0000 % 0x100) as u8);
    out.push((n / 0x100 % 0x100) as u8);
    out.push((n % 0x100) as u8);
    assert(out@ =~= old(out)@ + be32(n));
}

/// Appends one chunk with the given tag and data to `out`; fails, leaving `out`
/// as it was, when the data is too long for the length field.
pub fn write_chunk(out: &mut Vec<u8>, tag: &[u8; 4], data: &[u8]) -> (r: Result<(), EncodeError>)
    ensures
        data@.len() <= MAX_CHUNK_DATA ==> r is Ok && final(out)@ == old(out)@ + chunk_bytes(tag@, data@),
        data@.len() > MAX_CHUNK_DATA ==> r == Err::<(), EncodeError>(EncodeError::ChunkTooLarge)
            && final(out)@ == old(out)@,
{
    if data.len() > MAX_CHUNK_DATA {
        return Err(EncodeError::ChunkTooLarge);
    }
    let length = data.len() as u32;
    let mut covered: Vec<u8> = Vec::new();
    append_bytes(&mut covered, tag.as_slice());
    append_bytes(&mut covered, data);
    let crc = crc32(covered.as_slice());
    push_be32(out, length);
    append_bytes(out, tag.as_slice());
    append_bytes(out, data);
    push_be32(out, crc);
    assert(out@ =~= old(out)@ + chunk_bytes(tag@, data@));
    Ok(())
}

} // verus!
