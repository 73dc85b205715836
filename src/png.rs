use vstd::prelude::*;
use crate::chunk::{
    be32, chunk_bytes, lemma_read_chunk, push_be32, read_chunks, record_is_sound, record_of,
    write_chunk, ChunkRecord, EncodeError, MAX_CHUNK_DATA,
};
use crate::deflate::{zlib_compress, zlib_of};
use crate::depth::BitDepth;

verus! {

/// `cICP` colour primaries code of Display P3.
pub const CICP_PRIMARIES_DISPLAY_P3: u8 = 12;
/// `cICP` transfer characteristics code of the sRGB transfer function.
pub const CICP_TRANSFER_SRGB: u8 = 13;
/// `cICP` matrix coefficients code for RGB (identity).
pub const CICP_MATRIX_IDENTITY: u8 = 0;
/// `cICP` flag for full-range samples.
pub const CICP_FULL_RANGE: u8 = 1;

/// One pixel as integer samples at the image's bit depth.
#[derive(Clone, Copy, Debug, PartialEq, Eq, Structural)]
pub struct Pixel {
    pub r: u16,
    pub g: u16,
    pub b: u16,
    pub a: u16,
}

impl Pixel {
    /// Every sample that will be written is within the range of `depth`.
    pub open spec fn fits(self, depth: BitDepth, include_alpha: bool) -> bool {
        &&& self.r <= depth.max_sample()
        &&& self.g <= depth.max_sample()
        &&& self.b <= depth.max_sample()
        &&& include_alpha ==> self.a <= depth.max_sample()
    }
}

/// The eight bytes every PNG file starts with.
pub open spec fn png_signature() -> Seq<u8> {
    seq![0x89u8, 0x50, 0x4e, 0x47, 0x0d, 0x0a, 0x1a, 0x0a]
}

/// The chunk tag `IHDR` in ASCII.
pub open spec fn tag_ihdr() -> Seq<u8> {
    seq![0x49u8, 0x48, 0x44, 0x52]
}

/// The chunk tag `cICP` in ASCII.
pub open spec fn tag_cicp() -> Seq<u8> {
    seq![0x63u8, 0x49, 0x43, 0x50]
}

/// The chunk tag `IDAT` in ASCII.
pub open spec fn tag_idat() -> Seq<u8> {
    seq![0x49u8, 0x44, 0x41, 0x54]
}

/// The chunk tag `IEND` in ASCII.
pub open spec fn tag_iend() -> Seq<u8> {
    seq![0x49u8, 0x45, 0x4e, 0x44]
}

/// PNG colour type: 2 for truecolour, 6 for truecolour with alpha.
pub open spec fn color_type(include_alpha: bool) -> u8 {
    if include_alpha { 6 } else { 2 }
}

/// `IHDR` data of a 1x1 image: width, height, bit depth, colour type, then
/// compression, filter and interlace methods, all zero.
pub open spec fn ihdr_data(depth: BitDepth, include_alpha: bool) -> Seq<u8> {
    be32(1) + be32(1) + seq![depth.bits(), color_type(include_alpha), 0u8, 0u8, 0u8]
}

/// `cICP` data: Display P3 primaries, sRGB transfer, identity matrix, full range.
pub open spec fn cicp_data() -> Seq<u8> {
    seq![CICP_PRIMARIES_DISPLAY_P3, CICP_TRANSFER_SRGB, CICP_MATRIX_IDENTITY, CICP_FULL_RANGE]
}

/// The bytes of one sample: one byte at depth 8, two big-endian bytes at depth 16.
pub open spec fn sample_bytes(sample: u16, depth: BitDepth) -> Seq<u8> {
    match depth {
        BitDepth::Eight => seq![sample as u8],
        BitDepth::Sixteen => seq![(sample / 0x100) as u8, (sample % 0x100) as u8],
    }
}

/// The single scanline: filter type 0, then R, G, B and, with alpha, A.
pub open spec fn scanline(depth: BitDepth, include_alpha: bool, pixel: Pixel) -> Seq<u8> {
    seq![0u8] + sample_bytes(pixel.r, depth) + sample_bytes(pixel.g, depth) + sample_bytes(
        pixel.b,
        depth,
    ) + if include_alpha {
        sample_bytes(pixel.a, depth)
    } else {
        Seq::empty()
    }
}

/// The whole file around the given compressed pixel data.
pub open spec fn png_file(depth: BitDepth, include_alpha: bool, compressed: Seq<u8>) -> Seq<u8> {
    png_signature() + chunk_bytes(tag_ihdr(), ihdr_data(depth, include_alpha)) + chunk_bytes(
        tag_cicp(),
        cicp_data(),
    ) + chunk_bytes(tag_idat(), compressed) + chunk_bytes(tag_iend(), Seq::empty())
}

/// Reads a PNG file: the signature, then its chunk stream.
pub open spec fn read_png(s: Seq<u8>) -> Option<Seq<ChunkRecord>> {
    if s.len() >= 8 && s.subrange(0, 8) == png_signature() {
        read_chunks(s.subrange(8, s.len() as int))
    } else {
        None
    }
}

/// The four chunks of an encoded file, in order.
pub open spec fn png_records(depth: BitDepth, include_alpha: bool, compressed: Seq<u8>) -> Seq<
    ChunkRecord,
> {
    seq![
        record_of(tag_ihdr(), ihdr_data(depth, include_alpha)),
        record_of(tag_cicp(), cicp_data()),
        record_of(tag_idat(), compressed),
        record_of(tag_iend(), Seq::empty()),
    ]
}

/// Framing round trip: reading an encoded file back chunk by chunk, by each
/// chunk's declared length, consumes the file exactly and yields the `IHDR`,
/// `cICP`, `IDAT` and `IEND` chunks that were written; in every one the
/// declared length equals the data length and the stored CRC equals the CRC-32
/// recomputed over tag and data.
pub proof fn lemma_png_framing_round_trip(
    depth: BitDepth,
    include_alpha: bool,
    compressed: Seq<u8>,
)
    requires
        compressed.len() <= MAX_CHUNK_DATA,
    ensures
        read_png(png_file(depth, include_alpha, compressed)) == Some(
            png_records(depth, include_alpha, compressed),
        ),
        forall|i: int|
            0 <= i < 4 ==> record_is_sound(#[trigger] png_records(depth, include_alpha, compressed)[i]),
{
    let ihdr = chunk_bytes(tag_ihdr(), ihdr_data(depth, include_alpha));
    let cicp = chunk_bytes(tag_cicp(), cicp_data());
    let idat = chunk_bytes(tag_idat(), compressed);
    let iend = chunk_bytes(tag_iend(), Seq::empty());
    let recs = png_records(depth, include_alpha, compressed);
    let file = png_file(depth, include_alpha, compressed);
    assert(read_chunks(Seq::empty()) == Some(Seq::<ChunkRecord>::empty())) by {
        reveal(read_chunks);
    }
    lemma_read_chunk(tag_iend(), Seq::empty(), Seq::empty());
    assert(iend + Seq::<u8>::empty() =~= iend);
    let s3 = seq![recs[3]];
    assert(read_chunks(iend) == Some(s3)) by {
        assert(s3 + Seq::<ChunkRecord>::empty() =~= s3);
    }
    lemma_read_chunk(tag_idat(), compressed, iend);
    let s2 = seq![recs[2]] + s3;
    assert(read_chunks(idat + iend) == Some(s2));
    lemma_read_chunk(tag_cicp(), cicp_data(), idat + iend);
    let s1 = seq![recs[1]] + s2;
    assert(read_chunks(cicp + (idat + iend)) == Some(s1));
    lemma_read_chunk(tag_ihdr(), ihdr_data(depth, include_alpha), cicp + (idat + iend));
    let s0 = seq![recs[0]] + s1;
    assert(read_chunks(ihdr + (cicp + (idat + iend))) == Some(s0));
    assert(s0 =~= recs);
    assert(file.subrange(0, 8) =~= png_signature());
    assert(file.subrange(8, file.len() as int) =~= ihdr + (cicp + (idat + iend)));
}

/// Appends the bytes of one sample to `buf`.
pub fn push_sample(buf: &mut Vec<u8>, sample: u16, depth: BitDepth)
    requires
        sample <= depth.max_sample(),
    ensures
        final(buf)@ == old(buf)@ + sample_bytes(sample, depth),
{
    match depth {
        BitDepth::Eight => {
            buf.push(sample as u8);
        },
        BitDepth::Sixteen => {
            buf.push((sample / 0x100) as u8);
            buf.push((sample % 0x100) as u8);
        },
    }
    assert(buf@ =~= old(buf)@ + sample_bytes(sample, depth));
}

/// The unfiltered scanline of the pixel, before compression.
pub fn raw_scanline(depth: BitDepth, include_alpha: bool, pixel: Pixel) -> (r: Vec<u8>)
    requires
        pixel.fits(depth, include_alpha),
    ensures
        r@ == scanline(depth, include_alpha, pixel),
        r@.len() == 1 + (if include_alpha { 4 } else { 3nat }) * depth.sample_width(),
{
    let mut raw: Vec<u8> = Vec::new();
    raw.push(0);
    push_sample(&mut raw, pixel.r, depth);
    push_sample(&mut raw, pixel.g, depth);
    push_sample(&mut raw, pixel.b, depth);
    if include_alpha {
        push_sample(&mut raw, pixel.a, depth);
    }
    assert(raw@ =~= scanline(depth, include_alpha, pixel));
    raw
}

/// The `IHDR` data for a 1x1 image.
pub fn header_data(depth: BitDepth, include_alpha: bool) -> (r: Vec<u8>)
    ensures
        r@ == ihdr_data(depth, include_alpha),
{
    let color: u8 = if include_alpha { 6 } else { 2 };
    let mut ihdr: Vec<u8> = Vec::new();
    push_be32(&mut ihdr, 1);
    push_be32(&mut ihdr, 1);
    ihdr.push(depth.as_u8());
    ihdr.push(color);
    ihdr.push(0);
    ihdr.push(0);
    ihdr.push(0);
    assert(ihdr@ =~= ihdr_data(depth, include_alpha));
    ihdr
}

/// The `cICP` data tagging the pixel as Display P3 with the sRGB transfer.
pub fn color_space_data() -> (r: Vec<u8>)
    ensures
        r@ == cicp_data(),
{
    let mut cicp: Vec<u8> = Vec::new();
    cicp.push(CICP_PRIMARIES_DISPLAY_P3);
    cicp.push(CICP_TRANSFER_SRGB);
    cicp.push(CICP_MATRIX_IDENTITY);
    cicp.push(CICP_FULL_RANGE);
    assert(cicp@ =~= cicp_data());
    cicp
}

/// The complete file around `compressed`, the zlib stream of the scanline.
/// Fails only when `compressed` is too long for a chunk.
pub fn assemble_png(depth: BitDepth, include_alpha: bool, compressed: &[u8]) -> (r: Result<
    Vec<u8>,
    EncodeError,
>)
    ensures
        compressed@.len() <= MAX_CHUNK_DATA ==> (r matches Ok(v) && v@ == png_file(
            depth,
            include_alpha,
            compressed@,
        )),
        compressed@.len() > MAX_CHUNK_DATA ==> r == Err::<Vec<u8>, EncodeError>(
            EncodeError::ChunkTooLarge,
        ),
{
    let mut out: Vec<u8> = Vec::new();
    out.push(0x89);
    out.push(0x50);
    out.push(0x4e);
    out.push(0x47);
    out.push(0x0d);
    out.push(0x0a);
    out.push(0x1a);
    out.push(0x0a);
    assert(out@ =~= png_signature());

    let ihdr = header_data(depth, include_alpha);
    let tag: [u8; 4] = [0x49, 0x48, 0x44, 0x52];
    assert(tag@ =~= tag_ihdr());
    let r1 = write_chunk(&mut out, &tag, ihdr.as_slice());
    assert(r1 is Ok);

    let cicp = color_space_data();
    let tag: [u8; 4] = [0x63, 0x49, 0x43, 0x50];
    assert(tag@ =~= tag_cicp());
    let r2 = write_chunk(&mut out, &tag, cicp.as_slice());
    assert(r2 is Ok);

    let tag: [u8; 4] = [0x49, 0x44, 0x41, 0x54];
    assert(tag@ =~= tag_idat());
    match write_chunk(&mut out, &tag, compressed) {
        Ok(()) => {},
        Err(e) => {
            return Err(e);
        },
    }

    let empty: Vec<u8> = Vec::new();
    let tag: [u8; 4] = [0x49, 0x45, 0x4e, 0x44];
    assert(tag@ =~= tag_iend());
    let r4 = write_chunk(&mut out, &tag, empty.as_slice());
    assert(r4 is Ok);
    assert(empty@ =~= Seq::<u8>::empty());
    Ok(out)
}

/// Encodes the pixel as a complete 1x1 PNG file. On success the bytes are the
/// file around the zlib stream of the pixel's scanline. The call fails, with
/// `ChunkTooLarge`, exactly when that stream cannot fit a chunk.
pub fn encode_png(depth: BitDepth, include_alpha: bool, pixel: Pixel) -> (r: Result<
    Vec<u8>,
    EncodeError,
>)
    requires
        pixel.fits(depth, include_alpha),
    ensures
        r matches Ok(v) ==> v@ == png_file(
            depth,
            include_alpha,
            zlib_of(scanline(depth, include_alpha, pixel)),
        ),
        r == Err::<Vec<u8>, EncodeError>(EncodeError::ChunkTooLarge) ==> zlib_of(
            scanline(depth, include_alpha, pixel),
        ).len() > MAX_CHUNK_DATA,
        zlib_of(scanline(depth, include_alpha, pixel)).len() > MAX_CHUNK_DATA ==> r is Err,
        zlib_of(scanline(depth, include_alpha, pixel)).len() <= MAX_CHUNK_DATA ==> r is Ok,
        r is Err ==> r == Err::<Vec<u8>, EncodeError>(EncodeError::ChunkTooLarge),
{
    let raw = raw_scanline(depth, include_alpha, pixel);
    match zlib_compress(raw.as_slice()) {
        Some(compressed) => assemble_png(depth, include_alpha, compressed.as_slice()),
        None => Err(EncodeError::Compression),
    }
}

} // verus!
