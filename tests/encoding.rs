use std::io::Read;

use oklch_pixel::{
    assemble_png, color_space_data, encode_png, header_data, push_sample, raw_scanline,
    write_chunk, BitDepth, Pixel,
};

struct Chunk {
    length: u32,
    tag: [u8; 4],
    data: Vec<u8>,
    crc: u32,
}

fn be32(b: &[u8]) -> u32 {
    u32::from_be_bytes([b[0], b[1], b[2], b[3]])
}

/// Reads a PNG back chunk by chunk, panicking on a malformed stream.
fn read_png(bytes: &[u8]) -> Vec<Chunk> {
    assert_eq!(&bytes[..8], &[0x89, b'P', b'N', b'G', 0x0D, 0x0A, 0x1A, 0x0A]);
    let mut pos = 8;
    let mut chunks = Vec::new();
    while pos < bytes.len() {
        let length = be32(&bytes[pos..]);
        let n = length as usize;
        assert!(pos + 12 + n <= bytes.len());
        let tag = [bytes[pos + 4], bytes[pos + 5], bytes[pos + 6], bytes[pos + 7]];
        let data = bytes[pos + 8..pos + 8 + n].to_vec();
        let crc = be32(&bytes[pos + 8 + n..]);
        chunks.push(Chunk { length, tag, data, crc });
        pos += 12 + n;
    }
    assert_eq!(pos, bytes.len());
    chunks
}

fn inflate(data: &[u8]) -> Vec<u8> {
    let mut out = Vec::new();
    flate2::read::ZlibDecoder::new(data).read_to_end(&mut out).unwrap();
    out
}

fn quantize(value: f64, max: f64) -> u16 {
    (value.clamp(0.0, 1.0) * max).round() as u16
}

fn scanline_of(depth: BitDepth, include_alpha: bool, pixel: Pixel) -> Vec<u8> {
    let file = encode_png(depth, include_alpha, pixel).unwrap();
    let chunks = read_png(&file);
    inflate(&chunks[2].data)
}

#[test]
fn bit_depth_as_u8() {
    assert_eq!(BitDepth::Eight.as_u8(), 8);
    assert_eq!(BitDepth::Sixteen.as_u8(), 16);
}

#[test]
fn framing_round_trip_every_chunk() {
    for depth in [BitDepth::Eight, BitDepth::Sixteen] {
        for include_alpha in [false, true] {
            let pixel = Pixel { r: 10, g: 200, b: 255, a: 128 };
            let file = encode_png(depth, include_alpha, pixel).unwrap();
            let chunks = read_png(&file);
            let tags: Vec<&[u8; 4]> = chunks.iter().map(|c| &c.tag).collect();
            assert_eq!(tags, vec![b"IHDR", b"cICP", b"IDAT", b"IEND"]);
            for c in &chunks {
                assert_eq!(c.length as usize, c.data.len());
                let mut covered = c.tag.to_vec();
                covered.extend_from_slice(&c.data);
                assert_eq!(c.crc, crc32fast::hash(&covered));
            }
        }
    }
}

#[test]
fn header_chunk_fields() {
    assert_eq!(header_data(BitDepth::Eight, false), vec![0, 0, 0, 1, 0, 0, 0, 1, 8, 2, 0, 0, 0]);
    assert_eq!(header_data(BitDepth::Sixteen, true), vec![0, 0, 0, 1, 0, 0, 0, 1, 16, 6, 0, 0, 0]);
}

#[test]
fn color_space_chunk_fields() {
    assert_eq!(color_space_data(), vec![12, 13, 0, 1]);
}

#[test]
fn iend_chunk_has_standard_crc() {
    let mut out = vec![7u8];
    write_chunk(&mut out, b"IEND", &[]).unwrap();
    assert_eq!(out, vec![7, 0, 0, 0, 0, b'I', b'E', b'N', b'D', 0xAE, 0x42, 0x60, 0x82]);
}

#[test]
fn chunk_layout_with_data() {
    let mut out = Vec::new();
    write_chunk(&mut out, b"cICP", &[12, 13, 0, 1]).unwrap();
    assert_eq!(&out[..8], &[0, 0, 0, 4, b'c', b'I', b'C', b'P']);
    assert_eq!(&out[8..12], &[12, 13, 0, 1]);
    assert_eq!(be32(&out[12..]), crc32fast::hash(b"cICP\x0c\x0d\x00\x01"));
    assert_eq!(out.len(), 16);
}

#[test]
fn push_sample_widths() {
    let mut buf = vec![0u8];
    push_sample(&mut buf, 200, BitDepth::Eight);
    push_sample(&mut buf, 0xABCD, BitDepth::Sixteen);
    assert_eq!(buf, vec![0, 200, 0xAB, 0xCD]);
}

#[test]
fn white_pixel_bytes() {
    let white = Pixel { r: 255, g: 255, b: 255, a: 255 };
    assert_eq!(raw_scanline(BitDepth::Eight, false, white), vec![0, 255, 255, 255]);
    assert_eq!(scanline_of(BitDepth::Eight, false, white), vec![0, 255, 255, 255]);
}

#[test]
fn black_pixel_bytes() {
    let black = Pixel { r: 0, g: 0, b: 0, a: 255 };
    assert_eq!(scanline_of(BitDepth::Eight, false, black), vec![0, 0, 0, 0]);
}

#[test]
fn alpha_half_is_rgba_with_128() {
    let alpha = quantize(0.5, 255.0);
    assert_eq!(alpha, 128);
    let pixel = Pixel { r: 10, g: 20, b: 30, a: alpha };
    let file = encode_png(BitDepth::Eight, true, pixel).unwrap();
    let chunks = read_png(&file);
    assert_eq!(chunks[0].data[9], 6);
    assert_eq!(inflate(&chunks[2].data), vec![0, 10, 20, 30, 128]);
}

#[test]
fn sixteen_bit_doubles_sample_bytes() {
    let (r, g, b) = (1.0, 0.25, 0.0);
    let p8 = Pixel { r: quantize(r, 255.0), g: quantize(g, 255.0), b: quantize(b, 255.0), a: 0 };
    let p16 = Pixel {
        r: quantize(r, 65535.0),
        g: quantize(g, 65535.0),
        b: quantize(b, 65535.0),
        a: 0,
    };
    let s8 = scanline_of(BitDepth::Eight, false, p8);
    let s16 = scanline_of(BitDepth::Sixteen, false, p16);
    assert_eq!(s8, vec![0, 255, 64, 0]);
    assert_eq!(s16, vec![0, 0xFF, 0xFF, 0x40, 0x00, 0x00, 0x00]);
    assert_eq!(s16.len() - 1, 2 * (s8.len() - 1));
}

#[test]
fn idat_holds_compressed_scanline() {
    let pixel = Pixel { r: 1, g: 2, b: 3, a: 0 };
    let raw = raw_scanline(BitDepth::Eight, false, pixel);
    let file = encode_png(BitDepth::Eight, false, pixel).unwrap();
    let chunks = read_png(&file);
    assert_ne!(chunks[2].data, raw);
    assert_eq!(inflate(&chunks[2].data), raw);
}

#[test]
fn assemble_wraps_given_stream() {
    let file = assemble_png(BitDepth::Sixteen, false, &[1, 2, 3]).unwrap();
    let chunks = read_png(&file);
    assert_eq!(chunks.len(), 4);
    assert_eq!(chunks[2].data, vec![1, 2, 3]);
    assert_eq!(chunks[0].data[8], 16);
    assert_eq!(chunks[3].length, 0);
    assert_eq!(file.len(), 8 + 25 + 16 + 15 + 12);
}

#[test]
fn idat_starts_with_zlib_header() {
    let pixel = Pixel { r: 255, g: 0, b: 0, a: 128 };
    let file = encode_png(BitDepth::Eight, true, pixel).unwrap();
    let chunks = read_png(&file);
    assert_eq!(chunks[0].data[9], 6);
    assert_eq!(&chunks[2].data[..2], &[0x78, 0x9C]);
    assert_eq!(inflate(&chunks[2].data), vec![0, 255, 0, 0, 128]);
}
