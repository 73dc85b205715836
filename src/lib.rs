//! Encoding of a single Display P3 pixel as a minimal PNG file.
//!
//! The pixel arrives as integer samples already quantized to the chosen bit
//! depth; this crate frames them into the PNG chunk stream (signature, `IHDR`,
//! `cICP`, `IDAT`, `IEND`) with CRC-32 trailers and zlib-compressed pixel data.

pub mod checksum;
pub mod chunk;
pub mod deflate;
pub mod depth;
pub mod png;

pub use chunk::{write_chunk, EncodeError};
pub use depth::BitDepth;
pub use png::{assemble_png, color_space_data, encode_png, header_data, push_sample, raw_scanline, Pixel};
