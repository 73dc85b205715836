use vstd::prelude::*;

verus! {

/// The zlib stream (deflate at the default level) that flate2 produces for a
/// byte sequence.
pub uninterp spec fn zlib_of(bytes: Seq<u8>) -> Seq<u8>;

/// Relies on `flate2::write::ZlibEncoder` (`new` with `Compression::default()`,
/// `write_all`, `finish`) writing into a `Vec`: the vector holds the zlib stream
/// of the input. Writing into a `Vec` does not fail, and the miniz_oxide backend
/// reports an error only for bad parameters or a failed output callback, neither
/// of which a fresh default-level encoder meets; so the result is always `Some`.
#[verifier::external_body]
pub(crate) fn zlib_compress(data: &[u8]) -> (r: Option<Vec<u8>>)
    ensures
        r is Some,
        r matches Some(v) ==> v@ == zlib_of(data@),
{
    let mut encoder = flate2::write::ZlibEncoder::new(Vec::new(), flate2::Compression::default());
    match std::io::Write::write_all(&mut encoder, data) {
        Ok(()) => encoder.finish().ok(),
        Err(_) => None,
    }
}

} // verus!
