//! Compression of file contents before they are handed to the transport layer.

use vstd::prelude::*;

verus! {

/// The compression level used for every file transfer. What goes out is a
/// raw DEFLATE stream, without a zlib or gzip frame; the agent inflates it.
pub const FILE_COMPRESSION_LEVEL: u8 = 6;

/// The raw DEFLATE stream that `miniz_oxide` produces for `data` at `level`.
pub uninterp spec fn deflated(data: Seq<u8>, level: u8) -> Seq<u8>;

/// Calls `miniz_oxide::deflate::compress_to_vec`.
///
/// The compressor is a deterministic function of the input bytes and the
/// level, so its output is given the name [`deflated`]. Its documentation
/// gives the levels as 0 to 10, and the contract keeps to them.
#[verifier::external_body]
pub(crate) fn deflate(data: &[u8], level: u8) -> (out: Vec<u8>)
    requires
        level <= 10,
    ensures
        out@ == deflated(data@, level),
{
    miniz_oxide::deflate::compress_to_vec(data, level)
}

} // verus!
