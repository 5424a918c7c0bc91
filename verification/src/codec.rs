use vstd::prelude::*;

use crate::error::LzoError;
use crate::native::compress_into;
use crate::native::decompress_into;
use crate::native::fresh_workspace;
use crate::native::lzo1x_decoding;
use crate::native::lzo1x_encoding;

verus! {

/// Worst-case size of the compressed form of an input of `n` bytes:
/// even an incompressible input grows by at most one sixteenth plus a
/// small fixed block overhead.
pub open spec fn output_bound(n: nat) -> nat {
    n + n / 16 + 64 + 3
}

/// Capacity that is always sufficient to hold the compressed form of an
/// input of `input_size` bytes.
pub fn output_buffer_size(input_size: usize) -> (r: usize)
    requires
        input_size + input_size / 16 + 64 + 3 <= usize::MAX,
    ensures
        r == output_bound(input_size as nat),
{
    input_size + input_size / 16 + 64 + 3
}

/// Compress `input` into an LZO1X byte stream.
///
/// The output buffer is sized by `output_buffer_size` before the native
/// call, the scratch workspace is fresh and exclusively owned for this
/// one call, and the result is truncated to the bytes the compressor
/// actually wrote: exactly the encoded stream, never the working buffer.
pub fn compress(input: &[u8]) -> (r: Result<Vec<u8>, LzoError>)
    requires
        input@.len() + input@.len() / 16 + 64 + 3 <= usize::MAX,
    ensures
        r is Ok,
        r->Ok_0@ == lzo1x_encoding(input@),
        r->Ok_0@.len() <= output_bound(input@.len() as nat),
        lzo1x_decoding(lzo1x_encoding(input@)) == Some(input@),
{
    let capacity = output_buffer_size(input.len());
    let mut output: Vec<u8> = vec![0u8; capacity];
    let mut workspace = fresh_workspace();
    let (size, status) = compress_into(&mut workspace, input, &mut output);
    if status == 0 {
        output.truncate(size);
        Ok(output)
    } else {
        Err(LzoError::from_code(status))
    }
}

/// Decompress `data`, a stream produced by the LZO1X compressor, into a
/// buffer of `buffer_len` bytes.
///
/// `buffer_len` must be at least the length of the original data (the
/// stream carries no length header, so the caller supplies it); a
/// well-formed stream that needs more than `buffer_len` bytes is
/// reported as `OutputOverrun`, never written past the buffer. On
/// success the result is truncated to the bytes the decompressor
/// actually wrote.
pub fn decompress(buffer_len: usize, data: &[u8]) -> (r: Result<Vec<u8>, LzoError>)
    ensures
        r is Ok <==> (lzo1x_decoding(data@) is Some && lzo1x_decoding(data@)->0.len()
            <= buffer_len),
        r is Ok ==> r->Ok_0@ == lzo1x_decoding(data@)->0,
        (lzo1x_decoding(data@) is Some && lzo1x_decoding(data@)->0.len() > buffer_len) ==> r
            == Err::<Vec<u8>, LzoError>(LzoError::OutputOverrun),
        r is Err ==> r->Err_0 != LzoError::Success,
{
    let mut output: Vec<u8> = vec![0u8; buffer_len];
    let (size, status) = decompress_into(data, &mut output);
    if status == 0 {
        output.truncate(size);
        Ok(output)
    } else {
        Err(LzoError::from_code(status))
    }
}

/// Round-trip law: compressing any byte sequence and decompressing the
/// stream with capacity equal to the original length succeeds and yields
/// exactly the original bytes.
pub fn round_trip(input: &[u8]) -> (r: Vec<u8>)
    requires
        input@.len() + input@.len() / 16 + 64 + 3 <= usize::MAX,
    ensures
        r@ == input@,
{
    let compressed = match compress(input) {
        Ok(stream) => stream,
        Err(_) => Vec::new(),
    };
    match decompress(input.len(), compressed.as_slice()) {
        Ok(original) => original,
        Err(_) => Vec::new(),
    }
}

} // verus!
