use vstd::prelude::*;

verus! {

/// The byte stream the native LZO1X-1 compressor produces for a given
/// input. The compressor zeroes its dictionary before every block, so
/// the stream depends on the input bytes alone.
pub uninterp spec fn lzo1x_encoding(input: Seq<u8>) -> Seq<u8>;

/// What a compressed stream decodes to under the native bounds-checked
/// decompressor: `Some(bytes)` exactly when the decompressor accepts the
/// stream given enough output capacity, `None` when it rejects the
/// stream at every capacity.
pub uninterp spec fn lzo1x_decoding(data: Seq<u8>) -> Option<Seq<u8>>;

#[verifier::external_type_specification]
#[verifier::external_body]
pub struct ExLzoContext(rust_lzo::LZOContext);

/// Relies on rust_lzo::LZOContext::new: allocates the fixed-size scratch
/// workspace (LZO1X_1_MEM_COMPRESS bytes) that one in-flight compress
/// call owns exclusively; the context carries no other state.
#[verifier::external_body]
pub(crate) fn fresh_workspace() -> rust_lzo::LZOContext {
    rust_lzo::LZOContext::new()
}

/// Relies on rust_lzo::LZOContext::compress_to_slice, the Linux-derived
/// lzo1x_1_compress: it assumes `dst` holds at least
/// `|src| + |src|/16 + 64 + 3` bytes (its worst-case output size, which
/// it never checks), writes the encoded stream at the front of `dst`,
/// reports through the length cell how many bytes it wrote, and returns
/// status 0 on its only return path. The stream is a function of the
/// input bytes alone and the decompressor maps it back to exactly those
/// bytes (the codec is lossless).
#[verifier::external_body]
pub(crate) fn compress_into(ctx: &mut rust_lzo::LZOContext, src: &[u8], dst: &mut Vec<u8>) -> (r: (
    usize,
    i32,
))
    requires
        src@.len() + src@.len() / 16 + 64 + 3 <= old(dst)@.len(),
    ensures
        r.1 == 0,
        final(dst)@.len() == old(dst)@.len(),
        r.0 <= final(dst)@.len(),
        r.0 == lzo1x_encoding(src@).len(),
        r.0 <= src@.len() + src@.len() / 16 + 64 + 3,
        final(dst)@.subrange(0, r.0 as int) == lzo1x_encoding(src@),
        lzo1x_decoding(final(dst)@.subrange(0, r.0 as int)) == Some(src@),
{
    let (written, status) = ctx.compress_to_slice(src, dst.as_mut_slice());
    (written.len(), status as i32)
}

/// Relies on rust_lzo::LZOContext::decompress_to_slice, the Linux-derived
/// bounds-checked lzo1x_decompress_safe: every write is checked against
/// the capacity of `dst`, the length cell reports the bytes written, and
/// the status is 0 exactly when the stream is well formed and its decoded
/// bytes fit in `dst`; a well-formed stream whose decoded bytes exceed
/// the capacity is reported as output overrun (status -5), never as
/// success and never by writing past `dst`.
#[verifier::external_body]
pub(crate) fn decompress_into(src: &[u8], dst: &mut Vec<u8>) -> (r: (usize, i32))
    ensures
        final(dst)@.len() == old(dst)@.len(),
        r.0 <= final(dst)@.len(),
        (r.1 == 0) <==> (lzo1x_decoding(src@) is Some && lzo1x_decoding(src@)->0.len() <= old(
            dst,
        )@.len()),
        r.1 == 0 ==> r.0 == lzo1x_decoding(src@)->0.len() && final(dst)@.subrange(
            0,
            r.0 as int,
        ) == lzo1x_decoding(src@)->0,
        (lzo1x_decoding(src@) is Some && lzo1x_decoding(src@)->0.len() > old(dst)@.len()) ==> r.1
            == -5,
{
    let (written, status) = rust_lzo::LZOContext::decompress_to_slice(src, dst.as_mut_slice());
    (written.len(), status as i32)
}

} // verus!
