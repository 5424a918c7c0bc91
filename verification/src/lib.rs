//! A safe boundary around the LZO1X one-shot block compressor and its
//! bounds-checked decompressor: output buffers are sized by a proven
//! worst-case formula, results are truncated to the bytes actually
//! produced, and the native status code is translated into a closed,
//! total error enumeration.

mod codec;
mod error;
mod native;

pub use codec::compress;
pub use codec::decompress;
pub use codec::output_buffer_size;
pub use codec::round_trip;
pub use error::error_of_code;
pub use error::lemma_status_codes_distinct;
pub use error::lemma_unknown_code_is_internal;
pub use error::LzoError;
pub use native::lzo1x_decoding;
pub use native::lzo1x_encoding;
