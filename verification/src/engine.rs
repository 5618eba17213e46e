//! The external compression engine, reached through one trusted wrapper.
//!
//! The engine consumes a whole in-memory buffer and produces the compressed
//! stream for the selected container format and iteration count. Its output
//! is named, not restated: `engine_output` stands for whatever byte stream
//! the engine produces, and every caller's contract speaks of that name.

use vstd::prelude::*;

use crate::cli::Format;

verus! {

/// The byte stream that the compression engine produces for the given
/// iteration count, container format (by its code), and input bytes. The
/// engine is deterministic, so its output is a function of these arguments
/// alone.
pub uninterp spec fn engine_output(iterations: u64, format_code: int, input: Seq<u8>) -> Seq<u8>;

/// Relies on zopfli::compress: with a fixed iteration count and otherwise
/// default options it is a deterministic transform that writes one gzip,
/// zlib, or raw-DEFLATE stream to the sink. The engine constructs no errors
/// of its own; every error path propagates an I/O failure of the source or
/// the sink, and a slice source and a `Vec` sink cannot fail, so on an
/// in-memory buffer the call always succeeds.
#[verifier::external_body]
pub(crate) fn engine_compress(iterations: u64, format: &Format, input: &Vec<u8>) -> (r: Result<
    Vec<u8>,
    String,
>)
    requires
        iterations >= 1,
    ensures
        r is Ok,
        r matches Ok(v) ==> v@ == engine_output(iterations, format.spec_code(), input@),
{
    let options = zopfli::Options {
        iteration_count: core::num::NonZeroU64::new(iterations).unwrap(),
        ..zopfli::Options::default()
    };
    let engine_format = match format {
        Format::Gzip => zopfli::Format::Gzip,
        Format::Zlib => zopfli::Format::Zlib,
        Format::Deflate => zopfli::Format::Deflate,
    };
    let mut out = Vec::new();
    match zopfli::compress(options, engine_format, input.as_slice(), &mut out) {
        Ok(()) => Ok(out),
        Err(e) => Err(e.to_string()),
    }
}

} // verus!
