//! Classifies the leading bytes of an input against the magic signatures of
//! well-known compressed formats.
//!
//! The probe is advisory: a match only warns the operator that the input
//! looks compressed already; compression proceeds regardless. The jobs here
//! buffer the whole input, so the probe inspects at most the first six bytes
//! of the in-memory buffer (the longest signature, the xz magic) and never
//! touches a stream position.

use vstd::prelude::*;

verus! {

/// The gzip magic, from RFC 1952.
pub open spec fn spec_is_gzip(data: Seq<u8>) -> bool {
    data.len() >= 2 && data[0] == 0x1f && data[1] == 0x8b
}

/// The bzip2 magic, `BZh`.
pub open spec fn spec_is_bzip2(data: Seq<u8>) -> bool {
    data.len() >= 3 && data[0] == 0x42 && data[1] == 0x5a && data[2] == 0x68
}

/// The magic of `compress` (LZW) output.
pub open spec fn spec_is_lzw(data: Seq<u8>) -> bool {
    data.len() >= 2 && data[0] == 0x1f && data[1] == 0x9d
}

/// The lzip magic, `LZIP`.
pub open spec fn spec_is_lzip(data: Seq<u8>) -> bool {
    data.len() >= 4 && data[0] == 0x4c && data[1] == 0x5a && data[2] == 0x49 && data[3] == 0x50
}

/// The xz magic.
pub open spec fn spec_is_xz(data: Seq<u8>) -> bool {
    data.len() >= 6 && data[0] == 0xfd && data[1] == 0x37 && data[2] == 0x7a && data[3] == 0x58
        && data[4] == 0x5a && data[5] == 0x00
}

/// The zstd magic.
pub open spec fn spec_is_zstd(data: Seq<u8>) -> bool {
    data.len() >= 4 && data[0] == 0x28 && data[1] == 0xb5 && data[2] == 0x2f && data[3] == 0xfd
}

/// Whether the data carries the signature of any of the probed
/// compressed formats.
pub open spec fn spec_is_compressed(data: Seq<u8>) -> bool {
    ||| spec_is_gzip(data)
    ||| spec_is_bzip2(data)
    ||| spec_is_lzw(data)
    ||| spec_is_lzip(data)
    ||| spec_is_xz(data)
    ||| spec_is_zstd(data)
}

/// Classifies the buffered input as already compressed when its leading
/// bytes match the magic of gzip, bzip2, `compress`, lzip, xz, or zstd.
pub fn is_already_compressed(data: &Vec<u8>) -> (r: bool)
    ensures
        r == spec_is_compressed(data@),
{
    let n = data.len();
    let gzip = n >= 2 && data[0] == 0x1f && data[1] == 0x8b;
    let bzip2 = n >= 3 && data[0] == 0x42 && data[1] == 0x5a && data[2] == 0x68;
    let lzw = n >= 2 && data[0] == 0x1f && data[1] == 0x9d;
    let lzip = n >= 4 && data[0] == 0x4c && data[1] == 0x5a && data[2] == 0x49 && data[3] == 0x50;
    let xz = n >= 6 && data[0] == 0xfd && data[1] == 0x37 && data[2] == 0x7a && data[3] == 0x58
        && data[4] == 0x5a && data[5] == 0x00;
    let zstd = n >= 4 && data[0] == 0x28 && data[1] == 0xb5 && data[2] == 0x2f && data[3] == 0xfd;
    gzip || bzip2 || lzw || lzip || xz || zstd
}

} // verus!
