//! Content sniffing for the container formats the extractor can peel.
//!
//! Detection goes by magic bytes alone, never by a file name or a declared
//! content type: gzip (`1f 8b`), bzip2 (`BZh`), xz (`fd 37 7a 58 5a 00`),
//! zip (`PK` followed by one of three tag pairs), and tar (`ustar` at
//! offset 257). Anything else is treated as a raw, uncontained payload.

use vstd::prelude::*;

verus! {

/// A container format recognized by content sniffing, or `Raw` when the
/// bytes match none of the known formats and are taken as the payload.
#[derive(Clone, Copy, PartialEq, Eq, Debug, Structural)]
pub enum Format {
    Gzip,
    Bzip2,
    Xz,
    Zip,
    Tar,
    Raw,
}

/// The format that content sniffing assigns to a byte sequence, checking
/// the magic numbers in a fixed order.
pub open spec fn spec_sniff(s: Seq<u8>) -> Format {
    if s.len() >= 2 && s[0] == 0x1fu8 && s[1] == 0x8bu8 {
        Format::Gzip
    } else if s.len() >= 3 && s[0] == 0x42u8 && s[1] == 0x5au8 && s[2] == 0x68u8 {
        Format::Bzip2
    } else if s.len() >= 6 && s[0] == 0xfdu8 && s[1] == 0x37u8 && s[2] == 0x7au8 && s[3] == 0x58u8
        && s[4] == 0x5au8 && s[5] == 0x00u8 {
        Format::Xz
    } else if s.len() >= 4 && s[0] == 0x50u8 && s[1] == 0x4bu8
        && ((s[2] == 0x03u8 && s[3] == 0x04u8) || (s[2] == 0x05u8 && s[3] == 0x06u8)
            || (s[2] == 0x07u8 && s[3] == 0x08u8)) {
        Format::Zip
    } else if s.len() >= 262 && s[257] == 0x75u8 && s[258] == 0x73u8 && s[259] == 0x74u8
        && s[260] == 0x61u8 && s[261] == 0x72u8 {
        Format::Tar
    } else {
        Format::Raw
    }
}

/// Detect the container format of `data` by its magic bytes.
pub fn sniff(data: &Vec<u8>) -> (f: Format)
    ensures
        f == spec_sniff(data@),
{
    let n = data.len();
    if n >= 2 && data[0] == 0x1f && data[1] == 0x8b {
        Format::Gzip
    } else if n >= 3 && data[0] == 0x42 && data[1] == 0x5a && data[2] == 0x68 {
        Format::Bzip2
    } else if n >= 6 && data[0] == 0xfd && data[1] == 0x37 && data[2] == 0x7a && data[3] == 0x58
        && data[4] == 0x5a && data[5] == 0x00 {
        Format::Xz
    } else if n >= 4 && data[0] == 0x50 && data[1] == 0x4b
        && ((data[2] == 0x03 && data[3] == 0x04) || (data[2] == 0x05 && data[3] == 0x06)
            || (data[2] == 0x07 && data[3] == 0x08)) {
        Format::Zip
    } else if n >= 262 && data[257] == 0x75 && data[258] == 0x73 && data[259] == 0x74
        && data[260] == 0x61 && data[261] == 0x72 {
        Format::Tar
    } else {
        Format::Raw
    }
}

} // verus!
