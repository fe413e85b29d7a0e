//! The loader boundary: recognizing an executable-format header in a
//! loaded image.
//!
//! Reading the image from disk and seeding the machine are the loader's
//! job, outside this crate; the pure part — does the image carry the
//! format signature, and which entry point does it name — is stated and
//! verified here.

use vstd::prelude::*;

use crate::context::spec_read_word;

verus! {

/// Offset of the little-endian entry-point word in a recognized image.
pub const ENTRY_POINT_OFFSET: u32 = 0x18;

/// True iff the image starts with the executable-format signature and is
/// long enough to hold the entry-point word behind it.
pub open spec fn spec_has_executable_header(bytes: Seq<u8>) -> bool {
    bytes.len() > 0x18 + 4 && bytes[0] == 0x7f && bytes[1] == 0x45 && bytes[2] == 0x4c && bytes[3]
        == 0x46 && bytes[4] == 0x01 && bytes[5] == 0x01 && bytes[6] == 0x01 && bytes[7] == 0x00
}

/// The entry point a recognized image names: the little-endian word at
/// [`ENTRY_POINT_OFFSET`].
pub open spec fn spec_entry_point(bytes: Seq<u8>) -> u32
    recommends
        spec_has_executable_header(bytes),
{
    spec_read_word(bytes, 0x18)
}

/// Returns the entry point named by the image when it carries the
/// executable-format signature, and `None` otherwise.
pub fn find_entry_point(bytes: &Vec<u8>) -> (r: Option<u32>)
    ensures
        match r {
            Some(entry) => spec_has_executable_header(bytes@) && entry == spec_entry_point(bytes@),
            None => !spec_has_executable_header(bytes@),
        },
{
    if bytes.len() > 0x18 + 4 && bytes[0] == 0x7f && bytes[1] == 0x45 && bytes[2] == 0x4c
        && bytes[3] == 0x46 && bytes[4] == 0x01 && bytes[5] == 0x01 && bytes[6] == 0x01 && bytes[7]
        == 0x00 {
        let b0 = bytes[0x18] as u32;
        let b1 = bytes[0x19] as u32;
        let b2 = bytes[0x1a] as u32;
        let b3 = bytes[0x1b] as u32;
        Some(b0 | (b1 << 8) | (b2 << 16) | (b3 << 24))
    } else {
        None
    }
}

} // verus!
