//! The ordered rule table: which signatures identify which file types.
//!
//! Order is significant: the detector returns the first matching entry, so
//! entries earlier in the table take priority when several could match.
//! PNG detection deliberately requires both the leading signature and the
//! trailing IEND chunk signature (the dual-anchor policy), so a buffer that
//! carries only the 8-byte PNG header is not reported as PNG.

use vstd::prelude::*;

use crate::filetype::FileType;
use crate::pattern::{Check, CheckModel, Magic, MagicModel};

verus! {

/// A rule model that checks `bytes` at `offset` from the buffer's start
/// and nothing at its end.
pub open spec fn start_rule(offset: int, bytes: Seq<u8>) -> MagicModel {
    MagicModel {
        start: CheckModel { bytes: bytes, offset: offset },
        end: CheckModel { bytes: Seq::<u8>::empty(), offset: 0 },
    }
}

/// A rule model that checks `bytes` at the buffer's very end and nothing
/// at its start.
pub open spec fn end_rule(bytes: Seq<u8>) -> MagicModel {
    MagicModel {
        start: CheckModel { bytes: Seq::<u8>::empty(), offset: 0 },
        end: CheckModel { bytes: bytes, offset: 0 },
    }
}

/// A rule model that checks `head` at the buffer's start and `tail` at its
/// end.
pub open spec fn start_end_rule(head: Seq<u8>, tail: Seq<u8>) -> MagicModel {
    MagicModel {
        start: CheckModel { bytes: head, offset: 0 },
        end: CheckModel { bytes: tail, offset: 0 },
    }
}

/// The TGA v2 footer signature, `TRUEVISION-XFILE.` with a trailing NUL.
pub open spec fn tga_tail() -> Seq<u8> {
    seq![
        0x54u8, 0x52, 0x55, 0x45, 0x56, 0x49, 0x53, 0x49, 0x4f, 0x4e, 0x2d, 0x58, 0x46, 0x49,
        0x4c, 0x45, 0x2e, 0x00,
    ]
}

/// The JPEG start-of-image marker.
pub open spec fn jpeg_head() -> Seq<u8> {
    seq![0xffu8, 0xd8]
}

/// The 8-byte PNG file header.
pub open spec fn png_head() -> Seq<u8> {
    seq![0x89u8, 0x50, 0x4e, 0x47, 0x0d, 0x0a, 0x1a, 0x0a]
}

/// The PNG IEND chunk that closes every well-formed PNG file.
pub open spec fn png_tail() -> Seq<u8> {
    seq![0x49u8, 0x45, 0x4e, 0x44, 0xae, 0x42, 0x60, 0x82]
}

/// The BMP header, `BM`.
pub open spec fn bmp_head() -> Seq<u8> {
    seq![0x42u8, 0x4d]
}

/// The little-endian TIFF header, `II*\0`.
pub open spec fn tiff_le_head() -> Seq<u8> {
    seq![0x49u8, 0x49, 0x2a, 0x00]
}

/// The big-endian TIFF header, `MM\0*`.
pub open spec fn tiff_be_head() -> Seq<u8> {
    seq![0x4du8, 0x4d, 0x00, 0x2a]
}

/// The little-endian BigTIFF header, `II+\0`.
pub open spec fn bigtiff_le_head() -> Seq<u8> {
    seq![0x49u8, 0x49, 0x2b, 0x00]
}

/// The big-endian BigTIFF header, `MM\0+`.
pub open spec fn bigtiff_be_head() -> Seq<u8> {
    seq![0x4du8, 0x4d, 0x00, 0x2b]
}

/// The bzip2 header, `BZh`.
pub open spec fn bzip2_head() -> Seq<u8> {
    seq![0x42u8, 0x5a, 0x68]
}

/// The zip local-file-header signature, `PK\x03\x04`.
pub open spec fn zip_local_head() -> Seq<u8> {
    seq![0x50u8, 0x4b, 0x03, 0x04]
}

/// The zip end-of-central-directory signature of an empty archive,
/// `PK\x05\x06`.
pub open spec fn zip_empty_head() -> Seq<u8> {
    seq![0x50u8, 0x4b, 0x05, 0x06]
}

/// The `PKLITE` marker of self-extracting zip executables.
pub open spec fn pklite_head() -> Seq<u8> {
    seq![0x50u8, 0x4b, 0x4c, 0x49, 0x54, 0x45]
}

/// The ustar magic of a POSIX tar header, `ustar  \0`.
pub open spec fn tar_head() -> Seq<u8> {
    seq![0x75u8, 0x73, 0x74, 0x61, 0x72, 0x20, 0x20, 0x00]
}

/// The offset of the `PKLITE` marker inside a self-extracting zip.
pub open spec fn pklite_offset() -> int {
    0x1e
}

/// The offset of the ustar magic inside the first tar header block.
pub open spec fn tar_offset() -> int {
    0x101
}

/// The rule table, in priority order.
pub open spec fn spec_rules() -> Seq<(MagicModel, FileType)> {
    seq![
        (end_rule(tga_tail()), FileType::Tga),
        (start_rule(0, jpeg_head()), FileType::Jpeg),
        (start_end_rule(png_head(), png_tail()), FileType::Png),
        (start_rule(0, bmp_head()), FileType::Bmp),
        (start_rule(0, tiff_le_head()), FileType::Tiff),
        (start_rule(0, tiff_be_head()), FileType::Tiff),
        (start_rule(0, bigtiff_le_head()), FileType::BigTiff),
        (start_rule(0, bigtiff_be_head()), FileType::BigTiff),
        (start_rule(0, bzip2_head()), FileType::Bzip2),
        (start_rule(0, zip_local_head()), FileType::Zip),
        (start_rule(0, zip_empty_head()), FileType::Zip),
        (start_rule(pklite_offset(), pklite_head()), FileType::Zip),
        (start_rule(tar_offset(), tar_head()), FileType::Tar),
    ]
}

/// Builds the executable rule table; its entries model exactly the entries
/// of [`spec_rules`], in the same order.
pub fn magic_map() -> (r: Vec<(Magic, FileType)>)
    ensures
        r@.len() == spec_rules().len(),
        forall|i: int| 0 <= i < r@.len() ==> (#[trigger] r@[i]).0@ == spec_rules()[i].0
            && r@[i].1 == spec_rules()[i].1,
{
    let mut v: Vec<(Magic, FileType)> = Vec::new();
    v.push((
        Magic::ends_with(
            [
                0x54u8, 0x52, 0x55, 0x45, 0x56, 0x49, 0x53, 0x49, 0x4f, 0x4e, 0x2d, 0x58, 0x46,
                0x49, 0x4c, 0x45, 0x2e, 0x00,
            ].as_slice(),
        ),
        FileType::Tga,
    ));
    v.push((Magic::starts_with([0xffu8, 0xd8].as_slice()), FileType::Jpeg));
    v.push((
        (Magic {
            start: Check::new([0x89u8, 0x50, 0x4e, 0x47, 0x0d, 0x0a, 0x1a, 0x0a].as_slice()),
            end: Check::new([0x49u8, 0x45, 0x4e, 0x44, 0xae, 0x42, 0x60, 0x82].as_slice()),
        }),
        FileType::Png,
    ));
    v.push((Magic::starts_with([0x42u8, 0x4d].as_slice()), FileType::Bmp));
    v.push((Magic::starts_with([0x49u8, 0x49, 0x2a, 0x00].as_slice()), FileType::Tiff));
    v.push((Magic::starts_with([0x4du8, 0x4d, 0x00, 0x2a].as_slice()), FileType::Tiff));
    v.push((Magic::starts_with([0x49u8, 0x49, 0x2b, 0x00].as_slice()), FileType::BigTiff));
    v.push((Magic::starts_with([0x4du8, 0x4d, 0x00, 0x2b].as_slice()), FileType::BigTiff));
    v.push((Magic::starts_with([0x42u8, 0x5a, 0x68].as_slice()), FileType::Bzip2));
    v.push((Magic::starts_with([0x50u8, 0x4b, 0x03, 0x04].as_slice()), FileType::Zip));
    v.push((Magic::starts_with([0x50u8, 0x4b, 0x05, 0x06].as_slice()), FileType::Zip));
    v.push((
        Magic::starts_with_offset(0x1e, [0x50u8, 0x4b, 0x4c, 0x49, 0x54, 0x45].as_slice()),
        FileType::Zip,
    ));
    v.push((
        Magic::starts_with_offset(
            0x101,
            [0x75u8, 0x73, 0x74, 0x61, 0x72, 0x20, 0x20, 0x00].as_slice(),
        ),
        FileType::Tar,
    ));
    proof {
        assert(v@[0].0@ =~~= spec_rules()[0].0);
        assert(v@[1].0@ =~~= spec_rules()[1].0);
        assert(v@[2].0@ =~~= spec_rules()[2].0);
        assert(v@[3].0@ =~~= spec_rules()[3].0);
        assert(v@[4].0@ =~~= spec_rules()[4].0);
        assert(v@[5].0@ =~~= spec_rules()[5].0);
        assert(v@[6].0@ =~~= spec_rules()[6].0);
        assert(v@[7].0@ =~~= spec_rules()[7].0);
        assert(v@[8].0@ =~~= spec_rules()[8].0);
        assert(v@[9].0@ =~~= spec_rules()[9].0);
        assert(v@[10].0@ =~~= spec_rules()[10].0);
        assert(v@[11].0@ =~~= spec_rules()[11].0);
        assert(v@[12].0@ =~~= spec_rules()[12].0);
    }
    v
}

} // verus!
