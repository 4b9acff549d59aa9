//! The set of recognized file formats and their canonical extensions.

use vstd::prelude::*;

verus! {

/// A file format that the detector can recognize.
///
/// Each variant maps to exactly one canonical filename extension; two
/// variants may share an extension (the two TIFF flavours both use "tif").
#[non_exhaustive]
#[derive(Copy, Clone, PartialEq, Eq, Debug, Hash, Structural)]
pub enum FileType {
    // -- Images --
    Tga,
    Jpeg,
    Png,
    Bmp,
    Tiff,
    BigTiff,

    // -- Compression/Archives --
    Zip,
    Bzip2,
    /// Tar archive format.
    ///
    /// Empty tar files do not carry this magic number; only tar files with
    /// at least one element do.
    Tar,
}

/// The canonical extension of each variant, as a total mapping.
pub open spec fn spec_extension(t: FileType) -> Seq<char> {
    match t {
        FileType::Tga => "tga"@,
        FileType::Jpeg => "jpg"@,
        FileType::Png => "png"@,
        FileType::Bmp => "bmp"@,
        FileType::Tiff => "tif"@,
        FileType::BigTiff => "tif"@,
        FileType::Zip => "zip"@,
        FileType::Bzip2 => "bz2"@,
        FileType::Tar => "tar"@,
    }
}

impl FileType {
    /// The canonical filename extension for this format.
    ///
    /// Total over the variants, and a pure function of the variant alone,
    /// so the same variant always yields the same string.
    pub fn extension(&self) -> (r: &'static str)
        ensures
            r@ == spec_extension(*self),
    {
        match self {
            FileType::Tga => "tga",
            FileType::Jpeg => "jpg",
            FileType::Png => "png",
            FileType::Bmp => "bmp",
            FileType::Tiff => "tif",
            FileType::BigTiff => "tif",
            FileType::Zip => "zip",
            FileType::Bzip2 => "bz2",
            FileType::Tar => "tar",
        }
    }
}

} // verus!
