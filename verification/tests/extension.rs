use file_magic::FileType;

#[test]
fn extension_is_total_over_the_variants() {
    assert_eq!(FileType::Tga.extension(), "tga");
    assert_eq!(FileType::Jpeg.extension(), "jpg");
    assert_eq!(FileType::Png.extension(), "png");
    assert_eq!(FileType::Bmp.extension(), "bmp");
    assert_eq!(FileType::Tiff.extension(), "tif");
    assert_eq!(FileType::BigTiff.extension(), "tif");
    assert_eq!(FileType::Zip.extension(), "zip");
    assert_eq!(FileType::Bzip2.extension(), "bz2");
    assert_eq!(FileType::Tar.extension(), "tar");
}

#[test]
fn extension_is_stable() {
    let variants = [
        FileType::Tga,
        FileType::Jpeg,
        FileType::Png,
        FileType::Bmp,
        FileType::Tiff,
        FileType::BigTiff,
        FileType::Zip,
        FileType::Bzip2,
        FileType::Tar,
    ];
    for t in variants {
        assert_eq!(t.extension(), t.extension());
    }
}

#[test]
fn two_tiff_variants_share_an_extension() {
    assert_eq!(FileType::Tiff.extension(), FileType::BigTiff.extension());
}
