use archive_extractor::formats::{format_from_mime, sniff, ArchiveFormat};

#[test]
fn test_format_detection_zip() {
    let zip_header = [0x50, 0x4B, 0x03, 0x04, 0x00, 0x00];
    let kind = sniff(&zip_header).unwrap();
    assert_eq!(kind.mime, "application/zip");
    assert_eq!(kind.format, ArchiveFormat::Zip);
}

#[test]
fn test_format_detection_7z() {
    let header = [0x37, 0x7A, 0xBC, 0xAF, 0x27, 0x1C];
    let kind = sniff(&header).unwrap();
    assert_eq!(kind.mime, "application/x-7z-compressed");
    assert_eq!(kind.format, ArchiveFormat::SevenZ);
}

#[test]
fn test_format_detection_rar() {
    let header = [0x52, 0x61, 0x72, 0x21, 0x1A, 0x07, 0x00];
    let kind = sniff(&header).unwrap();
    assert_eq!(kind.mime, "application/vnd.rar");
    assert_eq!(kind.format, ArchiveFormat::Rar);
}

#[test]
fn test_format_detection_unknown() {
    let data = [0x00, 0x01, 0x02, 0x03];
    assert!(sniff(&data).is_none());
}

#[test]
fn recognised_non_archive_is_unsupported() {
    // A PNG signature.
    let header = [0x89, 0x50, 0x4E, 0x47, 0x0D, 0x0A, 0x1A, 0x0A, 0, 0, 0, 0];
    let kind = sniff(&header).unwrap();
    assert_eq!(kind.mime, "image/png");
    assert_eq!(kind.format, ArchiveFormat::Unsupported);
}

#[test]
fn formats_of_mime_types() {
    assert_eq!(format_from_mime("application/zip"), ArchiveFormat::Zip);
    assert_eq!(format_from_mime("application/x-7z-compressed"), ArchiveFormat::SevenZ);
    assert_eq!(format_from_mime("application/vnd.rar"), ArchiveFormat::Rar);
    assert_eq!(format_from_mime("application/gzip"), ArchiveFormat::Unsupported);
    assert_eq!(format_from_mime("APPLICATION/ZIP"), ArchiveFormat::Unsupported);
}
