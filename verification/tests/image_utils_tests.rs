use cameraftp::image_utils::{
    build_orientation_app1, has_exif_app1, inject_orientation_exif, is_raw_file, is_supported_image,
};

#[test]
fn test_is_raw_file() {
    assert!(is_raw_file("photo.nef"));
    assert!(is_raw_file("photo.CR3"));
    assert!(is_raw_file("photo.ARW"));
    assert!(is_raw_file("photo.dng"));
    assert!(!is_raw_file("photo.jpg"));
    assert!(!is_raw_file("photo.jpeg"));
    assert!(!is_raw_file("photo.png"));
    assert!(!is_raw_file("photo"));
    assert!(!is_raw_file("photo.txt"));
}

#[test]
fn test_is_supported_image() {
    assert!(is_supported_image("photo.jpg"));
    assert!(is_supported_image("photo.JPEG"));
    assert!(is_supported_image("photo.heif"));
    assert!(is_supported_image("photo.nef"));
    assert!(is_supported_image("photo.cr2"));
    assert!(!is_supported_image("photo.png"));
    assert!(!is_supported_image("photo.mp4"));
    assert!(!is_supported_image("photo.txt"));
}

#[test]
fn extension_follows_path_rules() {
    assert!(is_raw_file("/a/b/DSC_001.NEF"));
    assert!(is_raw_file("dir/photo.nef/"));
    assert!(!is_raw_file(".nef"));
    assert!(!is_raw_file("photo.nef/.."));
    assert!(is_supported_image("x.tar.jpg"));
    assert!(!is_supported_image("photo."));
}

#[test]
fn test_has_exif_app1() {
    let jpeg_with_exif = vec![
        0xFF, 0xD8, 0xFF, 0xE1, 0x00, 0x0A, b'E', b'x', b'i', b'f', 0x00, 0x00, 0x00, 0x00,
    ];
    assert!(has_exif_app1(&jpeg_with_exif));

    let jpeg_with_xmp = vec![0xFF, 0xD8, 0xFF, 0xE1, 0x00, 0x04, b'h', b't', b'm', b'l'];
    assert!(!has_exif_app1(&jpeg_with_xmp));

    let jpeg_without_app1 = vec![0xFF, 0xD8, 0xFF, 0xE0, 0x00, 0x04, 0x00, 0x00];
    assert!(!has_exif_app1(&jpeg_without_app1));

    let too_short = vec![0xFF, 0xD8];
    assert!(!has_exif_app1(&too_short));

    let not_jpeg = vec![0x89, 0x50, 0x4E, 0x47];
    assert!(!has_exif_app1(&not_jpeg));
}

#[test]
fn exif_found_after_other_segments_and_not_after_scan() {
    let jpeg = vec![
        0xFF, 0xD8, 0xFF, 0xE0, 0x00, 0x04, 0x00, 0x00, 0xFF, 0xE1, 0x00, 0x08, b'E', b'x', b'i',
        b'f', 0x00, 0x00,
    ];
    assert!(has_exif_app1(&jpeg));
    let after_scan = vec![
        0xFF, 0xD8, 0xFF, 0xDA, 0x00, 0x04, 0x00, 0x00, 0xFF, 0xE1, 0x00, 0x08, b'E', b'x', b'i',
        b'f', 0x00, 0x00,
    ];
    assert!(!has_exif_app1(&after_scan));
}

#[test]
fn test_build_orientation_app1_length() {
    for orientation in [1u8, 2, 3, 4, 5, 6, 7, 8] {
        let app1 = build_orientation_app1(orientation);
        assert_eq!(app1.len(), 36, "APP1 segment should be 36 bytes for orientation {}", orientation);
    }
}

#[test]
fn test_inject_orientation_exif_preserves_original() {
    let original = vec![0xFF, 0xD8, 0xFF, 0xE0, 0x00, 0x02, 0xAA, 0xBB];
    let result = inject_orientation_exif(original.clone(), 6);
    assert_eq!(&result[0..2], &[0xFF, 0xD8]);
    assert_eq!(&result[2..4], &[0xFF, 0xE1]);
    let app1_len = 36;
    assert_eq!(&result[2 + app1_len..], &original[2..]);
    assert_eq!(result.len(), original.len() + app1_len);
}

#[test]
fn injected_orientation_is_detected_as_exif() {
    let original = vec![0xFF, 0xD8, 0xFF, 0xDA, 0x00, 0x02];
    assert!(!has_exif_app1(&original));
    let result = inject_orientation_exif(original, 3);
    assert!(has_exif_app1(&result));
    assert_eq!(result[2 + 28], 3);
}

#[test]
fn backslash_separates_path_components() {
    assert!(is_supported_image(r"C:\photos\a.jpg"));
    assert!(!is_supported_image(r"C:\x\.jpg"));
    assert!(is_raw_file(r"C:\DCIM\100\IMG_0001.CR3"));
    assert!(!is_supported_image(r"C:\photos\a.jpg\.."));
}
