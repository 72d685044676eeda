use cameraftp::exif::capture_time_nanos;
use cameraftp::exif::format_focal_length;

#[test]
fn prefers_35mm_equivalent() {
    let result = format_focal_length(Some(50), Some((35, 1)));
    assert_eq!(result, Some("50mm".to_string()));
}

#[test]
fn falls_back_to_raw_when_no_35mm() {
    let result = format_focal_length(None, Some((23, 1)));
    assert_eq!(result, Some("23mm".to_string()));
}

#[test]
fn raw_focal_rounds() {
    let result = format_focal_length(None, Some((5001, 100)));
    assert_eq!(result, Some("50mm".to_string()));
}

#[test]
fn returns_none_when_both_missing() {
    let result = format_focal_length(None, None);
    assert_eq!(result, None);
}

#[test]
fn ignores_raw_when_35mm_present() {
    let result = format_focal_length(Some(85), Some((24, 1)));
    assert_eq!(result, Some("85mm".to_string()));
}

#[test]
fn raw_focal_half_rounds_away_from_zero() {
    assert_eq!(format_focal_length(None, Some((101, 2))), Some("51mm".to_string()));
    assert_eq!(format_focal_length(None, Some((149, 100))), Some("1mm".to_string()));
    assert_eq!(format_focal_length(None, Some((1, 3))), Some("0mm".to_string()));
}

#[test]
fn raw_focal_matches_float_rounding() {
    let cases: [(u32, u32); 8] = [(5001, 100), (7, 2), (9, 2), (u32::MAX, 1), (u32::MAX, 2), (1000, 3), (3, 1000), (123456789, 1000)];
    for (n, d) in cases {
        let expected = format!("{}mm", (n as f64 / d as f64).round() as u32);
        assert_eq!(format_focal_length(None, Some((n, d))), Some(expected));
    }
}

#[test]
fn raw_focal_zero_denominator_saturates() {
    assert_eq!(format_focal_length(None, Some((0, 0))), Some("0mm".to_string()));
    assert_eq!(format_focal_length(None, Some((5, 0))), Some(format!("{}mm", u32::MAX)));
}

#[test]
fn capture_time_is_formatted_like_chrono() {
    use_capture(2024, 2, 27, 14, 30, 0, "2024-02-27 14:30:00");
    use_capture(1999, 12, 31, 23, 59, 59, "1999-12-31 23:59:59");
    use_capture(987, 1, 2, 3, 4, 5, "0987-01-02 03:04:05");
    use_capture(12345, 6, 7, 8, 9, 10, "+12345-06-07 08:09:10");
    use_capture(-44, 3, 15, 12, 0, 0, "-0044-03-15 12:00:00");
}

fn use_capture(y: i32, mo: u32, d: u32, h: u32, mi: u32, s: u32, expected: &str) {
    assert_eq!(cameraftp::exif::format_capture_time(y, mo, d, h, mi, s), expected);
    let date = chrono::NaiveDate::from_ymd_opt(y, mo, d).unwrap().and_hms_opt(h, mi, s).unwrap();
    assert_eq!(date.format("%Y-%m-%d %H:%M:%S").to_string(), expected);
}

/// An APP1/EXIF segment whose IFD0 carries `Orientation` and whose Exif
/// sub-IFD carries `DateTimeOriginal` ("YYYY:MM:DD HH:MM:SS").
fn exif_datetime_orientation_app1(datetime: &str, orientation: u16) -> Vec<u8> {
    let dt = datetime.as_bytes();
    assert_eq!(dt.len(), 19);
    let ifd0_offset: u32 = 8;
    let exif_ifd_offset: u32 = ifd0_offset + 2 + 2 * 12 + 4;
    let datetime_offset: u32 = exif_ifd_offset + 2 + 12 + 4;
    let mut tiff: Vec<u8> = Vec::new();
    tiff.extend_from_slice(b"II");
    tiff.extend_from_slice(&42u16.to_le_bytes());
    tiff.extend_from_slice(&ifd0_offset.to_le_bytes());
    tiff.extend_from_slice(&2u16.to_le_bytes());
    tiff.extend_from_slice(&0x0112u16.to_le_bytes());
    tiff.extend_from_slice(&3u16.to_le_bytes());
    tiff.extend_from_slice(&1u32.to_le_bytes());
    tiff.extend_from_slice(&orientation.to_le_bytes());
    tiff.extend_from_slice(&[0u8, 0u8]);
    tiff.extend_from_slice(&0x8769u16.to_le_bytes());
    tiff.extend_from_slice(&4u16.to_le_bytes());
    tiff.extend_from_slice(&1u32.to_le_bytes());
    tiff.extend_from_slice(&exif_ifd_offset.to_le_bytes());
    tiff.extend_from_slice(&0u32.to_le_bytes());
    tiff.extend_from_slice(&1u16.to_le_bytes());
    tiff.extend_from_slice(&0x9003u16.to_le_bytes());
    tiff.extend_from_slice(&2u16.to_le_bytes());
    tiff.extend_from_slice(&20u32.to_le_bytes());
    tiff.extend_from_slice(&datetime_offset.to_le_bytes());
    tiff.extend_from_slice(&0u32.to_le_bytes());
    tiff.extend_from_slice(dt);
    tiff.push(0);
    let payload_len = 6 + tiff.len();
    let mut segment = vec![0xFF, 0xE1];
    segment.extend_from_slice(&((payload_len + 2) as u16).to_be_bytes());
    segment.extend_from_slice(b"Exif\0\0");
    segment.extend_from_slice(&tiff);
    segment
}

fn plain_jpeg() -> Vec<u8> {
    let img = image::RgbImage::from_pixel(2, 2, image::Rgb([128u8, 128, 128]));
    let mut jpeg = Vec::new();
    image::DynamicImage::ImageRgb8(img)
        .write_to(&mut std::io::Cursor::new(&mut jpeg), image::ImageFormat::Jpeg)
        .expect("failed to encode test JPEG");
    jpeg
}

fn exif_jpeg(datetime: &str, orientation: u16) -> Vec<u8> {
    let jpeg = plain_jpeg();
    let mut out = jpeg[..2].to_vec();
    out.extend(exif_datetime_orientation_app1(datetime, orientation));
    out.extend_from_slice(&jpeg[2..]);
    out
}

#[test]
fn parse_exif_extracts_datetime_and_orientation_from_real_jpeg() {
    let bytes = exif_jpeg("2024:01:15 10:30:00", 6);
    let parsed = cameraftp::exif::exif_fields_from_bytes(&bytes)
        .expect("a JPEG is a known format")
        .expect("EXIF-bearing JPEG must yield Some");
    assert_eq!(parsed.taken, Some((2024, 1, 15, 10, 30, 0, 0)));
    assert_eq!(parsed.orientation, Some(6));
    assert_eq!(parsed.iso, None);
    assert_eq!(parsed.f_number, None);
    assert_eq!(parsed.exposure, None);
    assert_eq!(parsed.focal_35mm, None);
    assert_eq!(parsed.focal, None);
}

#[test]
fn parse_exif_jpeg_without_exif_returns_ok_none() {
    let r = cameraftp::exif::exif_fields_from_bytes(&plain_jpeg());
    assert!(matches!(r, Ok(None)), "JPEG without EXIF must return Ok(None), got {:?}", r);
}

#[test]
fn unknown_bytes_are_an_error() {
    let r = cameraftp::exif::exif_fields_from_bytes(b"this is plain text, not an image at all, padded out to be long enough for the header probe");
    assert!(r.is_err());
}

#[test]
fn exif_summary_formats_parsed_values() {
    let bytes = exif_jpeg("2024:02:27 14:30:00", 1);
    let fields = cameraftp::exif::exif_fields_from_bytes(&bytes).unwrap().unwrap();
    let info = cameraftp::exif::exif_summary(&fields, None, None).expect("capture time present");
    assert_eq!(info.datetime, Some("2024-02-27 14:30:00".to_string()));
    assert_eq!(info.iso, None);
    assert_eq!(info.focal_length, None);
}

#[test]
fn exif_summary_of_hand_made_fields() {
    let fields = cameraftp::exif::ExifFields {
        iso: Some(400),
        f_number: Some((28, 10)),
        exposure: Some((1, 250)),
        focal_35mm: None,
        focal: Some((5001, 100)),
        taken: Some((1999, 12, 31, 23, 59, 59, 0)),
        orientation: None,
    };
    let info = cameraftp::exif::exif_summary(&fields, Some("f/2.8".to_string()), Some("1/250s".to_string())).unwrap();
    assert_eq!(info.iso, Some(400));
    assert_eq!(info.aperture, Some("f/2.8".to_string()));
    assert_eq!(info.shutter_speed, Some("1/250s".to_string()));
    assert_eq!(info.focal_length, Some("50mm".to_string()));
    assert_eq!(info.datetime, Some("1999-12-31 23:59:59".to_string()));
    let empty = cameraftp::exif::ExifFields {
        iso: None,
        f_number: Some((28, 10)),
        exposure: None,
        focal_35mm: None,
        focal: None,
        taken: None,
        orientation: Some(6),
    };
    assert!(cameraftp::exif::exif_summary(&empty, None, None).is_none());
}

fn chrono_nanos(y: i32, mo: u32, d: u32, h: u32, mi: u32, s: u32, ns: u32) -> i128 {
    let t = chrono::NaiveDate::from_ymd_opt(y, mo, d).unwrap().and_hms_nano_opt(h, mi, s, ns).unwrap().and_utc();
    t.timestamp() as i128 * 1_000_000_000 + t.timestamp_subsec_nanos() as i128
}

#[test]
fn capture_time_nanos_matches_chrono() {

    assert_eq!(capture_time_nanos((1970, 1, 1, 0, 0, 0, 0)), 0);
    assert_eq!(capture_time_nanos((2024, 1, 15, 10, 30, 0, 0)), 1_705_314_600_000_000_000);
    let cases: [(i32, u32, u32, u32, u32, u32, u32); 10] = [
        (2024, 2, 29, 23, 59, 59, 999_999_999),
        (2024, 3, 1, 0, 0, 0, 0),
        (2000, 2, 29, 12, 0, 0, 5),
        (1900, 3, 1, 0, 0, 0, 0),
        (1969, 12, 31, 23, 59, 59, 0),
        (1, 1, 1, 0, 0, 0, 0),
        (0, 2, 29, 1, 2, 3, 4),
        (-44, 3, 15, 12, 0, 0, 0),
        (262142, 12, 31, 23, 59, 59, 999_999_999),
        (-262143, 1, 1, 0, 0, 0, 0),
    ];
    for (y, mo, d, h, mi, s, ns) in cases {
        assert_eq!(capture_time_nanos((y, mo, d, h, mi, s, ns)), chrono_nanos(y, mo, d, h, mi, s, ns), "{}-{}-{}", y, mo, d);
    }
    // A leap second counts its nanoseconds past the whole second.
    assert_eq!(capture_time_nanos((2016, 12, 31, 23, 59, 59, 1_500_000_000)), chrono_nanos(2016, 12, 31, 23, 59, 59, 1_500_000_000));
}
