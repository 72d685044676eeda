//! The EXIF summary shown next to a photo.
use vstd::prelude::*;
use vstd::arithmetic::div_mod::lemma_fundamental_div_mod_converse;
use chrono::{Datelike, Timelike};
use nom_exif::{Exif, ExifIter, MediaParser, MediaSource};
use nom_exif::ExifTag::{
    DateTimeOriginal, ExposureTime, FNumber, FocalLength, FocalLengthIn35mmFilm, ISOSpeedRatings, Orientation,
};
use std::io::Cursor;
use crate::ftp::opt_view;
use crate::text::{chars_of, decimal, digit_char, format_decimal, string_from_chars};

verus! {

/// ISO, aperture (`f/2.8`), shutter speed (`1/125s`), focal length (`24mm`)
/// and capture time (`2024-02-27 14:30:00`), each when the file has it.
#[derive(Debug, Clone)]
pub struct ExifInfo {
    pub iso: Option<u32>,
    pub aperture: Option<String>,
    pub shutter_speed: Option<String>,
    pub focal_length: Option<String>,
    pub datetime: Option<String>,
}

/// The summary of the extracted values: none when no value was found.
pub fn exif_info_from_parts(
    iso: Option<u32>,
    aperture: Option<String>,
    shutter_speed: Option<String>,
    focal_length: Option<String>,
    datetime: Option<String>,
) -> (r: Option<ExifInfo>)
    ensures
        (iso is None && aperture is None && shutter_speed is None && focal_length is None && datetime is None)
            ==> r is None,
        !(iso is None && aperture is None && shutter_speed is None && focal_length is None && datetime is None)
            ==> (r matches Some(e) && e.iso == iso && opt_view(e.aperture) == opt_view(aperture) && opt_view(
            e.shutter_speed,
        ) == opt_view(shutter_speed) && opt_view(e.focal_length) == opt_view(focal_length) && opt_view(
            e.datetime,
        ) == opt_view(datetime)),
{
    if iso.is_none() && aperture.is_none() && shutter_speed.is_none() && focal_length.is_none()
        && datetime.is_none() {
        return None;
    }
    Some(ExifInfo { iso, aperture, shutter_speed, focal_length, datetime })
}

/// The ISO value as shown: the 16-bit EXIF value widened.
pub fn iso_from_exif(v: Option<u16>) -> (r: Option<u32>)
    ensures
        match v {
            Some(x) => r == Some(x as u32),
            None => r is None,
        },
{
    match v {
        Some(x) => Some(x as u32),
        None => None,
    }
}

/// The ratio `num / den` rounded to the nearest integer, halves away from
/// zero. A zero denominator gives 0 for `0 / 0` and `u32::MAX` otherwise
/// (the saturating conversion of NaN and infinity). For `u32` operands the
/// quotient in `f64` rounds to the same integer: a ratio that is not a half
/// lies at least `1 / (2 den)` from the nearest half, farther than the
/// rounding error of the division.
pub open spec fn round_ratio(num: nat, den: nat) -> nat {
    if den == 0 {
        if num == 0 {
            0
        } else {
            u32::MAX as nat
        }
    } else {
        (2 * num + den) / (2 * den)
    }
}

/// The focal length shown: the 35mm equivalent when present, else the raw
/// focal length ratio rounded, each followed by `mm`.
pub open spec fn spec_focal_length(focal_35mm: Option<u16>, focal_raw: Option<(u32, u32)>) -> Option<Seq<char>> {
    match focal_35mm {
        Some(v) => Some(decimal(v as nat) + "mm"@),
        None => match focal_raw {
            Some((num, den)) => Some(decimal(round_ratio(num as nat, den as nat)) + "mm"@),
            None => None,
        },
    }
}

/// Formats the focal length, preferring the 35mm equivalent over the raw
/// value.
pub fn format_focal_length(focal_35mm: Option<u16>, focal_raw: Option<(u32, u32)>) -> (r: Option<String>)
    ensures
        opt_view(r) == spec_focal_length(focal_35mm, focal_raw),
{
    match focal_35mm {
        Some(v) => Some(format_decimal(v as u64).concat("mm")),
        None => match focal_raw {
            Some((num, den)) => {
                let rounded: u64 = if den == 0 {
                    if num == 0 {
                        0
                    } else {
                        u32::MAX as u64
                    }
                } else {
                    (2 * (num as u64) + den as u64) / (2 * (den as u64))
                };
                Some(format_decimal(rounded).concat("mm"))
            },
            None => None,
        },
    }
}

/// Two decimal digits of `n` (`n < 100`), zero-padded.
pub open spec fn two_digits(n: nat) -> Seq<char> {
    seq![digit_char(n / 10), digit_char(n % 10)]
}

/// Four decimal digits of `n` (`n < 10000`), zero-padded.
pub open spec fn four_digits(n: nat) -> Seq<char> {
    seq![digit_char(n / 1000), digit_char((n / 100) % 10), digit_char((n / 10) % 10), digit_char(n % 10)]
}

/// The year as chrono's `%Y` writes it: four digits, zero-padded, for
/// years 0 to 9999; otherwise a sign and at least four digits.
pub open spec fn year_text(y: int) -> Seq<char> {
    if 0 <= y <= 9999 {
        four_digits(y as nat)
    } else if y > 9999 {
        seq!['+'] + decimal(y as nat)
    } else if -y <= 9999 {
        seq!['-'] + four_digits((-y) as nat)
    } else {
        seq!['-'] + decimal((-y) as nat)
    }
}

/// A capture time as shown, `%Y-%m-%d %H:%M:%S` (for example
/// `2024-02-27 14:30:00`).
pub open spec fn capture_time_text(year: int, month: nat, day: nat, hour: nat, minute: nat, second: nat) -> Seq<char> {
    year_text(year) + seq!['-'] + two_digits(month) + seq!['-'] + two_digits(day) + seq![' '] + two_digits(hour)
        + seq![':'] + two_digits(minute) + seq![':'] + two_digits(second)
}

fn digit(d: u64) -> (r: char)
    requires
        d < 10,
    ensures
        r == digit_char(d as nat),
{
    match d {
        0 => '0',
        1 => '1',
        2 => '2',
        3 => '3',
        4 => '4',
        5 => '5',
        6 => '6',
        7 => '7',
        8 => '8',
        _ => '9',
    }
}

fn push_two(v: &mut Vec<char>, n: u64)
    requires
        n < 100,
    ensures
        final(v)@ == old(v)@ + two_digits(n as nat),
{
    v.push(digit(n / 10));
    v.push(digit(n % 10));
}

fn push_four(v: &mut Vec<char>, n: u64)
    requires
        n < 10000,
    ensures
        final(v)@ == old(v)@ + four_digits(n as nat),
{
    v.push(digit(n / 1000));
    v.push(digit((n / 100) % 10));
    v.push(digit((n / 10) % 10));
    v.push(digit(n % 10));
}

fn push_decimal(v: &mut Vec<char>, n: u64)
    ensures
        final(v)@ == old(v)@ + decimal(n as nat),
{
    let d = format_decimal(n);
    let c = chars_of(d.as_str());
    let mut i: usize = 0;
    let ghost start = v@;
    while i < c.len()
        invariant
            i <= c@.len(),
            c@ == decimal(n as nat),
            v@ == start + c@.subrange(0, i as int),
        decreases c@.len() - i,
    {
        v.push(c[i]);
        i = i + 1;
        proof {
            assert(v@ =~= start + c@.subrange(0, i as int));
        }
    }
    proof {
        assert(c@.subrange(0, c@.len() as int) =~= c@);
    }
}

/// Formats an EXIF capture time (the parts of chrono's date and time) as
/// `%Y-%m-%d %H:%M:%S`.
pub fn format_capture_time(year: i32, month: u32, day: u32, hour: u32, minute: u32, second: u32) -> (r: String)
    requires
        1 <= month <= 12,
        1 <= day <= 31,
        hour < 24,
        minute < 60,
        second < 60,
    ensures
        r@ == capture_time_text(year as int, month as nat, day as nat, hour as nat, minute as nat, second as nat),
{
    let mut v: Vec<char> = Vec::new();
    let y: i64 = year as i64;
    if 0 <= y && y <= 9999 {
        push_four(&mut v, y as u64);
    } else if y > 9999 {
        v.push('+');
        push_decimal(&mut v, y as u64);
    } else {
        v.push('-');
        let a: i64 = -y;
        if a <= 9999 {
            push_four(&mut v, a as u64);
        } else {
            push_decimal(&mut v, a as u64);
        }
    }
    proof {
        assert(v@ =~= year_text(year as int));
    }
    v.push('-');
    push_two(&mut v, month as u64);
    v.push('-');
    push_two(&mut v, day as u64);
    v.push(' ');
    push_two(&mut v, hour as u64);
    v.push(':');
    push_two(&mut v, minute as u64);
    v.push(':');
    push_two(&mut v, second as u64);
    proof {
        assert(v@ =~= capture_time_text(
            year as int,
            month as nat,
            day as nat,
            hour as nat,
            minute as nat,
            second as nat,
        ));
    }
    string_from_chars(v.as_slice())
}

/// A capture time as chrono gives it: year, month, day, hour, minute,
/// second and nanosecond (at least 10^9 inside a leap second).
pub type CaptureTime = (i32, u32, u32, u32, u32, u32, u32);

/// The EXIF values an image carries, as nom-exif reads them: ISO speed,
/// f-number and exposure time (rationals), 35mm-equivalent focal length,
/// focal length (rational), the original capture time and the orientation.
#[derive(Debug, Clone, Copy)]
pub struct ExifFields {
    pub iso: Option<u16>,
    pub f_number: Option<(u32, u32)>,
    pub exposure: Option<(u32, u32)>,
    pub focal_35mm: Option<u16>,
    pub focal: Option<(u32, u32)>,
    pub taken: Option<CaptureTime>,
    pub orientation: Option<u16>,
}

/// The tag values nom-exif reads besides the capture time.
#[derive(Debug, Clone, Copy)]
pub struct ExifTags {
    pub iso: Option<u16>,
    pub f_number: Option<(u32, u32)>,
    pub exposure: Option<(u32, u32)>,
    pub focal_35mm: Option<u16>,
    pub focal: Option<(u32, u32)>,
    pub orientation: Option<u16>,
}

/// The ranges chrono keeps a date and time in: years from 262144 BCE to
/// 262142 CE, months 1 to 12, days 1 to 31, hours below 24, minutes and
/// seconds below 60, nanoseconds below 2 * 10^9.
pub open spec fn capture_time_valid(t: CaptureTime) -> bool {
    &&& -262143 <= t.0 <= 262142
    &&& 1 <= t.1 <= 12
    &&& 1 <= t.2 <= 31
    &&& t.3 < 24
    &&& t.4 < 60
    &&& t.5 < 60
    &&& t.6 < 2_000_000_000
}

/// A capture time, where there is one, lies in chrono's ranges.
pub open spec fn fields_valid(f: ExifFields) -> bool {
    match f.taken {
        Some(t) => capture_time_valid(t),
        None => true,
    }
}

/// What nom-exif makes of the bytes of a file as a media source: `Ok(true)`
/// for an image format (which carries EXIF), `Ok(false)` for a video
/// format, `Err` with its message for bytes it does not recognise.
pub uninterp spec fn exif_source_kind(bytes: Seq<u8>) -> Result<bool, Seq<char>>;

/// Opens the bytes as a nom-exif `MediaSource` (`MediaSource::seekable` over
/// a cursor) and asks `has_exif`. The result is a function of the bytes,
/// named `exif_source_kind`; the error is nom-exif's message.
#[verifier::external_body]
fn media_has_exif(bytes: &[u8]) -> (r: Result<bool, String>)
    ensures
        match r {
            Ok(b) => exif_source_kind(bytes@) == Ok::<bool, Seq<char>>(b),
            Err(m) => exif_source_kind(bytes@) == Err::<bool, Seq<char>>(m@),
        },
{
    match MediaSource::seekable(Cursor::new(bytes)) {
        Ok(ms) => Ok(ms.has_exif()),
        Err(e) => Err(e.to_string()),
    }
}

/// The tag values nom-exif parses from the bytes of an image; `None` when
/// the bytes do not parse.
pub uninterp spec fn exif_tags_of(bytes: Seq<u8>) -> Option<ExifTags>;

/// The original capture time nom-exif parses from the bytes of an image, as
/// chrono's date and time parts; `None` when the tag is absent, is not a
/// time, or the bytes do not parse.
pub uninterp spec fn exif_capture_time_of(bytes: Seq<u8>) -> Option<CaptureTime>;

/// The EXIF values of an image's bytes: its tag values and capture time, or
/// `None` when the bytes do not parse.
pub open spec fn exif_fields_of(bytes: Seq<u8>) -> Option<ExifFields> {
    match exif_tags_of(bytes) {
        None => None,
        Some(t) => Some(
            ExifFields {
                iso: t.iso,
                f_number: t.f_number,
                exposure: t.exposure,
                focal_35mm: t.focal_35mm,
                focal: t.focal,
                taken: exif_capture_time_of(bytes),
                orientation: t.orientation,
            },
        ),
    }
}

/// Parses the bytes with nom-exif (`MediaParser::parse` into an `ExifIter`,
/// then `Exif`) and reads each tag with `Exif::get`, keeping a value only
/// where it has the expected type (`as_u16`, `as_urational`). The result is
/// named `exif_tags_of`.
#[verifier::external_body]
fn parse_exif_tags(bytes: &[u8]) -> (r: Option<ExifTags>)
    ensures
        r == exif_tags_of(bytes@),
{
    let exif = Exif::from(MediaParser::new().parse::<_, _, ExifIter>(MediaSource::seekable(Cursor::new(bytes)).ok()?).ok()?);
    let short = |t| exif.get(t)?.as_u16();
    let ratio = |t| exif.get(t)?.as_urational().map(Into::into);
    Some(ExifTags {
        iso: short(ISOSpeedRatings),
        f_number: ratio(FNumber),
        exposure: ratio(ExposureTime),
        focal_35mm: short(FocalLengthIn35mmFilm),
        focal: ratio(FocalLength),
        orientation: short(Orientation),
    })
}

/// Parses the bytes with nom-exif as `parse_exif_tags` does and reads
/// `DateTimeOriginal` with `as_time_components` (dropping the offset), as
/// chrono's `Datelike` and `Timelike` parts. The result is named
/// `exif_capture_time_of`; chrono documents the parts to lie in the ranges
/// of `capture_time_valid`.
#[verifier::external_body]
fn parse_exif_capture_time(bytes: &[u8]) -> (r: Option<CaptureTime>)
    ensures
        r == exif_capture_time_of(bytes@),
        r matches Some(t) ==> capture_time_valid(t),
{
    let exif = Exif::from(MediaParser::new().parse::<_, _, ExifIter>(MediaSource::seekable(Cursor::new(bytes)).ok()?).ok()?);
    let (t, _offset) = exif.get(DateTimeOriginal)?.as_time_components()?;
    Some((t.year(), t.month(), t.day(), t.hour(), t.minute(), t.second(), t.nanosecond()))
}

/// Reads the EXIF values from the bytes of an image file: `Err` with
/// nom-exif's message when it does not recognise the format, `Ok(None)` when
/// the format carries no EXIF (a video) or the EXIF does not parse, and the
/// values found otherwise.
pub fn exif_fields_from_bytes(bytes: &[u8]) -> (r: Result<Option<ExifFields>, String>)
    ensures
        match exif_source_kind(bytes@) {
            Err(m) => r matches Err(e) && e@ == m,
            Ok(has_exif) => r matches Ok(f) && f == (if has_exif {
                exif_fields_of(bytes@)
            } else {
                None
            }),
        },
        r matches Ok(Some(f)) ==> fields_valid(f),
{
    match media_has_exif(bytes) {
        Err(e) => Err(e),
        Ok(has_exif) => {
            if !has_exif {
                Ok(None)
            } else {
                match parse_exif_tags(bytes) {
                    None => Ok(None),
                    Some(t) => Ok(
                        Some(
                            ExifFields {
                                iso: t.iso,
                                f_number: t.f_number,
                                exposure: t.exposure,
                                focal_35mm: t.focal_35mm,
                                focal: t.focal,
                                taken: parse_exif_capture_time(bytes),
                                orientation: t.orientation,
                            },
                        ),
                    ),
                }
            }
        },
    }
}

/// The capture time as shown, where there is one.
pub open spec fn taken_text(taken: Option<CaptureTime>) -> Option<Seq<char>> {
    match taken {
        Some(t) => Some(capture_time_text(t.0 as int, t.1 as nat, t.2 as nat, t.3 as nat, t.4 as nat, t.5 as nat)),
        None => None,
    }
}

/// The ISO value as shown, where there is one.
pub open spec fn iso_shown(iso: Option<u16>) -> Option<u32> {
    match iso {
        Some(v) => Some(v as u32),
        None => None,
    }
}

/// The summary of an image's EXIF values, with the aperture and shutter
/// speed already formatted: ISO widened, focal length as
/// `format_focal_length` gives it, capture time as `%Y-%m-%d %H:%M:%S`;
/// `None` when none of the five is present.
pub fn exif_summary(fields: &ExifFields, aperture: Option<String>, shutter_speed: Option<String>) -> (r: Option<
    ExifInfo,
>)
    requires
        fields_valid(*fields),
    ensures
        ({
            let iso = iso_shown(fields.iso);
            let focal = spec_focal_length(fields.focal_35mm, fields.focal);
            let datetime = taken_text(fields.taken);
            let empty = iso is None && aperture is None && shutter_speed is None && focal is None && datetime is None;
            &&& empty ==> r is None
            &&& !empty ==> (r matches Some(e) && e.iso == iso && opt_view(e.aperture) == opt_view(aperture)
                && opt_view(e.shutter_speed) == opt_view(shutter_speed) && opt_view(e.focal_length) == focal
                && opt_view(e.datetime) == datetime)
        }),
{
    let iso = iso_from_exif(fields.iso);
    let focal_length = format_focal_length(fields.focal_35mm, fields.focal);
    let datetime = match fields.taken {
        Some(t) => Some(format_capture_time(t.0, t.1, t.2, t.3, t.4, t.5)),
        None => None,
    };
    exif_info_from_parts(iso, aperture, shutter_speed, focal_length, datetime)
}

/// Days from 1970-01-01 to the proleptic Gregorian date `y-m-d` (negative
/// before it): the year is counted from March, so that the leap day comes
/// last, in eras of 400 years of 146097 days each.
pub open spec fn days_from_civil(y: int, m: int, d: int) -> int {
    let ym = if m <= 2 {
        y - 1
    } else {
        y
    };
    let era = ym / 400;
    let yoe = ym - era * 400;
    let mp = if m > 2 {
        m - 3
    } else {
        m + 9
    };
    let doy = (153 * mp + 2) / 5 + d - 1;
    let doe = yoe * 365 + yoe / 4 - yoe / 100 + doy;
    era * 146097 + doe - 719468
}

/// A capture time read as UTC, in nanoseconds since the Unix epoch.
pub open spec fn capture_nanos(t: CaptureTime) -> int {
    (days_from_civil(t.0 as int, t.1 as int, t.2 as int) * 86400 + t.3 * 3600 + t.4 * 60 + t.5) * 1_000_000_000
        + t.6
}

/// The capture time read as UTC, in nanoseconds since the Unix epoch (the
/// order in which the file index sorts photos).
pub fn capture_time_nanos(t: CaptureTime) -> (r: i128)
    requires
        capture_time_valid(t),
    ensures
        r == capture_nanos(t),
{
    let (y, m, d, hour, minute, second, nanos) = t;
    let ym: i64 = if m <= 2 {
        y as i64 - 1
    } else {
        y as i64
    };
    let shifted: u64 = (ym + 400_000) as u64;
    let era_shifted: u64 = shifted / 400;
    let yoe: u64 = shifted % 400;
    let mp: u64 = if m > 2 {
        (m - 3) as u64
    } else {
        (m + 9) as u64
    };
    let doy: u64 = (153 * mp + 2) / 5 + d as u64 - 1;
    let doe: u64 = yoe * 365 + yoe / 4 - yoe / 100 + doy;
    proof {
        lemma_fundamental_div_mod_converse(ym as int, 400, era_shifted - 1000, yoe as int);
    }
    let days: i64 = (era_shifted as i64 - 1000) * 146097 + doe as i64 - 719468;
    let secs: i128 = days as i128 * 86400 + hour as i128 * 3600 + minute as i128 * 60 + second as i128;
    secs * 1_000_000_000 + nanos as i128
}

} // verus!
