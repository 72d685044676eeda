//! Image format detection by file extension and JPEG EXIF segment handling.
use vstd::prelude::*;
use crate::text::{
    chars_eq_ignore_ascii_case, chars_of, eq_ignore_ascii_case, path_extension, path_extension_of,
    string_from_chars, to_lowercase, unicode_lowercase,
};

verus! {

/// All supported RAW image file extensions (lowercase).
pub const RAW_EXTENSIONS: [&'static str; 14] = [
    "nef", "nrw", "cr2", "cr3", "arw", "sr2", "raf", "orf", "rw2", "pef", "dng", "x3f", "raw", "srw",
];

/// The RAW extensions as character sequences.
pub open spec fn raw_extensions() -> Seq<Seq<char>> {
    seq![
        "nef"@, "nrw"@, "cr2"@, "cr3"@, "arw"@, "sr2"@, "raf"@, "orf"@, "rw2"@, "pef"@, "dng"@,
        "x3f"@, "raw"@, "srw"@,
    ]
}

/// Lowercase extensions of the non-RAW image formats (JPEG and HEIF family).
pub open spec fn raster_extensions() -> Seq<Seq<char>> {
    seq!["jpg"@, "jpeg"@, "heif"@, "hif"@, "heic"@]
}

/// `e` equals one of the RAW extensions, ignoring ASCII case.
pub open spec fn is_raw_extension(e: Seq<char>) -> bool {
    exists|k: int| 0 <= k < 14 && eq_ignore_ascii_case(#[trigger] raw_extensions()[k], e)
}

/// The path names a RAW image (by its extension, ASCII case-insensitively).
pub open spec fn spec_is_raw_file(p: Seq<char>) -> bool {
    match path_extension(p) {
        Some(e) => is_raw_extension(e),
        None => false,
    }
}

/// The path names a supported image: a RAW file, or a file whose lowercased
/// extension is one of the JPEG/HEIF extensions.
pub open spec fn spec_is_supported_image(p: Seq<char>) -> bool {
    spec_is_raw_file(p) || match path_extension(p) {
        Some(e) => raster_extensions().contains(unicode_lowercase(e)),
        None => false,
    }
}

/// An extension is a RAW extension exactly when it equals, ignoring ASCII
/// case, one of the entries of `RAW_EXTENSIONS`; every entry (in any ASCII
/// case) counts.
pub proof fn law_raw_extensions_are_the_listed_ones(e: Seq<char>)
    ensures
        is_raw_extension(e) <==> exists|k: int|
            0 <= k < RAW_EXTENSIONS@.len() && eq_ignore_ascii_case(#[trigger] RAW_EXTENSIONS@[k]@, e),
        forall|k: int| 0 <= k < RAW_EXTENSIONS@.len() ==> is_raw_extension(#[trigger] RAW_EXTENSIONS@[k]@),
{
    let exts = RAW_EXTENSIONS;
    assert(exts@.map_values(|s: &str| s@) =~= raw_extensions());
    assert forall|k: int| 0 <= k < RAW_EXTENSIONS@.len() implies #[trigger] RAW_EXTENSIONS@[k]@ == raw_extensions()[k] by {
        assert(exts@.map_values(|s: &str| s@)[k] == raw_extensions()[k]);
    }
    assert forall|k: int| 0 <= k < RAW_EXTENSIONS@.len() implies is_raw_extension(#[trigger] RAW_EXTENSIONS@[k]@) by {
        assert(eq_ignore_ascii_case(raw_extensions()[k], RAW_EXTENSIONS@[k]@));
    }
}

fn raw_extension_matches(e: &[char]) -> (r: bool)
    ensures
        r == is_raw_extension(e@),
{
    let exts = RAW_EXTENSIONS;
    assert(exts@.map_values(|s: &str| s@) =~= raw_extensions());
    let mut k: usize = 0;
    while k < 14
        invariant
            exts@.map_values(|s: &str| s@) =~= raw_extensions(),
            k <= 14,
            forall|j: int| 0 <= j < k ==> !eq_ignore_ascii_case(#[trigger] raw_extensions()[j], e@),
        decreases 14 - k,
    {
        let cand = chars_of(exts[k]);
        proof {
            assert(raw_extensions()[k as int] == exts@[k as int]@);
        }
        if chars_eq_ignore_ascii_case(cand.as_slice(), e) {
            return true;
        }
        k = k + 1;
    }
    false
}

/// Checks whether a file path has a RAW image extension.
pub fn is_raw_file(path: &str) -> (r: bool)
    ensures
        r == spec_is_raw_file(path@),
{
    let p = chars_of(path);
    match path_extension_of(p.as_slice()) {
        Some(e) => raw_extension_matches(e.as_slice()),
        None => false,
    }
}

/// `lowered` is one of the JPEG/HEIF extensions.
fn is_raster_extension(lowered: &[char]) -> (r: bool)
    ensures
        r == raster_extensions().contains(lowered@),
{
    let jpg = chars_of("jpg");
    let jpeg = chars_of("jpeg");
    let heif = chars_of("heif");
    let hif = chars_of("hif");
    let heic = chars_of("heic");
    let r = chars_equal(lowered, jpg.as_slice()) || chars_equal(lowered, jpeg.as_slice())
        || chars_equal(lowered, heif.as_slice()) || chars_equal(lowered, hif.as_slice())
        || chars_equal(lowered, heic.as_slice());
    proof {
        let l = raster_extensions();
        assert(l[0] == "jpg"@ && l[1] == "jpeg"@ && l[2] == "heif"@ && l[3] == "hif"@ && l[4] == "heic"@);
        if r {
            if lowered@ == "jpg"@ { assert(l[0] == lowered@); }
            if lowered@ == "jpeg"@ { assert(l[1] == lowered@); }
            if lowered@ == "heif"@ { assert(l[2] == lowered@); }
            if lowered@ == "hif"@ { assert(l[3] == lowered@); }
            if lowered@ == "heic"@ { assert(l[4] == lowered@); }
        }
    }
    r
}

/// Exact equality of two character sequences.
pub fn chars_equal(a: &[char], b: &[char]) -> (r: bool)
    ensures
        r == (a@ == b@),
{
    if a.len() != b.len() {
        return false;
    }
    let mut i: usize = 0;
    while i < a.len()
        invariant
            a@.len() == b@.len(),
            i <= a@.len(),
            forall|j: int| 0 <= j < i ==> a@[j] == b@[j],
        decreases a@.len() - i,
    {
        if a[i] != b[i] {
            return false;
        }
        i = i + 1;
    }
    proof {
        assert(a@ =~= b@);
    }
    true
}

/// The lowercased extension of a path, if it has one.
pub fn lowercase_extension(path: &str) -> (r: Option<Vec<char>>)
    ensures
        match path_extension(path@) {
            Some(e) => r.is_some() && r.unwrap()@ == unicode_lowercase(e),
            None => r is None,
        },
{
    let p = chars_of(path);
    match path_extension_of(p.as_slice()) {
        Some(e) => {
            let s = string_from_chars(e.as_slice());
            let lowered = to_lowercase(s.as_str());
            Some(chars_of(lowered.as_str()))
        },
        None => None,
    }
}

/// Checks whether a file path is a supported image format (JPEG/HEIF and all RAW).
pub fn is_supported_image(path: &str) -> (r: bool)
    ensures
        r == spec_is_supported_image(path@),
{
    if is_raw_file(path) {
        return true;
    }
    match lowercase_extension(path) {
        Some(lowered) => is_raster_extension(lowered.as_slice()),
        None => false,
    }
}

/// The EXIF identifier that opens an APP1/EXIF payload.
pub open spec fn exif_header() -> Seq<u8> {
    seq![0x45u8, 0x78u8, 0x69u8, 0x66u8, 0x00u8, 0x00u8]
}

/// Big-endian segment length stored after the marker at `i`.
pub open spec fn segment_length(j: Seq<u8>, i: int) -> int {
    j[i + 2] as int * 256 + j[i + 3] as int
}

/// Walks the JPEG marker segments starting at offset `i`, looking for an
/// APP1 segment carrying the EXIF identifier before the start of scan.
pub open spec fn exif_scan(j: Seq<u8>, i: int) -> bool
    decreases (if i <= j.len() { j.len() - i } else { 0 }),
{
    if i < 0 || i + 3 >= j.len() {
        false
    } else if j[i] != 0xFF {
        false
    } else if j[i + 1] == 0xE1 {
        if i + 10 <= j.len() && j.subrange(i + 4, i + 10) =~= exif_header() {
            true
        } else {
            exif_scan(j, i + 2 + segment_length(j, i))
        }
    } else if j[i + 1] == 0xDA {
        false
    } else if j[i + 1] == 0x00 || (0xD0 <= j[i + 1] && j[i + 1] <= 0xD9) {
        exif_scan(j, i + 2)
    } else {
        exif_scan(j, i + 2 + segment_length(j, i))
    }
}

/// The JPEG starts with SOI and has an APP1/EXIF segment before the scan data.
pub open spec fn spec_has_exif_app1(j: Seq<u8>) -> bool {
    j.len() >= 4 && j[0] == 0xFF && j[1] == 0xD8 && exif_scan(j, 2)
}

/// Checks whether a JPEG already has an APP1/EXIF marker.
pub fn has_exif_app1(jpeg: &[u8]) -> (r: bool)
    requires
        jpeg@.len() + 0x20000 <= usize::MAX,
    ensures
        r == spec_has_exif_app1(jpeg@),
{
    let n = jpeg.len();
    if n < 4 || jpeg[0] != 0xFF || jpeg[1] != 0xD8 {
        return false;
    }
    let mut i: usize = 2;
    while i + 3 < n
        invariant
            n == jpeg@.len(),
            n + 0x20000 <= usize::MAX,
            2 <= i <= n + 0x10010,
            n >= 4 && jpeg@[0] == 0xFF && jpeg@[1] == 0xD8,
            exif_scan(jpeg@, 2) == exif_scan(jpeg@, i as int),
        decreases n + 0x20000 - i,
    {
        if jpeg[i] != 0xFF {
            return false;
        }
        let marker = jpeg[i + 1];
        if marker == 0xE1 {
            let seg_len = (jpeg[i + 2] as usize) * 256 + (jpeg[i + 3] as usize);
            if i + 10 <= n && jpeg[i + 4] == 0x45 && jpeg[i + 5] == 0x78 && jpeg[i + 6] == 0x69
                && jpeg[i + 7] == 0x66 && jpeg[i + 8] == 0x00 && jpeg[i + 9] == 0x00 {
                proof {
                    assert(jpeg@.subrange(i + 4, i + 10) =~= exif_header());
                    assert(exif_scan(jpeg@, i as int));
                }
                return true;
            }
            proof {
                if i + 10 <= n {
                    let h = jpeg@.subrange(i + 4, i + 10);
                    assert(h[0] == jpeg@[i + 4] && h[1] == jpeg@[i + 5] && h[2] == jpeg@[i + 6]
                        && h[3] == jpeg@[i + 7] && h[4] == jpeg@[i + 8] && h[5] == jpeg@[i + 9]);
                    assert(!(h =~= exif_header()));
                }
            }
            i = i + 2 + seg_len;
            continue;
        }
        if marker == 0xDA {
            return false;
        }
        if marker == 0x00 || (0xD0 <= marker && marker <= 0xD9) {
            i = i + 2;
            continue;
        }
        let seg_len = (jpeg[i + 2] as usize) * 256 + (jpeg[i + 3] as usize);
        i = i + 2 + seg_len;
    }
    false
}

/// The minimal APP1/EXIF segment whose IFD0 carries only the Orientation tag.
pub open spec fn orientation_app1(o: u8) -> Seq<u8> {
    seq![
        0xFFu8, 0xE1u8, 0x00u8, 0x22u8, 0x45u8, 0x78u8, 0x69u8, 0x66u8, 0x00u8, 0x00u8, 0x49u8, 0x49u8,
        0x2Au8, 0x00u8, 0x08u8, 0x00u8, 0x00u8, 0x00u8, 0x01u8, 0x00u8, 0x12u8, 0x01u8, 0x03u8, 0x00u8,
        0x01u8, 0x00u8, 0x00u8, 0x00u8, o, 0x00u8, 0x00u8, 0x00u8, 0x00u8, 0x00u8, 0x00u8, 0x00u8,
    ]
}

/// Builds a minimal APP1/EXIF segment containing only the Orientation tag:
/// APP1 marker, length 34, "Exif\0\0", a little-endian TIFF header with IFD0 at
/// offset 8, one SHORT Orientation entry holding `orientation`, no next IFD.
pub fn build_orientation_app1(orientation: u8) -> (r: Vec<u8>)
    ensures
        r@ == orientation_app1(orientation),
{
    let v: Vec<u8> = vec![
        0xFF, 0xE1, 0x00, 0x22, 0x45, 0x78, 0x69, 0x66, 0x00, 0x00, 0x49, 0x49, 0x2A, 0x00, 0x08, 0x00,
        0x00, 0x00, 0x01, 0x00, 0x12, 0x01, 0x03, 0x00, 0x01, 0x00, 0x00, 0x00, orientation, 0x00,
        0x00, 0x00, 0x00, 0x00, 0x00, 0x00,
    ];
    proof {
        assert(v@ =~= orientation_app1(orientation));
    }
    v
}

/// Inserts a minimal EXIF APP1 segment carrying `orientation` right after the
/// SOI marker of a JPEG.
pub fn inject_orientation_exif(jpeg: Vec<u8>, orientation: u8) -> (r: Vec<u8>)
    requires
        jpeg@.len() >= 2,
    ensures
        r@ == jpeg@.subrange(0, 2) + orientation_app1(orientation) + jpeg@.subrange(2, jpeg@.len() as int),
{
    let app1 = build_orientation_app1(orientation);
    let mut result: Vec<u8> = Vec::new();
    result.push(jpeg[0]);
    result.push(jpeg[1]);
    let mut k: usize = 0;
    while k < app1.len()
        invariant
            app1@ == orientation_app1(orientation),
            k <= app1@.len(),
            result@ == jpeg@.subrange(0, 2) + app1@.subrange(0, k as int),
        decreases app1@.len() - k,
    {
        result.push(app1[k]);
        proof {
            assert(app1@.subrange(0, k + 1) =~= app1@.subrange(0, k as int).push(app1@[k as int]));
        }
        k = k + 1;
    }
    let ghost mid = result@;
    let mut i: usize = 2;
    while i < jpeg.len()
        invariant
            2 <= i <= jpeg@.len(),
            result@ == mid + jpeg@.subrange(2, i as int),
        decreases jpeg@.len() - i,
    {
        result.push(jpeg[i]);
        proof {
            assert(jpeg@.subrange(2, i + 1) =~= jpeg@.subrange(2, i as int).push(jpeg@[i as int]));
        }
        i = i + 1;
    }
    proof {
        assert(app1@.subrange(0, app1@.len() as int) =~= app1@);
        assert(result@ =~= jpeg@.subrange(0, 2) + orientation_app1(orientation) + jpeg@.subrange(2, jpeg@.len() as int));
    }
    result
}

} // verus!
