//! Color grading: the native core's result codes, output file naming with
//! collision retries, the auto-grading trigger, the NN fallback policy, the
//! QNN SoC mapping and the embedded NN model payloads.
use vstd::prelude::*;
use crate::config::AutoColorGradingConfig;
use crate::error::AppError;
use crate::ftp::str_eq;
use crate::image_utils::{is_raw_file, spec_is_raw_file};
use crate::text::{decimal, format_decimal};
use std::io::Read;
use vstd::string::StringSliceAdditionalSpecFns;

verus! {

/// Result codes of the native color grading core.
#[derive(Debug, Clone, Copy, PartialEq, Eq)]
pub enum RaResult {
    /// Success (native value 0).
    Success,
    ErrUnknown,
    ErrFileNotFound,
    ErrDecodeFailed,
    ErrInvalidParam,
    ErrLogUnsupported,
    ErrLutLoadFailed,
    ErrWriteFailed,
    ErrNoLensProfile,
    ErrOutOfMemory,
    ErrNnNotInitialized,
    ErrNnNanOutput,
    ErrNnInferenceFailed,
}

/// The native integer value of a result: 0 for success, -1 to -12 for the
/// errors in declaration order.
pub open spec fn spec_code(r: RaResult) -> int {
    match r {
        RaResult::Success => 0,
        RaResult::ErrUnknown => -1,
        RaResult::ErrFileNotFound => -2,
        RaResult::ErrDecodeFailed => -3,
        RaResult::ErrInvalidParam => -4,
        RaResult::ErrLogUnsupported => -5,
        RaResult::ErrLutLoadFailed => -6,
        RaResult::ErrWriteFailed => -7,
        RaResult::ErrNoLensProfile => -8,
        RaResult::ErrOutOfMemory => -9,
        RaResult::ErrNnNotInitialized => -10,
        RaResult::ErrNnNanOutput => -11,
        RaResult::ErrNnInferenceFailed => -12,
    }
}

/// The result a native integer stands for; unknown values are `ErrUnknown`.
pub open spec fn spec_from_code(c: int) -> RaResult {
    if c == 0 {
        RaResult::Success
    } else if c == -2 {
        RaResult::ErrFileNotFound
    } else if c == -3 {
        RaResult::ErrDecodeFailed
    } else if c == -4 {
        RaResult::ErrInvalidParam
    } else if c == -5 {
        RaResult::ErrLogUnsupported
    } else if c == -6 {
        RaResult::ErrLutLoadFailed
    } else if c == -7 {
        RaResult::ErrWriteFailed
    } else if c == -8 {
        RaResult::ErrNoLensProfile
    } else if c == -9 {
        RaResult::ErrOutOfMemory
    } else if c == -10 {
        RaResult::ErrNnNotInitialized
    } else if c == -11 {
        RaResult::ErrNnNanOutput
    } else if c == -12 {
        RaResult::ErrNnInferenceFailed
    } else {
        RaResult::ErrUnknown
    }
}

/// Description of each result.
pub open spec fn spec_description(r: RaResult) -> Seq<char> {
    match r {
        RaResult::Success => "Success"@,
        RaResult::ErrUnknown => "Unknown error"@,
        RaResult::ErrFileNotFound => "File not found"@,
        RaResult::ErrDecodeFailed => "RAW decode failed"@,
        RaResult::ErrInvalidParam => "Invalid parameter"@,
        RaResult::ErrLogUnsupported => "Log space unsupported"@,
        RaResult::ErrLutLoadFailed => "LUT load failed"@,
        RaResult::ErrWriteFailed => "Write failed"@,
        RaResult::ErrNoLensProfile => "No lens profile found"@,
        RaResult::ErrOutOfMemory => "Out of memory"@,
        RaResult::ErrNnNotInitialized => "NN demosaic session not initialized"@,
        RaResult::ErrNnNanOutput => "NN demosaic produced NaN/Inf output"@,
        RaResult::ErrNnInferenceFailed => "NN demosaic inference failed"@,
    }
}

/// Every result has a description, and no two results share one.
pub proof fn law_descriptions_distinct(r1: RaResult, r2: RaResult)
    ensures
        spec_description(r1).len() > 0,
        r1 != r2 ==> spec_description(r1) != spec_description(r2),
{
    reveal_strlit("Success");
    reveal_strlit("Unknown error");
    reveal_strlit("File not found");
    reveal_strlit("RAW decode failed");
    reveal_strlit("Invalid parameter");
    reveal_strlit("Log space unsupported");
    reveal_strlit("LUT load failed");
    reveal_strlit("Write failed");
    reveal_strlit("No lens profile found");
    reveal_strlit("Out of memory");
    reveal_strlit("NN demosaic session not initialized");
    reveal_strlit("NN demosaic produced NaN/Inf output");
    reveal_strlit("NN demosaic inference failed");
    if r1 != r2 && spec_description(r1) == spec_description(r2) {
        assert(spec_description(r1)[0] == spec_description(r2)[0]);
        assert(spec_description(r1).len() == spec_description(r2).len());
        assert(spec_description(r1)[1] == spec_description(r2)[1]);
        assert(spec_description(r1)[12] == spec_description(r2)[12]);
    }
}

impl RaResult {
    /// Success is `Success` and nothing else.
    pub fn is_ok(self) -> (r: bool)
        ensures
            r == (self == RaResult::Success),
    {
        match self {
            RaResult::Success => true,
            _ => false,
        }
    }

    /// The native integer value.
    pub fn code(self) -> (r: i32)
        ensures
            r == spec_code(self),
    {
        match self {
            RaResult::Success => 0,
            RaResult::ErrUnknown => -1,
            RaResult::ErrFileNotFound => -2,
            RaResult::ErrDecodeFailed => -3,
            RaResult::ErrInvalidParam => -4,
            RaResult::ErrLogUnsupported => -5,
            RaResult::ErrLutLoadFailed => -6,
            RaResult::ErrWriteFailed => -7,
            RaResult::ErrNoLensProfile => -8,
            RaResult::ErrOutOfMemory => -9,
            RaResult::ErrNnNotInitialized => -10,
            RaResult::ErrNnNanOutput => -11,
            RaResult::ErrNnInferenceFailed => -12,
        }
    }

    /// A human-readable description.
    pub fn description(self) -> (r: &'static str)
        ensures
            r@ == spec_description(self),
    {
        match self {
            RaResult::Success => "Success",
            RaResult::ErrUnknown => "Unknown error",
            RaResult::ErrFileNotFound => "File not found",
            RaResult::ErrDecodeFailed => "RAW decode failed",
            RaResult::ErrInvalidParam => "Invalid parameter",
            RaResult::ErrLogUnsupported => "Log space unsupported",
            RaResult::ErrLutLoadFailed => "LUT load failed",
            RaResult::ErrWriteFailed => "Write failed",
            RaResult::ErrNoLensProfile => "No lens profile found",
            RaResult::ErrOutOfMemory => "Out of memory",
            RaResult::ErrNnNotInitialized => "NN demosaic session not initialized",
            RaResult::ErrNnNanOutput => "NN demosaic produced NaN/Inf output",
            RaResult::ErrNnInferenceFailed => "NN demosaic inference failed",
        }
    }
}

/// The result a native return value stands for.
pub fn ra_result_from_code(code: i32) -> (r: RaResult)
    ensures
        r == spec_from_code(code as int),
{
    if code == 0 {
        RaResult::Success
    } else if code == -2 {
        RaResult::ErrFileNotFound
    } else if code == -3 {
        RaResult::ErrDecodeFailed
    } else if code == -4 {
        RaResult::ErrInvalidParam
    } else if code == -5 {
        RaResult::ErrLogUnsupported
    } else if code == -6 {
        RaResult::ErrLutLoadFailed
    } else if code == -7 {
        RaResult::ErrWriteFailed
    } else if code == -8 {
        RaResult::ErrNoLensProfile
    } else if code == -9 {
        RaResult::ErrOutOfMemory
    } else if code == -10 {
        RaResult::ErrNnNotInitialized
    } else if code == -11 {
        RaResult::ErrNnNanOutput
    } else if code == -12 {
        RaResult::ErrNnInferenceFailed
    } else {
        RaResult::ErrUnknown
    }
}

/// Reading back a result's native value gives the same result, and no two
/// results share a native value.
pub proof fn law_code_roundtrip(r: RaResult, s: RaResult)
    ensures
        spec_from_code(spec_code(r)) == r,
        spec_code(r) == spec_code(s) ==> r == s,
{
}

/// Every value outside 0..=-12 reads as `ErrUnknown`.
pub proof fn law_unknown_codes(c: int)
    requires
        c > 0 || c < -12,
    ensures
        spec_from_code(c) == RaResult::ErrUnknown,
{
}

// ---------------------------------------------------------------------------
// Output naming
// ---------------------------------------------------------------------------

/// The output name tried at attempt `i`: `<stem>_<preset>_<timestamp>.jpg`
/// first, then `<stem>_<preset>_<timestamp>_<i>.jpg`.
pub open spec fn candidate_name(stem: Seq<char>, preset_id: Seq<char>, timestamp: Seq<char>, i: nat) -> Seq<
    char,
> {
    if i == 0 {
        stem + "_"@ + preset_id + "_"@ + timestamp + ".jpg"@
    } else {
        stem + "_"@ + preset_id + "_"@ + timestamp + "_"@ + decimal(i) + ".jpg"@
    }
}

/// `is_taken` reported `name` occupied (`taken`) or free (`!taken`).
pub open spec fn reported<F: Fn(&str) -> bool>(is_taken: F, name: Seq<char>, taken: bool) -> bool {
    exists|s: &str| s@ == name && #[trigger] is_taken.ensures((s,), taken)
}

fn candidate(stem: &str, preset_id: &str, timestamp: &str, i: u32) -> (r: String)
    ensures
        r@ == candidate_name(stem@, preset_id@, timestamp@, i as nat),
{
    let s = String::from_str(stem);
    let s = s.concat("_");
    let s = s.concat(preset_id);
    let s = s.concat("_");
    let s = s.concat(timestamp);
    if i == 0 {
        s.concat(".jpg")
    } else {
        let s = s.concat("_");
        let s = s.concat(format_decimal(i as u64).as_str());
        s.concat(".jpg")
    }
}

/// Picks a free output name: the primary name, else the first of the `_1`
/// to `_99` suffixed names that `is_taken` reports free; an error when all
/// hundred are taken.
pub fn pick_unique_output_name<F: Fn(&str) -> bool>(stem: &str, preset_id: &str, timestamp: &str, is_taken: F) -> (r:
    Result<String, AppError>)
    requires
        forall|s: &str| #[trigger] is_taken.requires((s,)),
    ensures
        match r {
            Ok(name) => exists|i: nat|
                i <= 99 && name@ == candidate_name(stem@, preset_id@, timestamp@, i) && reported(
                    is_taken,
                    name@,
                    false,
                ) && forall|j: nat|
                    j < i ==> reported(
                        is_taken,
                        #[trigger] candidate_name(stem@, preset_id@, timestamp@, j),
                        true,
                    ),
            Err(e) => (e matches AppError::ColorGradingError(m) && m@
                == "Failed to generate output file name: too many file name collisions"@) && forall|j: nat|
                j <= 99 ==> reported(is_taken, #[trigger] candidate_name(stem@, preset_id@, timestamp@, j), true),
        },
{
    let mut i: u32 = 0;
    while i <= 99
        invariant
            i <= 100,
            forall|s: &str| #[trigger] is_taken.requires((s,)),
            forall|j: nat|
                j < i ==> reported(is_taken, #[trigger] candidate_name(stem@, preset_id@, timestamp@, j), true),
        decreases 100 - i,
    {
        let name = candidate(stem, preset_id, timestamp, i);
        let taken = is_taken(name.as_str());
        if !taken {
            proof {
                assert(reported(is_taken, name@, false));
            }
            return Ok(name);
        }
        proof {
            assert(reported(is_taken, name@, true));
            assert forall|j: nat| j < i + 1 implies reported(
                is_taken,
                #[trigger] candidate_name(stem@, preset_id@, timestamp@, j),
                true,
            ) by {
                if j == i as nat {
                    assert(candidate_name(stem@, preset_id@, timestamp@, j) == name@);
                }
            }
        }
        i = i + 1;
    }
    Err(
        AppError::ColorGradingError(
            String::from_str("Failed to generate output file name: too many file name collisions"),
        ),
    )
}

// ---------------------------------------------------------------------------
// Auto grading and NN fallback
// ---------------------------------------------------------------------------

/// Auto color grading applies to a file when it is configured, enabled with
/// a preset, and the file is RAW.
pub open spec fn spec_should_auto_color_grade(config: Option<AutoColorGradingConfig>, path: Seq<char>) -> bool {
    match config {
        Some(cg) => cg.enabled && cg.preset_id@.len() > 0 && spec_is_raw_file(path),
        None => false,
    }
}

/// Whether an uploaded file is color graded automatically.
pub fn should_auto_color_grade(config: Option<&AutoColorGradingConfig>, file_path: &str) -> (r: bool)
    ensures
        r == spec_should_auto_color_grade(
            match config {
                Some(c) => Some(*c),
                None => None,
            },
            file_path@,
        ),
{
    match config {
        Some(cg) => {
            if !cg.enabled || cg.preset_id.as_str().unicode_len() == 0 {
                return false;
            }
            is_raw_file(file_path)
        },
        None => false,
    }
}

/// How to continue after the NN decode of a file failed.
#[derive(Debug, Clone, Copy, PartialEq, Eq)]
pub enum FallbackDecision {
    /// The NN session was ready and this file failed: retry the file
    /// classically, keep NN for the next file.
    UseClassicalNoLatch,
    /// The NN session is not ready (structurally unavailable): retry
    /// classically and turn NN off for the rest of the session.
    UseClassicalAndLatch,
}

/// Classifies an NN failure by whether the NN session is ready.
pub fn classify_nn_failure(nn_ready: bool) -> (r: FallbackDecision)
    ensures
        nn_ready ==> r == FallbackDecision::UseClassicalNoLatch,
        !nn_ready ==> r == FallbackDecision::UseClassicalAndLatch,
{
    if nn_ready {
        FallbackDecision::UseClassicalNoLatch
    } else {
        FallbackDecision::UseClassicalAndLatch
    }
}

/// NN demosaic is attempted by default on every platform.
pub fn nn_enabled_default() -> (r: bool)
    ensures
        r,
{
    true
}

/// The NN gate after a failed NN attempt: latched off when the session was
/// not ready, unchanged otherwise.
pub fn nn_enabled_after_failure(enabled: bool, decision: FallbackDecision) -> (r: bool)
    ensures
        r == (enabled && decision == FallbackDecision::UseClassicalNoLatch),
{
    match decision {
        FallbackDecision::UseClassicalAndLatch => false,
        FallbackDecision::UseClassicalNoLatch => enabled,
    }
}

// ---------------------------------------------------------------------------
// QNN SoC configuration
// ---------------------------------------------------------------------------

/// QNN options for the device's SoC.
#[derive(Debug, Clone, Copy, PartialEq, Eq)]
pub struct NnSocConfig {
    pub soc_model: &'static str,
    pub htp_arch: &'static str,
}

/// QNN `soc_model` value of a Snapdragon model (`0`: let QNN detect it).
pub open spec fn spec_soc_model(sm: Seq<char>) -> Seq<char> {
    if sm == "SM8550"@ {
        "43"@
    } else if sm == "SM8650"@ {
        "57"@
    } else if sm == "SM8750"@ {
        "69"@
    } else if sm == "SM8845"@ {
        "97"@
    } else if sm == "SM8850"@ {
        "87"@
    } else {
        "0"@
    }
}

/// QNN HTP architecture of a Snapdragon model (empty: infer from the model).
pub open spec fn spec_htp_arch(sm: Seq<char>) -> Seq<char> {
    if sm == "SM8550"@ {
        "73"@
    } else if sm == "SM8650"@ {
        "75"@
    } else if sm == "SM8750"@ {
        "79"@
    } else if sm == "SM8845"@ || sm == "SM8850"@ {
        "81"@
    } else {
        ""@
    }
}

/// Maps a `Build.SOC_MODEL` value to QNN's `soc_model` option.
pub fn sm_to_qnn_soc_model(sm: &str) -> (r: &'static str)
    ensures
        r@ == spec_soc_model(sm@),
{
    if str_eq(sm, "SM8550") {
        "43"
    } else if str_eq(sm, "SM8650") {
        "57"
    } else if str_eq(sm, "SM8750") {
        "69"
    } else if str_eq(sm, "SM8845") {
        "97"
    } else if str_eq(sm, "SM8850") {
        "87"
    } else {
        "0"
    }
}

/// Maps a `Build.SOC_MODEL` value to QNN's HTP architecture.
pub fn sm_to_qnn_htp_arch(sm: &str) -> (r: &'static str)
    ensures
        r@ == spec_htp_arch(sm@),
{
    if str_eq(sm, "SM8550") {
        "73"
    } else if str_eq(sm, "SM8650") {
        "75"
    } else if str_eq(sm, "SM8750") {
        "79"
    } else if str_eq(sm, "SM8845") || str_eq(sm, "SM8850") {
        "81"
    } else {
        ""
    }
}

/// The QNN configuration for the SoC model read from the system (none when
/// it could not be read: QNN then detects the SoC itself).
pub fn nn_soc_config(soc_model: Option<&str>) -> (r: Option<NnSocConfig>)
    ensures
        match soc_model {
            Some(sm) => r matches Some(c) && c.soc_model@ == spec_soc_model(sm@) && c.htp_arch@
                == spec_htp_arch(sm@),
            None => r is None,
        },
{
    match soc_model {
        Some(sm) => Some(NnSocConfig { soc_model: sm_to_qnn_soc_model(sm), htp_arch: sm_to_qnn_htp_arch(sm) }),
        None => None,
    }
}

// ---------------------------------------------------------------------------
// Embedded NN models
// ---------------------------------------------------------------------------

/// What gzip decoding (flate2's `GzDecoder`, read to the end) yields for
/// `data`: the decompressed bytes, or `None` when the stream is invalid.
pub uninterp spec fn gzip_decoded(data: Seq<u8>) -> Option<Seq<u8>>;

/// Decodes a gzip stream with `flate2::read::GzDecoder` and `read_to_end`.
#[verifier::external_body]
fn gunzip(compressed: &[u8]) -> (r: Option<Vec<u8>>)
    ensures
        match r {
            Some(v) => gzip_decoded(compressed@) == Some(v@),
            None => gzip_decoded(compressed@) is None,
        },
{
    let mut out = Vec::new();
    match flate2::read::GzDecoder::new(compressed).read_to_end(&mut out) {
        Ok(_) => Some(out),
        Err(_) => None,
    }
}

/// The model weights in an embedded gzip payload: `None` when it does not
/// decode or decodes to nothing (an empty placeholder).
pub fn decompress_nn_model(compressed: &[u8]) -> (r: Option<Vec<u8>>)
    ensures
        match gzip_decoded(compressed@) {
            Some(d) => if d.len() > 0 {
                r matches Some(v) && v@ == d
            } else {
                r is None
            },
            None => r is None,
        },
{
    match gunzip(compressed) {
        Some(out) => {
            if out.len() > 0 {
                Some(out)
            } else {
                None
            }
        },
        None => None,
    }
}

/// The Bayer and X-Trans NN models from their embedded gzip payloads.
pub fn nn_model_bytes(bayer_gz: &[u8], xtrans_gz: &[u8]) -> (r: (Option<Vec<u8>>, Option<Vec<u8>>))
    ensures
        r.0 is Some <==> (gzip_decoded(bayer_gz@) matches Some(d) && d.len() > 0),
        r.1 is Some <==> (gzip_decoded(xtrans_gz@) matches Some(d) && d.len() > 0),
        r.0 matches Some(v) ==> gzip_decoded(bayer_gz@) == Some(v@),
        r.1 matches Some(v) ==> gzip_decoded(xtrans_gz@) == Some(v@),
{
    (decompress_nn_model(bayer_gz), decompress_nn_model(xtrans_gz))
}

// ---------------------------------------------------------------------------
// Preview URLs
// ---------------------------------------------------------------------------

/// Bytes a preview URL carries as they are: ASCII letters and digits and
/// `-_.~/:\`.
pub open spec fn url_safe(b: u8) -> bool {
    (65 <= b <= 90) || (97 <= b <= 122) || (48 <= b <= 57) || b == 45 || b == 95 || b == 46 || b == 126
        || b == 47 || b == 58 || b == 92
}

/// Uppercase hexadecimal digit of `d` (`d < 16`).
pub open spec fn hex_digit(d: u8) -> char {
    if d < 10 {
        (48 + d) as char
    } else {
        (55 + d) as char
    }
}

/// The percent-encoding of `bytes`: safe bytes as their character, every
/// other byte as `%` and two uppercase hexadecimal digits.
pub open spec fn spec_percent_encode(bytes: Seq<u8>) -> Seq<char>
    decreases bytes.len(),
{
    if bytes.len() == 0 {
        Seq::empty()
    } else {
        let b = bytes.last();
        spec_percent_encode(bytes.drop_last()) + if url_safe(b) {
            seq![b as char]
        } else {
            seq!['%', hex_digit(b / 16), hex_digit(b % 16)]
        }
    }
}

fn hex_char(d: u8) -> (r: char)
    requires
        d < 16,
    ensures
        r == hex_digit(d),
{
    if d < 10 {
        (48 + d) as char
    } else {
        (55 + d) as char
    }
}

/// Percent-encodes the UTF-8 bytes of `input` for a preview URL.
pub fn percent_encode(input: &str) -> (r: String)
    ensures
        r@ == spec_percent_encode(input.spec_bytes()),
{
    let bytes = input.as_bytes();
    let n = bytes.len();
    let mut out: Vec<char> = Vec::new();
    let mut i: usize = 0;
    while i < n
        invariant
            n == bytes@.len(),
            bytes@ == input.spec_bytes(),
            i <= n,
            out@ == spec_percent_encode(bytes@.take(i as int)),
        decreases n - i,
    {
        let b = bytes[i];
        let ghost before = out@;
        if (b >= 65 && b <= 90) || (b >= 97 && b <= 122) || (b >= 48 && b <= 57) || b == 45 || b == 95
            || b == 46 || b == 126 || b == 47 || b == 58 || b == 92 {
            out.push(b as char);
        } else {
            out.push('%');
            out.push(hex_char(b / 16));
            out.push(hex_char(b % 16));
        }
        proof {
            let t = bytes@.take(i + 1);
            assert(t.drop_last() =~= bytes@.take(i as int));
            assert(t.last() == b);
            assert(out@ =~= spec_percent_encode(t));
        }
        i = i + 1;
    }
    proof {
        assert(bytes@.take(n as int) =~= bytes@);
    }
    crate::text::string_from_chars(out.as_slice())
}

/// The URL the preview window loads a rendered preview from.
pub fn preview_url(output_path: &str) -> (r: String)
    ensures
        r@ == "http://image-preview.localhost/"@ + spec_percent_encode(output_path.spec_bytes()),
{
    let s = String::from_str("http://image-preview.localhost/");
    s.concat(percent_encode(output_path).as_str())
}

// ---------------------------------------------------------------------------
// Preview sessions
// ---------------------------------------------------------------------------

/// An open preview session of the native core: its handle, the image it
/// decoded, where it renders, and whether lens correction is on.
#[derive(Debug, Clone, PartialEq, Eq)]
pub struct ActivePreview {
    pub handle: usize,
    pub image_path: String,
    pub preview_output_path: String,
    pub lens_correction: bool,
}

/// What applying a grade to the active preview needs: the session handle,
/// where to render, and whether lens correction must be toggled first.
#[derive(Debug, Clone, PartialEq, Eq)]
pub struct PreviewApply {
    pub handle: usize,
    pub preview_output_path: String,
    pub toggle_lens_correction: bool,
}

/// The one preview session the app keeps open.
#[derive(Debug)]
pub struct PreviewSlot {
    pub active: Option<ActivePreview>,
}

impl PreviewSlot {
    /// No session.
    pub fn new() -> (r: PreviewSlot)
        ensures
            r.active is None,
    {
        PreviewSlot { active: None }
    }

    /// The name of the file a session renders to.
    pub fn preview_file_name(handle: usize) -> (r: String)
        ensures
            r@ == "preview_"@ + crate::text::decimal(handle as nat) + ".jpg"@,
    {
        let s = String::from_str("preview_");
        let s = s.concat(format_decimal(handle as u64).as_str());
        s.concat(".jpg")
    }

    /// A new session replaces the open one, which is returned to be ended.
    /// A new session starts with lens correction on.
    pub fn begin(&mut self, handle: usize, image_path: String, preview_output_path: String) -> (r: Option<
        ActivePreview,
    >)
        ensures
            r == old(self).active,
            final(self).active matches Some(a) && a.handle == handle && a.image_path == image_path
                && a.preview_output_path == preview_output_path && a.lens_correction,
    {
        let previous = self.active.take();
        self.active = Some(ActivePreview { handle, image_path, preview_output_path, lens_correction: true });
        previous
    }

    /// Applying a grade: needs an open session (else the error), and
    /// records the requested lens correction, toggling it when it changed.
    pub fn apply(&mut self, enable_lens_correction: bool) -> (r: Result<PreviewApply, AppError>)
        ensures
            match old(self).active {
                None => (r matches Err(AppError::ColorGradingError(m)) && m@ == "No active preview session"@)
                    && final(self).active is None,
                Some(a) => (r matches Ok(p) && p.handle == a.handle && p.preview_output_path
                    == a.preview_output_path && p.toggle_lens_correction == (a.lens_correction
                    != enable_lens_correction)) && final(self).active == Some(
                    ActivePreview { lens_correction: enable_lens_correction, ..a },
                ),
            },
    {
        match self.active.take() {
            None => Err(AppError::ColorGradingError(String::from_str("No active preview session"))),
            Some(a) => {
                let toggle = a.lens_correction != enable_lens_correction;
                let out = PreviewApply {
                    handle: a.handle,
                    preview_output_path: a.preview_output_path.clone(),
                    toggle_lens_correction: toggle,
                };
                self.active = Some(ActivePreview { lens_correction: enable_lens_correction, ..a });
                Ok(out)
            },
        }
    }

    /// Closes the session; the closed one is returned to be ended.
    pub fn end(&mut self) -> (r: Option<ActivePreview>)
        ensures
            r == old(self).active,
            final(self).active is None,
    {
        self.active.take()
    }
}

} // verus!
