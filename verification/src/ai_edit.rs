//! AI image editing: how an image is prepared for upload, the prompt that
//! is sent, and when an upload is edited automatically.
use vstd::prelude::*;
use base64::Engine;
use crate::error::AppError;
use crate::ftp::{blank, is_blank, opt_view, str_eq};
use crate::image_utils::lowercase_extension;
use crate::text::{decimal, format_decimal, path_extension, string_from_chars, unicode_lowercase};

verus! {

/// Longest side, in pixels, of an image sent for editing.
pub const MAX_LONG_SIDE: u32 = 4096;

/// JPEG quality of a re-encoded image.
pub const JPEG_QUALITY: u8 = 85;

/// An image ready for the edit API: base64 data and its media type.
#[derive(Debug, Clone)]
pub struct PreparedImage {
    pub base64_data: String,
    pub mime_type: &'static str,
}

/// How an image is prepared: HEIF-family files are sent as they are (the
/// API decodes them); anything else is decoded, scaled down to
/// `MAX_LONG_SIDE` and re-encoded as JPEG.
#[derive(Debug, Clone, Copy, PartialEq, Eq)]
pub enum UploadRoute {
    HeicAsIs,
    ReencodeJpeg,
}

/// The path's lowercased extension is a HEIF-family one.
pub open spec fn spec_is_heic(path: Seq<char>) -> bool {
    match path_extension(path) {
        Some(e) => {
            let l = unicode_lowercase(e);
            l == "heic"@ || l == "heif"@ || l == "hif"@
        },
        None => false,
    }
}

/// The route of a path.
pub open spec fn spec_upload_route(path: Seq<char>) -> UploadRoute {
    if spec_is_heic(path) {
        UploadRoute::HeicAsIs
    } else {
        UploadRoute::ReencodeJpeg
    }
}

/// The route an image takes.
pub fn upload_route(file_path: &str) -> (r: UploadRoute)
    ensures
        r == spec_upload_route(file_path@),
{
    match lowercase_extension(file_path) {
        Some(l) => {
            let s = string_from_chars(l.as_slice());
            let e = s.as_str();
            if str_eq(e, "heic") || str_eq(e, "heif") || str_eq(e, "hif") {
                UploadRoute::HeicAsIs
            } else {
                UploadRoute::ReencodeJpeg
            }
        },
        None => UploadRoute::ReencodeJpeg,
    }
}

/// The character of a 6-bit value in the standard base64 alphabet:
/// `A`-`Z`, `a`-`z`, `0`-`9`, `+`, `/`.
pub open spec fn b64_digit(v: int) -> char {
    if v < 26 {
        (65 + v) as char
    } else if v < 52 {
        (97 + v - 26) as char
    } else if v < 62 {
        (48 + v - 52) as char
    } else if v == 62 {
        '+'
    } else {
        '/'
    }
}

/// Standard base64 with `=` padding (what the `base64` crate's `STANDARD`
/// engine produces): each group of three bytes becomes four characters; a
/// final group of one or two bytes becomes two or three characters and
/// padding.
pub open spec fn base64_standard(d: Seq<u8>) -> Seq<char>
    decreases d.len(),
{
    if d.len() == 0 {
        Seq::empty()
    } else {
        let a = d[0] as int;
        if d.len() == 1 {
            seq![b64_digit(a / 4), b64_digit((a % 4) * 16), '=', '=']
        } else {
            let b = d[1] as int;
            if d.len() == 2 {
                seq![b64_digit(a / 4), b64_digit((a % 4) * 16 + b / 16), b64_digit((b % 16) * 4), '=']
            } else {
                let c = d[2] as int;
                seq![
                    b64_digit(a / 4),
                    b64_digit((a % 4) * 16 + b / 16),
                    b64_digit((b % 16) * 4 + c / 64),
                    b64_digit(c % 64),
                ] + base64_standard(d.subrange(3, d.len() as int))
            }
        }
    }
}

/// Encodes bytes with `base64::engine::general_purpose::STANDARD`; the contract
/// claims the standard padded encoding `base64_standard`.
#[verifier::external_body]
fn encode_base64(data: &[u8]) -> (r: String)
    ensures
        r@ == base64_standard(data@),
{
    base64::engine::general_purpose::STANDARD.encode(data)
}

/// The media type each route sends.
pub open spec fn spec_route_mime(route: UploadRoute) -> Seq<char> {
    match route {
        UploadRoute::HeicAsIs => "image/heic"@,
        UploadRoute::ReencodeJpeg => "image/jpeg"@,
    }
}

/// Packages the bytes a route produced: base64 data with the route's type.
pub fn prepared_from_bytes(route: UploadRoute, bytes: &[u8]) -> (r: PreparedImage)
    ensures
        r.base64_data@ == base64_standard(bytes@),
        r.mime_type@ == spec_route_mime(route),
{
    PreparedImage {
        base64_data: encode_base64(bytes),
        mime_type: match route {
            UploadRoute::HeicAsIs => "image/heic",
            UploadRoute::ReencodeJpeg => "image/jpeg",
        },
    }
}

/// Prepares an image for upload: picks the route from the extension, has
/// `load` produce that route's bytes (the file as it is, or the scaled
/// JPEG), and encodes them. A failure of `load` is returned as it is.
pub fn prepare_for_upload<F>(file_path: &str, load: F) -> (r: Result<PreparedImage, AppError>) where
    F: FnOnce(UploadRoute) -> Result<Vec<u8>, AppError>,

    requires
        forall|route: UploadRoute| #[trigger] load.requires((route,)),
    ensures
        match r {
            Ok(p) => p.mime_type@ == spec_route_mime(spec_upload_route(file_path@)) && exists|bytes: Vec<u8>|
                #[trigger] load.ensures((spec_upload_route(file_path@),), Ok::<Vec<u8>, AppError>(bytes))
                    && p.base64_data@ == base64_standard(bytes@),
            Err(e) => load.ensures((spec_upload_route(file_path@),), Err::<Vec<u8>, AppError>(e)),
        },
{
    let route = upload_route(file_path);
    let loaded = load(route);
    match loaded {
        Ok(bytes) => {
            assert(loaded == Ok::<Vec<u8>, AppError>(bytes));
            Ok(prepared_from_bytes(route, bytes.as_slice()))
        },
        Err(e) => {
            assert(loaded == Err::<Vec<u8>, AppError>(e));
            Err(e)
        },
    }
}

/// The prompt sent: the override when given, else the configured prompt
/// unless it is empty.
pub fn select_prompt<'a>(override_prompt: Option<&'a str>, config_prompt: &'a str) -> (r: Option<&'a str>)
    ensures
        match override_prompt {
            Some(p) => r == Some(p),
            None => if config_prompt@.len() == 0 {
                r is None
            } else {
                r == Some(config_prompt)
            },
        },
{
    match override_prompt {
        Some(p) => Some(p),
        None => if config_prompt.unicode_len() == 0 {
            None
        } else {
            Some(config_prompt)
        },
    }
}

/// An upload is edited automatically when auto edit is on and the
/// configured prompt is not blank.
pub fn should_auto_edit(auto_edit: bool, prompt: &str) -> (r: bool)
    ensures
        r == (auto_edit && !is_blank(prompt@)),
{
    auto_edit && !blank(prompt)
}

/// The model used for a task: the task's override, else the configured one.
pub fn effective_model<'a>(override_model: Option<&'a str>, configured: &'a str) -> (r: &'a str)
    ensures
        match override_model {
            Some(m) => r == m,
            None => r == configured,
        },
{
    match override_model {
        Some(m) => m,
        None => configured,
    }
}

/// The cached provider is rebuilt when the API key or the model differs from
/// the ones it was built with (or none was built).
pub fn needs_new_provider(
    cached_api_key: &Option<String>,
    cached_model: &Option<String>,
    api_key: &str,
    model: &str,
) -> (r: bool)
    ensures
        r == !(opt_view(*cached_api_key) == Some(api_key@) && opt_view(*cached_model) == Some(model@)),
{
    let same_key = match cached_api_key {
        Some(k) => str_eq(k.as_str(), api_key),
        None => false,
    };
    let same_model = match cached_model {
        Some(m) => str_eq(m.as_str(), model),
        None => false,
    };
    !(same_key && same_model)
}

/// An edit needs an API key.
pub fn require_api_key(api_key: &str) -> (r: Result<(), AppError>)
    ensures
        api_key@.len() == 0 ==> (r matches Err(AppError::AiEditError(m)) && m@ == "API Key is not configured"@),
        api_key@.len() > 0 ==> r is Ok,
{
    if api_key.unicode_len() == 0 {
        Err(AppError::AiEditError(String::from_str("API Key is not configured")))
    } else {
        Ok(())
    }
}

/// The prompt of an edit (as `select_prompt` chooses it); an error when
/// there is none.
pub fn prompt_or_error<'a>(override_prompt: Option<&'a str>, config_prompt: &'a str) -> (r: Result<&'a str, AppError>)
    ensures
        match override_prompt {
            Some(p) => r == Ok::<&str, AppError>(p),
            None => if config_prompt@.len() == 0 {
                r matches Err(AppError::AiEditError(m)) && m@ == "提示词不能为空，请先配置提示词"@
            } else {
                r == Ok::<&str, AppError>(config_prompt)
            },
        },
{
    match select_prompt(override_prompt, config_prompt) {
        Some(p) => Ok(p),
        None => Err(AppError::AiEditError(String::from_str("提示词不能为空，请先配置提示词"))),
    }
}

/// The name of an edited image at attempt `i`: `<stem>_AIEdit_<time>.jpg`,
/// then `<stem>_AIEdit_<time>_<i>.jpg`.
pub open spec fn edited_name(stem: Seq<char>, datetime: Seq<char>, i: nat) -> Seq<char> {
    if i == 0 {
        stem + "_AIEdit_"@ + datetime + ".jpg"@
    } else {
        stem + "_AIEdit_"@ + datetime + "_"@ + decimal(i) + ".jpg"@
    }
}

fn edited_image_name(stem: &str, datetime: &str, i: u32) -> (r: String)
    ensures
        r@ == edited_name(stem@, datetime@, i as nat),
{
    let s = String::from_str(stem);
    let s = s.concat("_AIEdit_");
    let s = s.concat(datetime);
    if i == 0 {
        s.concat(".jpg")
    } else {
        let s = s.concat("_");
        let s = s.concat(format_decimal(i as u64).as_str());
        s.concat(".jpg")
    }
}

/// `try_write` reported writing `name` (`true`: created and written) or not.
pub open spec fn write_reported<F: Fn(&str) -> bool>(try_write: F, name: Seq<char>, written: bool) -> bool {
    exists|s: &str| s@ == name && #[trigger] try_write.ensures((s,), written)
}

/// Writes an edited image under the first free name: `try_write` creates the
/// named file exclusively and writes it; the primary name is tried, then the
/// `_1` to `_99` names. Returns the name written, or an error when all
/// hundred failed.
pub fn write_edited_image<F: Fn(&str) -> bool>(stem: &str, datetime: &str, try_write: F) -> (r: Result<String, AppError>)
    requires
        forall|s: &str| #[trigger] try_write.requires((s,)),
    ensures
        match r {
            Ok(name) => exists|i: nat|
                i <= 99 && name@ == edited_name(stem@, datetime@, i) && write_reported(try_write, name@, true)
                    && forall|j: nat| j < i ==> write_reported(try_write, #[trigger] edited_name(stem@, datetime@, j), false),
            Err(e) => (e matches AppError::AiEditError(m) && m@
                == "Failed to write edited image: too many file name collisions"@) && forall|j: nat|
                j <= 99 ==> write_reported(try_write, #[trigger] edited_name(stem@, datetime@, j), false),
        },
{
    let mut i: u32 = 0;
    while i <= 99
        invariant
            i <= 100,
            forall|s: &str| #[trigger] try_write.requires((s,)),
            forall|j: nat| j < i ==> write_reported(try_write, #[trigger] edited_name(stem@, datetime@, j), false),
        decreases 100 - i,
    {
        let name = edited_image_name(stem, datetime, i);
        let written = try_write(name.as_str());
        if written {
            proof {
                assert(write_reported(try_write, name@, true));
            }
            return Ok(name);
        }
        proof {
            assert(write_reported(try_write, name@, false));
            assert forall|j: nat| j < i + 1 implies write_reported(
                try_write,
                #[trigger] edited_name(stem@, datetime@, j),
                false,
            ) by {
                if j == i as nat {
                    assert(edited_name(stem@, datetime@, j) == name@);
                }
            }
        }
        i = i + 1;
    }
    Err(AppError::AiEditError(String::from_str("Failed to write edited image: too many file name collisions")))
}

} // verus!
