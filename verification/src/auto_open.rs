//! Opening received images on the desktop: which viewer an upload or a
//! manual request goes to, the events sent to the preview window, and the
//! Photos app URI.
use vstd::prelude::*;
use vstd::string::StringSliceAdditionalSpecFns;
use crate::config::{preview_view, ImageOpenMethod, PreviewWindowConfig};
use crate::color_grading::hex_digit;

verus! {

/// How to open an image.
#[derive(Debug, Clone, PartialEq, Eq)]
pub enum OpenAction {
    /// Do nothing.
    Nothing,
    /// Show it in the built-in preview window, raising the window or not.
    BuiltInPreview { bring_to_front: bool },
    /// Open it with the system's default program.
    SystemDefault,
    /// Open it in the Windows Photos app.
    WindowsPhotos,
    /// Open it with the configured program.
    Custom { program: String },
}

/// Value of an action: its method (`None` for nothing), the raise flag and
/// the program.
pub open spec fn action_view(a: OpenAction) -> (Option<ImageOpenMethod>, bool, Seq<char>) {
    match a {
        OpenAction::Nothing => (None, false, Seq::empty()),
        OpenAction::BuiltInPreview { bring_to_front } => (Some(ImageOpenMethod::BuiltInPreview), bring_to_front, Seq::empty()),
        OpenAction::SystemDefault => (Some(ImageOpenMethod::SystemDefault), false, Seq::empty()),
        OpenAction::WindowsPhotos => (Some(ImageOpenMethod::WindowsPhotos), false, Seq::empty()),
        OpenAction::Custom { program } => (Some(ImageOpenMethod::Custom), false, program@),
    }
}

/// The action for the configured method: the built-in preview raises the
/// window as `bring_to_front` says; a custom program is used only when one
/// is configured.
pub open spec fn spec_action_for(c: PreviewWindowConfig, bring_to_front: bool) -> (Option<ImageOpenMethod>, bool, Seq<char>) {
    match c.method {
        ImageOpenMethod::BuiltInPreview => (Some(ImageOpenMethod::BuiltInPreview), bring_to_front, Seq::empty()),
        ImageOpenMethod::SystemDefault => (Some(ImageOpenMethod::SystemDefault), false, Seq::empty()),
        ImageOpenMethod::WindowsPhotos => (Some(ImageOpenMethod::WindowsPhotos), false, Seq::empty()),
        ImageOpenMethod::Custom => match c.custom_path {
            Some(p) => (Some(ImageOpenMethod::Custom), false, p@),
            None => (None, false, Seq::empty()),
        },
    }
}

/// The action opens the image with the configured method: the built-in
/// preview raises its window exactly as asked (whatever the configuration's
/// own flag says), the other methods never raise it, and the custom program
/// is the configured one; a custom method without a program does nothing.
pub proof fn law_action_follows_method(c: PreviewWindowConfig, bring_to_front: bool)
    ensures
        c.method == ImageOpenMethod::BuiltInPreview ==> spec_action_for(c, bring_to_front).0 == Some(
            ImageOpenMethod::BuiltInPreview,
        ) && spec_action_for(c, bring_to_front).1 == bring_to_front,
        c.method != ImageOpenMethod::BuiltInPreview ==> !spec_action_for(c, bring_to_front).1,
        c.method != ImageOpenMethod::Custom ==> spec_action_for(c, bring_to_front).0 == Some(c.method),
        c.method == ImageOpenMethod::Custom ==> match c.custom_path {
            Some(p) => spec_action_for(c, bring_to_front).0 == Some(ImageOpenMethod::Custom)
                && spec_action_for(c, bring_to_front).2 == p@,
            None => spec_action_for(c, bring_to_front).0 is None,
        },
        spec_action_for(c, bring_to_front) == spec_action_for(
            (PreviewWindowConfig { auto_bring_to_front: !c.auto_bring_to_front, enabled: !c.enabled, ..c }),
            bring_to_front,
        ),
{
}

fn action_for(config: &PreviewWindowConfig, bring_to_front: bool) -> (r: OpenAction)
    ensures
        action_view(r) == spec_action_for(*config, bring_to_front),
{
    match config.method {
        ImageOpenMethod::BuiltInPreview => OpenAction::BuiltInPreview { bring_to_front },
        ImageOpenMethod::SystemDefault => OpenAction::SystemDefault,
        ImageOpenMethod::WindowsPhotos => OpenAction::WindowsPhotos,
        ImageOpenMethod::Custom => match &config.custom_path {
            Some(p) => OpenAction::Custom { program: p.clone() },
            None => OpenAction::Nothing,
        },
    }
}

/// What an upload opens: nothing when automatic preview is off, else the
/// configured method, raising the preview window as configured.
pub fn upload_open_action(config: &PreviewWindowConfig) -> (r: OpenAction)
    ensures
        !config.enabled ==> r == OpenAction::Nothing,
        config.enabled ==> action_view(r) == spec_action_for(*config, config.auto_bring_to_front),
        config.enabled && config.method == ImageOpenMethod::BuiltInPreview ==> r == (OpenAction::BuiltInPreview {
            bring_to_front: config.auto_bring_to_front,
        }),
{
    if !config.enabled {
        return OpenAction::Nothing;
    }
    action_for(config, config.auto_bring_to_front)
}

/// What a manual request opens: the configured method, even when automatic
/// preview is off, always raising the preview window.
pub fn manual_open_action(config: &PreviewWindowConfig) -> (r: OpenAction)
    ensures
        action_view(r) == spec_action_for(*config, true),
        config.method == ImageOpenMethod::BuiltInPreview ==> r == (OpenAction::BuiltInPreview { bring_to_front: true }),
{
    action_for(config, true)
}

/// The event that shows an image in the preview window.
#[derive(Debug, Clone, PartialEq, Eq)]
pub struct PreviewEvent {
    pub file_path: String,
    pub bring_to_front: bool,
}

/// The event that tells every window of new preview settings.
#[derive(Debug, Clone)]
pub struct ConfigChangedEvent {
    pub config: PreviewWindowConfig,
}

impl ConfigChangedEvent {
    /// The event for `config`.
    pub fn new(config: &PreviewWindowConfig) -> (r: ConfigChangedEvent)
        ensures
            preview_view(r.config) == preview_view(*config),
    {
        ConfigChangedEvent { config: config.copy() }
    }
}

/// Bytes that URL encoding leaves as they are: ASCII letters and digits and
/// `-._~`.
pub open spec fn url_unreserved(b: u8) -> bool {
    (65 <= b <= 90) || (97 <= b <= 122) || (48 <= b <= 57) || b == 45 || b == 46 || b == 95 || b == 126
}

/// URL encoding of `bytes` (what `urlencoding::encode` produces): unreserved
/// bytes as their character, every other byte as `%` and two uppercase
/// hexadecimal digits.
pub open spec fn spec_url_encode(bytes: Seq<u8>) -> Seq<char>
    decreases bytes.len(),
{
    if bytes.len() == 0 {
        Seq::empty()
    } else {
        let b = bytes.last();
        spec_url_encode(bytes.drop_last()) + if url_unreserved(b) {
            seq![b as char]
        } else {
            seq!['%', hex_digit(b / 16), hex_digit(b % 16)]
        }
    }
}

fn hex(d: u8) -> (r: char)
    requires
        d < 16,
    ensures
        r == hex_digit(d),
{
    if d < 10 {
        (48 + d) as char
    } else {
        (55 + d) as char
    }
}

/// URL-encodes the UTF-8 bytes of `input`.
pub fn url_encode(input: &str) -> (r: String)
    ensures
        r@ == spec_url_encode(input.spec_bytes()),
{
    let bytes = input.as_bytes();
    let n = bytes.len();
    let mut out: Vec<char> = Vec::new();
    let mut i: usize = 0;
    while i < n
        invariant
            n == bytes@.len(),
            bytes@ == input.spec_bytes(),
            i <= n,
            out@ == spec_url_encode(bytes@.take(i as int)),
        decreases n - i,
    {
        let b = bytes[i];
        if (b >= 65 && b <= 90) || (b >= 97 && b <= 122) || (b >= 48 && b <= 57) || b == 45 || b == 46 || b == 95
            || b == 126 {
            out.push(b as char);
        } else {
            out.push('%');
            out.push(hex(b / 16));
            out.push(hex(b % 16));
        }
        proof {
            let t = bytes@.take(i + 1);
            assert(t.drop_last() =~= bytes@.take(i as int));
            assert(t.last() == b);
            assert(out@ =~= spec_url_encode(t));
        }
        i = i + 1;
    }
    proof {
        assert(bytes@.take(n as int) =~= bytes@);
    }
    crate::text::string_from_chars(out.as_slice())
}

/// The URI that opens a file in the Windows Photos viewer.
pub fn photos_viewer_uri(file_path: &str) -> (r: String)
    ensures
        r@ == "ms-photos:viewer?fileName="@ + spec_url_encode(file_path.spec_bytes()),
{
    let s = String::from_str("ms-photos:viewer?fileName=");
    s.concat(url_encode(file_path).as_str())
}

/// A shell launch succeeded: `ShellExecuteW` returns a value above 32 on
/// success.
pub fn shell_execute_succeeded(code: usize) -> (r: bool)
    ensures
        r == (code > 32),
{
    code > 32
}

} // verus!
