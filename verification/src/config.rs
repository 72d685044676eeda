//! Application configuration: the persisted settings, the preview-window
//! settings and their partial updates, and the in-memory configuration
//! service with its load and persist protocol.
use vstd::prelude::*;
use crate::error::AppError;
use crate::ftp::{clone_opt_string, opt_view};

verus! {

/// How an uploaded image is opened on the desktop.
#[derive(Debug, Clone, Copy, PartialEq, Eq)]
pub enum ImageOpenMethod {
    BuiltInPreview,
    SystemDefault,
    WindowsPhotos,
    Custom,
}

/// Settings of the automatic preview window.
#[derive(Debug, Clone)]
pub struct PreviewWindowConfig {
    pub enabled: bool,
    pub method: ImageOpenMethod,
    pub custom_path: Option<String>,
    pub auto_bring_to_front: bool,
}

/// Value of preview-window settings.
pub open spec fn preview_view(c: PreviewWindowConfig) -> (bool, ImageOpenMethod, Option<Seq<char>>, bool) {
    (c.enabled, c.method, opt_view(c.custom_path), c.auto_bring_to_front)
}

impl PreviewWindowConfig {
    /// Enabled, built-in preview, no custom program, not brought to front.
    pub fn default_config() -> (r: PreviewWindowConfig)
        ensures
            preview_view(r) == (true, ImageOpenMethod::BuiltInPreview, None::<Seq<char>>, false),
    {
        PreviewWindowConfig {
            enabled: true,
            method: ImageOpenMethod::BuiltInPreview,
            custom_path: None,
            auto_bring_to_front: false,
        }
    }

    /// Copies the settings.
    pub fn copy(&self) -> (r: PreviewWindowConfig)
        ensures
            preview_view(r) == preview_view(*self),
    {
        PreviewWindowConfig {
            enabled: self.enabled,
            method: self.method,
            custom_path: clone_opt_string(&self.custom_path),
            auto_bring_to_front: self.auto_bring_to_front,
        }
    }
}

/// FTP credentials as stored: the password only as an Argon2id hash.
#[derive(Debug, Clone)]
pub struct AuthConfig {
    pub anonymous: bool,
    pub username: String,
    pub password_hash: String,
}

/// Settings of the advanced connection mode (custom port and credentials).
#[derive(Debug, Clone)]
pub struct AdvancedConnectionConfig {
    pub enabled: bool,
    pub auth: AuthConfig,
}

/// Settings of automatic color grading of uploaded RAW files. The exposure
/// offset is kept as the bit pattern of its `f32` value.
#[derive(Debug, Clone)]
pub struct AutoColorGradingConfig {
    pub enabled: bool,
    pub preset_id: String,
    pub metering_mode: String,
    pub ev_offset_bits: u32,
}

/// The application's persisted settings.
#[derive(Debug, Clone)]
pub struct AppConfig {
    /// Where uploads are stored.
    pub save_path: String,
    /// FTP port.
    pub port: u16,
    /// Pick a free port automatically.
    pub auto_select_port: bool,
    pub advanced_connection: AdvancedConnectionConfig,
    pub preview_config: Option<PreviewWindowConfig>,
    pub auto_color_grading: Option<AutoColorGradingConfig>,
}

fn copy_string(s: &String) -> (r: String)
    ensures
        r == *s,
{
    s.clone()
}

fn copy_opt_exact(o: &Option<String>) -> (r: Option<String>)
    ensures
        r == *o,
{
    match o {
        Some(s) => Some(copy_string(s)),
        None => None,
    }
}

impl AuthConfig {
    /// An identical copy.
    pub fn copy(&self) -> (r: AuthConfig)
        ensures
            r == *self,
    {
        AuthConfig {
            anonymous: self.anonymous,
            username: copy_string(&self.username),
            password_hash: copy_string(&self.password_hash),
        }
    }
}

impl AutoColorGradingConfig {
    /// Disabled, the Provia preset, matrix metering, no exposure offset.
    pub fn default_config() -> (r: AutoColorGradingConfig)
        ensures
            !r.enabled,
            r.preset_id@ == "provia"@,
            r.metering_mode@ == "matrix"@,
            r.ev_offset_bits == 0,
    {
        AutoColorGradingConfig {
            enabled: false,
            preset_id: String::from_str("provia"),
            metering_mode: String::from_str("matrix"),
            ev_offset_bits: 0,
        }
    }

    /// An identical copy.
    pub fn copy(&self) -> (r: AutoColorGradingConfig)
        ensures
            r == *self,
    {
        AutoColorGradingConfig {
            enabled: self.enabled,
            preset_id: copy_string(&self.preset_id),
            metering_mode: copy_string(&self.metering_mode),
            ev_offset_bits: self.ev_offset_bits,
        }
    }
}

impl AppConfig {
    /// An identical copy.
    pub fn copy(&self) -> (r: AppConfig)
        ensures
            r == *self,
    {
        AppConfig {
            save_path: copy_string(&self.save_path),
            port: self.port,
            auto_select_port: self.auto_select_port,
            advanced_connection: AdvancedConnectionConfig {
                enabled: self.advanced_connection.enabled,
                auth: self.advanced_connection.auth.copy(),
            },
            preview_config: match &self.preview_config {
                Some(p) => Some(
                    PreviewWindowConfig {
                        enabled: p.enabled,
                        method: p.method,
                        custom_path: copy_opt_exact(&p.custom_path),
                        auto_bring_to_front: p.auto_bring_to_front,
                    },
                ),
                None => None,
            },
            auto_color_grading: match &self.auto_color_grading {
                Some(a) => Some(a.copy()),
                None => None,
            },
        }
    }
}

/// The default FTP port.
pub const DEFAULT_FTP_PORT: u16 = 2121;

impl AppConfig {
    /// Default settings around a platform's default storage path: port 2121,
    /// automatic port selection, simple connection mode with anonymous
    /// access, no preview or color-grading settings yet.
    pub fn default_with_save_path(save_path: String) -> (r: AppConfig)
        ensures
            r.save_path@ == save_path@,
            r.port == DEFAULT_FTP_PORT,
            r.auto_select_port,
            !r.advanced_connection.enabled,
            r.advanced_connection.auth.anonymous,
            r.advanced_connection.auth.username@.len() == 0,
            r.advanced_connection.auth.password_hash@.len() == 0,
            r.preview_config is None,
            r.auto_color_grading is None,
    {
        AppConfig {
            save_path,
            port: DEFAULT_FTP_PORT,
            auto_select_port: true,
            advanced_connection: AdvancedConnectionConfig {
                enabled: false,
                auth: AuthConfig {
                    anonymous: true,
                    username: String::new(),
                    password_hash: String::new(),
                },
            },
            preview_config: None,
            auto_color_grading: None,
        }
    }
}

/// A partial update of the preview-window settings: each present field
/// replaces the current one.
#[derive(Debug)]
pub struct PreviewWindowConfigPatch {
    pub enabled: Option<bool>,
    pub method: Option<ImageOpenMethod>,
    pub custom_path: Option<Option<String>>,
    pub auto_bring_to_front: Option<bool>,
}

/// Value of `current` after applying `patch`.
pub open spec fn spec_apply_patch(patch: PreviewWindowConfigPatch, current: PreviewWindowConfig) -> (
    bool,
    ImageOpenMethod,
    Option<Seq<char>>,
    bool,
) {
    (
        match patch.enabled {
            Some(e) => e,
            None => current.enabled,
        },
        match patch.method {
            Some(m) => m,
            None => current.method,
        },
        match patch.custom_path {
            Some(p) => opt_view(p),
            None => opt_view(current.custom_path),
        },
        match patch.auto_bring_to_front {
            Some(b) => b,
            None => current.auto_bring_to_front,
        },
    )
}

/// Each field a patch carries replaces the current value, whatever that
/// value was (so a patch can switch automatic preview back on, or off); a
/// field the patch leaves out keeps the current value.
pub proof fn law_patch_fields_replace(patch: PreviewWindowConfigPatch, current: PreviewWindowConfig)
    ensures
        patch.enabled matches Some(e) ==> spec_apply_patch(patch, current).0 == e,
        patch.enabled is None ==> spec_apply_patch(patch, current).0 == current.enabled,
        patch.method matches Some(m) ==> spec_apply_patch(patch, current).1 == m,
        patch.method is None ==> spec_apply_patch(patch, current).1 == current.method,
        patch.custom_path matches Some(c) ==> spec_apply_patch(patch, current).2 == opt_view(c),
        patch.custom_path is None ==> spec_apply_patch(patch, current).2 == opt_view(current.custom_path),
        patch.auto_bring_to_front matches Some(b) ==> spec_apply_patch(patch, current).3 == b,
        patch.auto_bring_to_front is None ==> spec_apply_patch(patch, current).3 == current.auto_bring_to_front,
{
}

/// The result of a patch does not depend on the current value of a field
/// the patch carries: two configurations that differ only there come out
/// the same.
pub proof fn law_patch_ignores_replaced_values(
    patch: PreviewWindowConfigPatch,
    a: PreviewWindowConfig,
    b: PreviewWindowConfig,
)
    requires
        patch.enabled is Some || a.enabled == b.enabled,
        patch.method is Some || a.method == b.method,
        patch.custom_path is Some || opt_view(a.custom_path) == opt_view(b.custom_path),
        patch.auto_bring_to_front is Some || a.auto_bring_to_front == b.auto_bring_to_front,
    ensures
        spec_apply_patch(patch, a) == spec_apply_patch(patch, b),
{
}

impl PreviewWindowConfigPatch {
    /// Applies the patch: only the fields it carries change.
    pub fn apply_to(self, current: PreviewWindowConfig) -> (r: PreviewWindowConfig)
        ensures
            preview_view(r) == spec_apply_patch(self, current),
            r.enabled == match self.enabled {
                Some(e) => e,
                None => current.enabled,
            },
            r.method == match self.method {
                Some(m) => m,
                None => current.method,
            },
            opt_view(r.custom_path) == match self.custom_path {
                Some(p) => opt_view(p),
                None => opt_view(current.custom_path),
            },
            r.auto_bring_to_front == match self.auto_bring_to_front {
                Some(b) => b,
                None => current.auto_bring_to_front,
            },
    {
        let mut current = current;
        if let Some(enabled) = self.enabled {
            current.enabled = enabled;
        }
        if let Some(method) = self.method {
            current.method = method;
        }
        if let Some(custom_path) = self.custom_path {
            current.custom_path = custom_path;
        }
        if let Some(auto_bring_to_front) = self.auto_bring_to_front {
            current.auto_bring_to_front = auto_bring_to_front;
        }
        current
    }
}

/// Option view of optional preview settings.
pub open spec fn opt_preview_view(c: Option<PreviewWindowConfig>) -> Option<
    (bool, ImageOpenMethod, Option<Seq<char>>, bool),
> {
    match c {
        Some(p) => Some(preview_view(p)),
        None => None,
    }
}

fn copy_opt_preview(c: &Option<PreviewWindowConfig>) -> (r: Option<PreviewWindowConfig>)
    ensures
        opt_preview_view(r) == opt_preview_view(*c),
{
    match c {
        Some(p) => Some(p.copy()),
        None => None,
    }
}

/// A configuration saved by the frontend keeps the backend-owned preview
/// settings of the current configuration; everything else comes from the
/// incoming one.
pub fn merge_backend_owned_fields(incoming: AppConfig, current: &AppConfig) -> (r: AppConfig)
    ensures
        opt_preview_view(r.preview_config) == opt_preview_view(current.preview_config),
        r.save_path == incoming.save_path,
        r.port == incoming.port,
        r.auto_select_port == incoming.auto_select_port,
        r.advanced_connection == incoming.advanced_connection,
        r.auto_color_grading == incoming.auto_color_grading,
{
    let mut incoming = incoming;
    incoming.preview_config = copy_opt_preview(&current.preview_config);
    incoming
}

/// What reading the configuration file found.
#[derive(Debug, Clone)]
pub enum ConfigFileState {
    /// No file.
    Missing,
    /// The file exists but could not be read (transient I/O or permission
    /// error); its contents may be intact.
    Unreadable,
    /// The file parsed into a configuration.
    Parsed(AppConfig),
    /// The file was read but does not parse.
    Corrupt,
}

/// What loading the configuration does with the file, and which
/// configuration it yields.
#[derive(Debug, Clone)]
pub struct LoadPlan {
    pub config: AppConfig,
    /// Delete the unparseable file.
    pub remove_corrupt_file: bool,
    /// Write the resulting configuration back once no file is left (for a
    /// corrupt file: once it has been removed).
    pub write_back: bool,
}

/// The load protocol as a plan (see `LoadPlan::for_state`).
pub open spec fn load_plan(state: ConfigFileState, defaults: AppConfig) -> LoadPlan {
    match state {
        ConfigFileState::Parsed(c) => LoadPlan { config: c, remove_corrupt_file: false, write_back: false },
        ConfigFileState::Missing => LoadPlan { config: defaults, remove_corrupt_file: false, write_back: true },
        ConfigFileState::Unreadable => LoadPlan { config: defaults, remove_corrupt_file: false, write_back: false },
        ConfigFileState::Corrupt => LoadPlan { config: defaults, remove_corrupt_file: true, write_back: true },
    }
}

/// Whether `plan` writes its configuration to the file.
pub open spec fn plan_writes(plan: LoadPlan, corrupt_file_removed: bool) -> bool {
    plan.write_back && (!plan.remove_corrupt_file || corrupt_file_removed)
}

/// Loading touches the file only when nothing usable is there: a file that
/// could not be read, or that parsed, is neither removed nor written; a
/// missing file is written; a corrupt file is removed, and written back only
/// once its removal succeeded. Whatever is written is the defaults.
pub proof fn law_load_leaves_readable_or_unreadable_files_alone(
    state: ConfigFileState,
    defaults: AppConfig,
    corrupt_file_removed: bool,
)
    ensures
        load_plan(state, defaults).remove_corrupt_file <==> state is Corrupt,
        plan_writes(load_plan(state, defaults), corrupt_file_removed) <==> (state is Missing || (state is Corrupt
            && corrupt_file_removed)),
        plan_writes(load_plan(state, defaults), corrupt_file_removed) ==> load_plan(state, defaults).config
            == defaults,
{
}

impl LoadPlan {
    /// The load protocol: a parsed file is used as is; anything else falls
    /// back to `defaults`. A corrupt file is deleted and, like a missing one,
    /// replaced by the defaults; an unreadable file is left untouched.
    pub fn for_state(state: ConfigFileState, defaults: AppConfig) -> (r: LoadPlan)
        ensures
            r == load_plan(state, defaults),
            match state {
                ConfigFileState::Parsed(c) => r.config == c && !r.remove_corrupt_file && !r.write_back,
                ConfigFileState::Missing => r.config == defaults && !r.remove_corrupt_file && r.write_back,
                ConfigFileState::Unreadable => r.config == defaults && !r.remove_corrupt_file
                    && !r.write_back,
                ConfigFileState::Corrupt => r.config == defaults && r.remove_corrupt_file && r.write_back,
            },
    {
        match state {
            ConfigFileState::Parsed(c) => LoadPlan { config: c, remove_corrupt_file: false, write_back: false },
            ConfigFileState::Missing => LoadPlan { config: defaults, remove_corrupt_file: false, write_back: true },
            ConfigFileState::Unreadable => LoadPlan {
                config: defaults,
                remove_corrupt_file: false,
                write_back: false,
            },
            ConfigFileState::Corrupt => LoadPlan { config: defaults, remove_corrupt_file: true, write_back: true },
        }
    }

    /// Whether the configuration is written to the file: only when no file
    /// is left, that is the file was missing, or it was corrupt and removing
    /// it succeeded (`corrupt_file_removed`). A corrupt file that could not
    /// be removed, an unreadable file and a parsed file are never written.
    pub fn writes_back(&self, corrupt_file_removed: bool) -> (r: bool)
        ensures
            r == plan_writes(*self, corrupt_file_removed),
    {
        self.write_back && (!self.remove_corrupt_file || corrupt_file_removed)
    }
}

/// `prepare` found the configuration `next` invalid for a reason `m`, and
/// `e` is the refusal `Other("Invalid configuration: <m>")`.
pub open spec fn invalid_refusal<V: FnOnce(AppConfig) -> Result<AppConfig, String>>(
    prepare: V,
    next: AppConfig,
    e: AppError,
) -> bool {
    exists|m: String|
        #[trigger] prepare.ensures((next,), Err::<AppConfig, String>(m)) && (e matches AppError::Other(t) && t@
            == "Invalid configuration: "@ + m@)
}

/// "Invalid configuration: " followed by `reason`.
fn concat_reason(reason: &str) -> (r: String)
    ensures
        r@ == "Invalid configuration: "@ + reason@,
{
    let s = String::from_str("Invalid configuration: ");
    s.concat(reason)
}

/// The configuration held in memory, with the path of its file. Every change
/// goes through a persist step first: memory is replaced only when the new
/// configuration was written.
#[derive(Debug)]
pub struct ConfigService {
    config: AppConfig,
    config_path: String,
}

impl ConfigService {
    /// The configuration in memory.
    pub closed spec fn current(&self) -> AppConfig {
        self.config
    }

    /// The path of the configuration file.
    pub closed spec fn path(&self) -> Seq<char> {
        self.config_path@
    }

    /// A service for `config_path` holding `defaults` until loaded.
    pub fn new_with_path(config_path: String, defaults: AppConfig) -> (r: ConfigService)
        ensures
            r.current() == defaults,
            r.path() == config_path@,
    {
        ConfigService { config: defaults, config_path }
    }

    /// The path of the configuration file.
    pub fn config_path(&self) -> (r: &str)
        ensures
            r@ == self.path(),
    {
        self.config_path.as_str()
    }

    /// Commits a load: `plan` came from the file's state, and `written` is
    /// the outcome of writing `plan.config` to the file, which the caller
    /// does exactly when `plan.writes_back(..)` says so (and passes `Ok(())`
    /// otherwise). On success memory holds the planned configuration and it
    /// is returned; a failed write is returned as is and memory is unchanged.
    pub fn load(&mut self, plan: LoadPlan, written: Result<(), AppError>) -> (r: Result<AppConfig, AppError>)
        ensures
            final(self).path() == old(self).path(),
            match written {
                Ok(_) => r == Ok::<AppConfig, AppError>(plan.config) && final(self).current() == plan.config,
                Err(e) => r == Err::<AppConfig, AppError>(e) && final(self).current() == old(self).current(),
            },
    {
        match written {
            Err(e) => Err(e),
            Ok(_) => {
                let result = plan.config.copy();
                self.config = plan.config;
                Ok(result)
            },
        }
    }

    /// The configuration in memory.
    pub fn get(&self) -> (r: Result<AppConfig, AppError>)
        ensures
            r == Ok::<AppConfig, AppError>(self.current()),
    {
        Ok(self.config.copy())
    }

    /// The configuration in memory (reading it cannot fail here).
    pub fn get_or_default(&self) -> (r: AppConfig)
        ensures
            r == self.current(),
    {
        self.config.copy()
    }

    /// Changes the configuration: `mutate` computes the next configuration
    /// (and a result) from a copy of the current one; `prepare` normalises it
    /// for the platform and validates it, giving the configuration to keep
    /// or the reason it is invalid; `persist` writes it. An invalid
    /// configuration is refused with `Other("Invalid configuration: <reason>")`
    /// before anything is written. Only when the write succeeds does the
    /// prepared configuration replace the one in memory and the result come
    /// back; otherwise the error is returned and memory is unchanged.
    pub fn mutate_and_persist<F, R, V, P>(&mut self, mutate: F, prepare: V, persist: P) -> (r: Result<R, AppError>) where
        F: FnOnce(AppConfig) -> (AppConfig, R),
        V: FnOnce(AppConfig) -> Result<AppConfig, String>,
        P: FnOnce(&AppConfig) -> Result<(), AppError>,

        requires
            mutate.requires((old(self).current(),)),
            forall|c: AppConfig| #[trigger] prepare.requires((c,)),
            forall|c: &AppConfig| #[trigger] persist.requires((c,)),
        ensures
            final(self).path() == old(self).path(),
            r matches Ok(v) ==> exists|next: AppConfig|
                #![trigger prepare.ensures((next,), Ok::<AppConfig, String>(final(self).current()))]
                mutate.ensures((old(self).current(),), (next, v)) && prepare.ensures(
                    (next,),
                    Ok::<AppConfig, String>(final(self).current()),
                ) && persist.ensures((&final(self).current(),), Ok::<(), AppError>(())),
            r matches Err(e) ==> final(self).current() == old(self).current() && exists|next: AppConfig, v: R|
                #![trigger mutate.ensures((old(self).current(),), (next, v))]
                mutate.ensures((old(self).current(),), (next, v)) && (invalid_refusal(prepare, next, e) || exists|
                    prepared: AppConfig,
                |
                    #![trigger prepare.ensures((next,), Ok::<AppConfig, String>(prepared))]
                    prepare.ensures((next,), Ok::<AppConfig, String>(prepared)) && persist.ensures(
                        (&prepared,),
                        Err::<(), AppError>(e),
                    )),
    {
        let current = self.config.copy();
        let (next, value) = mutate(current);
        let ghost next_g = next;
        let prepared = prepare(next);
        match prepared {
            Err(reason) => {
                let e = AppError::Other(concat_reason(reason.as_str()));
                proof {
                    assert(prepared == Err::<AppConfig, String>(reason));
                    assert(invalid_refusal(prepare, next_g, e));
                    assert(mutate.ensures((old(self).current(),), (next_g, value)));
                }
                Err(e)
            },
            Ok(cfg) => {
                proof {
                    assert(prepared == Ok::<AppConfig, String>(cfg));
                    assert(prepare.ensures((next_g,), Ok::<AppConfig, String>(cfg)));
                }
                let saved = persist(&cfg);
                match saved {
                    Err(e) => {
                        proof {
                            assert(saved == Err::<(), AppError>(e));
                            assert(mutate.ensures((old(self).current(),), (next_g, value)));
                            assert(prepare.ensures((next_g,), Ok::<AppConfig, String>(cfg)));
                        }
                        Err(e)
                    },
                    Ok(u) => {
                        proof {
                            assert(saved == Ok::<(), AppError>(u));
                            assert(mutate.ensures((old(self).current(),), (next_g, value)));
                        }
                        self.config = cfg;
                        proof {
                            assert(prepare.ensures((next_g,), Ok::<AppConfig, String>(self.current())));
                            assert(persist.ensures((&self.current(),), Ok::<(), AppError>(())));
                        }
                        Ok(value)
                    },
                }
            },
        }
    }
}

} // verus!
