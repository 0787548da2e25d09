//! The recorder's configuration, the rules that resolve the effective backend,
//! encoder, bitrate and capture window from it, and its validation.
use vstd::prelude::*;

use crate::paths::{
    default_buffer_dir, default_pid_file, expand_tilde_spec, expand_tilde_with, home_dir, join,
    join_path, opt_view, path_components, same_path,
};
use crate::text::{blank, concat3, is_blank, is_ws, owned, starts_with, str_eq};

verus! {

/// `[recording]`.
#[derive(Debug, Clone)]
pub struct RecordingConfig {
    pub duration_seconds: u64,
    pub segment_seconds: u64,
    pub fps: u32,
    pub width: u32,
    pub height: u32,
    pub encoder: String,
    pub video_bitrate: String,
    pub audio_codec: String,
}

/// `[paths]`.
#[derive(Debug, Clone)]
pub struct PathsConfig {
    pub buffer_dir: String,
    pub output_dir: String,
    pub pid_file: String,
}

/// `[capture]`.
#[derive(Debug, Clone)]
pub struct CaptureConfig {
    pub backend: String,
    pub window: Option<CaptureWindowConfig>,
}

/// `[capture.window]` (and the legacy `[capture_window]`).
#[derive(Debug, Clone)]
pub struct CaptureWindowConfig {
    pub enabled: bool,
    pub title: String,
    pub class: String,
    pub address: String,
    pub geometry: String,
    pub follow: bool,
}

/// `[ffmpeg]`.
#[derive(Debug, Clone)]
pub struct FfmpegConfig {
    pub capture_backend: Option<String>,
    pub custom_record_command: String,
    pub extra_args: Vec<String>,
}

/// `[wl_screenrec]`.
#[derive(Debug, Clone)]
pub struct WlScreenrecConfig {
    pub capture_mode: String,
    pub auto_select_focused_output: bool,
    pub output: String,
    pub geometry: String,
    pub audio: bool,
    pub audio_device: String,
    pub audio_backend: String,
    pub ffmpeg_encoder: String,
    pub ffmpeg_encoder_options: String,
    pub bitrate: String,
    pub extra_args: Vec<String>,
}

/// `[ui]`.
#[derive(Debug, Clone)]
pub struct UiConfig {
    pub start_minimized: bool,
    pub close_to_tray: bool,
    pub show_notifications: bool,
    pub theme: String,
    pub mode: String,
}

/// `[notifications]`.
#[derive(Debug, Clone)]
pub struct NotificationsConfig {
    pub enabled: bool,
    pub command: String,
    pub on_save: bool,
    pub on_error: bool,
    pub on_start: bool,
    pub on_stop: bool,
}

/// The whole configuration file.
#[derive(Debug, Clone)]
pub struct Config {
    pub recording: RecordingConfig,
    pub paths: PathsConfig,
    pub capture: Option<CaptureConfig>,
    pub capture_window: Option<CaptureWindowConfig>,
    pub ffmpeg: FfmpegConfig,
    pub wl_screenrec: WlScreenrecConfig,
    pub ui: UiConfig,
    pub notifications: NotificationsConfig,
}

/// The capture method a configuration resolves to.
#[derive(Debug, Clone, Copy, PartialEq, Eq, Structural)]
pub enum CaptureBackend {
    WlScreenrec,
    X11,
    Custom,
}

/// Why a configuration is refused.
#[derive(Debug, Clone, Copy, PartialEq, Eq, Structural)]
pub enum ConfigError {
    UnknownBackend,
    ZeroDuration,
    FpsOutOfRange,
    EmptyBitrate,
    EmptyEncoder,
    CustomCommandMissing,
    InvalidCaptureMode,
    InvalidUiMode,
    EmptyOutputDir,
    EmptyBufferDir,
}

/// The views of a list of strings.
pub open spec fn views(v: Seq<String>) -> Seq<Seq<char>> {
    v.map_values(|s: String| s@)
}

/// The name the backend is displayed and recorded under.
pub open spec fn backend_label(b: CaptureBackend) -> Seq<char> {
    match b {
        CaptureBackend::WlScreenrec => "wl-screenrec"@,
        CaptureBackend::X11 => "x11"@,
        CaptureBackend::Custom => "custom"@,
    }
}

/// The configured backend name: `[capture].backend` wins, then the legacy
/// `[ffmpeg].capture_backend`, then `wl-screenrec`.
pub open spec fn backend_name(c: Config) -> Seq<char> {
    match c.capture {
        Some(cap) => cap.backend@,
        None => match c.ffmpeg.capture_backend {
            Some(b) => b@,
            None => "wl-screenrec"@,
        },
    }
}

/// The backend a name denotes, with its aliases.
pub open spec fn backend_from_name(n: Seq<char>) -> Option<CaptureBackend> {
    if n == "wl-screenrec"@ || n == "hyprland"@ || n == "wayland"@ {
        Some(CaptureBackend::WlScreenrec)
    } else if n == "x11"@ {
        Some(CaptureBackend::X11)
    } else if n == "custom"@ {
        Some(CaptureBackend::Custom)
    } else {
        None
    }
}

/// The backend of a configuration, `None` when its name is unknown.
pub open spec fn backend_of(c: Config) -> Option<CaptureBackend> {
    backend_from_name(backend_name(c))
}

/// `effective_backend` as a result.
pub open spec fn backend_result(c: Config) -> Result<CaptureBackend, ConfigError> {
    match backend_of(c) {
        Some(b) => Ok(b),
        None => Err(ConfigError::UnknownBackend),
    }
}

/// The encoder that the backend `b` uses.
pub open spec fn encoder_for(c: Config, b: CaptureBackend) -> Seq<char> {
    if b == CaptureBackend::WlScreenrec {
        c.wl_screenrec.ffmpeg_encoder@
    } else {
        c.recording.encoder@
    }
}

/// The bitrate that the backend `b` uses.
pub open spec fn bitrate_for(c: Config, b: CaptureBackend) -> Seq<char> {
    if b == CaptureBackend::WlScreenrec {
        c.wl_screenrec.bitrate@
    } else {
        c.recording.video_bitrate@
    }
}

/// The capture window in force: `[capture.window]` before the legacy
/// `[capture_window]`; `None` means the cleared default.
pub open spec fn window_source(c: Config) -> Option<CaptureWindowConfig> {
    match c.capture {
        Some(cap) => match cap.window {
            Some(w) => Some(w),
            None => c.capture_window,
        },
        None => c.capture_window,
    }
}

/// Whether window capture is enabled.
pub open spec fn window_enabled(c: Config) -> bool {
    match window_source(c) {
        Some(w) => w.enabled,
        None => false,
    }
}

/// The geometry of the capture window in force.
pub open spec fn window_geometry(c: Config) -> Seq<char> {
    match window_source(c) {
        Some(w) => w.geometry@,
        None => Seq::empty(),
    }
}

/// Only the legacy `[ffmpeg].capture_backend` names the backend.
pub open spec fn legacy_backend(c: Config) -> bool {
    c.capture is None && c.ffmpeg.capture_backend is Some
}

pub open spec fn valid_capture_mode(m: Seq<char>) -> bool {
    m == "output"@ || m == "monitor"@ || m == "geometry"@ || m == "active-window"@ || m
        == "window"@
}

pub open spec fn valid_ui_mode(m: Seq<char>) -> bool {
    m == "beginner"@ || m == "advanced"@
}

/// The first rule that a configuration breaks, in the order they are checked.
pub open spec fn config_problem(c: Config, home: Option<Seq<char>>) -> Option<ConfigError> {
    if c.recording.duration_seconds == 0 {
        Some(ConfigError::ZeroDuration)
    } else if !(1 <= c.recording.fps <= 240) {
        Some(ConfigError::FpsOutOfRange)
    } else {
        match backend_of(c) {
            None => Some(ConfigError::UnknownBackend),
            Some(b) => if blank(bitrate_for(c, b)) {
                Some(ConfigError::EmptyBitrate)
            } else if blank(encoder_for(c, b)) {
                Some(ConfigError::EmptyEncoder)
            } else if b == CaptureBackend::Custom && blank(c.ffmpeg.custom_record_command@) {
                Some(ConfigError::CustomCommandMissing)
            } else if b == CaptureBackend::WlScreenrec && !valid_capture_mode(
                c.wl_screenrec.capture_mode@,
            ) {
                Some(ConfigError::InvalidCaptureMode)
            } else if !valid_ui_mode(c.ui.mode@) {
                Some(ConfigError::InvalidUiMode)
            } else if expand_tilde_spec(c.paths.output_dir@, home).len() == 0 {
                Some(ConfigError::EmptyOutputDir)
            } else if expand_tilde_spec(c.paths.buffer_dir@, home).len() == 0 {
                Some(ConfigError::EmptyBufferDir)
            } else {
                None
            },
        }
    }
}

pub open spec fn window_geometry_warning() -> Seq<char> {
    "capture.window is enabled but geometry is empty; run `v8q window select`"@
}

pub open spec fn legacy_window_warning() -> Seq<char> {
    "legacy [capture_window] is in use; run `v8q config migrate --write`"@
}

pub open spec fn legacy_backend_warning() -> Seq<char> {
    "legacy [ffmpeg].capture_backend is in use; run `v8q config migrate --write`"@
}

/// The warnings of a configuration that passes validation, in order.
pub open spec fn config_warnings(c: Config) -> Seq<Seq<char>> {
    (if window_enabled(c) && blank(window_geometry(c)) {
        seq![window_geometry_warning()]
    } else {
        Seq::empty()
    }) + (if c.capture_window is Some {
        seq![legacy_window_warning()]
    } else {
        Seq::empty()
    }) + (if legacy_backend(c) {
        seq![legacy_backend_warning()]
    } else {
        Seq::empty()
    })
}

/// `max(n, 1)`.
pub open spec fn at_least_one(n: u64) -> nat {
    if n == 0 {
        1
    } else {
        n as nat
    }
}

/// `ceil(a / b)`.
pub open spec fn ceil_div(a: nat, b: nat) -> nat {
    if b == 0 {
        0
    } else {
        ((a + b - 1) / (b as int)) as nat
    }
}

/// How many segments hold `duration` seconds of replay.
pub open spec fn segments_for(duration: u64, segment: u64) -> nat {
    ceil_div(at_least_one(duration), at_least_one(segment))
}

/// A cleared capture window, as `CaptureWindowConfig::default()` makes it.
pub open spec fn window_cleared(w: CaptureWindowConfig) -> bool {
    &&& !w.enabled
    &&& w.title@.len() == 0
    &&& w.class@.len() == 0
    &&& w.address@.len() == 0
    &&& w.geometry@.len() == 0
    &&& !w.follow
}

/// The defaults of `[wl_screenrec]`.
pub open spec fn wl_screenrec_defaults(w: WlScreenrecConfig) -> bool {
    &&& w.capture_mode@ == "output"@
    &&& w.auto_select_focused_output
    &&& w.output@.len() == 0
    &&& w.geometry@.len() == 0
    &&& w.audio
    &&& w.audio_device@ == "default"@
    &&& w.audio_backend@ == "pulse"@
    &&& w.ffmpeg_encoder@ == "h264_nvenc"@
    &&& w.ffmpeg_encoder_options@ == "preset=p5"@
    &&& w.bitrate@ == "20M"@
    &&& w.extra_args@.len() == 0
}

/// The defaults of `[ui]`.
pub open spec fn ui_defaults(u: UiConfig) -> bool {
    &&& !u.start_minimized
    &&& !u.close_to_tray
    &&& u.show_notifications
    &&& u.theme@ == "system"@
    &&& u.mode@ == "beginner"@
}

/// The defaults of `[notifications]`.
pub open spec fn notifications_defaults(n: NotificationsConfig) -> bool {
    &&& n.enabled
    &&& n.command@ == "notify-send"@
    &&& n.on_save
    &&& n.on_error
    &&& !n.on_start
    &&& !n.on_stop
}

/// The defaults of `[capture]`.
pub open spec fn capture_defaults(c: CaptureConfig) -> bool {
    c.backend@ == "wl-screenrec"@ && c.window is None
}

/// The defaults of `[ffmpeg]`.
pub open spec fn ffmpeg_defaults(f: FfmpegConfig) -> bool {
    f.capture_backend is None && f.custom_record_command@.len() == 0 && f.extra_args@.len() == 0
}

/// The default configuration, with runtime files below `runtime_dir`.
pub open spec fn config_defaults(c: Config, runtime_dir: Seq<char>) -> bool {
    &&& c.recording.duration_seconds == 30
    &&& c.recording.segment_seconds == 2
    &&& c.recording.fps == 60
    &&& c.recording.width == 1920
    &&& c.recording.height == 1080
    &&& c.recording.encoder@ == "h264_nvenc"@
    &&& c.recording.video_bitrate@ == "20M"@
    &&& c.recording.audio_codec@ == "aac"@
    &&& c.paths.buffer_dir@ == join(runtime_dir, "buffer"@)
    &&& c.paths.output_dir@ == "~/Videos/V8Q"@
    &&& c.paths.pid_file@ == join(runtime_dir, "v8q.pid"@)
    &&& c.capture matches Some(cap) && capture_defaults(cap)
    &&& c.capture_window is None
    &&& ffmpeg_defaults(c.ffmpeg)
    &&& wl_screenrec_defaults(c.wl_screenrec)
    &&& ui_defaults(c.ui)
    &&& notifications_defaults(c.notifications)
}

proof fn lemma_ceil_div(d: int, s: int)
    requires
        d >= 1,
        s >= 1,
    ensures
        (d + s - 1) / s == (d - 1) / s + 1,
{
    let q = (d - 1) / s;
    let r = (d - 1) % s;
    vstd::arithmetic::div_mod::lemma_fundamental_div_mod(d - 1, s);
    assert(d - 1 == s * q + r);
    assert(s * q == q * s) by (nonlinear_arith);
    assert(d + s - 1 == (q + 1) * s + r) by (nonlinear_arith)
        requires
            d - 1 == q * s + r,
    ;
    vstd::arithmetic::div_mod::lemma_fundamental_div_mod_converse(d + s - 1, s, q + 1, r);
}

/// How many segments of `segment` seconds hold `duration` seconds (each
/// taken as at least one).
pub fn segments_needed(duration: u64, segment: u64) -> (r: usize)
    ensures
        r == segments_for(duration, segment) as usize,
{
    let duration = if duration == 0 {
        1
    } else {
        duration
    };
    let segment = if segment == 0 {
        1
    } else {
        segment
    };
    let n = (duration - 1) / segment + 1;
    proof {
        lemma_ceil_div(duration as int, segment as int);
    }
    n as usize
}

/// A copy of a list of strings.
pub fn copy_strings(v: &Vec<String>) -> (r: Vec<String>)
    ensures
        r@ == v@,
{
    let mut r: Vec<String> = Vec::new();
    let mut i: usize = 0;
    while i < v.len()
        invariant
            i <= v.len(),
            r@ == v@.take(i as int),
        decreases v.len() - i,
    {
        r.push(v[i].clone());
        i = i + 1;
    }
    assert(v@.take(i as int) == v@);
    r
}

/// A copy of an optional string.
pub fn copy_opt_string(o: &Option<String>) -> (r: Option<String>)
    ensures
        r == *o,
{
    match o {
        Some(s) => Some(s.clone()),
        None => None,
    }
}

impl CaptureWindowConfig {
    /// A field-for-field copy.
    pub fn duplicate(&self) -> (r: Self)
        ensures
            r == *self,
    {
        CaptureWindowConfig {
            enabled: self.enabled,
            title: self.title.clone(),
            class: self.class.clone(),
            address: self.address.clone(),
            geometry: self.geometry.clone(),
            follow: self.follow,
        }
    }
}

impl Default for CaptureWindowConfig {
    fn default() -> (r: Self)
        ensures
            window_cleared(r),
    {
        CaptureWindowConfig {
            enabled: false,
            title: String::new(),
            class: String::new(),
            address: String::new(),
            geometry: String::new(),
            follow: false,
        }
    }
}

impl Default for CaptureConfig {
    fn default() -> (r: Self)
        ensures
            capture_defaults(r),
    {
        CaptureConfig { backend: owned("wl-screenrec"), window: None }
    }
}

impl Default for Config {
    /// The default configuration, with runtime files below `v8q` in the
    /// runtime directory that `dirs::runtime_dir` finds (`$XDG_RUNTIME_DIR`
    /// when it is absolute), else below `/tmp/v8q-unknown`. The command builds
    /// its defaults with `with_runtime_dir` from the environment instead.
    fn default() -> (r: Self)
        ensures
            exists|x: Option<Seq<char>>| crate::paths::absolute_dir(x) && #[trigger] config_defaults(
                r,
                crate::paths::runtime_dir_spec(x, None),
            ),
    {
        let rd = crate::paths::runtime_dir();
        let ghost x = choose|x: Option<Seq<char>>| rd@ == #[trigger] crate::paths::runtime_dir_spec(x, None);
        let r = Config::with_runtime_dir(rd.as_str());
        assert(config_defaults(r, crate::paths::runtime_dir_spec(x, None)));
        r
    }
}

impl Default for FfmpegConfig {
    fn default() -> (r: Self)
        ensures
            ffmpeg_defaults(r),
    {
        FfmpegConfig {
            capture_backend: None,
            custom_record_command: String::new(),
            extra_args: Vec::new(),
        }
    }
}

impl Default for WlScreenrecConfig {
    fn default() -> (r: Self)
        ensures
            wl_screenrec_defaults(r),
    {
        WlScreenrecConfig {
            capture_mode: owned("output"),
            auto_select_focused_output: true,
            output: String::new(),
            geometry: String::new(),
            audio: true,
            audio_device: owned("default"),
            audio_backend: owned("pulse"),
            ffmpeg_encoder: owned("h264_nvenc"),
            ffmpeg_encoder_options: owned("preset=p5"),
            bitrate: owned("20M"),
            extra_args: Vec::new(),
        }
    }
}

impl Default for UiConfig {
    fn default() -> (r: Self)
        ensures
            ui_defaults(r),
    {
        UiConfig {
            start_minimized: false,
            close_to_tray: false,
            show_notifications: true,
            theme: owned("system"),
            mode: owned("beginner"),
        }
    }
}

impl Default for NotificationsConfig {
    fn default() -> (r: Self)
        ensures
            notifications_defaults(r),
    {
        NotificationsConfig {
            enabled: true,
            command: owned("notify-send"),
            on_save: true,
            on_error: true,
            on_start: false,
            on_stop: false,
        }
    }
}

impl CaptureBackend {
    /// The name the backend is displayed under.
    pub fn as_str(self) -> (r: &'static str)
        ensures
            r@ == backend_label(self),
    {
        match self {
            CaptureBackend::WlScreenrec => "wl-screenrec",
            CaptureBackend::X11 => "x11",
            CaptureBackend::Custom => "custom",
        }
    }

    /// Whether the backend records FFmpeg segments into the buffer directory.
    pub fn is_segmented(self) -> (r: bool)
        ensures
            r == (self == CaptureBackend::X11 || self == CaptureBackend::Custom),
    {
        match self {
            CaptureBackend::WlScreenrec => false,
            CaptureBackend::X11 => true,
            CaptureBackend::Custom => true,
        }
    }
}

/// Only the legacy `[ffmpeg].capture_backend` names the backend.
pub fn config_uses_legacy_backend(config: &Config) -> (r: bool)
    ensures
        r == legacy_backend(*config),
{
    config.capture.is_none() && config.ffmpeg.capture_backend.is_some()
}

impl PathsConfig {
    /// `buffer_dir` with `~` expanded against `home`.
    pub fn buffer_dir_path_in(&self, home: &Option<String>) -> (r: String)
        ensures
            r@ == expand_tilde_spec(self.buffer_dir@, opt_view(*home)),
    {
        expand_tilde_with(self.buffer_dir.as_str(), home)
    }

    /// `output_dir` with `~` expanded against `home`.
    pub fn output_dir_path_in(&self, home: &Option<String>) -> (r: String)
        ensures
            r@ == expand_tilde_spec(self.output_dir@, opt_view(*home)),
    {
        expand_tilde_with(self.output_dir.as_str(), home)
    }

    /// `pid_file` with `~` expanded against `home`.
    pub fn pid_file_path_in(&self, home: &Option<String>) -> (r: String)
        ensures
            r@ == expand_tilde_spec(self.pid_file@, opt_view(*home)),
    {
        expand_tilde_with(self.pid_file.as_str(), home)
    }

    /// `buffer_dir` with `~` expanded against the user's home directory.
    pub fn buffer_dir_path(&self) -> (r: String)
        ensures
            exists|h: Option<Seq<char>>| crate::paths::usable_home(h) && r@ == #[trigger] expand_tilde_spec(self.buffer_dir@, h),
    {
        let home = home_dir();
        self.buffer_dir_path_in(&home)
    }

    /// `output_dir` with `~` expanded against the user's home directory.
    pub fn output_dir_path(&self) -> (r: String)
        ensures
            exists|h: Option<Seq<char>>| crate::paths::usable_home(h) && r@ == #[trigger] expand_tilde_spec(self.output_dir@, h),
    {
        let home = home_dir();
        self.output_dir_path_in(&home)
    }

    /// `pid_file` with `~` expanded against the user's home directory.
    pub fn pid_file_path(&self) -> (r: String)
        ensures
            exists|h: Option<Seq<char>>| crate::paths::usable_home(h) && r@ == #[trigger] expand_tilde_spec(self.pid_file@, h),
    {
        let home = home_dir();
        self.pid_file_path_in(&home)
    }
}

impl Config {
    /// The default configuration with runtime files below `runtime_dir`.
    pub fn with_runtime_dir(runtime_dir: &str) -> (r: Config)
        ensures
            config_defaults(r, runtime_dir@),
    {
        Config {
            recording: RecordingConfig {
                duration_seconds: 30,
                segment_seconds: 2,
                fps: 60,
                width: 1920,
                height: 1080,
                encoder: owned("h264_nvenc"),
                video_bitrate: owned("20M"),
                audio_codec: owned("aac"),
            },
            paths: PathsConfig {
                buffer_dir: default_buffer_dir(runtime_dir),
                output_dir: owned("~/Videos/V8Q"),
                pid_file: default_pid_file(runtime_dir),
            },
            capture: Some(CaptureConfig::default()),
            capture_window: None,
            ffmpeg: FfmpegConfig::default(),
            wl_screenrec: WlScreenrecConfig::default(),
            ui: UiConfig::default(),
            notifications: NotificationsConfig::default(),
        }
    }

    /// The path of the configuration file, if a configuration directory is known.
    pub fn config_file_path() -> (r: Option<String>)
        ensures
            r matches Some(p) ==> exists|d: Seq<char>| p@ == #[trigger] join(join(d, "v8q"@), "config.toml"@),
    {
        crate::paths::config_file()
    }

    /// How many segments hold the configured replay duration.
    pub fn replay_segment_count(&self) -> (r: usize)
        ensures
            r == segments_for(self.recording.duration_seconds, self.recording.segment_seconds) as usize,
    {
        segments_needed(self.recording.duration_seconds, self.recording.segment_seconds)
    }

    /// FFmpeg's `-segment_wrap`: three segments more than the replay needs.
    pub fn ffmpeg_segment_wrap_count(&self) -> (r: usize)
        requires
            segments_for(self.recording.duration_seconds, self.recording.segment_seconds) as usize
                + 3 <= usize::MAX,
        ensures
            r == segments_for(self.recording.duration_seconds, self.recording.segment_seconds) as usize
                + 3,
    {
        self.replay_segment_count() + 3
    }

    /// `history.mkv` in the buffer directory, `~` expanded against `home`.
    pub fn wl_screenrec_history_file_in(&self, home: &Option<String>) -> (r: String)
        ensures
            r@ == join(expand_tilde_spec(self.paths.buffer_dir@, opt_view(*home)), "history.mkv"@),
    {
        let dir = self.paths.buffer_dir_path_in(home);
        join_path(dir.as_str(), "history.mkv")
    }

    /// `history.mkv` in the buffer directory.
    pub fn wl_screenrec_history_file(&self) -> (r: String)
        ensures
            exists|h: Option<Seq<char>>| crate::paths::usable_home(h) && r@ == #[trigger] join(
                expand_tilde_spec(self.paths.buffer_dir@, h),
                "history.mkv"@,
            ),
    {
        let home = home_dir();
        let r = self.wl_screenrec_history_file_in(&home);
        assert(r@ == join(expand_tilde_spec(self.paths.buffer_dir@, opt_view(home)), "history.mkv"@));
        r
    }

    /// The configured backend name.
    pub fn effective_backend_name(&self) -> (r: String)
        ensures
            r@ == backend_name(*self),
    {
        match &self.capture {
            Some(capture) => capture.backend.clone(),
            None => match &self.ffmpeg.capture_backend {
                Some(b) => b.clone(),
                None => owned("wl-screenrec"),
            },
        }
    }

    /// The capture window in force, or a cleared one.
    pub fn effective_capture_window(&self) -> (r: CaptureWindowConfig)
        ensures
            match window_source(*self) {
                Some(w) => r == w,
                None => window_cleared(r),
            },
    {
        if let Some(capture) = &self.capture {
            if let Some(w) = &capture.window {
                return w.duplicate();
            }
        }
        match &self.capture_window {
            Some(w) => w.duplicate(),
            None => CaptureWindowConfig::default(),
        }
    }

    /// The backend the configuration resolves to.
    pub fn effective_backend(&self) -> (r: Result<CaptureBackend, ConfigError>)
        ensures
            r == backend_result(*self),
    {
        let name = self.effective_backend_name();
        let n = name.as_str();
        if str_eq(n, "wl-screenrec") || str_eq(n, "hyprland") || str_eq(n, "wayland") {
            Ok(CaptureBackend::WlScreenrec)
        } else if str_eq(n, "x11") {
            Ok(CaptureBackend::X11)
        } else if str_eq(n, "custom") {
            Ok(CaptureBackend::Custom)
        } else {
            Err(ConfigError::UnknownBackend)
        }
    }

    /// Whether the configuration records with wl-screenrec.
    pub fn uses_wl_screenrec(&self) -> (r: Result<bool, ConfigError>)
        ensures
            match backend_of(*self) {
                Some(b) => r == Ok::<bool, ConfigError>(b == CaptureBackend::WlScreenrec),
                None => r == Err::<bool, ConfigError>(ConfigError::UnknownBackend),
            },
    {
        let b = self.effective_backend()?;
        Ok(b == CaptureBackend::WlScreenrec)
    }

    /// The encoder of the backend in force.
    pub fn effective_encoder(&self) -> (r: Result<&str, ConfigError>)
        ensures
            match backend_of(*self) {
                Some(b) => r matches Ok(e) && e@ == encoder_for(*self, b),
                None => r matches Err(e) && e == ConfigError::UnknownBackend,
            },
    {
        if self.uses_wl_screenrec()? {
            Ok(self.wl_screenrec.ffmpeg_encoder.as_str())
        } else {
            Ok(self.recording.encoder.as_str())
        }
    }

    /// The bitrate of the backend in force.
    pub fn effective_bitrate(&self) -> (r: Result<&str, ConfigError>)
        ensures
            match backend_of(*self) {
                Some(b) => r matches Ok(e) && e@ == bitrate_for(*self, b),
                None => r matches Err(e) && e == ConfigError::UnknownBackend,
            },
    {
        if self.uses_wl_screenrec()? {
            Ok(self.wl_screenrec.bitrate.as_str())
        } else {
            Ok(self.recording.video_bitrate.as_str())
        }
    }
}

fn is_valid_capture_mode(m: &str) -> (r: bool)
    ensures
        r == valid_capture_mode(m@),
{
    str_eq(m, "output") || str_eq(m, "monitor") || str_eq(m, "geometry") || str_eq(
        m,
        "active-window",
    ) || str_eq(m, "window")
}

fn is_valid_ui_mode(m: &str) -> (r: bool)
    ensures
        r == valid_ui_mode(m@),
{
    str_eq(m, "beginner") || str_eq(m, "advanced")
}

/// Validation with the home directory given: the first broken rule, or the
/// warnings of an accepted configuration.
pub fn validate_config_in(config: &Config, home: &Option<String>) -> (r: Result<Vec<String>, ConfigError>)
    ensures
        match config_problem(*config, opt_view(*home)) {
            Some(e) => r matches Err(x) && x == e,
            None => r matches Ok(w) && views(w@) == config_warnings(*config),
        },
{
    let mut warnings: Vec<String> = Vec::new();
    if config.recording.duration_seconds == 0 {
        return Err(ConfigError::ZeroDuration);
    }
    if !(1 <= config.recording.fps && config.recording.fps <= 240) {
        return Err(ConfigError::FpsOutOfRange);
    }
    let backend = config.effective_backend()?;
    if is_blank(config.effective_bitrate()?) {
        return Err(ConfigError::EmptyBitrate);
    }
    if is_blank(config.effective_encoder()?) {
        return Err(ConfigError::EmptyEncoder);
    }
    if backend == CaptureBackend::Custom && is_blank(config.ffmpeg.custom_record_command.as_str()) {
        return Err(ConfigError::CustomCommandMissing);
    }
    if backend == CaptureBackend::WlScreenrec && !is_valid_capture_mode(
        config.wl_screenrec.capture_mode.as_str(),
    ) {
        return Err(ConfigError::InvalidCaptureMode);
    }
    if !is_valid_ui_mode(config.ui.mode.as_str()) {
        return Err(ConfigError::InvalidUiMode);
    }
    let capture_window = config.effective_capture_window();
    if capture_window.enabled && is_blank(capture_window.geometry.as_str()) {
        warnings.push(
            owned("capture.window is enabled but geometry is empty; run `v8q window select`"),
        );
    }
    if config.capture_window.is_some() {
        warnings.push(owned("legacy [capture_window] is in use; run `v8q config migrate --write`"));
    }
    let output_dir = config.paths.output_dir_path_in(home);
    let buffer_dir = config.paths.buffer_dir_path_in(home);
    if output_dir.as_str().is_empty() {
        return Err(ConfigError::EmptyOutputDir);
    }
    if buffer_dir.as_str().is_empty() {
        return Err(ConfigError::EmptyBufferDir);
    }
    if config_uses_legacy_backend(config) {
        warnings.push(
            owned("legacy [ffmpeg].capture_backend is in use; run `v8q config migrate --write`"),
        );
    }
    assert(views(warnings@) =~= config_warnings(*config));
    Ok(warnings)
}

/// Validation against the user's home directory.
pub fn validate_config(config: &Config) -> (r: Result<Vec<String>, ConfigError>)
    ensures
        exists|h: Option<Seq<char>>|
            crate::paths::usable_home(h) && match #[trigger] config_problem(*config, h) {
                Some(e) => r matches Err(x) && x == e,
                None => r matches Ok(w) && views(w@) == config_warnings(*config),
            },
{
    let home = home_dir();
    let r = validate_config_in(config, &home);
    assert(match config_problem(*config, opt_view(home)) {
        Some(e) => r matches Err(x) && x == e,
        None => r matches Ok(w) && views(w@) == config_warnings(*config),
    });
    r
}

/// What `v8q config migrate` makes of a configuration: `[capture]` is filled
/// from the legacy backend, the legacy `/tmp` paths move to the runtime
/// directory, and a legacy `[capture_window]` moves under `[capture]` unless
/// `[capture.window]` already exists.
pub open spec fn migrated(c: Config, r: Config, buffer_default: Seq<char>, pid_default: Seq<char>, home: Option<Seq<char>>) -> bool {
    let nested = c.capture matches Some(cap) && cap.window is Some;
    &&& r.recording == c.recording
    &&& r.wl_screenrec == c.wl_screenrec
    &&& r.ui == c.ui
    &&& r.notifications == c.notifications
    &&& r.ffmpeg.custom_record_command == c.ffmpeg.custom_record_command
    &&& r.ffmpeg.extra_args == c.ffmpeg.extra_args
    &&& r.ffmpeg.capture_backend == (if c.capture is None { None } else { c.ffmpeg.capture_backend })
    &&& r.capture is Some
    &&& r.capture.unwrap().backend@ == backend_name(c)
    &&& r.capture.unwrap().window == (if nested { c.capture.unwrap().window } else { c.capture_window })
    &&& r.capture_window is None
    &&& r.paths.output_dir == c.paths.output_dir
    &&& r.paths.buffer_dir@ == (if path_components(expand_tilde_spec(c.paths.buffer_dir@, home)) == path_components("/tmp/v8q-buffer"@) { buffer_default } else { c.paths.buffer_dir@ })
    &&& r.paths.pid_file@ == (if path_components(expand_tilde_spec(c.paths.pid_file@, home)) == path_components("/tmp/v8q.pid"@) { pid_default } else { c.paths.pid_file@ })
}

/// The migration of a parsed configuration, with the runtime defaults and the
/// home directory given.
pub fn migrate_config(config: Config, default_buffer_dir: &str, default_pid_file: &str, home: &Option<String>) -> (r: Config)
    ensures
        migrated(config, r, default_buffer_dir@, default_pid_file@, opt_view(*home)),
{
    let ghost c = config;
    let nested = match &config.capture {
        Some(cap) => cap.window.is_some(),
        None => false,
    };
    let mut config = config;
    if config.capture.is_none() {
        let backend = match &config.ffmpeg.capture_backend {
            Some(b) => b.clone(),
            None => owned("wl-screenrec"),
        };
        config.capture = Some(CaptureConfig { backend, window: None });
        config.ffmpeg.capture_backend = None;
    }
    let buffer = config.paths.buffer_dir_path_in(home);
    if same_path(buffer.as_str(), "/tmp/v8q-buffer") {
        config.paths.buffer_dir = owned(default_buffer_dir);
    }
    let pid = config.paths.pid_file_path_in(home);
    if same_path(pid.as_str(), "/tmp/v8q.pid") {
        config.paths.pid_file = owned(default_pid_file);
    }
    let legacy = config.capture_window.take();
    if !nested {
        if let Some(window) = legacy {
            let mut capture = match config.capture.take() {
                Some(cap) => cap,
                None => CaptureConfig::default(),
            };
            capture.window = Some(window);
            config.capture = Some(capture);
        }
    }
    config.capture_window = None;
    config
}

/// The text of a configuration error; an unknown backend is named.
pub open spec fn config_error_text(e: ConfigError, c: Config) -> Seq<char> {
    match e {
        ConfigError::UnknownBackend => "unknown capture backend '"@ + backend_name(c)
            + "'. Valid backends: wl-screenrec, wayland, hyprland, x11, custom"@,
        ConfigError::ZeroDuration => "recording.duration_seconds must be > 0"@,
        ConfigError::FpsOutOfRange => "recording.fps must be between 1 and 240"@,
        ConfigError::EmptyBitrate => "bitrate must not be empty"@,
        ConfigError::EmptyEncoder => "encoder must not be empty"@,
        ConfigError::CustomCommandMissing => "backend custom requires ffmpeg.custom_record_command"@,
        ConfigError::InvalidCaptureMode => "wl_screenrec.capture_mode must be one of: output, monitor, geometry, active-window, window"@,
        ConfigError::InvalidUiMode => "ui.mode must be beginner or advanced"@,
        ConfigError::EmptyOutputDir => "paths.output_dir must not be empty"@,
        ConfigError::EmptyBufferDir => "paths.buffer_dir must not be empty"@,
    }
}

impl ConfigError {
    /// The text of the error for the configuration it was found in.
    pub fn message(&self, config: &Config) -> (r: String)
        ensures
            r@ == config_error_text(*self, *config),
    {
        match self {
            ConfigError::UnknownBackend => {
                let name = config.effective_backend_name();
                concat3(
                    "unknown capture backend '",
                    name.as_str(),
                    "'. Valid backends: wl-screenrec, wayland, hyprland, x11, custom",
                )
            },
            ConfigError::ZeroDuration => owned("recording.duration_seconds must be > 0"),
            ConfigError::FpsOutOfRange => owned("recording.fps must be between 1 and 240"),
            ConfigError::EmptyBitrate => owned("bitrate must not be empty"),
            ConfigError::EmptyEncoder => owned("encoder must not be empty"),
            ConfigError::CustomCommandMissing => owned(
                "backend custom requires ffmpeg.custom_record_command",
            ),
            ConfigError::InvalidCaptureMode => owned(
                "wl_screenrec.capture_mode must be one of: output, monitor, geometry, active-window, window",
            ),
            ConfigError::InvalidUiMode => owned("ui.mode must be beginner or advanced"),
            ConfigError::EmptyOutputDir => owned("paths.output_dir must not be empty"),
            ConfigError::EmptyBufferDir => owned("paths.buffer_dir must not be empty"),
        }
    }
}

/// The configuration with the beginner or the advanced output mode; the
/// rest is kept.
pub fn with_ui_mode(config: Config, advanced: bool) -> (r: Config)
    ensures
        r.ui.mode@ == (if advanced {
            "advanced"@
        } else {
            "beginner"@
        }),
        r.ui.start_minimized == config.ui.start_minimized,
        r.ui.close_to_tray == config.ui.close_to_tray,
        r.ui.show_notifications == config.ui.show_notifications,
        r.ui.theme == config.ui.theme,
        r.recording == config.recording,
        r.paths == config.paths,
        r.capture == config.capture,
        r.capture_window == config.capture_window,
        r.ffmpeg == config.ffmpeg,
        r.wl_screenrec == config.wl_screenrec,
        r.notifications == config.notifications,
{
    let mut next = config;
    next.ui.mode = if advanced {
        owned("advanced")
    } else {
        owned("beginner")
    };
    next
}

/// The default configuration passes validation with no warnings, whatever
/// the runtime and home directories are.
pub proof fn lemma_default_config_valid(c: Config, runtime_dir: Seq<char>, home: Option<Seq<char>>)
    requires
        config_defaults(c, runtime_dir),
    ensures
        config_problem(c, home) is None,
        config_warnings(c).len() == 0,
{
    reveal_strlit("wl-screenrec");
    reveal_strlit("20M");
    reveal_strlit("h264_nvenc");
    reveal_strlit("output");
    reveal_strlit("beginner");
    reveal_strlit("~/Videos/V8Q");
    reveal_strlit("buffer");
    assert(backend_of(c) == Some(CaptureBackend::WlScreenrec));
    assert(!is_ws(c.wl_screenrec.bitrate@[0]));
    assert(!blank(c.wl_screenrec.bitrate@));
    assert(!is_ws(c.wl_screenrec.ffmpeg_encoder@[0]));
    assert(!blank(c.wl_screenrec.ffmpeg_encoder@));
    assert(valid_capture_mode(c.wl_screenrec.capture_mode@));
    assert(valid_ui_mode(c.ui.mode@));
    let out = expand_tilde_spec(c.paths.output_dir@, home);
    if starts_with(c.paths.output_dir@, seq!['~', '/']) && home is Some {
        let rest = c.paths.output_dir@.subrange(2, c.paths.output_dir@.len() as int);
        assert(rest.len() > 0);
    }
    assert(out.len() > 0);
    assert(expand_tilde_spec(c.paths.buffer_dir@, home).len() > 0) by {
        let b = c.paths.buffer_dir@;
        assert(b.len() > 0);
        if b =~= seq!['~'] {
            assert(b.last() == 'r');
        }
        if starts_with(b, seq!['~', '/']) && home is Some {
            assert(b.subrange(2, b.len() as int).len() > 0);
        }
    }
    assert(config_warnings(c) =~= Seq::<Seq<char>>::empty());
}

/// Migration keeps what a configuration records with: the backend name and
/// the backend, and the capture window in force; it leaves no legacy backend
/// or legacy `[capture_window]`.
pub proof fn lemma_migration_keeps_meaning(
    c: Config,
    r: Config,
    buffer_default: Seq<char>,
    pid_default: Seq<char>,
    home: Option<Seq<char>>,
)
    requires
        migrated(c, r, buffer_default, pid_default, home),
    ensures
        backend_name(r) == backend_name(c),
        backend_of(r) == backend_of(c),
        window_source(r) == window_source(c),
        !legacy_backend(r),
        r.capture_window is None,
{
}

/// Migrating twice gives what migrating once gave, when the runtime defaults
/// are not the legacy paths themselves.
pub proof fn lemma_migration_idempotent(
    c: Config,
    r: Config,
    r2: Config,
    buffer_default: Seq<char>,
    pid_default: Seq<char>,
    home: Option<Seq<char>>,
)
    requires
        migrated(c, r, buffer_default, pid_default, home),
        migrated(r, r2, buffer_default, pid_default, home),
        path_components(expand_tilde_spec(buffer_default, home)) != path_components(
            "/tmp/v8q-buffer"@,
        ),
        path_components(expand_tilde_spec(pid_default, home)) != path_components("/tmp/v8q.pid"@),
    ensures
        r2.recording == r.recording,
        r2.paths.buffer_dir@ == r.paths.buffer_dir@,
        r2.paths.output_dir == r.paths.output_dir,
        r2.paths.pid_file@ == r.paths.pid_file@,
        r2.capture.unwrap().backend@ == r.capture.unwrap().backend@,
        r2.capture.unwrap().window == r.capture.unwrap().window,
        r2.capture_window == r.capture_window,
        r2.ffmpeg.capture_backend == r.ffmpeg.capture_backend,
        r2.ffmpeg.custom_record_command == r.ffmpeg.custom_record_command,
        r2.ffmpeg.extra_args == r.ffmpeg.extra_args,
        r2.wl_screenrec == r.wl_screenrec,
        r2.ui == r.ui,
        r2.notifications == r.notifications,
{
}

} // verus!
