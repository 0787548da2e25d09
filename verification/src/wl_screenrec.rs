//! The wl-screenrec backend: which flags the installed binary offers, and the
//! command line that records the replay history.
use vstd::prelude::*;

use crate::config::{at_least_one, views, Config};
use crate::paths::{expand_tilde_spec, join, opt_view};
use crate::text::{blank, contains, contains_str, decimal, is_blank, owned, str_eq, trim, trimmed,
    u64_to_string};
use crate::doctor::{first_missing_flag, flag_views, wl_screenrec_help_has_flags, wl_screenrec_help_text};
use crate::monitors::{focused_or_first_name, focused_output_from_hyprctl, hyprctl_monitor_fields};
use crate::window::{
    list_view, selected_geometry, selected_window_geometry, window_failure, WindowError,
    WindowFailure, WindowInfo,
};

verus! {

/// The focused monitor's name (else the first monitor's) in the monitor
/// listing, if there is one.
pub open spec fn focused_output_of(inputs: CommandInputs) -> Option<Seq<char>> {
    match inputs.hyprctl_monitors {
        Some(t) => focused_or_first_name(hyprctl_monitor_fields(t@)),
        None => None,
    }
}

/// The optional flags that `wl-screenrec --help` mentions.
#[derive(Debug, Clone, Copy)]
pub struct WlScreenrecCapabilities {
    pub max_fps: bool,
    pub ffmpeg_encoder: bool,
    pub audio_codec: bool,
    pub bitrate: bool,
    pub audio: bool,
    pub audio_device: bool,
    pub audio_backend: bool,
    pub ffmpeg_encoder_options: bool,
    pub output: bool,
    pub geometry: bool,
}

/// What the recorder command depends on besides the configuration: the home
/// directory, the Hyprland window list, the active window's geometry, what
/// `hyprctl monitors -j` printed (when it was run and succeeded), and the
/// configured bitrate in wl-screenrec's units.
#[derive(Debug)]
pub struct CommandInputs {
    pub home: Option<String>,
    pub windows: Result<Vec<WindowInfo>, String>,
    pub active_window: Result<String, String>,
    pub hyprctl_monitors: Option<String>,
    pub bitrate_arg: String,
}

/// Why no recorder command could be built.
#[derive(Debug, Clone)]
pub enum CommandError {
    /// The configured capture window could not be resolved.
    Window(WindowError),
    /// Window capture is on, but wl-screenrec lacks `--geometry`.
    WindowNeedsGeometry,
    /// The capture mode needs `--geometry`, which wl-screenrec lacks.
    GeometryUnsupported,
    /// The active window's geometry could not be read, with the reason.
    ActiveWindow(String),
    /// The geometry to capture is empty.
    EmptyGeometry,
    /// `wl_screenrec.capture_mode` is not a known mode.
    UnknownCaptureMode,
}

/// The kind of a `CommandError`.
#[derive(Debug, Clone, Copy, PartialEq, Eq, Structural)]
pub enum CommandFailure {
    Window(WindowFailure),
    WindowNeedsGeometry,
    GeometryUnsupported,
    ActiveWindow,
    EmptyGeometry,
    UnknownCaptureMode,
}

pub open spec fn command_failure(e: CommandError) -> CommandFailure {
    match e {
        CommandError::Window(w) => CommandFailure::Window(window_failure(w)),
        CommandError::WindowNeedsGeometry => CommandFailure::WindowNeedsGeometry,
        CommandError::GeometryUnsupported => CommandFailure::GeometryUnsupported,
        CommandError::ActiveWindow(_) => CommandFailure::ActiveWindow,
        CommandError::EmptyGeometry => CommandFailure::EmptyGeometry,
        CommandError::UnknownCaptureMode => CommandFailure::UnknownCaptureMode,
    }
}

/// The reasons carried by a `CommandError` come from the inputs.
pub open spec fn error_payload_from(e: CommandError, inputs: CommandInputs) -> bool {
    &&& (e matches CommandError::ActiveWindow(m) ==> inputs.active_window matches Err(m2) && m
        == m2)
    &&& (e matches CommandError::Window(WindowError::ListFailed(m)) ==> inputs.windows matches Err(
        m2,
    ) && m == m2)
}

/// The capabilities that a help text reveals.
pub open spec fn caps_from_help(c: WlScreenrecCapabilities, help: Seq<char>) -> bool {
    &&& c.max_fps == contains(help, "--max-fps"@)
    &&& c.ffmpeg_encoder == contains(help, "--ffmpeg-encoder"@)
    &&& c.audio_codec == contains(help, "--audio-codec"@)
    &&& c.bitrate == contains(help, "--bitrate"@)
    &&& c.audio == contains(help, "--audio"@)
    &&& c.audio_device == contains(help, "--audio-device"@)
    &&& c.audio_backend == contains(help, "--audio-backend"@)
    &&& c.ffmpeg_encoder_options == contains(help, "--ffmpeg-encoder-options"@)
    &&& c.output == contains(help, "--output"@)
    &&& c.geometry == contains(help, "--geometry"@)
}

pub open spec fn args_if(cond: bool, args: Seq<Seq<char>>) -> Seq<Seq<char>> {
    if cond {
        args
    } else {
        Seq::empty()
    }
}

/// The capture modes that record a rectangle.
pub open spec fn geometry_mode(m: Seq<char>) -> bool {
    m == "geometry"@ || m == "active-window"@ || m == "window"@
}

/// The capture modes that follow the active window.
pub open spec fn active_window_mode(m: Seq<char>) -> bool {
    m == "active-window"@ || m == "window"@
}

/// The capture modes that record a whole output.
pub open spec fn output_mode(m: Seq<char>) -> bool {
    m == "output"@ || m == "monitor"@
}

/// The arguments that choose what to capture.
pub open spec fn target_args(c: Config, caps: WlScreenrecCapabilities, inputs: CommandInputs) -> Result<
    Seq<Seq<char>>,
    CommandFailure,
> {
    let w = c.wl_screenrec;
    let mode = w.capture_mode@;
    match selected_geometry(c, list_view(inputs.windows)) {
        Err(f) => Err(CommandFailure::Window(f)),
        Ok(Some(g)) => if !caps.geometry {
            Err(CommandFailure::WindowNeedsGeometry)
        } else {
            Ok(seq!["--geometry"@, g])
        },
        Ok(None) => if geometry_mode(mode) {
            if !caps.geometry {
                Err(CommandFailure::GeometryUnsupported)
            } else if active_window_mode(mode) {
                match inputs.active_window {
                    Err(_) => Err(CommandFailure::ActiveWindow),
                    Ok(g) => if g@.len() == 0 {
                        Err(CommandFailure::EmptyGeometry)
                    } else {
                        Ok(seq!["--geometry"@, g@])
                    },
                }
            } else if trim(w.geometry@).len() == 0 {
                Err(CommandFailure::EmptyGeometry)
            } else {
                Ok(seq!["--geometry"@, trim(w.geometry@)])
            }
        } else if !output_mode(mode) {
            Err(CommandFailure::UnknownCaptureMode)
        } else if !caps.output {
            Ok(Seq::empty())
        } else if !blank(w.output@) {
            Ok(seq!["--output"@, w.output@])
        } else if w.auto_select_focused_output && focused_output_of(inputs) is Some {
            Ok(seq!["--output"@, focused_output_of(inputs).unwrap()])
        } else {
            Ok(Seq::empty())
        },
    }
}

/// The audio arguments.
pub open spec fn audio_args(c: Config, caps: WlScreenrecCapabilities) -> Seq<Seq<char>> {
    let w = c.wl_screenrec;
    args_if(
        w.audio && caps.audio,
        seq!["--audio"@] + args_if(
            caps.audio_codec,
            seq!["--audio-codec"@, c.recording.audio_codec@],
        ) + args_if(
            caps.audio_device && !blank(w.audio_device@),
            seq!["--audio-device"@, w.audio_device@],
        ) + args_if(
            caps.audio_backend && !blank(w.audio_backend@),
            seq!["--audio-backend"@, w.audio_backend@],
        ),
    )
}

/// The arguments before the capture target.
pub open spec fn leading_args(c: Config, caps: WlScreenrecCapabilities, inputs: CommandInputs) -> Seq<
    Seq<char>,
> {
    seq![
        "wl-screenrec"@,
        "--history"@,
        decimal(at_least_one(c.recording.duration_seconds)),
        "--filename"@,
        join(expand_tilde_spec(c.paths.buffer_dir@, opt_view(inputs.home)), "history.mkv"@),
    ] + args_if(caps.max_fps, seq!["--max-fps"@, decimal(c.recording.fps as nat)]) + args_if(
        caps.ffmpeg_encoder,
        seq!["--ffmpeg-encoder"@, c.wl_screenrec.ffmpeg_encoder@],
    ) + args_if(caps.bitrate, seq!["--bitrate"@, inputs.bitrate_arg@])
}

/// The arguments after the capture target.
pub open spec fn trailing_args(c: Config, caps: WlScreenrecCapabilities) -> Seq<Seq<char>> {
    audio_args(c, caps) + args_if(
        caps.ffmpeg_encoder_options && !blank(c.wl_screenrec.ffmpeg_encoder_options@),
        seq!["--ffmpeg-encoder-options"@, c.wl_screenrec.ffmpeg_encoder_options@],
    ) + views(c.wl_screenrec.extra_args@)
}

/// The whole wl-screenrec command line, or why it cannot be built.
pub open spec fn wl_command(c: Config, caps: WlScreenrecCapabilities, inputs: CommandInputs) -> Result<
    Seq<Seq<char>>,
    CommandFailure,
> {
    match target_args(c, caps, inputs) {
        Err(f) => Err(f),
        Ok(t) => Ok(leading_args(c, caps, inputs) + t + trailing_args(c, caps)),
    }
}

impl WlScreenrecCapabilities {
    /// The flags that a `wl-screenrec --help` text mentions.
    pub fn from_help(help: &str) -> (r: Self)
        ensures
            caps_from_help(r, help@),
    {
        WlScreenrecCapabilities {
            max_fps: contains_str(help, "--max-fps"),
            ffmpeg_encoder: contains_str(help, "--ffmpeg-encoder"),
            audio_codec: contains_str(help, "--audio-codec"),
            bitrate: contains_str(help, "--bitrate"),
            audio: contains_str(help, "--audio"),
            audio_device: contains_str(help, "--audio-device"),
            audio_backend: contains_str(help, "--audio-backend"),
            ffmpeg_encoder_options: contains_str(help, "--ffmpeg-encoder-options"),
            output: contains_str(help, "--output"),
            geometry: contains_str(help, "--geometry"),
        }
    }

    /// Every optional flag available.
    pub fn all() -> (r: Self)
        ensures
            r.max_fps && r.ffmpeg_encoder && r.audio_codec && r.bitrate && r.audio
                && r.audio_device && r.audio_backend && r.ffmpeg_encoder_options && r.output
                && r.geometry,
    {
        WlScreenrecCapabilities {
            max_fps: true,
            ffmpeg_encoder: true,
            audio_codec: true,
            bitrate: true,
            audio: true,
            audio_device: true,
            audio_backend: true,
            ffmpeg_encoder_options: true,
            output: true,
            geometry: true,
        }
    }
}

/// Appends `b` to `a`.
pub fn extend_strings(a: &mut Vec<String>, b: Vec<String>)
    ensures
        views(final(a)@) == views(old(a)@) + views(b@),
{
    let mut b = b;
    let ghost start = a@;
    let ghost bv = b@;
    a.append(&mut b);
    assert(views(a@) =~= views(start) + views(bv));
}

/// Appends one argument.
pub fn push_arg(a: &mut Vec<String>, s: String)
    ensures
        views(final(a)@) == views(old(a)@).push(s@),
{
    let ghost start = a@;
    a.push(s);
    assert(views(a@) =~= views(start).push(s@));
}

fn pair(a: &str, b: &str) -> (r: Vec<String>)
    ensures
        views(r@) == seq![a@, b@],
{
    let mut r: Vec<String> = Vec::new();
    push_arg(&mut r, owned(a));
    push_arg(&mut r, owned(b));
    assert(views(r@) =~= seq![a@, b@]);
    r
}

fn capture_target_args(config: &Config, caps: &WlScreenrecCapabilities, inputs: &CommandInputs) -> (r:
    Result<Vec<String>, CommandError>)
    ensures
        match target_args(*config, *caps, *inputs) {
            Ok(t) => r matches Ok(v) && views(v@) == t,
            Err(f) => r matches Err(e) && command_failure(e) == f && error_payload_from(e, *inputs),
        },
{
    let w = &config.wl_screenrec;
    let mode = w.capture_mode.as_str();
    match selected_window_geometry(config, &inputs.windows) {
        Err(e) => {
            return Err(CommandError::Window(e));
        },
        Ok(Some(geometry)) => {
            if !caps.geometry {
                return Err(CommandError::WindowNeedsGeometry);
            }
            return Ok(pair("--geometry", geometry.as_str()));
        },
        Ok(None) => {},
    }
    let is_active = str_eq(mode, "active-window") || str_eq(mode, "window");
    if str_eq(mode, "geometry") || is_active {
        if !caps.geometry {
            return Err(CommandError::GeometryUnsupported);
        }
        let geometry = if is_active {
            match &inputs.active_window {
                Ok(g) => g.clone(),
                Err(e) => {
                    return Err(CommandError::ActiveWindow(e.clone()));
                },
            }
        } else {
            trimmed(w.geometry.as_str())
        };
        if geometry.as_str().is_empty() {
            return Err(CommandError::EmptyGeometry);
        }
        return Ok(pair("--geometry", geometry.as_str()));
    }
    if !(str_eq(mode, "output") || str_eq(mode, "monitor")) {
        return Err(CommandError::UnknownCaptureMode);
    }
    if !caps.output {
        return Ok(Vec::new());
    }
    if !is_blank(w.output.as_str()) {
        return Ok(pair("--output", w.output.as_str()));
    }
    if w.auto_select_focused_output {
        if let Some(text) = &inputs.hyprctl_monitors {
            if let Some(output) = focused_output_from_hyprctl(text.as_str()) {
                return Ok(pair("--output", output.as_str()));
            }
        }
    }
    Ok(Vec::new())
}

fn leading(config: &Config, caps: &WlScreenrecCapabilities, inputs: &CommandInputs) -> (r: Vec<
    String,
>)
    ensures
        views(r@) == leading_args(*config, *caps, *inputs),
{
    let r = &config.recording;
    let mut args: Vec<String> = Vec::new();
    push_arg(&mut args, owned("wl-screenrec"));
    push_arg(&mut args, owned("--history"));
    let duration = if r.duration_seconds == 0 {
        1
    } else {
        r.duration_seconds
    };
    push_arg(&mut args, u64_to_string(duration));
    push_arg(&mut args, owned("--filename"));
    push_arg(&mut args, config.wl_screenrec_history_file_in(&inputs.home));
    let ghost head = views(args@);
    if caps.max_fps {
        extend_strings(&mut args, pair("--max-fps", u64_to_string(r.fps as u64).as_str()));
    }
    let ghost h1 = views(args@);
    if caps.ffmpeg_encoder {
        extend_strings(&mut args, pair("--ffmpeg-encoder", config.wl_screenrec.ffmpeg_encoder.as_str()));
    }
    let ghost h2 = views(args@);
    if caps.bitrate {
        extend_strings(&mut args, pair("--bitrate", inputs.bitrate_arg.as_str()));
    }
    assert(views(args@) =~= leading_args(*config, *caps, *inputs));
    args
}

fn audio(config: &Config, caps: &WlScreenrecCapabilities) -> (r: Vec<String>)
    ensures
        views(r@) == audio_args(*config, *caps),
{
    let w = &config.wl_screenrec;
    let mut args: Vec<String> = Vec::new();
    if w.audio && caps.audio {
        push_arg(&mut args, owned("--audio"));
        let ghost a0 = views(args@);
        if caps.audio_codec {
            extend_strings(&mut args, pair("--audio-codec", config.recording.audio_codec.as_str()));
        }
        let ghost a1 = views(args@);
        if caps.audio_device && !is_blank(w.audio_device.as_str()) {
            extend_strings(&mut args, pair("--audio-device", w.audio_device.as_str()));
        }
        let ghost a2 = views(args@);
        if caps.audio_backend && !is_blank(w.audio_backend.as_str()) {
            extend_strings(&mut args, pair("--audio-backend", w.audio_backend.as_str()));
        }
    }
    assert(views(args@) =~= audio_args(*config, *caps));
    args
}

fn trailing(config: &Config, caps: &WlScreenrecCapabilities) -> (r: Vec<String>)
    ensures
        views(r@) == trailing_args(*config, *caps),
{
    let w = &config.wl_screenrec;
    let mut args = audio(config, caps);
    let ghost a = views(args@);
    if caps.ffmpeg_encoder_options && !is_blank(w.ffmpeg_encoder_options.as_str()) {
        extend_strings(&mut args, pair("--ffmpeg-encoder-options", w.ffmpeg_encoder_options.as_str()));
    }
    extend_strings(&mut args, crate::config::copy_strings(&w.extra_args));
    assert(views(args@) =~= trailing_args(*config, *caps));
    args
}

/// The wl-screenrec command line for the configuration, using only the flags
/// the installed wl-screenrec offers.
pub fn build_wl_screenrec_command(
    config: &Config,
    caps: &WlScreenrecCapabilities,
    inputs: &CommandInputs,
) -> (r: Result<Vec<String>, CommandError>)
    ensures
        match wl_command(*config, *caps, *inputs) {
            Ok(v) => r matches Ok(x) && views(x@) == v,
            Err(f) => r matches Err(e) && command_failure(e) == f && error_payload_from(e, *inputs),
        },
{
    let mut args = leading(config, caps, inputs);
    let target = capture_target_args(config, caps, inputs)?;
    extend_strings(&mut args, target);
    extend_strings(&mut args, trailing(config, caps));
    Ok(args)
}

/// Some line contains `pat`.
pub open spec fn any_line_contains(lines: Seq<Seq<char>>, pat: Seq<char>) -> bool {
    exists|i: int| 0 <= i < lines.len() && contains(#[trigger] lines[i], pat)
}

/// The hint shown when wl-screenrec exits right after starting.
pub open spec fn startup_hint_spec(log_tail: Seq<Seq<char>>) -> Seq<char> {
    if any_line_contains(log_tail, "multiple enabled displays"@) {
        "Hint: set `[wl_screenrec] output = \"DP-1\"` or another output from `hyprctl monitors -j`, then rerun `v8q start`."@
    } else if any_line_contains(log_tail, "Failed to negotiate format"@) {
        "Hint: this wl-screenrec/NVIDIA path failed before recording. Try `[wl_screenrec] extra_args = [\"--experimental-vulkan\"]` for testing, or switch to a custom/wf-recorder backend until wl-screenrec works on this compositor/driver."@
    } else {
        "Hint: run `v8q debug wl-screenrec --test-run 5` and inspect the log."@
    }
}

pub fn any_contains(lines: &Vec<String>, pat: &str) -> (r: bool)
    ensures
        r == any_line_contains(views(lines@), pat@),
{
    let mut i: usize = 0;
    while i < lines.len()
        invariant
            i <= lines.len(),
            forall|j: int| 0 <= j < i ==> !contains(lines@[j]@, pat@),
        decreases lines.len() - i,
    {
        if contains_str(lines[i].as_str(), pat) {
            assert(views(lines@)[i as int] == lines@[i as int]@);
            return true;
        }
        i = i + 1;
    }
    assert forall|j: int| 0 <= j < views(lines@).len() implies !contains(#[trigger] views(lines@)[j], pat@) by {
        assert(views(lines@)[j] == lines@[j]@);
    }
    false
}

/// The hint shown when wl-screenrec exits right after starting, chosen from
/// the tail of its log.
pub fn startup_hint(log_tail: &Vec<String>) -> (r: &'static str)
    ensures
        r@ == startup_hint_spec(views(log_tail@)),
{
    if any_contains(log_tail, "multiple enabled displays") {
        "Hint: set `[wl_screenrec] output = \"DP-1\"` or another output from `hyprctl monitors -j`, then rerun `v8q start`."
    } else if any_contains(log_tail, "Failed to negotiate format") {
        "Hint: this wl-screenrec/NVIDIA path failed before recording. Try `[wl_screenrec] extra_args = [\"--experimental-vulkan\"]` for testing, or switch to a custom/wf-recorder backend until wl-screenrec works on this compositor/driver."
    } else {
        "Hint: run `v8q debug wl-screenrec --test-run 5` and inspect the log."
    }
}

/// Why wl-screenrec cannot be started.
#[derive(Debug, Clone)]
pub enum StartError {
    /// `wl-screenrec` is not on `PATH`.
    NotInstalled,
    /// `wl-screenrec --help` could not be run.
    HelpUnavailable(String),
    /// The help text lacks a flag that recording needs; the message names it.
    MissingFlag(String),
    /// The command line could not be built.
    Command(CommandError),
}

/// The kind of a `StartError`.
#[derive(Debug, Clone, Copy, PartialEq, Eq, Structural)]
pub enum StartFault {
    NotInstalled,
    HelpUnavailable,
    MissingFlag,
    Command(CommandFailure),
}

pub open spec fn start_fault(e: StartError) -> StartFault {
    match e {
        StartError::NotInstalled => StartFault::NotInstalled,
        StartError::HelpUnavailable(_) => StartFault::HelpUnavailable,
        StartError::MissingFlag(_) => StartFault::MissingFlag,
        StartError::Command(c) => StartFault::Command(command_failure(c)),
    }
}

/// The flags that recording cannot do without.
pub open spec fn required_start_flags() -> Seq<Seq<char>> {
    seq!["--history"@, "--filename"@]
}

/// The capabilities that a help text reveals, as a value.
pub open spec fn caps_spec(help: Seq<char>) -> WlScreenrecCapabilities {
    WlScreenrecCapabilities {
        max_fps: contains(help, "--max-fps"@),
        ffmpeg_encoder: contains(help, "--ffmpeg-encoder"@),
        audio_codec: contains(help, "--audio-codec"@),
        bitrate: contains(help, "--bitrate"@),
        audio: contains(help, "--audio"@),
        audio_device: contains(help, "--audio-device"@),
        audio_backend: contains(help, "--audio-backend"@),
        ffmpeg_encoder_options: contains(help, "--ffmpeg-encoder-options"@),
        output: contains(help, "--output"@),
        geometry: contains(help, "--geometry"@),
    }
}

/// The command that starts wl-screenrec, or why it cannot start: it must be
/// installed, print its help, and offer `--history` and `--filename`.
pub open spec fn wl_start_spec(
    c: Config,
    installed: bool,
    help: Option<Seq<char>>,
    inputs: CommandInputs,
) -> Result<Seq<Seq<char>>, StartFault> {
    if !installed {
        Err(StartFault::NotInstalled)
    } else {
        match help {
            None => Err(StartFault::HelpUnavailable),
            Some(h) => if first_missing_flag(required_start_flags(), h) is Some {
                Err(StartFault::MissingFlag)
            } else {
                match wl_command(c, caps_spec(h), inputs) {
                    Ok(v) => Ok(v),
                    Err(f) => Err(StartFault::Command(f)),
                }
            },
        }
    }
}

/// The texts that a `StartError` carries come from its inputs.
pub open spec fn start_error_detail(e: StartError, help: Option<Seq<char>>, inputs: CommandInputs) -> bool {
    &&& (e matches StartError::HelpUnavailable(m) ==> m@ == "failed to run wl-screenrec --help"@)
    &&& (e matches StartError::MissingFlag(m) ==> help matches Some(h) && first_missing_flag(
        required_start_flags(),
        h,
    ) matches Some(f) && m@ == "wl-screenrec --help does not contain required flag "@ + f)
    &&& (e matches StartError::Command(ce) ==> error_payload_from(ce, inputs))
}

/// The wl-screenrec command for the configuration and the help text it was
/// built from. `installed` says whether `wl-screenrec` is on `PATH`, and
/// `help_output` is what `wl-screenrec --help` printed, if it ran.
pub fn command_for_config(
    config: &Config,
    installed: bool,
    help_output: Option<String>,
    inputs: &CommandInputs,
) -> (r: Result<(Vec<String>, String), StartError>)
    ensures
        match wl_start_spec(*config, installed, opt_view(help_output), *inputs) {
            Ok(v) => r matches Ok((a, h)) && views(a@) == v && Some(h@) == opt_view(help_output),
            Err(k) => r matches Err(e) && start_fault(e) == k && start_error_detail(
                e,
                opt_view(help_output),
                *inputs,
            ),
        },
{
    if !installed {
        return Err(StartError::NotInstalled);
    }
    let help = match wl_screenrec_help_text(help_output) {
        Ok(h) => h,
        Err(m) => {
            return Err(StartError::HelpUnavailable(m));
        },
    };
    let flags: Vec<&'static str> = vec!["--history", "--filename"];
    proof {
        assert(flag_views(flags@) =~= required_start_flags());
    }
    if let Err(m) = wl_screenrec_help_has_flags(help.as_str(), &flags) {
        return Err(StartError::MissingFlag(m));
    }
    let caps = WlScreenrecCapabilities::from_help(help.as_str());
    assert(caps == caps_spec(help@));
    match build_wl_screenrec_command(config, &caps, inputs) {
        Ok(args) => Ok((args, help)),
        Err(e) => Err(StartError::Command(e)),
    }
}

/// The wl-screenrec log of the day: `wl-screenrec_<date>.log` in the log
/// directory.
pub fn log_file_path(logs_dir: &str, date: &str) -> (r: String)
    ensures
        r@ == join(logs_dir@, "wl-screenrec"@ + "_"@ + date@ + ".log"@),
{
    crate::paths::log_file_for_backend(logs_dir, "wl-screenrec", date)
}

/// The text of a command error for the configuration it was met in.
pub open spec fn command_error_text(e: CommandError, c: Config) -> Seq<char> {
    match e {
        CommandError::Window(w) => crate::window::window_error_text(w),
        CommandError::WindowNeedsGeometry => "window capture is enabled, but wl-screenrec --help does not contain --geometry. Update wl-screenrec or use fullscreen capture."@,
        CommandError::GeometryUnsupported => "wl-screenrec --help does not contain --geometry"@,
        CommandError::ActiveWindow(m) => m@,
        CommandError::EmptyGeometry => "wl_screenrec.geometry is empty"@,
        CommandError::UnknownCaptureMode => "unknown wl_screenrec.capture_mode '"@
            + c.wl_screenrec.capture_mode@
            + "'. Valid modes: output, monitor, geometry, active-window"@,
    }
}

impl CommandError {
    /// The text of the error.
    pub fn message(&self, config: &Config) -> (r: String)
        ensures
            r@ == command_error_text(*self, *config),
    {
        match self {
            CommandError::Window(w) => w.message(),
            CommandError::WindowNeedsGeometry => owned(
                "window capture is enabled, but wl-screenrec --help does not contain --geometry. Update wl-screenrec or use fullscreen capture.",
            ),
            CommandError::GeometryUnsupported => owned(
                "wl-screenrec --help does not contain --geometry",
            ),
            CommandError::ActiveWindow(m) => m.clone(),
            CommandError::EmptyGeometry => owned("wl_screenrec.geometry is empty"),
            CommandError::UnknownCaptureMode => crate::text::concat3(
                "unknown wl_screenrec.capture_mode '",
                config.wl_screenrec.capture_mode.as_str(),
                "'. Valid modes: output, monitor, geometry, active-window",
            ),
        }
    }
}

/// The text of a start error.
pub open spec fn start_error_text(e: StartError, c: Config) -> Seq<char> {
    match e {
        StartError::NotInstalled => "wl-screenrec not found in PATH; install it with `paru -S wl-screenrec`, then rerun `v8q doctor`"@,
        StartError::HelpUnavailable(m) => m@,
        StartError::MissingFlag(m) => m@,
        StartError::Command(ce) => command_error_text(ce, c),
    }
}

impl StartError {
    /// The text of the error.
    pub fn message(&self, config: &Config) -> (r: String)
        ensures
            r@ == start_error_text(*self, *config),
    {
        match self {
            StartError::NotInstalled => owned(
                "wl-screenrec not found in PATH; install it with `paru -S wl-screenrec`, then rerun `v8q doctor`",
            ),
            StartError::HelpUnavailable(m) => m.clone(),
            StartError::MissingFlag(m) => m.clone(),
            StartError::Command(ce) => ce.message(config),
        }
    }
}

/// The last `lines` lines of a log, given its contents (`None` when it could
/// not be read).
pub fn tail_log(contents: &Option<String>, lines: usize) -> (r: Vec<String>)
    ensures
        views(r@) == match opt_view(*contents) {
            Some(t) => crate::replay::last_n(crate::replay::lines_of(t), lines as nat),
            None => Seq::empty(),
        },
{
    match contents {
        Some(t) => crate::replay::last_lines(t.as_str(), lines),
        None => Vec::new(),
    }
}

/// The error when wl-screenrec exits right after starting: its exit status,
/// the command, the last 80 lines of its log and a hint.
pub open spec fn exited_text(status: Seq<char>, args: Seq<Seq<char>>, log: Option<Seq<char>>) -> Seq<char> {
    let tail = match log {
        Some(t) => crate::replay::last_n(crate::replay::lines_of(t), 80),
        None => Seq::empty(),
    };
    "wl-screenrec exited immediately with status "@ + status + "\ncommand: "@ + crate::text::joined(
        args,
        " "@,
    ) + "\nlog tail:\n"@ + crate::text::joined(tail, "\n"@) + "\n"@ + startup_hint_spec(tail)
}

/// The error when wl-screenrec exits right after starting.
pub fn exited_immediately_message(status: &str, args: &Vec<String>, log: &Option<String>) -> (r: String)
    ensures
        r@ == exited_text(status@, views(args@), opt_view(*log)),
{
    let tail = tail_log(log, 80);
    let command = crate::text::join_strings(args, " ");
    let t = crate::text::join_strings(&tail, "\n");
    let mut r = crate::text::concat2("wl-screenrec exited immediately with status ", status);
    r.append("\ncommand: ");
    r.append(command.as_str());
    r.append("\nlog tail:\n");
    r.append(t.as_str());
    r.append("\n");
    r.append(startup_hint(&tail));
    r
}

/// Every wl-screenrec command records the replay history: it starts with
/// `wl-screenrec --history <seconds> --filename <history file>`.
pub proof fn lemma_command_records_history(c: Config, caps: WlScreenrecCapabilities, inputs: CommandInputs)
    requires
        wl_command(c, caps, inputs) is Ok,
    ensures
        wl_command(c, caps, inputs)->Ok_0.take(5) == seq![
            "wl-screenrec"@,
            "--history"@,
            decimal(at_least_one(c.recording.duration_seconds)),
            "--filename"@,
            join(expand_tilde_spec(c.paths.buffer_dir@, opt_view(inputs.home)), "history.mkv"@),
        ],
{
    let v = wl_command(c, caps, inputs)->Ok_0;
    let t = target_args(c, caps, inputs)->Ok_0;
    let l = leading_args(c, caps, inputs);
    assert(v == l + t + trailing_args(c, caps));
    assert(v.take(5) =~= l.take(5));
}

/// The active window is what gets recorded: in the `active-window` and
/// `window` capture modes, with window capture off and a wl-screenrec that
/// offers `--geometry`, when the active window's geometry `g` is known and
/// not empty, the command line holds `--geometry` followed by `g`.
pub proof fn lemma_active_window_is_recorded(
    c: Config,
    caps: WlScreenrecCapabilities,
    inputs: CommandInputs,
    g: Seq<char>,
)
    requires
        c.wl_screenrec.capture_mode@ == "active-window"@ || c.wl_screenrec.capture_mode@
            == "window"@,
        !crate::config::window_enabled(c),
        caps.geometry,
        inputs.active_window matches Ok(s) && s@ == g,
        g.len() > 0,
    ensures
        wl_command(c, caps, inputs) matches Ok(v) && exists|k: int|
            #![trigger v[k]]
            0 <= k && k + 1 < v.len() && v[k] == "--geometry"@ && v[k + 1] == g,
{
    let t = target_args(c, caps, inputs);
    assert(t == Ok::<Seq<Seq<char>>, CommandFailure>(seq!["--geometry"@, g]));
    let l = leading_args(c, caps, inputs);
    let v = l + seq!["--geometry"@, g] + trailing_args(c, caps);
    assert(wl_command(c, caps, inputs) == Ok::<Seq<Seq<char>>, CommandFailure>(v));
    assert(v[l.len() as int] == "--geometry"@);
    assert(v[l.len() + 1int] == g);
    let k = l.len() as int;
    assert(0 <= k && k + 1 < v.len() && v[k] == "--geometry"@ && v[k + 1] == g);
    let w = wl_command(c, caps, inputs)->Ok_0;
    assert(w == v);
    assert(w[k] == "--geometry"@);
}

proof fn lemma_target_in_command(c: Config, caps: WlScreenrecCapabilities, inputs: CommandInputs, a: Seq<char>, b: Seq<char>)
    requires
        target_args(c, caps, inputs) == Ok::<Seq<Seq<char>>, CommandFailure>(seq![a, b]),
    ensures
        wl_command(c, caps, inputs) matches Ok(v) && exists|k: int|
            #![trigger v[k]]
            0 <= k && k + 1 < v.len() && v[k] == a && v[k + 1] == b,
{
    let l = leading_args(c, caps, inputs);
    let v = l + seq![a, b] + trailing_args(c, caps);
    let w = wl_command(c, caps, inputs)->Ok_0;
    assert(w == v);
    let k = l.len() as int;
    assert(w[k] == a && w[k + 1] == b);
}

/// The configured rectangle is what gets recorded: in the `geometry` mode,
/// with window capture off, `--geometry` offered and a non-blank configured
/// geometry, the command holds `--geometry` and the trimmed geometry.
pub proof fn lemma_configured_geometry_is_recorded(c: Config, caps: WlScreenrecCapabilities, inputs: CommandInputs)
    requires
        !crate::config::window_enabled(c),
        c.wl_screenrec.capture_mode@ == "geometry"@,
        caps.geometry,
        trim(c.wl_screenrec.geometry@).len() > 0,
    ensures
        wl_command(c, caps, inputs) matches Ok(v) && exists|k: int|
            #![trigger v[k]]
            0 <= k && k + 1 < v.len() && v[k] == "--geometry"@ && v[k + 1] == trim(c.wl_screenrec.geometry@),
{
    reveal_strlit("geometry");
    reveal_strlit("active-window");
    reveal_strlit("window");
    let m = c.wl_screenrec.capture_mode@;
    assert(m.len() == 8);
    assert("active-window"@.len() == 13);
    assert("window"@.len() == 6);
    lemma_target_in_command(c, caps, inputs, "--geometry"@, trim(c.wl_screenrec.geometry@));
}

/// The configured output is what gets recorded: in the `output` and
/// `monitor` modes, with window capture off, `--output` offered and a
/// non-blank configured output, the command holds `--output` and that output.
pub proof fn lemma_configured_output_is_recorded(c: Config, caps: WlScreenrecCapabilities, inputs: CommandInputs)
    requires
        !crate::config::window_enabled(c),
        c.wl_screenrec.capture_mode@ == "output"@ || c.wl_screenrec.capture_mode@ == "monitor"@,
        caps.output,
        !blank(c.wl_screenrec.output@),
    ensures
        wl_command(c, caps, inputs) matches Ok(v) && exists|k: int|
            #![trigger v[k]]
            0 <= k && k + 1 < v.len() && v[k] == "--output"@ && v[k + 1] == c.wl_screenrec.output@,
{
    reveal_strlit("geometry");
    reveal_strlit("active-window");
    reveal_strlit("window");
    reveal_strlit("output");
    reveal_strlit("monitor");
    let m = c.wl_screenrec.capture_mode@;
    assert(m.len() == 6 || m.len() == 7);
    assert(m[0] == 'o' || m[0] == 'm');
    assert("geometry"@.len() == 8);
    assert("active-window"@.len() == 13);
    assert("window"@[0] == 'w');
    lemma_target_in_command(c, caps, inputs, "--output"@, c.wl_screenrec.output@);
}

} // verus!
