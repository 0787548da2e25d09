//! V8Q: a replay buffer recorder for Linux desktops. This crate holds the
//! recorder's rules: configuration, presets, the recorder command lines, the
//! doctor checks, replay selection and clip naming, each with its contract.
pub mod cli;
pub mod config;
pub mod doctor;
pub mod ffmpeg;
pub mod lock;
pub mod monitors;
pub mod panel;
pub mod paths;
pub mod preset;
pub mod process;
pub mod replay;
pub mod report;
pub mod service;
pub mod text;
pub mod window;
pub mod wl_screenrec;

pub use config::{CaptureBackend, Config};
pub use doctor::{DoctorCheck, DoctorCheckStatus, DoctorReport};

use vstd::prelude::*;

use crate::text::{concat2, concat3, concat4, trimmed};

verus! {

/// A recorder that was started.
#[derive(Debug, Clone)]
pub struct StartResult {
    pub pid: u32,
    pub backend: String,
    pub buffer_dir: String,
    pub log_file: String,
}

/// What `stop` found.
#[derive(Debug, Clone)]
pub struct StopResult {
    pub was_running: bool,
    pub pid: Option<u32>,
}

/// A saved replay clip.
#[derive(Debug, Clone)]
pub struct SaveResult {
    pub output_file: String,
    pub duration_seconds: u64,
    pub backend: String,
}

/// What `v8q status` reports.
#[derive(Debug)]
pub struct StatusInfo {
    pub is_running: bool,
    pub pid: Option<u32>,
    pub backend: String,
    pub config_path: String,
    pub buffer_dir: String,
    pub output_dir: String,
    pub latest_clip: Option<String>,
    pub detected_preset: Option<String>,
    pub capture_target: String,
    pub replay_duration: u64,
    pub segment_duration: u64,
    pub fps: u32,
    pub encoder: String,
    pub bitrate: String,
    pub audio_enabled: Option<bool>,
    pub segment_count: Option<usize>,
    pub history_file: Option<String>,
    pub last_log_lines: Vec<(String, Vec<String>)>,
    pub process_command: Option<String>,
    pub metadata: Option<crate::process::ProcessMeta>,
    pub warnings: Vec<String>,
    pub error: Option<String>,
    pub log_tail: Vec<String>,
    pub last_error_lines: Vec<String>,
    pub log_file: Option<String>,
    pub expected_history_file: Option<String>,
    pub history_exists: Option<bool>,
    pub history_size_bytes: Option<u64>,
    pub history_valid: Option<bool>,
}

/// What `clean` removed.
#[derive(Debug, Clone)]
pub struct CleanResult {
    pub buffer_dir: String,
    pub removed_files: usize,
}

/// The tails of the log files that exist.
#[derive(Debug, Clone)]
pub struct LogsResult {
    pub logs: Vec<(String, Vec<String>)>,
}

/// The saved clips, oldest first.
#[derive(Debug, Clone)]
pub struct ClipsResult {
    pub clips: Vec<String>,
}

/// The machine-readable record of a save.
#[derive(Debug, Clone)]
pub struct SaveJson {
    pub output_file: String,
    pub backend: String,
    pub duration_seconds: u64,
    pub size_bytes: u64,
    pub saved_at: String,
    pub warnings: Vec<String>,
}

/// The characters kept as they are in a clip name.
pub open spec fn name_char(c: char) -> bool {
    ('a' <= c && c <= 'z') || ('A' <= c && c <= 'Z') || ('0' <= c && c <= '9') || c == '-' || c
        == '_'
}

/// The first pass of sanitizing: kept characters stay, every run of other
/// characters becomes one `_`. Also says whether the last step was such a run.
pub open spec fn collapse(s: Seq<char>) -> (Seq<char>, bool)
    decreases s.len(),
{
    if s.len() == 0 {
        (Seq::empty(), false)
    } else {
        let (out, in_run) = collapse(s.drop_last());
        let c = s.last();
        if name_char(c) {
            (out.push(c), false)
        } else if in_run {
            (out, true)
        } else {
            (out.push('_'), true)
        }
    }
}

/// Leading `_` removed.
pub open spec fn strip_leading_underscores(s: Seq<char>) -> Seq<char>
    decreases s.len(),
{
    if s.len() > 0 && s[0] == '_' {
        strip_leading_underscores(s.drop_first())
    } else {
        s
    }
}

/// Trailing `_` removed.
pub open spec fn strip_trailing_underscores(s: Seq<char>) -> Seq<char>
    decreases s.len(),
{
    if s.len() > 0 && s.last() == '_' {
        strip_trailing_underscores(s.drop_last())
    } else {
        s
    }
}

/// At most the first 64 characters.
pub open spec fn at_most_64(s: Seq<char>) -> Seq<char> {
    if s.len() > 64 {
        s.take(64)
    } else {
        s
    }
}

/// The sanitized clip name.
pub open spec fn sanitized(name: Seq<char>) -> Seq<char> {
    at_most_64(
        strip_trailing_underscores(
            strip_leading_underscores(collapse(crate::text::trim(name)).0),
        ),
    )
}

fn is_name_char(c: char) -> (r: bool)
    ensures
        r == name_char(c),
{
    ('a' <= c && c <= 'z') || ('A' <= c && c <= 'Z') || ('0' <= c && c <= '9') || c == '-' || c
        == '_'
}

proof fn lemma_collapse_chars(s: Seq<char>)
    ensures
        forall|i: int| 0 <= i < collapse(s).0.len() ==> name_char(#[trigger] collapse(s).0[i]),
    decreases s.len(),
{
    if s.len() > 0 {
        lemma_collapse_chars(s.drop_last());
        let p = collapse(s.drop_last()).0;
        let r = collapse(s).0;
        assert forall|i: int| 0 <= i < r.len() implies name_char(#[trigger] r[i]) by {
            if i < p.len() {
                assert(r[i] == p[i]);
            }
        }
    }
}

proof fn lemma_strip_leading(s: Seq<char>)
    ensures
        strip_leading_underscores(s).len() > 0 ==> strip_leading_underscores(s)[0] != '_',
        forall|i: int|
            0 <= i < strip_leading_underscores(s).len() ==> exists|j: int|
                0 <= j < s.len() && s[j] == #[trigger] strip_leading_underscores(s)[i],
    decreases s.len(),
{
    if s.len() > 0 && s[0] == '_' {
        lemma_strip_leading(s.drop_first());
        let t = strip_leading_underscores(s);
        assert forall|i: int| 0 <= i < t.len() implies exists|j: int|
            0 <= j < s.len() && s[j] == #[trigger] t[i] by {
            let j = choose|j: int| 0 <= j < s.drop_first().len() && s.drop_first()[j] == t[i];
            assert(s[j + 1] == t[i]);
        }
    } else {
        let t = strip_leading_underscores(s);
        assert forall|i: int| 0 <= i < t.len() implies exists|j: int|
            0 <= j < s.len() && s[j] == #[trigger] t[i] by {
            assert(s[i] == t[i]);
        }
    }
}

proof fn lemma_strip_trailing(s: Seq<char>)
    ensures
        strip_trailing_underscores(s).len() <= s.len(),
        strip_trailing_underscores(s) == s.take(strip_trailing_underscores(s).len() as int),
        strip_trailing_underscores(s).len() > 0 ==> strip_trailing_underscores(s)[0] == s[0],
    decreases s.len(),
{
    if s.len() > 0 && s.last() == '_' {
        lemma_strip_trailing(s.drop_last());
        let t = strip_trailing_underscores(s);
        assert(t == s.drop_last().take(t.len() as int));
        assert(s.drop_last().take(t.len() as int) =~= s.take(t.len() as int));
    } else {
        assert(s.take(s.len() as int) =~= s);
    }
}

/// A sanitized clip name is safe in a file name: only ASCII letters, digits,
/// `-` and `_`, at most 64 characters, and never a leading `_`.
pub proof fn lemma_sanitized_is_safe(name: Seq<char>)
    ensures
        sanitized(name).len() <= 64,
        forall|i: int| 0 <= i < sanitized(name).len() ==> name_char(#[trigger] sanitized(name)[i]),
        sanitized(name).len() > 0 ==> sanitized(name)[0] != '_',
{
    let c = collapse(crate::text::trim(name)).0;
    lemma_collapse_chars(crate::text::trim(name));
    let l = strip_leading_underscores(c);
    lemma_strip_leading(c);
    let t = strip_trailing_underscores(l);
    lemma_strip_trailing(l);
    assert forall|i: int| 0 <= i < l.len() implies name_char(#[trigger] l[i]) by {
        let j = choose|j: int| 0 <= j < c.len() && c[j] == l[i];
        assert(name_char(c[j]));
    }
    assert forall|i: int| 0 <= i < t.len() implies name_char(#[trigger] t[i]) by {
        assert(t[i] == l.take(t.len() as int)[i]);
    }
    let r = at_most_64(t);
    assert forall|i: int| 0 <= i < r.len() implies name_char(#[trigger] r[i]) by {
        assert(r[i] == t[i]);
    }
    if r.len() > 0 {
        assert(r[0] == t[0]);
    }
}

/// A clip name reduced to ASCII letters, digits, `-` and `_`: every run of
/// other characters becomes one `_`, `_` are trimmed from both ends, and at
/// most 64 characters are kept.
pub fn sanitize_clip_name(name: &str) -> (r: String)
    ensures
        r@ == sanitized(name@),
{
    let t = trimmed(name);
    let v = crate::text::chars_of(t.as_str());
    let mut out: Vec<char> = Vec::new();
    let mut last_was_sep = false;
    let mut i: usize = 0;
    while i < v.len()
        invariant
            v@ == crate::text::trim(name@),
            i <= v.len(),
            (out@, last_was_sep) == collapse(v@.take(i as int)),
        decreases v.len() - i,
    {
        assert(v@.take(i + 1).drop_last() == v@.take(i as int));
        assert(v@.take(i + 1).last() == v@[i as int]);
        let ch = v[i];
        if is_name_char(ch) {
            out.push(ch);
            last_was_sep = false;
        } else if !last_was_sep {
            out.push('_');
            last_was_sep = true;
        }
        i = i + 1;
    }
    assert(v@.take(i as int) == v@);
    let mut lo: usize = 0;
    assert(out@.subrange(0, out@.len() as int) == out@);
    while lo < out.len() && out[lo] == '_'
        invariant
            lo <= out.len(),
            strip_leading_underscores(out@) == strip_leading_underscores(
                out@.subrange(lo as int, out@.len() as int),
            ),
        decreases out.len() - lo,
    {
        assert(out@.subrange(lo as int, out@.len() as int).drop_first() == out@.subrange(
            lo + 1,
            out@.len() as int,
        ));
        lo = lo + 1;
    }
    let ghost rest = out@.subrange(lo as int, out@.len() as int);
    assert(strip_leading_underscores(rest) == rest);
    let mut hi: usize = out.len();
    assert(rest.subrange(0, (hi - lo) as int) == rest);
    while hi > lo && out[hi - 1] == '_'
        invariant
            lo <= hi <= out.len(),
            rest == out@.subrange(lo as int, out@.len() as int),
            strip_trailing_underscores(rest) == strip_trailing_underscores(
                out@.subrange(lo as int, hi as int),
            ),
        decreases hi,
    {
        assert(out@.subrange(lo as int, hi as int).drop_last() == out@.subrange(lo as int, hi - 1));
        hi = hi - 1;
    }
    let ghost core = out@.subrange(lo as int, hi as int);
    assert(strip_trailing_underscores(core) == core);
    let end = if hi - lo > 64 {
        lo + 64
    } else {
        hi
    };
    assert(out@.subrange(lo as int, end as int) == at_most_64(core));
    crate::text::string_from_range(&out, lo, end)
}

/// The file name of a clip saved at `timestamp`: `v8q_<timestamp>.mkv`, or
/// `v8q_<timestamp>_<name>.mkv` when the sanitized name is not empty.
pub open spec fn clip_filename(name: Option<Seq<char>>, timestamp: Seq<char>) -> Seq<char> {
    match name {
        Some(n) => if sanitized(n).len() > 0 {
            "v8q_"@ + timestamp + "_"@ + sanitized(n) + ".mkv"@
        } else {
            "v8q_"@ + timestamp + ".mkv"@
        },
        None => "v8q_"@ + timestamp + ".mkv"@,
    }
}

/// The clip file name for a save at `timestamp`.
pub fn clip_filename_at(name: Option<&str>, timestamp: &str) -> (r: String)
    ensures
        r@ == clip_filename(crate::process::opt_seq(name), timestamp@),
{
    if let Some(n) = name {
        let s = sanitize_clip_name(n);
        if !s.as_str().is_empty() {
            let mut r = concat4("v8q_", timestamp, "_", s.as_str());
            r.append(".mkv");
            return r;
        }
    }
    concat3("v8q_", timestamp, ".mkv")
}

/// The clip file name for a save now (local time).
pub fn build_clip_filename(name: Option<&str>) -> (r: String)
    ensures
        exists|t: Seq<char>| r@ == #[trigger] clip_filename(crate::process::opt_seq(name), t),
{
    let ts = crate::paths::local_timestamp();
    clip_filename_at(name, ts.as_str())
}

/// The newest clip of a listing, which is ordered oldest first.
pub fn latest_clip(clips: ClipsResult) -> (r: Option<String>)
    ensures
        match r {
            Some(c) => clips.clips@.len() > 0 && c == clips.clips@.last(),
            None => clips.clips@.len() == 0,
        },
{
    let mut clips = clips.clips;
    clips.pop()
}

/// Why the recorder was not started.
#[derive(Debug, Clone)]
pub enum StartFailure {
    /// The capture backend is not known.
    Config(crate::config::ConfigError),
    /// A recorder already runs with this PID.
    AlreadyRunning(u32),
    /// wl-screenrec cannot be started.
    WlScreenrec(crate::wl_screenrec::StartError),
    /// The FFmpeg command could not be built.
    Record(crate::ffmpeg::RecordCommandError),
    /// The command line has no program.
    EmptyCommand,
}

/// The recorder launch that `v8q start` makes: the backend and the command
/// line, program first. `recorder_pid` is the recorder found running, if any;
/// `wl_installed` and `wl_help` say whether wl-screenrec is on `PATH` and
/// what its `--help` printed.
pub fn start_recorder(
    config: &Config,
    recorder_pid: Option<u32>,
    wl_installed: bool,
    wl_help: Option<String>,
    inputs: &crate::wl_screenrec::CommandInputs,
) -> (r: Result<(CaptureBackend, Vec<String>), StartFailure>)
    requires
        crate::config::backend_of(*config) == Some(CaptureBackend::X11) ==> crate::ffmpeg::wrap_fits(
            *config,
        ),
    ensures
        match crate::config::backend_result(*config) {
            Err(e) => r matches Err(StartFailure::Config(x)) && x == e,
            Ok(b) => match recorder_pid {
                Some(pid) => r matches Err(StartFailure::AlreadyRunning(p)) && p == pid,
                None => if b == CaptureBackend::WlScreenrec {
                    match crate::wl_screenrec::wl_start_spec(
                        *config,
                        wl_installed,
                        crate::paths::opt_view(wl_help),
                        *inputs,
                    ) {
                        Ok(v) => r matches Ok((x, a)) && x == b && crate::config::views(a@) == v,
                        Err(k) => r matches Err(StartFailure::WlScreenrec(e))
                            && crate::wl_screenrec::start_fault(e) == k
                            && crate::wl_screenrec::start_error_detail(
                            e,
                            crate::paths::opt_view(wl_help),
                            *inputs,
                        ),
                    }
                } else {
                    match crate::ffmpeg::record_command_spec(
                        *config,
                        crate::paths::opt_view(inputs.home),
                    ) {
                        Ok(v) => if v.len() == 0 {
                            r matches Err(StartFailure::EmptyCommand)
                        } else {
                            r matches Ok((x, a)) && x == b && crate::config::views(a@) == v
                        },
                        Err(e) => r matches Err(StartFailure::Record(x)) && x == e,
                    }
                },
            },
        },
{
    let backend = match config.effective_backend() {
        Ok(b) => b,
        Err(e) => {
            return Err(StartFailure::Config(e));
        },
    };
    if let Some(pid) = recorder_pid {
        return Err(StartFailure::AlreadyRunning(pid));
    }
    match backend {
        CaptureBackend::WlScreenrec => {
            match crate::wl_screenrec::command_for_config(config, wl_installed, wl_help, inputs) {
                Ok((args, _help)) => Ok((backend, args)),
                Err(e) => Err(StartFailure::WlScreenrec(e)),
            }
        },
        _ => {
            match crate::ffmpeg::build_record_command_in(config, &inputs.home) {
                Ok(args) => {
                    if args.len() == 0 {
                        Err(StartFailure::EmptyCommand)
                    } else {
                        Ok((backend, args))
                    }
                },
                Err(e) => Err(StartFailure::Record(e)),
            }
        },
    }
}

/// The status report of `v8q status`, from what was observed on the machine.
pub fn get_status(config: &Config, obs: crate::replay::StatusObservation) -> (r: Result<
    StatusInfo,
    crate::replay::StatusError,
>)
    ensures
        match crate::config::backend_result(*config) {
            Err(e) => r matches Err(crate::replay::StatusError::Config(x)) && x == e,
            Ok(b) => match obs.config_path {
                None => r matches Err(crate::replay::StatusError::NoConfigPath),
                Some(_) => r matches Ok(s) && crate::replay::status_matches(s, *config, obs, b),
            },
        },
{
    crate::replay::status_info(config, obs)
}

/// The doctor report of `v8q doctor`, from what was probed on the machine.
pub fn run_doctor(config: &Config, probe: &crate::doctor::SystemProbe) -> (r: Result<
    DoctorReport,
    crate::doctor::ReportError,
>)
    ensures
        r matches Ok(rep) ==> exists|d: Seq<char>| #[trigger] crate::doctor::report_matches(
            rep,
            *config,
            crate::paths::join(crate::paths::join(d, "v8q"@), "config.toml"@),
            *probe,
        ),
{
    crate::doctor::run_report(config, probe)
}

/// The files that `v8q clean` removes from the buffer directory.
pub fn clean_buffer(config: &Config, home: &Option<String>, files: &Vec<String>) -> (r:
    crate::replay::CleanPlan)
    ensures
        r.buffer_dir@ == crate::paths::expand_tilde_spec(
            config.paths.buffer_dir@,
            crate::paths::opt_view(*home),
        ),
        crate::config::views(r.remove@) == crate::replay::cleanable_of(crate::config::views(files@)),
{
    crate::replay::clean(config, home, files)
}

/// The log tails of `v8q logs`, given the log files that exist and their
/// contents.
pub fn get_logs(log_files: &Vec<(String, String)>) -> (r: LogsResult)
    ensures
        crate::replay::logs_match(r, log_files@),
{
    crate::replay::logs(log_files)
}

/// The configuration file: `v8q/config.toml` in the configuration directory.
pub fn config_path() -> (r: Option<String>)
    ensures
        r matches Some(p) ==> exists|d: Seq<char>| p@ == #[trigger] crate::paths::join(
            crate::paths::join(d, "v8q"@),
            "config.toml"@,
        ),
{
    Config::config_file_path()
}

/// Whether the configuration can be used.
pub fn validate_config(config: &Config) -> (r: Result<(), crate::config::ConfigError>)
    ensures
        exists|h: Option<Seq<char>>|
            crate::paths::usable_home(h) && match #[trigger] crate::config::config_problem(*config, h) {
                Some(e) => r matches Err(x) && x == e,
                None => r is Ok,
            },
{
    match crate::config::validate_config(config) {
        Ok(_) => Ok(()),
        Err(e) => Err(e),
    }
}

/// Whether the configuration can be used, with its warnings.
pub fn validate_config_detailed(config: &Config) -> (r: Result<Vec<String>, crate::config::ConfigError>)
    ensures
        exists|h: Option<Seq<char>>|
            crate::paths::usable_home(h) && match #[trigger] crate::config::config_problem(*config, h) {
                Some(e) => r matches Err(x) && x == e,
                None => r matches Ok(w) && crate::config::views(w@) == crate::config::config_warnings(
                    *config,
                ),
            },
{
    crate::config::validate_config(config)
}

/// The saved clips among the files of the output directory, oldest first.
pub fn list_clips(files: Vec<crate::replay::TimedPath>) -> (r: ClipsResult)
    ensures
        crate::config::views(r.clips@) == crate::replay::paths_of(
            crate::replay::sort_by_time(crate::replay::clips_of(files@)),
        ),
{
    crate::replay::order_clips(files)
}

/// How `v8q save` saves the replay of the configured duration; the clip goes
/// to the path of `output` in the output directory.
pub fn save_replay(
    config: &Config,
    segments: Vec<crate::replay::TimedPath>,
    output: crate::replay::OutputAttempt,
    timestamp: &str,
    home: &Option<String>,
) -> (r: Result<crate::replay::SavePlan, crate::replay::SaveError>)
    ensures
        crate::replay::save_plan_matches(
            r,
            *config,
            crate::replay::SaveOptions { name: None, duration_seconds: None },
            segments@,
            output,
            timestamp@,
            crate::paths::opt_view(*home),
        ),
{
    crate::replay::save(config, segments, output, timestamp, home)
}

/// How `v8q save` saves the replay with the given options; the clip goes to
/// the path of `output` in the output directory.
pub fn save_replay_with_options(
    config: &Config,
    options: &crate::replay::SaveOptions,
    segments: Vec<crate::replay::TimedPath>,
    output: crate::replay::OutputAttempt,
    timestamp: &str,
    home: &Option<String>,
) -> (r: Result<crate::replay::SavePlan, crate::replay::SaveError>)
    ensures
        crate::replay::save_plan_matches(
            r,
            *config,
            *options,
            segments@,
            output,
            timestamp@,
            crate::paths::opt_view(*home),
        ),
{
    crate::replay::save_with_options(config, options, segments, output, timestamp, home)
}

/// The text of a start failure.
pub open spec fn start_failure_text(e: StartFailure, c: Config) -> Seq<char> {
    match e {
        StartFailure::Config(ce) => crate::config::config_error_text(ce, c),
        StartFailure::AlreadyRunning(pid) => "recorder is already running with PID "@
            + crate::text::decimal(pid as nat),
        StartFailure::WlScreenrec(se) => crate::wl_screenrec::start_error_text(se, c),
        StartFailure::Record(re) => crate::ffmpeg::record_error_text(re, c),
        StartFailure::EmptyCommand => "record command is empty"@,
    }
}

impl StartFailure {
    /// The text of the failure.
    pub fn message(&self, config: &Config) -> (r: String)
        ensures
            r@ == start_failure_text(*self, *config),
    {
        match self {
            StartFailure::Config(ce) => ce.message(config),
            StartFailure::AlreadyRunning(pid) => {
                let p = crate::text::u64_to_string(*pid as u64);
                concat2("recorder is already running with PID ", p.as_str())
            },
            StartFailure::WlScreenrec(se) => se.message(config),
            StartFailure::Record(re) => re.message(config),
            StartFailure::EmptyCommand => crate::text::owned("record command is empty"),
        }
    }
}

/// What `v8q stop` reports, and whether wl-screenrec's history file is to be
/// removed because it is empty. `recorded` is the PID that the PID file held,
/// `action` what was done about it, `term_accepted` whether SIGTERM was
/// accepted, and `history_size` the size of the history file, if it exists.
pub fn stop_recorder(
    config: &Config,
    recorded: Option<u32>,
    action: crate::process::StopAction,
    term_accepted: bool,
    history_size: Option<u64>,
) -> (r: (StopResult, bool))
    ensures
        r.0.pid == recorded,
        r.0.was_running == (recorded is Some && action == crate::process::StopAction::Terminate
            && term_accepted),
        r.1 == (crate::config::backend_of(*config) == Some(CaptureBackend::WlScreenrec)
            && history_size == Some(0u64)),
{
    let result = crate::process::stop_result(recorded, action, term_accepted);
    let wl = match config.uses_wl_screenrec() {
        Ok(b) => b,
        Err(_) => false,
    };
    let empty = match history_size {
        Some(n) => n == 0,
        None => false,
    };
    (result, wl && empty)
}

/// The notification that a save sends, when notifications on save are on:
/// the command and its two arguments.
pub fn notify_replay_saved(config: &Config, output_file: &str) -> (r: Option<(String, Vec<String>)>)
    ensures
        match r {
            Some((c, a)) => config.notifications.enabled && config.notifications.on_save && c@
                == config.notifications.command@ && crate::config::views(a@) == seq![
                "V8Q replay saved"@,
                output_file@,
            ],
            None => !(config.notifications.enabled && config.notifications.on_save),
        },
{
    if !config.notifications.enabled || !config.notifications.on_save {
        return None;
    }
    let mut args: Vec<String> = Vec::new();
    args.push(crate::text::owned("V8Q replay saved"));
    args.push(crate::text::owned(output_file));
    assert(crate::config::views(args@) =~= seq!["V8Q replay saved"@, output_file@]);
    Some((config.notifications.command.clone(), args))
}

/// The command that opens the clips folder: `xdg-open` and the output
/// directory.
pub fn open_output_folder_command(config: &Config, home: &Option<String>) -> (r: (String, Vec<String>))
    ensures
        r.0@ == "xdg-open"@,
        crate::config::views(r.1@) == seq![
            crate::paths::expand_tilde_spec(config.paths.output_dir@, crate::paths::opt_view(*home)),
        ],
{
    let mut args: Vec<String> = Vec::new();
    args.push(config.paths.output_dir_path_in(home));
    assert(crate::config::views(args@) =~= seq![args@[0]@]);
    (crate::text::owned("xdg-open"), args)
}

/// Every clip that a save names is one that `v8q clips` lists: its file
/// name starts with `v8q_` and ends with `.mkv`.
pub proof fn lemma_saved_clip_is_listed(name: Option<Seq<char>>, timestamp: Seq<char>)
    ensures
        crate::replay::clip_name(clip_filename(name, timestamp)),
{
    reveal_strlit("v8q_");
    reveal_strlit(".mkv");
    let f = clip_filename(name, timestamp);
    assert(f.subrange(0, 4) =~= "v8q_"@);
    assert(f.subrange(f.len() - 4, f.len() as int) =~= ".mkv"@);
}

} // verus!
