//! What the desktop panel shows: the labels and buttons for a status
//! snapshot, the message line after each finished action, and the text of
//! the doctor and settings windows. The toolkit that draws them lives
//! outside this crate; it hands each finished action over as an event and
//! shows what comes back.
use vstd::prelude::*;

use crate::config::{backend_label, backend_result, config_error_text, views, Config};
use crate::paths::{expand_tilde_spec, opt_view};
use crate::text::{concat2, decimal, join_strings, joined, owned, u64_to_string};
use crate::doctor::{DoctorCheck, DoctorReport};
use crate::report::status_word;
use crate::text::{concat3, concat4};
use crate::{SaveResult, StartResult, StatusInfo, StopResult};

verus! {

/// A status snapshot: the recorder's status and the newest clip.
#[derive(Debug)]
pub struct Snapshot {
    pub status: StatusInfo,
    pub latest_clip: Option<String>,
}

/// The labels of the main window and which of its buttons can be pressed.
#[derive(Debug, Clone)]
pub struct PanelView {
    pub status: String,
    pub pid: String,
    pub backend: String,
    pub capture_target: String,
    pub replay: String,
    pub fps: String,
    pub encoder: String,
    pub bitrate: String,
    pub buffer: String,
    pub output: String,
    pub latest_clip: String,
    pub recent_errors: String,
    /// The warnings to put on the message line, if there are any.
    pub notice: Option<String>,
    pub start_enabled: bool,
    pub stop_enabled: bool,
    pub save_enabled: bool,
}

/// The message line, the error text that "Copy Error Details" copies, and
/// whether that button can be pressed.
#[derive(Debug, Clone)]
pub struct MessageLine {
    pub text: String,
    pub last_error: String,
    pub copy_enabled: bool,
}

/// "Recording" or "Stopped".
pub open spec fn running_label(running: bool) -> Seq<char> {
    if running {
        "Recording"@
    } else {
        "Stopped"@
    }
}

/// The text, or `-` when there is none.
pub open spec fn or_dash(o: Option<Seq<char>>) -> Seq<char> {
    match o {
        Some(s) => s,
        None => "-"@,
    }
}

/// The PID, or `-`.
pub open spec fn pid_label(pid: Option<u32>) -> Seq<char> {
    match pid {
        Some(p) => decimal(p as nat),
        None => "-"@,
    }
}

/// The recent error lines, one per line, or `-` when there are none.
pub open spec fn errors_label(lines: Seq<Seq<char>>) -> Seq<char> {
    if lines.len() == 0 {
        "-"@
    } else {
        joined(lines, "\n"@)
    }
}

/// The note for a recorder that has not written its replay file yet.
pub open spec fn no_replay_yet() -> Seq<char> {
    "Recorder process is running, but no replay file has been produced yet."@
}

/// The status warnings, then the note for a running recorder whose replay
/// file is known to be missing.
pub open spec fn snapshot_notes(s: StatusInfo) -> Seq<Seq<char>> {
    views(s.warnings@) + if s.is_running && s.history_exists == Some(false) {
        seq![no_replay_yet()]
    } else {
        Seq::<Seq<char>>::empty()
    }
}

/// The notes on one line each, if there are any.
pub open spec fn notice_of(notes: Seq<Seq<char>>) -> Option<Seq<char>> {
    if notes.len() == 0 {
        None
    } else {
        Some(joined(notes, "\n"@))
    }
}

/// The view of an optional string.
pub open spec fn opt_text(o: Option<String>) -> Option<Seq<char>> {
    match o {
        Some(s) => Some(s@),
        None => None,
    }
}

/// `v` shows the status `s` and the newest clip `latest`: start can be
/// pressed only while the recorder is stopped, stop and save only while it
/// runs.
pub open spec fn view_shows(v: PanelView, s: StatusInfo, latest: Option<String>) -> bool {
    &&& v.status@ == running_label(s.is_running)
    &&& v.pid@ == pid_label(s.pid)
    &&& v.backend@ == s.backend@
    &&& v.capture_target@ == s.capture_target@
    &&& v.replay@ == decimal(s.replay_duration as nat) + "s"@
    &&& v.fps@ == decimal(s.fps as nat)
    &&& v.encoder@ == s.encoder@
    &&& v.bitrate@ == s.bitrate@
    &&& v.buffer@ == s.buffer_dir@
    &&& v.output@ == s.output_dir@
    &&& v.latest_clip@ == or_dash(opt_text(latest))
    &&& v.recent_errors@ == errors_label(views(s.last_error_lines@))
    &&& opt_text(v.notice) == notice_of(snapshot_notes(s))
    &&& v.start_enabled == !s.is_running
    &&& v.stop_enabled == s.is_running
    &&& v.save_enabled == s.is_running
}

fn dash_or(o: &Option<String>) -> (r: String)
    ensures
        r@ == or_dash(opt_text(*o)),
{
    match o {
        Some(s) => s.clone(),
        None => owned("-"),
    }
}

/// The labels and buttons for a status snapshot.
pub fn snapshot_view(status: &StatusInfo, latest_clip: &Option<String>) -> (r: PanelView)
    ensures
        view_shows(r, *status, *latest_clip),
{
    let pid = match status.pid {
        Some(p) => u64_to_string(p as u64),
        None => owned("-"),
    };
    let replay_n = u64_to_string(status.replay_duration);
    let recent_errors = if status.last_error_lines.len() == 0 {
        owned("-")
    } else {
        join_strings(&status.last_error_lines, "\n")
    };
    let mut notes: Vec<String> = crate::config::copy_strings(&status.warnings);
    if status.is_running && status.history_exists == Some(false) {
        notes.push(
            owned("Recorder process is running, but no replay file has been produced yet."),
        );
    }
    assert(views(notes@) =~= snapshot_notes(*status));
    let notice = if notes.len() == 0 {
        None
    } else {
        Some(join_strings(&notes, "\n"))
    };
    PanelView {
        status: owned(if status.is_running { "Recording" } else { "Stopped" }),
        pid,
        backend: status.backend.clone(),
        capture_target: status.capture_target.clone(),
        replay: concat2(replay_n.as_str(), "s"),
        fps: u64_to_string(status.fps as u64),
        encoder: status.encoder.clone(),
        bitrate: status.bitrate.clone(),
        buffer: status.buffer_dir.clone(),
        output: status.output_dir.clone(),
        latest_clip: dash_or(latest_clip),
        recent_errors,
        notice,
        start_enabled: !status.is_running,
        stop_enabled: status.is_running,
        save_enabled: status.is_running,
    }
}

/// `l` shows the message `m`, with no error to copy.
pub open spec fn shows_info(l: MessageLine, m: Seq<char>) -> bool {
    l.text@ == m && l.last_error@.len() == 0 && !l.copy_enabled
}

/// `l` shows the error `e`, which "Copy Error Details" then copies.
pub open spec fn shows_error(l: MessageLine, e: Seq<char>) -> bool {
    l.text@ == "Error: "@ + e && l.last_error@ == e && l.copy_enabled
}

/// A message on the message line; an earlier error is forgotten.
pub fn info_message(message: &str) -> (r: MessageLine)
    ensures
        shows_info(r, message@),
{
    MessageLine { text: owned(message), last_error: String::new(), copy_enabled: false }
}

/// An error on the message line, kept for copying.
pub fn error_message(message: &str) -> (r: MessageLine)
    ensures
        shows_error(r, message@),
{
    MessageLine { text: concat2("Error: ", message), last_error: owned(message), copy_enabled: true }
}

/// A finished action, as the panel learns of it.
#[derive(Debug)]
pub enum PanelEvent {
    Snapshot(Result<Snapshot, String>),
    Started(Result<(StartResult, Snapshot), String>),
    Saved(Result<(SaveResult, Snapshot), String>),
    Stopped(Result<(StopResult, Snapshot), String>),
    Doctor(Result<DoctorReport, String>),
    OpenedFolder(Result<(), String>),
    OpenedConfig(Result<(), String>),
}

/// What the panel changes for an event: the labels, the message line and
/// a doctor window to open; `None` leaves a part as it is.
#[derive(Debug)]
pub struct PanelUpdate {
    pub view: Option<PanelView>,
    pub message: Option<MessageLine>,
    pub doctor_window: Option<Vec<String>>,
}

/// The message after a start.
pub open spec fn started_text(s: StartResult) -> Seq<char> {
    "Started recorder PID "@ + decimal(s.pid as nat) + " using "@ + s.backend@ + ". Log: "@
        + s.log_file@
}

/// The message after a save.
pub open spec fn saved_text(s: SaveResult) -> Seq<char> {
    "Saved replay: "@ + s.output_file@
}

/// The message after a stop; a stop without a PID reports PID 0.
pub open spec fn stopped_text(s: StopResult) -> Seq<char> {
    if s.was_running {
        "Stopped recorder PID "@ + decimal(
            match s.pid {
                Some(p) => p as nat,
                None => 0nat,
            },
        ) + "."@
    } else {
        "Recorder was already stopped."@
    }
}

/// The snapshot that an event brings, if any.
pub open spec fn event_snapshot(e: PanelEvent) -> Option<Snapshot> {
    match e {
        PanelEvent::Snapshot(Ok(s)) => Some(s),
        PanelEvent::Started(Ok((_, s))) => Some(s),
        PanelEvent::Saved(Ok((_, s))) => Some(s),
        PanelEvent::Stopped(Ok((_, s))) => Some(s),
        _ => None,
    }
}

/// The message an event puts on the message line: `Ok` for a message,
/// `Err` for an error; a finished doctor run puts none.
pub open spec fn event_message(e: PanelEvent) -> Option<Result<Seq<char>, Seq<char>>> {
    match e {
        PanelEvent::Snapshot(Ok(_)) => Some(Ok("Status refreshed."@)),
        PanelEvent::Started(Ok((s, _))) => Some(Ok(started_text(s))),
        PanelEvent::Saved(Ok((s, _))) => Some(Ok(saved_text(s))),
        PanelEvent::Stopped(Ok((s, _))) => Some(Ok(stopped_text(s))),
        PanelEvent::Doctor(Ok(_)) => None,
        PanelEvent::OpenedFolder(Ok(_)) => Some(Ok("Opened clips folder."@)),
        PanelEvent::OpenedConfig(Ok(_)) => Some(Ok("Opened config file."@)),
        PanelEvent::Snapshot(Err(m)) => Some(Err(m@)),
        PanelEvent::Started(Err(m)) => Some(Err(m@)),
        PanelEvent::Saved(Err(m)) => Some(Err(m@)),
        PanelEvent::Stopped(Err(m)) => Some(Err(m@)),
        PanelEvent::Doctor(Err(m)) => Some(Err(m@)),
        PanelEvent::OpenedFolder(Err(m)) => Some(Err(m@)),
        PanelEvent::OpenedConfig(Err(m)) => Some(Err(m@)),
    }
}

/// The report of a finished doctor run, if the event is one.
pub open spec fn event_report(e: PanelEvent) -> Option<DoctorReport> {
    match e {
        PanelEvent::Doctor(Ok(r)) => Some(r),
        _ => None,
    }
}

/// The label of one check in the doctor window: status and name, the
/// message, then the hint if there is one.
pub open spec fn check_label(c: DoctorCheck) -> Seq<char> {
    "["@ + status_word(c.status) + "] "@ + c.name@ + "\n"@ + c.message@ + match c.hint {
        Some(h) => "\n"@ + h@,
        None => Seq::<char>::empty(),
    }
}

/// The labels of the doctor window: the counts, then each check.
pub open spec fn doctor_window_text(r: DoctorReport) -> Seq<Seq<char>> {
    seq![
        "Summary: "@ + decimal(r.ok_count as nat) + " OK, "@ + decimal(r.warn_count as nat)
            + " WARN, "@ + decimal(r.fail_count as nat) + " FAIL"@,
    ] + r.checks@.map_values(|c: DoctorCheck| check_label(c))
}

fn status_text_of(s: crate::doctor::DoctorCheckStatus) -> (r: &'static str)
    ensures
        r@ == status_word(s),
{
    match s {
        crate::doctor::DoctorCheckStatus::Pass => "OK",
        crate::doctor::DoctorCheckStatus::Warn => "WARN",
        crate::doctor::DoctorCheckStatus::Fail => "FAIL",
    }
}

/// The labels of the doctor window for a report.
pub fn doctor_window_lines(report: &DoctorReport) -> (r: Vec<String>)
    ensures
        views(r@) == doctor_window_text(*report),
{
    let ok = u64_to_string(report.ok_count as u64);
    let warn = u64_to_string(report.warn_count as u64);
    let fail = u64_to_string(report.fail_count as u64);
    let mut head = concat4("Summary: ", ok.as_str(), " OK, ", warn.as_str());
    head.append(" WARN, ");
    head.append(fail.as_str());
    head.append(" FAIL");
    let mut out: Vec<String> = Vec::new();
    out.push(head);
    let ghost all = report.checks@.map_values(|c: DoctorCheck| check_label(c));
    let mut i: usize = 0;
    while i < report.checks.len()
        invariant
            i <= report.checks.len(),
            all == report.checks@.map_values(|c: DoctorCheck| check_label(c)),
            views(out@) == doctor_window_text(*report).take(i + 1),
        decreases report.checks.len() - i,
    {
        let c = &report.checks[i];
        let mut label = concat4("[", status_text_of(c.status), "] ", c.name.as_str());
        label.append("\n");
        label.append(c.message.as_str());
        if let Some(h) = &c.hint {
            label.append("\n");
            label.append(h.as_str());
        }
        assert(label@ =~= check_label(report.checks@[i as int]));
        let ghost prev = views(out@);
        out.push(label);
        assert(views(out@) =~= prev.push(check_label(report.checks@[i as int])));
        assert(doctor_window_text(*report).take(i + 2) =~= doctor_window_text(*report).take(i + 1).push(all[i as int]));
        i = i + 1;
    }
    assert(doctor_window_text(*report).take(i + 1) =~= doctor_window_text(*report));
    out
}

fn stopped_message(s: &StopResult) -> (r: String)
    ensures
        r@ == stopped_text(*s),
{
    if s.was_running {
        let n = match s.pid {
            Some(p) => p as u64,
            None => 0u64,
        };
        let d = u64_to_string(n);
        concat3("Stopped recorder PID ", d.as_str(), ".")
    } else {
        owned("Recorder was already stopped.")
    }
}

/// What the panel changes when an action finishes: a snapshot refreshes the
/// labels, each action puts its message or its error on the message line,
/// and a doctor run opens the doctor window.
pub fn handle_event(event: &PanelEvent) -> (r: PanelUpdate)
    ensures
        match event_snapshot(*event) {
            Some(s) => r.view matches Some(v) && view_shows(v, s.status, s.latest_clip),
            None => r.view is None,
        },
        match event_message(*event) {
            Some(Ok(m)) => r.message matches Some(l) && shows_info(l, m),
            Some(Err(m)) => r.message matches Some(l) && shows_error(l, m),
            None => r.message is None,
        },
        match event_report(*event) {
            Some(rep) => r.doctor_window matches Some(w) && views(w@) == doctor_window_text(rep),
            None => r.doctor_window is None,
        },
{
    match event {
        PanelEvent::Snapshot(Ok(s)) => PanelUpdate {
            view: Some(snapshot_view(&s.status, &s.latest_clip)),
            message: Some(info_message("Status refreshed.")),
            doctor_window: None,
        },
        PanelEvent::Started(Ok((start, s))) => {
            let pid = u64_to_string(start.pid as u64);
            let mut m = concat4("Started recorder PID ", pid.as_str(), " using ", start.backend.as_str());
            m.append(". Log: ");
            m.append(start.log_file.as_str());
            PanelUpdate {
                view: Some(snapshot_view(&s.status, &s.latest_clip)),
                message: Some(info_message(m.as_str())),
                doctor_window: None,
            }
        },
        PanelEvent::Saved(Ok((save, s))) => PanelUpdate {
            view: Some(snapshot_view(&s.status, &s.latest_clip)),
            message: Some(info_message(concat2("Saved replay: ", save.output_file.as_str()).as_str())),
            doctor_window: None,
        },
        PanelEvent::Stopped(Ok((stop, s))) => PanelUpdate {
            view: Some(snapshot_view(&s.status, &s.latest_clip)),
            message: Some(info_message(stopped_message(stop).as_str())),
            doctor_window: None,
        },
        PanelEvent::Doctor(Ok(report)) => PanelUpdate {
            view: None,
            message: None,
            doctor_window: Some(doctor_window_lines(report)),
        },
        PanelEvent::OpenedFolder(Ok(())) => PanelUpdate {
            view: None,
            message: Some(info_message("Opened clips folder.")),
            doctor_window: None,
        },
        PanelEvent::OpenedConfig(Ok(())) => PanelUpdate {
            view: None,
            message: Some(info_message("Opened config file.")),
            doctor_window: None,
        },
        PanelEvent::Snapshot(Err(e)) | PanelEvent::Started(Err(e)) | PanelEvent::Saved(Err(e))
        | PanelEvent::Stopped(Err(e)) | PanelEvent::Doctor(Err(e)) | PanelEvent::OpenedFolder(
            Err(e),
        ) | PanelEvent::OpenedConfig(Err(e)) => PanelUpdate {
            view: None,
            message: Some(error_message(e.as_str())),
            doctor_window: None,
        },
    }
}

/// The backend line of the settings window: the backend in force, or why
/// there is none.
pub open spec fn backend_setting(c: Config) -> Seq<char> {
    match backend_result(c) {
        Ok(b) => backend_label(b),
        Err(e) => "invalid ("@ + config_error_text(e, c) + ")"@,
    }
}

/// The lines of the settings window. Encoder and bitrate come from the last
/// status where there is one, else from `[recording]`; the directories are
/// expanded against `home`.
pub open spec fn settings_lines(
    c: Config,
    config_path: Option<Seq<char>>,
    status: Option<StatusInfo>,
    home: Option<Seq<char>>,
) -> Seq<Seq<char>> {
    seq![
        "Config: "@ + or_dash(config_path),
        "Backend: "@ + backend_setting(c),
        "Replay duration: "@ + decimal(c.recording.duration_seconds as nat) + "s"@,
        "Segment duration: "@ + decimal(c.recording.segment_seconds as nat) + "s"@,
        "FPS: "@ + decimal(c.recording.fps as nat),
        "Encoder: "@ + match status {
            Some(s) => s.encoder@,
            None => c.recording.encoder@,
        },
        "Bitrate: "@ + match status {
            Some(s) => s.bitrate@,
            None => c.recording.video_bitrate@,
        },
        "Audio: "@ + if c.wl_screenrec.audio {
            "on"@
        } else {
            "off"@
        },
        "Output: "@ + expand_tilde_spec(c.paths.output_dir@, home),
        "Buffer: "@ + expand_tilde_spec(c.paths.buffer_dir@, home),
    ]
}

/// The text of the settings window: its lines, one per line.
pub open spec fn settings_shown(
    c: Config,
    config_path: Option<Seq<char>>,
    status: Option<StatusInfo>,
    home: Option<Seq<char>>,
) -> Seq<char> {
    joined(settings_lines(c, config_path, status, home), "\n"@)
}

/// The text of the settings window for a configuration file at
/// `config_path` and the home directory `home`.
pub fn settings_text_in(
    config: &Config,
    config_path: &Option<String>,
    status: &Option<StatusInfo>,
    home: &Option<String>,
) -> (r: String)
    ensures
        r@ == settings_shown(*config, opt_text(*config_path), *status, opt_view(*home)),
{
    let mut lines: Vec<String> = Vec::new();
    let path = dash_or(config_path);
    lines.push(concat2("Config: ", path.as_str()));
    let backend = match config.effective_backend() {
        Ok(b) => concat2("Backend: ", b.as_str()),
        Err(e) => {
            let m = e.message(config);
            concat4("Backend: ", "invalid (", m.as_str(), ")")
        },
    };
    lines.push(backend);
    let d = u64_to_string(config.recording.duration_seconds);
    lines.push(concat3("Replay duration: ", d.as_str(), "s"));
    let g = u64_to_string(config.recording.segment_seconds);
    lines.push(concat3("Segment duration: ", g.as_str(), "s"));
    let f = u64_to_string(config.recording.fps as u64);
    lines.push(concat2("FPS: ", f.as_str()));
    let (encoder, bitrate) = match status {
        Some(s) => (s.encoder.as_str(), s.bitrate.as_str()),
        None => (config.recording.encoder.as_str(), config.recording.video_bitrate.as_str()),
    };
    lines.push(concat2("Encoder: ", encoder));
    lines.push(concat2("Bitrate: ", bitrate));
    lines.push(concat2("Audio: ", if config.wl_screenrec.audio { "on" } else { "off" }));
    let out = config.paths.output_dir_path_in(home);
    lines.push(concat2("Output: ", out.as_str()));
    let buf = config.paths.buffer_dir_path_in(home);
    lines.push(concat2("Buffer: ", buf.as_str()));
    let ghost want = settings_lines(*config, opt_text(*config_path), *status, opt_view(*home));
    assert(views(lines@)[1] == want[1]);
    assert(views(lines@) =~= settings_lines(*config, opt_text(*config_path), *status, opt_view(*home)));
    join_strings(&lines, "\n")
}

/// The text of the settings window for the configuration file and home
/// directory of this user; both are looked up here, so the contract names
/// no particular ones.
pub fn settings_text(config: &Config, status: &Option<StatusInfo>) -> (r: String)
    ensures
        exists|p: Option<Seq<char>>, h: Option<Seq<char>>|
            crate::paths::usable_home(h) && r@ == #[trigger] settings_shown(*config, p, *status, h),
{
    let path = crate::config_path();
    let home = crate::paths::home_dir();
    settings_text_in(config, &path, status, &home)
}

} // verus!
