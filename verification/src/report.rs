//! The text that the command line prints: status, doctor reports, logs and
//! the results of start and stop, each as the lines it prints.
use vstd::prelude::*;

use crate::config::views;
use crate::doctor::{DoctorCheck, DoctorCheckStatus, DoctorReport};
use crate::replay::{all_lines, bool_text, lines_of};
use crate::text::{concat2, concat3, contains, contains_str, decimal, owned, u64_to_string};

verus! {

/// The word a check status is printed as.
pub open spec fn status_word(s: DoctorCheckStatus) -> Seq<char> {
    match s {
        DoctorCheckStatus::Pass => "OK"@,
        DoctorCheckStatus::Warn => "WARN"@,
        DoctorCheckStatus::Fail => "FAIL"@,
    }
}

fn status_str(s: DoctorCheckStatus) -> (r: &'static str)
    ensures
        r@ == status_word(s),
{
    match s {
        DoctorCheckStatus::Pass => "OK",
        DoctorCheckStatus::Warn => "WARN",
        DoctorCheckStatus::Fail => "FAIL",
    }
}

/// Appends `b` to `a`.
fn append_lines(a: &mut Vec<String>, b: Vec<String>)
    ensures
        views(final(a)@) == views(old(a)@) + views(b@),
{
    let ghost a0 = views(a@);
    let mut b = b;
    let ghost b0 = views(b@);
    a.append(&mut b);
    assert(views(a@) =~= a0 + b0);
}

/// The lines of one check in the verbose report: its status and message,
/// then each line of its hint, indented.
pub open spec fn check_lines(c: DoctorCheck) -> Seq<Seq<char>> {
    seq!["["@ + status_word(c.status) + "] "@ + c.message@] + match c.hint {
        Some(h) => lines_of(h@).map_values(|l: Seq<char>| "       "@ + l),
        None => Seq::empty(),
    }
}

/// The lines of all checks.
pub open spec fn checks_lines(checks: Seq<DoctorCheck>) -> Seq<Seq<char>>
    decreases checks.len(),
{
    if checks.len() == 0 {
        Seq::empty()
    } else {
        checks_lines(checks.drop_last()) + check_lines(checks.last())
    }
}

/// The verbose doctor report.
pub open spec fn doctor_text(r: DoctorReport) -> Seq<Seq<char>> {
    seq!["V8Q Doctor\n"@] + checks_lines(r.checks@) + seq![
        "\nSummary:"@,
        "- "@ + decimal(r.ok_count as nat) + " OK"@,
        "- "@ + decimal(r.warn_count as nat) + " WARN"@,
        "- "@ + decimal(r.fail_count as nat) + " FAIL"@,
    ]
}

fn prefixed(prefix: &str, lines: &Vec<String>) -> (r: Vec<String>)
    ensures
        views(r@) == views(lines@).map_values(|l: Seq<char>| prefix@ + l),
{
    let mut out: Vec<String> = Vec::new();
    let mut i: usize = 0;
    while i < lines.len()
        invariant
            i <= lines.len(),
            out@.len() == i,
            forall|k: int| 0 <= k < i ==> #[trigger] out@[k]@ == prefix@ + lines@[k]@,
        decreases lines.len() - i,
    {
        out.push(concat2(prefix, lines[i].as_str()));
        i = i + 1;
    }
    assert(views(out@) =~= views(lines@).map_values(|l: Seq<char>| prefix@ + l));
    out
}

fn one_check_lines(c: &DoctorCheck) -> (r: Vec<String>)
    ensures
        views(r@) == check_lines(*c),
{
    let st = status_str(c.status);
    let mut head = concat3("[", st, "] ");
    head.append(c.message.as_str());
    let mut out: Vec<String> = Vec::new();
    out.push(head);
    let ghost h = views(out@);
    match &c.hint {
        Some(hint) => {
            let ls = all_lines(hint.as_str());
            let p = prefixed("       ", &ls);
            append_lines(&mut out, p);
        },
        None => {},
    }
    assert(views(out@) =~= check_lines(*c));
    out
}

/// The lines that `v8q doctor --verbose` prints.
pub fn doctor_lines(report: &DoctorReport) -> (r: Vec<String>)
    ensures
        views(r@) == doctor_text(*report),
{
    let mut out: Vec<String> = Vec::new();
    out.push(owned("V8Q Doctor\n"));
    let ghost all = report.checks@;
    let mut i: usize = 0;
    while i < report.checks.len()
        invariant
            all == report.checks@,
            i <= all.len(),
            views(out@) == seq!["V8Q Doctor\n"@] + checks_lines(all.take(i as int)),
        decreases all.len() - i,
    {
        assert(all.take(i + 1).drop_last() =~= all.take(i as int));
        assert(all.take(i + 1).last() == all[i as int]);
        let more = one_check_lines(&report.checks[i]);
        append_lines(&mut out, more);
        i = i + 1;
    }
    assert(all.take(i as int) =~= all);
    out.push(owned("\nSummary:"));
    let n = u64_to_string(report.ok_count as u64);
    out.push(concat3("- ", n.as_str(), " OK"));
    let n = u64_to_string(report.warn_count as u64);
    out.push(concat3("- ", n.as_str(), " WARN"));
    let n = u64_to_string(report.fail_count as u64);
    out.push(concat3("- ", n.as_str(), " FAIL"));
    assert(views(out@) =~= doctor_text(*report));
    out
}

// ----- the beginner summary -----

/// How bad a status is.
pub open spec fn severity(s: DoctorCheckStatus) -> int {
    match s {
        DoctorCheckStatus::Pass => 0,
        DoctorCheckStatus::Warn => 1,
        DoctorCheckStatus::Fail => 2,
    }
}

/// A check belongs to a group when its name contains one of the group's
/// names.
pub open spec fn in_group(name: Seq<char>, names: Seq<Seq<char>>) -> bool {
    exists|i: int| 0 <= i < names.len() && contains(name, #[trigger] names[i])
}

/// The worst status among the checks of a group; `OK` when it has none.
pub open spec fn group_status(checks: Seq<DoctorCheck>, names: Seq<Seq<char>>) -> DoctorCheckStatus
    decreases checks.len(),
{
    if checks.len() == 0 {
        DoctorCheckStatus::Pass
    } else {
        let prev = group_status(checks.drop_last(), names);
        let c = checks.last();
        if in_group(c.name@, names) && severity(c.status) >= severity(prev) {
            c.status
        } else {
            prev
        }
    }
}

/// The groups of the summary: a label and the check names it covers.
pub open spec fn summary_groups() -> Seq<(Seq<char>, Seq<Seq<char>>)> {
    seq![
        ("System"@, seq!["session"@, "shell"@, "v8q-path"@, "current-exe"@, "cargo-bin"@]),
        ("Backend"@, seq!["backend"@, "wl-screenrec"@, "wl-screenrec-flags"@, "wl-screenrec-output"@]),
        ("Audio"@, seq!["audio"@, "audio-device"@, "pactl"@]),
        ("Paths"@, seq!["buffer directory"@, "buffer-directory"@, "output directory"@, "PID file parent"@]),
        ("Window capture"@, seq!["hyprctl"@, "window-capture"@]),
    ]
}

/// The first line of a text, or the text when it has none.
pub open spec fn first_line(t: Seq<char>) -> Seq<char> {
    if lines_of(t).len() > 0 {
        lines_of(t)[0]
    } else {
        t
    }
}

/// The beginner summary of a doctor report: the worst status of each group,
/// the summary line, the first line of at most six recommended actions, and
/// where the details are.
pub open spec fn summary_text(r: DoctorReport) -> Seq<Seq<char>> {
    let groups = summary_groups();
    let actions = r.recommended_actions@;
    let shown = if actions.len() > 6 {
        actions.take(6)
    } else {
        actions
    };
    seq!["V8Q Doctor\n"@] + groups.map_values(
        |g: (Seq<char>, Seq<Seq<char>>)| g.0 + ": "@ + status_word(group_status(r.checks@, g.1)),
    ) + seq!["\nSummary: "@ + r.summary@] + (if actions.len() > 0 {
        seq!["\nRecommended actions:"@] + shown.map_values(|a: String| "- "@ + first_line(a@))
    } else {
        Seq::empty()
    }) + seq!["\nRun `v8q doctor --verbose` for details."@]
}

fn in_group_exec(name: &str, names: &Vec<&'static str>) -> (r: bool)
    ensures
        r == in_group(name@, names@.map_values(|s: &'static str| s@)),
{
    let ghost nv = names@.map_values(|s: &'static str| s@);
    let mut i: usize = 0;
    while i < names.len()
        invariant
            nv == names@.map_values(|s: &'static str| s@),
            i <= names.len(),
            forall|j: int| 0 <= j < i ==> !contains(name@, #[trigger] nv[j]),
        decreases names.len() - i,
    {
        if contains_str(name, names[i]) {
            assert(contains(name@, nv[i as int]));
            return true;
        }
        i = i + 1;
    }
    false
}

fn group_status_exec(checks: &Vec<DoctorCheck>, names: &Vec<&'static str>) -> (r: DoctorCheckStatus)
    ensures
        r == group_status(checks@, names@.map_values(|s: &'static str| s@)),
{
    let ghost nv = names@.map_values(|s: &'static str| s@);
    let mut st = DoctorCheckStatus::Pass;
    let mut i: usize = 0;
    while i < checks.len()
        invariant
            nv == names@.map_values(|s: &'static str| s@),
            i <= checks.len(),
            st == group_status(checks@.take(i as int), nv),
        decreases checks.len() - i,
    {
        assert(checks@.take(i + 1).drop_last() =~= checks@.take(i as int));
        assert(checks@.take(i + 1).last() == checks@[i as int]);
        let c = &checks[i];
        if in_group_exec(c.name.as_str(), names) && rank(c.status) >= rank(st) {
            st = c.status;
        }
        i = i + 1;
    }
    assert(checks@.take(i as int) =~= checks@);
    st
}

fn rank(s: DoctorCheckStatus) -> (r: u8)
    ensures
        r == severity(s),
{
    match s {
        DoctorCheckStatus::Pass => 0,
        DoctorCheckStatus::Warn => 1,
        DoctorCheckStatus::Fail => 2,
    }
}

fn first_line_of(t: &str) -> (r: String)
    ensures
        r@ == first_line(t@),
{
    let ls = all_lines(t);
    if ls.len() > 0 {
        ls[0].clone()
    } else {
        owned(t)
    }
}

fn group_line(report: &DoctorReport, label: &str, names: Vec<&'static str>) -> (r: String)
    ensures
        r@ == label@ + ": "@ + status_word(group_status(report.checks@, names@.map_values(|s: &'static str| s@))),
{
    let st = group_status_exec(&report.checks, &names);
    concat3(label, ": ", status_str(st))
}

/// The lines that `v8q doctor` prints by default.
pub fn doctor_summary_lines(report: &DoctorReport) -> (r: Vec<String>)
    ensures
        views(r@) == summary_text(*report),
{
    let ghost groups = summary_groups();
    let mut out: Vec<String> = Vec::new();
    out.push(owned("V8Q Doctor\n"));
    let g0 = vec!["session", "shell", "v8q-path", "current-exe", "cargo-bin"];
    let g1 = vec!["backend", "wl-screenrec", "wl-screenrec-flags", "wl-screenrec-output"];
    let g2 = vec!["audio", "audio-device", "pactl"];
    let g3 = vec!["buffer directory", "buffer-directory", "output directory", "PID file parent"];
    let g4 = vec!["hyprctl", "window-capture"];
    proof {
        assert(g0@.map_values(|s: &'static str| s@) =~= groups[0].1);
        assert(g1@.map_values(|s: &'static str| s@) =~= groups[1].1);
        assert(g2@.map_values(|s: &'static str| s@) =~= groups[2].1);
        assert(g3@.map_values(|s: &'static str| s@) =~= groups[3].1);
        assert(g4@.map_values(|s: &'static str| s@) =~= groups[4].1);
    }
    out.push(group_line(report, "System", g0));
    out.push(group_line(report, "Backend", g1));
    out.push(group_line(report, "Audio", g2));
    out.push(group_line(report, "Paths", g3));
    out.push(group_line(report, "Window capture", g4));
    let ghost head = views(out@);
    assert(head =~= seq!["V8Q Doctor\n"@] + groups.map_values(
        |g: (Seq<char>, Seq<Seq<char>>)| g.0 + ": "@ + status_word(group_status(report.checks@, g.1)),
    ));
    out.push(concat2("\nSummary: ", report.summary.as_str()));
    let ghost mid = views(out@);
    let actions = &report.recommended_actions;
    if actions.len() > 0 {
        out.push(owned("\nRecommended actions:"));
        let limit = if actions.len() > 6 {
            6
        } else {
            actions.len()
        };
        let ghost shown = if actions@.len() > 6 {
            actions@.take(6)
        } else {
            actions@
        };
        let ghost before = views(out@);
        let mut i: usize = 0;
        while i < limit
            invariant
                limit == shown.len(),
                limit <= actions@.len(),
                forall|k: int| 0 <= k < limit ==> shown[k] == actions@[k],
                i <= limit,
                views(out@) == before + shown.take(i as int).map_values(|a: String| "- "@ + first_line(a@)),
            decreases limit - i,
        {
            let l = first_line_of(actions[i].as_str());
            let ghost prev = views(out@);
            out.push(concat2("- ", l.as_str()));
            assert(views(out@) =~= prev.push("- "@ + first_line(actions@[i as int]@)));
            assert(shown.take(i + 1).map_values(|a: String| "- "@ + first_line(a@)) =~= shown.take(
                i as int,
            ).map_values(|a: String| "- "@ + first_line(a@)).push("- "@ + first_line(actions@[i as int]@)));
            i = i + 1;
        }
        assert(shown.take(limit as int) =~= shown);
        assert(views(out@) =~= mid + (seq!["\nRecommended actions:"@] + shown.map_values(
            |a: String| "- "@ + first_line(a@),
        )));
    } else {
        assert(views(out@) =~= mid + Seq::<Seq<char>>::empty());
    }
    let ghost pre = views(out@);
    let ghost all_actions = report.recommended_actions@;
    let ghost d = if all_actions.len() > 0 {
        seq!["\nRecommended actions:"@] + (if all_actions.len() > 6 {
            all_actions.take(6)
        } else {
            all_actions
        }).map_values(|a: String| "- "@ + first_line(a@))
    } else {
        Seq::empty()
    };
    assert(pre =~= mid + d);
    assert(mid =~= head + seq!["\nSummary: "@ + report.summary@]);
    out.push(owned("\nRun `v8q doctor --verbose` for details."));
    assert(views(out@) =~= pre.push("\nRun `v8q doctor --verbose` for details."@));
    assert(views(out@) =~= summary_text(*report));
    out
}

// ----- status -----

/// A line when the value is there.
pub open spec fn opt_line<A>(o: Option<A>, line: spec_fn(A) -> Seq<char>) -> Seq<Seq<char>> {
    match o {
        Some(v) => seq![line(v)],
        None => Seq::empty(),
    }
}

/// The first lines of the status: state, PID, backend, paths and recording
/// settings.
pub open spec fn status_head(s: crate::StatusInfo) -> Seq<Seq<char>> {
    seq![
        "V8Q Status\n"@,
        "State: "@ + if s.is_running {
            "running"@
        } else {
            "stopped"@
        },
    ] + opt_line(s.pid, |p: u32| "PID: "@ + decimal(p as nat)) + seq![
        "Backend: "@ + s.backend@,
        "Config: "@ + s.config_path@,
        "Buffer: "@ + s.buffer_dir@,
        "Output: "@ + s.output_dir@,
        "Replay: "@ + decimal(s.replay_duration as nat) + "s"@,
        "Segment: "@ + decimal(s.segment_duration as nat) + "s"@,
        "FPS: "@ + decimal(s.fps as nat),
        "Encoder: "@ + s.encoder@,
        "Bitrate: "@ + s.bitrate@,
    ] + opt_line(s.audio_enabled, |a: bool| "Audio: "@ + if a {
        "on"@
    } else {
        "off"@
    }) + opt_line(s.segment_count, |n: usize| "Segments: "@ + decimal(n as nat))
}

/// The history lines of the status (wl-screenrec).
pub open spec fn status_history(s: crate::StatusInfo) -> Seq<Seq<char>> {
    opt_line(s.history_file, |p: String| "History file: "@ + p@) + opt_line(
        s.history_exists,
        |e: bool| "History exists: "@ + bool_text(e),
    ) + opt_line(s.history_size_bytes, |n: u64| "History size: "@ + decimal(n as nat) + " bytes"@)
        + if s.history_file is Some {
        seq![
            "History valid: "@ + match s.history_valid {
                Some(true) => "yes"@,
                Some(false) => "no"@,
                None => "unknown"@,
            },
        ] + if s.history_valid == Some(false) {
            seq!["History warning: History file exists but is probably not a valid replay yet."@]
        } else {
            Seq::empty()
        }
    } else {
        Seq::empty()
    }
}

/// The lines about the recorder process, the warnings and the error.
pub open spec fn status_notes(s: crate::StatusInfo) -> Seq<Seq<char>> {
    opt_line(s.process_command, |c: String| "Process command: "@ + c@) + match s.metadata {
        Some(m) => seq!["Started at: "@ + m.started_at@, "Recorded command: "@ + m.command@],
        None => Seq::empty(),
    } + views(s.warnings@).map_values(|w: Seq<char>| "WARN: "@ + w) + opt_line(
        s.error,
        |e: String| "ERROR: "@ + e@,
    )
}

/// The log lines of the status: wl-screenrec's tail, then every log.
pub open spec fn status_logs(s: crate::StatusInfo) -> Seq<Seq<char>> {
    (if s.log_tail@.len() > 0 {
        seq!["\nLast wl-screenrec log:"@] + views(s.log_tail@).map_values(|l: Seq<char>| "  "@ + l)
    } else {
        Seq::empty()
    }) + logs_text(s.last_log_lines@)
}

/// The lines of one log: where it is, then its lines, indented.
pub open spec fn log_lines_text(entry: (String, Vec<String>)) -> Seq<Seq<char>> {
    seq!["\nLast log lines from "@ + entry.0@ + ":"@] + views(entry.1@).map_values(
        |l: Seq<char>| "  "@ + l,
    )
}

/// The lines of the logs, in order.
pub open spec fn logs_text(logs: Seq<(String, Vec<String>)>) -> Seq<Seq<char>>
    decreases logs.len(),
{
    if logs.len() == 0 {
        Seq::empty()
    } else {
        logs_text(logs.drop_last()) + log_lines_text(logs.last())
    }
}

/// What `v8q status` prints.
pub open spec fn status_text(s: crate::StatusInfo) -> Seq<Seq<char>> {
    status_head(s) + status_history(s) + status_notes(s) + status_logs(s)
}

fn head_lines(s: &crate::StatusInfo) -> (r: Vec<String>)
    ensures
        views(r@) == status_head(*s),
{
    let mut out: Vec<String> = Vec::new();
    out.push(owned("V8Q Status\n"));
    out.push(concat2(
        "State: ",
        if s.is_running {
            "running"
        } else {
            "stopped"
        },
    ));
    let ghost a = views(out@);
    if let Some(pid) = s.pid {
        let n = u64_to_string(pid as u64);
        out.push(concat2("PID: ", n.as_str()));
    }
    let ghost b = views(out@);
    out.push(concat2("Backend: ", s.backend.as_str()));
    out.push(concat2("Config: ", s.config_path.as_str()));
    out.push(concat2("Buffer: ", s.buffer_dir.as_str()));
    out.push(concat2("Output: ", s.output_dir.as_str()));
    let n = u64_to_string(s.replay_duration);
    out.push(concat3("Replay: ", n.as_str(), "s"));
    let n = u64_to_string(s.segment_duration);
    out.push(concat3("Segment: ", n.as_str(), "s"));
    let n = u64_to_string(s.fps as u64);
    out.push(concat2("FPS: ", n.as_str()));
    out.push(concat2("Encoder: ", s.encoder.as_str()));
    out.push(concat2("Bitrate: ", s.bitrate.as_str()));
    let ghost c = views(out@);
    if let Some(audio) = s.audio_enabled {
        out.push(concat2(
            "Audio: ",
            if audio {
                "on"
            } else {
                "off"
            },
        ));
    }
    let ghost d = views(out@);
    if let Some(count) = s.segment_count {
        let n = u64_to_string(count as u64);
        out.push(concat2("Segments: ", n.as_str()));
    }
    assert(views(out@) =~= status_head(*s));
    out
}

fn history_lines(s: &crate::StatusInfo) -> (r: Vec<String>)
    ensures
        views(r@) == status_history(*s),
{
    let mut out: Vec<String> = Vec::new();
    if let Some(p) = &s.history_file {
        out.push(concat2("History file: ", p.as_str()));
    }
    let ghost a = views(out@);
    if let Some(e) = s.history_exists {
        out.push(concat2(
            "History exists: ",
            if e {
                "true"
            } else {
                "false"
            },
        ));
    }
    let ghost b = views(out@);
    if let Some(n) = s.history_size_bytes {
        let t = u64_to_string(n);
        out.push(concat3("History size: ", t.as_str(), " bytes"));
    }
    let ghost c = views(out@);
    if s.history_file.is_some() {
        let label = match s.history_valid {
            Some(true) => "yes",
            Some(false) => "no",
            None => "unknown",
        };
        out.push(concat2("History valid: ", label));
        if let Some(false) = s.history_valid {
            out.push(
                owned(
                    "History warning: History file exists but is probably not a valid replay yet.",
                ),
            );
        }
    }
    assert(views(out@) =~= status_history(*s));
    out
}

fn note_lines(s: &crate::StatusInfo) -> (r: Vec<String>)
    ensures
        views(r@) == status_notes(*s),
{
    let mut out: Vec<String> = Vec::new();
    if let Some(c) = &s.process_command {
        out.push(concat2("Process command: ", c.as_str()));
    }
    let ghost a = views(out@);
    if let Some(m) = &s.metadata {
        out.push(concat2("Started at: ", m.started_at.as_str()));
        out.push(concat2("Recorded command: ", m.command.as_str()));
    }
    let ghost b = views(out@);
    let w = prefixed("WARN: ", &s.warnings);
    append_lines(&mut out, w);
    let ghost c = views(out@);
    assert(a =~= opt_line(s.process_command, |c: String| "Process command: "@ + c@));
    assert(b =~= a + match s.metadata {
        Some(m) => seq!["Started at: "@ + m.started_at@, "Recorded command: "@ + m.command@],
        None => Seq::<Seq<char>>::empty(),
    });
    assert(c =~= b + views(s.warnings@).map_values(|w: Seq<char>| "WARN: "@ + w));
    if let Some(e) = &s.error {
        out.push(concat2("ERROR: ", e.as_str()));
    }
    assert(views(out@) =~= c + opt_line(s.error, |e: String| "ERROR: "@ + e@));
    assert(views(out@) =~= status_notes(*s));
    out
}

/// The lines that print the log tails.
pub fn logs_lines(logs: &Vec<(String, Vec<String>)>) -> (r: Vec<String>)
    ensures
        views(r@) == logs_text(logs@),
{
    let ghost all = logs@;
    let mut out: Vec<String> = Vec::new();
    let mut i: usize = 0;
    while i < logs.len()
        invariant
            all == logs@,
            i <= logs.len(),
            views(out@) == logs_text(all.take(i as int)),
        decreases logs.len() - i,
    {
        assert(all.take(i + 1).drop_last() =~= all.take(i as int));
        assert(all.take(i + 1).last() == all[i as int]);
        let (path, lines) = &logs[i];
        let ghost prev = views(out@);
        out.push(concat3("\nLast log lines from ", path.as_str(), ":"));
        let p = prefixed("  ", lines);
        append_lines(&mut out, p);
        assert(views(out@) =~= prev + log_lines_text(all[i as int]));
        i = i + 1;
    }
    assert(all.take(i as int) =~= all);
    out
}

fn status_log_lines(s: &crate::StatusInfo) -> (r: Vec<String>)
    ensures
        views(r@) == status_logs(*s),
{
    let mut out: Vec<String> = Vec::new();
    if s.log_tail.len() > 0 {
        out.push(owned("\nLast wl-screenrec log:"));
        let p = prefixed("  ", &s.log_tail);
        append_lines(&mut out, p);
    }
    let ghost a = views(out@);
    let l = logs_lines(&s.last_log_lines);
    append_lines(&mut out, l);
    assert(views(out@) =~= status_logs(*s));
    out
}

/// The lines that `v8q status` prints.
pub fn status_lines(status: &crate::StatusInfo) -> (r: Vec<String>)
    ensures
        views(r@) == status_text(*status),
{
    let mut out = head_lines(status);
    append_lines(&mut out, history_lines(status));
    append_lines(&mut out, note_lines(status));
    append_lines(&mut out, status_log_lines(status));
    out
}

/// The lines that `v8q logs`-style tails print.
pub fn logs_result_lines(result: &crate::LogsResult) -> (r: Vec<String>)
    ensures
        views(r@) == logs_text(result.logs@),
{
    logs_lines(&result.logs)
}

// ----- start and stop -----

/// What `v8q start` prints.
pub open spec fn start_text(r: crate::StartResult) -> Seq<Seq<char>> {
    seq![
        "Started V8Q recorder with PID "@ + decimal(r.pid as nat) + "."@,
        "Backend: "@ + r.backend@,
        "Buffer: "@ + r.buffer_dir@,
        "Log: "@ + r.log_file@,
    ]
}

/// The lines that `v8q start` prints.
pub fn start_lines(result: &crate::StartResult) -> (r: Vec<String>)
    ensures
        views(r@) == start_text(*result),
{
    let mut out: Vec<String> = Vec::new();
    let n = u64_to_string(result.pid as u64);
    out.push(concat3("Started V8Q recorder with PID ", n.as_str(), "."));
    out.push(concat2("Backend: ", result.backend.as_str()));
    out.push(concat2("Buffer: ", result.buffer_dir.as_str()));
    out.push(concat2("Log: ", result.log_file.as_str()));
    assert(views(out@) =~= start_text(*result));
    out
}

/// What `v8q stop` prints.
pub open spec fn stop_text(r: crate::StopResult) -> Seq<char> {
    match (r.was_running, r.pid) {
        (true, Some(pid)) => "Stopped V8Q recorder with PID "@ + decimal(pid as nat) + "."@,
        (false, Some(pid)) => "Recorder PID "@ + decimal(pid as nat)
            + " was not running; removed stale PID metadata."@,
        (false, None) => "V8Q is not running."@,
        (true, None) => "Stopped V8Q recorder."@,
    }
}

/// The line that `v8q stop` prints.
pub fn stop_message(result: &crate::StopResult) -> (r: String)
    ensures
        r@ == stop_text(*result),
{
    match (result.was_running, result.pid) {
        (true, Some(pid)) => {
            let n = u64_to_string(pid as u64);
            concat3("Stopped V8Q recorder with PID ", n.as_str(), ".")
        },
        (false, Some(pid)) => {
            let n = u64_to_string(pid as u64);
            concat3("Recorder PID ", n.as_str(), " was not running; removed stale PID metadata.")
        },
        (false, None) => owned("V8Q is not running."),
        (true, None) => owned("Stopped V8Q recorder."),
    }
}

// ----- setup and debugging -----

/// The flags that `v8q debug wl-screenrec` reports on.
pub open spec fn debug_flags() -> Seq<Seq<char>> {
    seq![
        "--history"@,
        "--filename"@,
        "--max-fps"@,
        "--ffmpeg-encoder"@,
        "--audio"@,
        "--audio-device"@,
        "--audio-backend"@,
        "--ffmpeg-encoder-options"@,
        "--bitrate"@,
        "--output"@,
        "--geometry"@,
    ]
}

/// Which of those flags the help text mentions.
pub open spec fn supported_flags_text(help: Seq<char>) -> Seq<Seq<char>> {
    seq!["supported_flags:"@] + debug_flags().map_values(
        |f: Seq<char>| "  "@ + f + ": "@ + bool_text(contains(help, f)),
    )
}

/// The lines that list which flags `wl-screenrec --help` mentions.
pub fn supported_flag_lines(help: &str) -> (r: Vec<String>)
    ensures
        views(r@) == supported_flags_text(help@),
{
    let flags: Vec<&'static str> = vec![
        "--history",
        "--filename",
        "--max-fps",
        "--ffmpeg-encoder",
        "--audio",
        "--audio-device",
        "--audio-backend",
        "--ffmpeg-encoder-options",
        "--bitrate",
        "--output",
        "--geometry",
    ];
    let ghost fv = flags@.map_values(|f: &'static str| f@);
    assert(fv =~= debug_flags());
    let mut out: Vec<String> = Vec::new();
    out.push(owned("supported_flags:"));
    let mut i: usize = 0;
    while i < flags.len()
        invariant
            fv == flags@.map_values(|f: &'static str| f@),
            fv == debug_flags(),
            i <= flags.len(),
            views(out@) == seq!["supported_flags:"@] + fv.take(i as int).map_values(
                |f: Seq<char>| "  "@ + f + ": "@ + bool_text(contains(help@, f)),
            ),
        decreases flags.len() - i,
    {
        let has = contains_str(help, flags[i]);
        let mut l = concat3("  ", flags[i], ": ");
        l.append(
            if has {
                "true"
            } else {
                "false"
            },
        );
        let ghost before = views(out@);
        out.push(l);
        assert(views(out@) =~= before.push("  "@ + fv[i as int] + ": "@ + bool_text(contains(help@, fv[i as int]))));
        assert(fv.take(i + 1) =~= fv.take(i as int).push(fv[i as int]));
        i = i + 1;
    }
    assert(fv.take(i as int) =~= fv);
    out
}

/// The shell profile to add `~/.cargo/bin` to `PATH` in, and the line to
/// add, for the user's `$SHELL`.
pub open spec fn shell_profile_spec(shell: Seq<char>) -> (Seq<char>, Seq<char>) {
    if contains(shell, "fish"@) {
        ("~/.config/fish/config.fish"@, "fish_add_path $HOME/.cargo/bin"@)
    } else if contains(shell, "zsh"@) {
        ("~/.zshrc"@, "export PATH=\"$HOME/.cargo/bin:$PATH\""@)
    } else {
        ("~/.bashrc"@, "export PATH=\"$HOME/.cargo/bin:$PATH\""@)
    }
}

/// The shell profile and the line that puts `~/.cargo/bin` on `PATH`.
pub fn shell_profile(shell: &str) -> (r: (&'static str, &'static str))
    ensures
        (r.0@, r.1@) == shell_profile_spec(shell@),
{
    if contains_str(shell, "fish") {
        ("~/.config/fish/config.fish", "fish_add_path $HOME/.cargo/bin")
    } else if contains_str(shell, "zsh") {
        ("~/.zshrc", "export PATH=\"$HOME/.cargo/bin:$PATH\"")
    } else {
        ("~/.bashrc", "export PATH=\"$HOME/.cargo/bin:$PATH\"")
    }
}

/// What `v8q setup shell` prints: how to put `~/.cargo/bin` on `PATH`.
pub open spec fn shell_setup_text(shell: Seq<char>) -> Seq<Seq<char>> {
    let (file, line) = shell_profile_spec(shell);
    seq![
        "Add ~/.cargo/bin to PATH:"@,
        "echo '"@ + line + "' >> "@ + file,
        "Then restart your shell or source the file."@,
    ]
}

/// The lines that tell how to put `~/.cargo/bin` on `PATH`.
pub fn shell_setup_lines(shell: &str) -> (r: Vec<String>)
    ensures
        views(r@) == shell_setup_text(shell@),
{
    let (file, line) = shell_profile(shell);
    let mut out: Vec<String> = Vec::new();
    out.push(owned("Add ~/.cargo/bin to PATH:"));
    let mut l = concat3("echo '", line, "' >> ");
    l.append(file);
    out.push(l);
    out.push(owned("Then restart your shell or source the file."));
    assert(views(out@) =~= shell_setup_text(shell@));
    out
}

/// The Hyprland key bindings that `v8q setup hyprland` suggests.
pub fn hyprland_binds() -> (r: &'static str)
    ensures
        r@ == "bind = SUPER_SHIFT, R, exec, v8q save\nbind = SUPER_SHIFT, S, exec, v8q start\nbind = SUPER_SHIFT, X, exec, v8q stop\nbind = SUPER_SHIFT, D, exec, v8q doctor\n"@,
{
    "bind = SUPER_SHIFT, R, exec, v8q save\nbind = SUPER_SHIFT, S, exec, v8q start\nbind = SUPER_SHIFT, X, exec, v8q stop\nbind = SUPER_SHIFT, D, exec, v8q doctor\n"
}

/// The lines of `v8q preset list`: each preset's name and description.
pub fn preset_list_lines() -> (r: Vec<String>)
    ensures
        r@.len() == crate::preset::preset_count(),
        forall|i: int|
            0 <= i < r@.len() ==> #[trigger] r@[i]@ == crate::preset::table_entry(i).0 + " - "@
                + crate::preset::table_entry(i).1,
{
    let table = crate::preset::presets();
    let mut out: Vec<String> = Vec::new();
    let mut i: usize = 0;
    while i < table.len()
        invariant
            crate::preset::preset_table(table@),
            i <= table.len(),
            out@.len() == i,
            forall|k: int|
                0 <= k < i ==> #[trigger] out@[k]@ == crate::preset::table_entry(k).0 + " - "@
                    + crate::preset::table_entry(k).1,
        decreases table.len() - i,
    {
        assert(crate::preset::preset_view(table@[i as int]) == crate::preset::table_entry(i as int));
        out.push(concat3(table[i].name, " - ", table[i].description));
        i = i + 1;
    }
    out
}

} // verus!
