//! The recorder process: its PID file and metadata, and the decisions about
//! whether a recorded PID still belongs to a running recorder.
use vstd::prelude::*;

use crate::text::{
    all_digits, concat2, concat3, contains, contains_str, decimal, digit_value, digits_value,
    is_digit, owned, trim, trimmed, u64_to_string, chars_of,
};

verus! {

/// What V8Q records about the recorder it started, next to the PID file.
#[derive(Debug, Clone)]
pub struct ProcessMeta {
    pub pid: u32,
    pub backend: String,
    pub command: String,
    pub started_at: String,
    pub config_path: String,
    pub log_file: String,
    pub buffer_dir: String,
    pub output_dir: String,
    pub history_file: Option<String>,
    pub binary_version: String,
}

/// What a recorded PID turned out to be.
#[derive(Debug, Clone)]
pub enum RecorderVerdict {
    /// The PID belongs to a running recorder of the expected kind.
    Running,
    /// The PID is stale, with the warning that says why; its files should go.
    Stale(String),
}

/// `u32::from_str`: an optional `+`, then at least one decimal digit, with a
/// value that fits.
pub open spec fn parse_u32_spec(s: Seq<char>) -> Option<u32> {
    let digits = if s.len() > 0 && s[0] == '+' {
        s.drop_first()
    } else {
        s
    };
    if digits.len() == 0 || !all_digits(digits) || digits_value(digits) > u32::MAX {
        None
    } else {
        Some(digits_value(digits) as u32)
    }
}

/// The PID in a PID file's contents, surrounding whitespace ignored.
pub open spec fn pid_in(contents: Seq<char>) -> Option<u32> {
    parse_u32_spec(trim(contents))
}

proof fn lemma_digits_value_bound(s: Seq<char>)
    requires
        all_digits(s),
    ensures
        digits_value(s) < pow10(s.len()),
    decreases s.len(),
{
    if s.len() > 0 {
        assert(all_digits(s.drop_last()));
        lemma_digits_value_bound(s.drop_last());
        assert(is_digit(s[s.len() - 1]));
    }
}

pub open spec fn pow10(n: nat) -> nat
    decreases n,
{
    if n == 0 {
        1
    } else {
        10 * pow10((n - 1) as nat)
    }
}

/// `s.parse::<u32>()`.
pub fn parse_u32(s: &str) -> (r: Option<u32>)
    ensures
        r == parse_u32_spec(s@),
{
    let v = chars_of(s);
    let start: usize = if v.len() > 0 && v[0] == '+' {
        1
    } else {
        0
    };
    let ghost digits = if s@.len() > 0 && s@[0] == '+' {
        s@.drop_first()
    } else {
        s@
    };
    assert(digits == v@.subrange(start as int, v@.len() as int));
    if start == v.len() {
        return None;
    }
    let mut value: u64 = 0;
    let mut i: usize = start;
    while i < v.len()
        invariant
            v@ == s@,
            start <= i <= v.len(),
            digits == v@.subrange(start as int, v@.len() as int),
            digits == (if s@.len() > 0 && s@[0] == '+' {
                s@.drop_first()
            } else {
                s@
            }),
            digits.len() > 0,
            all_digits(v@.subrange(start as int, i as int)),
            value == digits_value(v@.subrange(start as int, i as int)),
            value <= u32::MAX,
        decreases v.len() - i,
    {
        let c = v[i];
        assert(v@.subrange(start as int, i + 1).drop_last() == v@.subrange(start as int, i as int));
        assert(v@.subrange(start as int, i + 1).last() == c);
        if !('0' <= c && c <= '9') {
            assert(digits[i - start] == c);
            assert(!is_digit(digits[i - start]));
            return None;
        }
        let d = (c as u32 - '0' as u32) as u64;
        assert(d == digit_value(c));
        let next = value * 10 + d;
        if next > 4294967295u64 {
            proof {
                let pre = v@.subrange(start as int, i + 1);
                assert(digits_value(pre) == next);
                assert(pre =~= digits.take(pre.len() as int));
                if all_digits(digits) {
                    lemma_prefix_value_le(digits, pre.len());
                }
            }
            return None;
        }
        value = next;
        i = i + 1;
    }
    assert(v@.subrange(start as int, i as int) == digits);
    Some(value as u32)
}

/// A longer run of digits is worth at least as much as its prefix.
proof fn lemma_prefix_value_le(s: Seq<char>, k: nat)
    requires
        k <= s.len(),
        all_digits(s),
    ensures
        digits_value(s.take(k as int)) <= digits_value(s),
    decreases s.len() - k,
{
    if k < s.len() {
        lemma_prefix_value_le(s, k + 1);
        let t = s.take(k as int + 1);
        assert(t.drop_last() =~= s.take(k as int));
        assert(t.len() > 0);
        assert(digits_value(t) == digits_value(t.drop_last()) * 10 + digit_value(t.last()));
        assert(digits_value(s.take(k as int)) <= digits_value(t));
    } else {
        assert(s.take(k as int) =~= s);
    }
}

/// The PID recorded in a PID file's contents, or `None` when it is invalid.
pub fn pid_from_contents(contents: &str) -> (r: Option<u32>)
    ensures
        r == pid_in(contents@),
{
    let t = trimmed(contents);
    parse_u32(t.as_str())
}

/// The metadata file next to a PID file.
pub fn pid_meta_file(pid_file: &str) -> (r: String)
    ensures
        r@ == pid_file@ + ".meta"@,
{
    concat2(pid_file, ".meta")
}

/// A command line that belongs to a recorder V8Q starts.
pub open spec fn looks_like_recorder(cmdline: Seq<char>) -> bool {
    contains(cmdline, "wl-screenrec"@) || contains(cmdline, "ffmpeg"@) || (contains(cmdline, "v8q"@)
        && contains(cmdline, "start"@) && contains(cmdline, "--foreground"@))
}

/// Whether the command line belongs to a recorder: wl-screenrec, FFmpeg, or
/// `v8q start --foreground`.
pub fn cmdline_looks_like_recorder(cmdline: &str) -> (r: bool)
    ensures
        r == looks_like_recorder(cmdline@),
{
    contains_str(cmdline, "wl-screenrec") || contains_str(cmdline, "ffmpeg") || (contains_str(
        cmdline,
        "v8q",
    ) && contains_str(cmdline, "start") && contains_str(cmdline, "--foreground"))
}

/// `stale PID <pid>: `.
pub open spec fn stale_head(pid: u32) -> Seq<char> {
    "stale PID "@ + decimal(pid as nat) + ": "@
}

/// The verdict on a recorded PID, as plain values: `None` when it belongs to
/// a running recorder, else the warning.
pub open spec fn verdict_spec(
    pid: u32,
    running: bool,
    cmdline: Option<Seq<char>>,
    expected: Option<Seq<char>>,
) -> Option<Seq<char>> {
    let h = stale_head(pid);
    if !running {
        Some(h + "process is not running"@)
    } else {
        match cmdline {
            None => Some(h + "could not read /proc/"@ + decimal(pid as nat) + "/cmdline"@),
            Some(c) => if !looks_like_recorder(c) {
                Some(h + "unexpected command line: "@ + c)
            } else {
                match expected {
                    Some(e) => if e == "wl-screenrec"@ && !contains(c, "wl-screenrec"@) {
                        Some(h + "expected wl-screenrec but command line was: "@ + c)
                    } else if (e == "x11"@ || e == "custom"@) && !contains(c, "ffmpeg"@) {
                        Some(h + "expected ffmpeg but command line was: "@ + c)
                    } else {
                        None
                    },
                    None => None,
                }
            },
        }
    }
}

pub open spec fn verdict_view(v: RecorderVerdict) -> Option<Seq<char>> {
    match v {
        RecorderVerdict::Running => None,
        RecorderVerdict::Stale(w) => Some(w@),
    }
}

pub open spec fn opt_seq(o: Option<&str>) -> Option<Seq<char>> {
    match o {
        Some(s) => Some(s@),
        None => None,
    }
}

/// Whether a recorded PID still belongs to the recorder: it must be running,
/// have a readable command line that looks like a recorder, and match the
/// expected backend.
pub fn judge_recorder(pid: u32, running: bool, cmdline: Option<&str>, expected: Option<&str>) -> (r:
    RecorderVerdict)
    ensures
        verdict_view(r) == verdict_spec(pid, running, opt_seq(cmdline), opt_seq(expected)),
{
    let p = u64_to_string(pid as u64);
    let head = concat3("stale PID ", p.as_str(), ": ");
    if !running {
        return RecorderVerdict::Stale(concat2(head.as_str(), "process is not running"));
    }
    let c = match cmdline {
        Some(c) => c,
        None => {
            let mut w = concat3(head.as_str(), "could not read /proc/", p.as_str());
            w.append("/cmdline");
            return RecorderVerdict::Stale(w);
        },
    };
    if !cmdline_looks_like_recorder(c) {
        return RecorderVerdict::Stale(concat3(head.as_str(), "unexpected command line: ", c));
    }
    if let Some(e) = expected {
        if crate::text::str_eq(e, "wl-screenrec") && !contains_str(c, "wl-screenrec") {
            return RecorderVerdict::Stale(
                concat3(head.as_str(), "expected wl-screenrec but command line was: ", c),
            );
        }
        if (crate::text::str_eq(e, "x11") || crate::text::str_eq(e, "custom")) && !contains_str(
            c,
            "ffmpeg",
        ) {
            return RecorderVerdict::Stale(
                concat3(head.as_str(), "expected ffmpeg but command line was: ", c),
            );
        }
    }
    RecorderVerdict::Running
}

/// The PID that a PID file names, if it still belongs to a running recorder
/// of the expected backend.
pub open spec fn checked_pid(
    recorded: Option<u32>,
    running: bool,
    cmdline: Option<Seq<char>>,
    expected: Option<Seq<char>>,
) -> Option<u32> {
    match recorded {
        Some(pid) => if verdict_spec(pid, running, cmdline, expected) is None {
            Some(pid)
        } else {
            None
        },
        None => None,
    }
}

/// The recorder PID, given what the PID file held (`recorded`) and what was
/// observed of that process, with the warnings about a stale PID. A warning
/// means that the PID files are stale and are to be removed.
pub fn recorder_pid_checked(
    recorded: Option<u32>,
    running: bool,
    cmdline: Option<&str>,
    expected_backend: Option<&str>,
) -> (r: (Option<u32>, Vec<String>))
    ensures
        r.0 == checked_pid(recorded, running, opt_seq(cmdline), opt_seq(expected_backend)),
        match recorded {
            Some(pid) => match verdict_spec(pid, running, opt_seq(cmdline), opt_seq(expected_backend)) {
                Some(w) => r.1@.len() == 1 && r.1@[0]@ == w,
                None => r.1@.len() == 0,
            },
            None => r.1@.len() == 0,
        },
{
    let mut warnings: Vec<String> = Vec::new();
    match recorded {
        None => (None, warnings),
        Some(pid) => match judge_recorder(pid, running, cmdline, expected_backend) {
            RecorderVerdict::Running => (Some(pid), warnings),
            RecorderVerdict::Stale(w) => {
                warnings.push(w);
                (None, warnings)
            },
        },
    }
}

/// The recorder PID, whatever its backend.
pub fn recorder_pid(recorded: Option<u32>, running: bool, cmdline: Option<&str>) -> (r: Option<u32>)
    ensures
        r == checked_pid(recorded, running, opt_seq(cmdline), None),
{
    recorder_pid_checked(recorded, running, cmdline, None).0
}

/// Refuses to start a second recorder.
pub fn ensure_not_running(recorder_pid: Option<u32>) -> (r: Result<(), String>)
    ensures
        match recorder_pid {
            Some(pid) => r matches Err(m) && m@ == "recorder is already running with PID "@ + decimal(pid as nat),
            None => r is Ok,
        },
{
    match recorder_pid {
        Some(pid) => {
            let p = u64_to_string(pid as u64);
            Err(concat2("recorder is already running with PID ", p.as_str()))
        },
        None => Ok(()),
    }
}

/// What `v8q stop` does with a recorded PID.
#[derive(Debug, Clone, Copy, PartialEq, Eq, Structural)]
pub enum StopAction {
    /// The process is gone: only the PID files are removed.
    RemoveFiles,
    /// The PID belongs to something else: the PID files are removed.
    ForgetForeign,
    /// Send SIGTERM, then remove the PID files.
    Terminate,
}

/// The stop decision: a running process with a recorder command line is
/// terminated; anything else only loses its PID files.
pub fn stop_action(running: bool, cmdline: Option<&str>) -> (r: StopAction)
    ensures
        r == (if !running {
            StopAction::RemoveFiles
        } else {
            match opt_seq(cmdline) {
                Some(c) => if looks_like_recorder(c) {
                    StopAction::Terminate
                } else {
                    StopAction::ForgetForeign
                },
                None => StopAction::ForgetForeign,
            }
        }),
{
    if !running {
        return StopAction::RemoveFiles;
    }
    match cmdline {
        Some(c) => if cmdline_looks_like_recorder(c) {
            StopAction::Terminate
        } else {
            StopAction::ForgetForeign
        },
        None => StopAction::ForgetForeign,
    }
}

/// The version recorded in process metadata.
pub fn binary_version() -> (r: &'static str)
    ensures
        r@ == "0.4.0"@,
{
    "0.4.0"
}

/// The metadata for a recorder just started.
pub fn new_meta(
    pid: u32,
    backend: &str,
    command: &str,
    buffer_dir: &str,
    output_dir: &str,
    history_file: Option<&str>,
    config_path: &str,
    log_file: &str,
    started_at: &str,
) -> (r: ProcessMeta)
    ensures
        r.pid == pid,
        r.backend@ == backend@,
        r.command@ == command@,
        r.started_at@ == started_at@,
        r.config_path@ == config_path@,
        r.log_file@ == log_file@,
        r.buffer_dir@ == buffer_dir@,
        r.output_dir@ == output_dir@,
        crate::paths::opt_view(r.history_file) == opt_seq(history_file),
        r.binary_version@ == "0.4.0"@,
{
    ProcessMeta {
        pid,
        backend: owned(backend),
        command: owned(command),
        started_at: owned(started_at),
        config_path: owned(config_path),
        log_file: owned(log_file),
        buffer_dir: owned(buffer_dir),
        output_dir: owned(output_dir),
        history_file: match history_file {
            Some(h) => Some(owned(h)),
            None => None,
        },
        binary_version: owned(binary_version()),
    }
}

/// What a PID file holds: a PID when it exists (`contents` is `None` when it
/// does not); an error naming the file when it holds no PID.
pub fn read_pid(pid_file: &str, contents: Option<&str>) -> (r: Result<Option<u32>, String>)
    ensures
        match opt_seq(contents) {
            None => r matches Ok(None),
            Some(c) => match pid_in(c) {
                Some(p) => r matches Ok(Some(x)) && x == p,
                None => r matches Err(m) && m@ == "invalid PID file "@ + pid_file@,
            },
        },
{
    match contents {
        None => Ok(None),
        Some(c) => match pid_from_contents(c) {
            Some(p) => Ok(Some(p)),
            None => Err(concat2("invalid PID file ", pid_file)),
        },
    }
}

/// What a PID file is written with: the PID and a newline.
pub fn pid_file_text(pid: u32) -> (r: String)
    ensures
        r@ == decimal(pid as nat) + "\n"@,
{
    let p = u64_to_string(pid as u64);
    concat2(p.as_str(), "\n")
}

/// `String::from_utf8_lossy`: the text of the bytes, with each invalid UTF-8
/// sequence replaced by U+FFFD.
pub uninterp spec fn utf8_lossy(bytes: Seq<u8>) -> Seq<char>;

/// The bytes as text, invalid UTF-8 replaced (`String::from_utf8_lossy`).
#[verifier::external_body]
fn lossy_string(bytes: &Vec<u8>) -> (r: String)
    ensures
        r@ == utf8_lossy(bytes@),
{
    String::from_utf8_lossy(bytes.as_slice()).into_owned()
}

/// The non-empty NUL-separated pieces read so far, and the piece being read.
pub open spec fn nul_pieces(s: Seq<u8>) -> (Seq<Seq<u8>>, Seq<u8>)
    decreases s.len(),
{
    if s.len() == 0 {
        (Seq::empty(), Seq::empty())
    } else {
        let (done, cur) = nul_pieces(s.drop_last());
        if s.last() == 0 {
            if cur.len() > 0 {
                (done.push(cur), Seq::empty())
            } else {
                (done, Seq::empty())
            }
        } else {
            (done, cur.push(s.last()))
        }
    }
}

/// The non-empty NUL-separated pieces of `s`.
pub open spec fn nul_parts(s: Seq<u8>) -> Seq<Seq<u8>> {
    let (done, cur) = nul_pieces(s);
    if cur.len() > 0 {
        done.push(cur)
    } else {
        done
    }
}

/// A process's command line from the bytes of `/proc/<pid>/cmdline`: its
/// arguments joined with spaces, or nothing when it has none.
pub open spec fn cmdline_text(bytes: Seq<u8>) -> Option<Seq<char>> {
    let parts = nul_parts(bytes);
    if parts.len() == 0 {
        None
    } else {
        Some(crate::text::joined(parts.map_values(|p: Seq<u8>| utf8_lossy(p)), " "@))
    }
}

/// The command line of a process from the contents of its
/// `/proc/<pid>/cmdline`.
pub fn proc_cmdline(bytes: &Vec<u8>) -> (r: Option<String>)
    ensures
        opt_seq_string(r) == cmdline_text(bytes@),
{
    let mut parts: Vec<String> = Vec::new();
    let mut cur: Vec<u8> = Vec::new();
    let mut i: usize = 0;
    while i < bytes.len()
        invariant
            i <= bytes.len(),
            parts@.map_values(|s: String| s@) == nul_pieces(bytes@.take(i as int)).0.map_values(
                |p: Seq<u8>| utf8_lossy(p),
            ),
            cur@ == nul_pieces(bytes@.take(i as int)).1,
        decreases bytes.len() - i,
    {
        assert(bytes@.take(i + 1).drop_last() =~= bytes@.take(i as int));
        assert(bytes@.take(i + 1).last() == bytes@[i as int]);
        let b = bytes[i];
        if b == 0 {
            if cur.len() > 0 {
                let ghost before = parts@.map_values(|s: String| s@);
                let ghost piece = cur@;
                parts.push(lossy_string(&cur));
                assert(parts@.map_values(|s: String| s@) =~= before.push(utf8_lossy(piece)));
                cur = Vec::new();
            }
        } else {
            cur.push(b);
        }
        i = i + 1;
    }
    assert(bytes@.take(i as int) =~= bytes@);
    if cur.len() > 0 {
        let ghost before = parts@.map_values(|s: String| s@);
        let ghost piece = cur@;
        parts.push(lossy_string(&cur));
        assert(parts@.map_values(|s: String| s@) =~= before.push(utf8_lossy(piece)));
    }
    assert(parts@.map_values(|s: String| s@) =~= nul_parts(bytes@).map_values(|p: Seq<u8>| utf8_lossy(p)));
    if parts.len() == 0 {
        None
    } else {
        Some(crate::text::join_strings(&parts, " "))
    }
}

pub open spec fn opt_seq_string(o: Option<String>) -> Option<Seq<char>> {
    match o {
        Some(s) => Some(s@),
        None => None,
    }
}

/// What `stop` reports, given the PID that the PID file held, what was done
/// about it, and whether the process accepted SIGTERM when it was sent.
pub fn stop_result(recorded: Option<u32>, action: StopAction, term_accepted: bool) -> (r:
    crate::StopResult)
    ensures
        r.pid == recorded,
        r.was_running == (recorded is Some && action == StopAction::Terminate && term_accepted),
{
    match recorded {
        None => crate::StopResult { was_running: false, pid: None },
        Some(pid) => crate::StopResult {
            was_running: match action {
                StopAction::Terminate => term_accepted,
                _ => false,
            },
            pid: Some(pid),
        },
    }
}

/// The error when a process refuses a signal.
pub fn signal_refused_message(pid: u32, signal: &str) -> (r: String)
    ensures
        r@ == "PID "@ + decimal(pid as nat) + " did not accept SIG"@ + signal@,
{
    let p = u64_to_string(pid as u64);
    let mut r = concat3("PID ", p.as_str(), " did not accept SIG");
    r.append(signal);
    r
}

/// A PID counts as the recorder only when it is the recorded one, the process
/// runs, and its command line looks like a recorder.
pub proof fn lemma_checked_pid_is_recorder(
    recorded: Option<u32>,
    running: bool,
    cmdline: Option<Seq<char>>,
    expected: Option<Seq<char>>,
    pid: u32,
)
    requires
        checked_pid(recorded, running, cmdline, expected) == Some(pid),
    ensures
        recorded == Some(pid),
        running,
        cmdline matches Some(c) && looks_like_recorder(c),
{
}

} // verus!
