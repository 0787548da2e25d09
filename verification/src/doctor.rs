//! `v8q doctor`: the checks of the local setup, computed from the
//! configuration and from what was observed on the machine, and the report
//! that sums them up.
use vstd::prelude::*;

use crate::config::{backend_label, backend_result, encoder_for, views, Config,
    CaptureBackend, config_error_text, window_source, backend_of};
use crate::paths::{expand_tilde_spec, join, join_path, opt_view, path_components, same_path};
use crate::text::{blank, concat2, concat3, contains, contains_str, decimal, is_blank, joined,
    join_strings, occurs_at, owned, split_char, split_on, str_eq, u64_to_string};
use crate::monitors::{hyprctl_monitor_fields, monitor_names_from_hyprctl_json, string_names};
use crate::window::{list_view, selected_geometry, selected_window_geometry,
    WindowInfo};

verus! {

/// The outcome of one check.
#[derive(Debug, Clone, Copy, PartialEq, Eq, Structural)]
pub enum DoctorCheckStatus {
    Pass,
    Warn,
    Fail,
}

/// One check: its name, outcome, message and an optional hint.
#[derive(Debug, Clone)]
pub struct DoctorCheck {
    pub name: String,
    pub status: DoctorCheckStatus,
    pub message: String,
    pub hint: Option<String>,
}

/// All checks, with the number of each outcome and the hints.
#[derive(Debug, Clone)]
pub struct DoctorReport {
    pub checks: Vec<DoctorCheck>,
    pub ok_count: usize,
    pub warn_count: usize,
    pub fail_count: usize,
    pub summary: String,
    pub recommended_actions: Vec<String>,
}

/// Where `command_path` found a command, if anywhere.
#[derive(Debug, Clone)]
pub struct CommandLookup {
    pub name: String,
    pub path: Option<String>,
}

/// What `systemctl --user is-active` said of a service.
#[derive(Debug, Clone)]
pub enum ServiceState {
    Active,
    /// Not active, with the state that systemctl printed.
    Inactive(String),
    /// systemctl could not be run, with the reason.
    Unavailable(String),
}

/// A user service and its state.
#[derive(Debug, Clone)]
pub struct ServiceLookup {
    pub name: String,
    pub state: ServiceState,
}

/// What was observed on the machine for the checks.
#[derive(Debug)]
pub struct SystemProbe {
    /// `$XDG_SESSION_TYPE`.
    pub session_type: Option<String>,
    /// Whether `$HYPRLAND_INSTANCE_SIGNATURE` is set.
    pub hyprland_signature: bool,
    /// `$XDG_CURRENT_DESKTOP`.
    pub current_desktop: Option<String>,
    /// `$SHELL`.
    pub shell: Option<String>,
    pub commands: Vec<CommandLookup>,
    pub current_exe: Result<String, String>,
    pub home: Option<String>,
    /// Whether `~/.cargo/bin` exists.
    pub cargo_bin_exists: bool,
    /// Whether `~/.cargo/bin` is in `$PATH`.
    pub cargo_bin_in_path: bool,
    /// `wl-screenrec --help`, when it could be run.
    pub wl_screenrec_help: Option<String>,
    /// `ffmpeg -hide_banner -encoders`, when it could be run.
    pub ffmpeg_encoders: Option<String>,
    /// `pactl list short sources`, when it could be run.
    pub pactl_sources: Option<String>,
    /// What `hyprctl monitors -j` printed, when it could be run.
    pub hyprctl_monitors: Option<String>,
    /// The Hyprland windows, or why they could not be listed.
    pub windows: Result<Vec<WindowInfo>, String>,
    pub services: Vec<ServiceLookup>,
    /// Creating the buffer directory.
    pub buffer_dir_created: Result<(), String>,
    /// Creating the output directory.
    pub output_dir_created: Result<(), String>,
    /// The PID file's parent directory and the result of creating it.
    pub pid_parent: Option<(String, Result<(), String>)>,
    /// The recommended runtime buffer directory.
    pub default_buffer_dir: String,
}

/// A check as plain values: name, status, message, hint.
pub type CheckView = (Seq<char>, DoctorCheckStatus, Seq<char>, Option<Seq<char>>);

pub open spec fn check_view(c: DoctorCheck) -> CheckView {
    (c.name@, c.status, c.message@, opt_view(c.hint))
}

pub open spec fn ok_view(name: Seq<char>, message: Seq<char>) -> CheckView {
    (name, DoctorCheckStatus::Pass, message, None)
}

pub open spec fn warn_view(name: Seq<char>, message: Seq<char>, hint: Option<Seq<char>>) -> CheckView {
    (name, DoctorCheckStatus::Warn, message, hint)
}

pub open spec fn fail_view(name: Seq<char>, message: Seq<char>, hint: Option<Seq<char>>) -> CheckView {
    (name, DoctorCheckStatus::Fail, message, hint)
}

/// How many checks have the status.
pub open spec fn count_status(s: Seq<DoctorCheck>, st: DoctorCheckStatus) -> nat
    decreases s.len(),
{
    if s.len() == 0 {
        0
    } else {
        count_status(s.drop_last(), st) + if s.last().status == st {
            1nat
        } else {
            0nat
        }
    }
}

/// The hints of the checks that have one, in order.
pub open spec fn hints_of(s: Seq<DoctorCheck>) -> Seq<Seq<char>>
    decreases s.len(),
{
    if s.len() == 0 {
        Seq::empty()
    } else {
        match s.last().hint {
            Some(h) => hints_of(s.drop_last()).push(h@),
            None => hints_of(s.drop_last()),
        }
    }
}

/// `<ok> OK, <warn> WARN, <fail> FAIL`.
pub open spec fn summary_text(ok: nat, warn: nat, fail: nat) -> Seq<char> {
    decimal(ok) + " OK, "@ + decimal(warn) + " WARN, "@ + decimal(fail) + " FAIL"@
}

impl DoctorCheck {
    /// A passing check.
    pub fn ok(name: &str, message: &str) -> (r: Self)
        ensures
            check_view(r) == ok_view(name@, message@),
    {
        DoctorCheck { name: owned(name), status: DoctorCheckStatus::Pass, message: owned(message), hint: None }
    }

    /// A check that warns.
    pub fn warn(name: &str, message: &str, hint: Option<String>) -> (r: Self)
        ensures
            check_view(r) == warn_view(name@, message@, opt_view(hint)),
    {
        DoctorCheck { name: owned(name), status: DoctorCheckStatus::Warn, message: owned(message), hint }
    }

    /// A failing check.
    pub fn fail(name: &str, message: &str, hint: Option<String>) -> (r: Self)
        ensures
            check_view(r) == fail_view(name@, message@, opt_view(hint)),
    {
        DoctorCheck { name: owned(name), status: DoctorCheckStatus::Fail, message: owned(message), hint }
    }
}

impl DoctorReport {
    /// The report over the checks.
    pub fn from_checks(checks: Vec<DoctorCheck>) -> (r: Self)
        ensures
            r.checks@ == checks@,
            r.ok_count == count_status(checks@, DoctorCheckStatus::Pass),
            r.warn_count == count_status(checks@, DoctorCheckStatus::Warn),
            r.fail_count == count_status(checks@, DoctorCheckStatus::Fail),
            r.summary@ == summary_text(r.ok_count as nat, r.warn_count as nat, r.fail_count as nat),
            views(r.recommended_actions@) == hints_of(checks@),
    {
        let mut ok_count: usize = 0;
        let mut warn_count: usize = 0;
        let mut fail_count: usize = 0;
        let mut actions: Vec<String> = Vec::new();
        let mut i: usize = 0;
        while i < checks.len()
            invariant
                i <= checks.len(),
                ok_count == count_status(checks@.take(i as int), DoctorCheckStatus::Pass),
                warn_count == count_status(checks@.take(i as int), DoctorCheckStatus::Warn),
                fail_count == count_status(checks@.take(i as int), DoctorCheckStatus::Fail),
                ok_count + warn_count + fail_count == i,
                views(actions@) == hints_of(checks@.take(i as int)),
            decreases checks.len() - i,
        {
            assert(checks@.take(i + 1).drop_last() == checks@.take(i as int));
            assert(checks@.take(i + 1).last() == checks@[i as int]);
            match checks[i].status {
                DoctorCheckStatus::Pass => ok_count = ok_count + 1,
                DoctorCheckStatus::Warn => warn_count = warn_count + 1,
                DoctorCheckStatus::Fail => fail_count = fail_count + 1,
            }
            let ghost before = actions@;
            match &checks[i].hint {
                Some(h) => {
                    actions.push(h.clone());
                    assert(views(actions@) =~= views(before).push(h@));
                },
                None => {},
            }
            i = i + 1;
        }
        assert(checks@.take(i as int) == checks@);
        let ok_s = u64_to_string(ok_count as u64);
        let warn_s = u64_to_string(warn_count as u64);
        let fail_s = u64_to_string(fail_count as u64);
        let mut summary = concat2(ok_s.as_str(), " OK, ");
        summary.append(warn_s.as_str());
        summary.append(" WARN, ");
        summary.append(fail_s.as_str());
        summary.append(" FAIL");
        DoctorReport {
            checks,
            ok_count,
            warn_count,
            fail_count,
            summary,
            recommended_actions: actions,
        }
    }
}

proof fn lemma_counts_add_up(s: Seq<DoctorCheck>)
    ensures
        count_status(s, DoctorCheckStatus::Pass) + count_status(s, DoctorCheckStatus::Warn)
            + count_status(s, DoctorCheckStatus::Fail) == s.len(),
    decreases s.len(),
{
    if s.len() > 0 {
        lemma_counts_add_up(s.drop_last());
    }
}

/// Every check is counted exactly once in a report.
pub proof fn lemma_report_counts_every_check(checks: Seq<DoctorCheck>, r: DoctorReport)
    requires
        r.ok_count == count_status(checks, DoctorCheckStatus::Pass),
        r.warn_count == count_status(checks, DoctorCheckStatus::Warn),
        r.fail_count == count_status(checks, DoctorCheckStatus::Fail),
    ensures
        r.ok_count + r.warn_count + r.fail_count == checks.len(),
{
    lemma_counts_add_up(checks);
}

// ----- the individual checks -----

pub open spec fn backend_check(c: Config) -> CheckView {
    match backend_result(c) {
        Ok(b) => ok_view("backend"@, "backend recognized: "@ + backend_label(b)),
        Err(e) => fail_view("backend"@, config_error_text(e, c), None),
    }
}

/// Whether the configured backend is recognised.
pub fn check_backend(config: &Config) -> (r: DoctorCheck)
    ensures
        check_view(r) == backend_check(*config),
{
    match config.effective_backend() {
        Ok(backend) => {
            let m = concat2("backend recognized: ", backend.as_str());
            DoctorCheck::ok("backend", m.as_str())
        },
        Err(e) => {
            let m = e.message(config);
            DoctorCheck::fail("backend", m.as_str(), None)
        },
    }
}

pub open spec fn or_unknown(o: Option<Seq<char>>) -> Seq<char> {
    match o {
        Some(s) => s,
        None => "unknown"@,
    }
}

pub open spec fn session_check(p: SystemProbe) -> CheckView {
    let desktop = if p.hyprland_signature {
        "Hyprland"@
    } else {
        or_unknown(opt_view(p.current_desktop))
    };
    ok_view(
        "session"@,
        "session: "@ + or_unknown(opt_view(p.session_type)) + ", compositor/desktop: "@ + desktop,
    )
}

fn or_unknown_exec(o: &Option<String>) -> (r: String)
    ensures
        r@ == or_unknown(opt_view(*o)),
{
    match o {
        Some(s) => s.clone(),
        None => owned("unknown"),
    }
}

/// The session type and compositor.
pub fn check_session(probe: &SystemProbe) -> (r: DoctorCheck)
    ensures
        check_view(r) == session_check(*probe),
{
    let session = or_unknown_exec(&probe.session_type);
    let desktop = if probe.hyprland_signature {
        owned("Hyprland")
    } else {
        or_unknown_exec(&probe.current_desktop)
    };
    let mut m = concat2("session: ", session.as_str());
    m.append(", compositor/desktop: ");
    m.append(desktop.as_str());
    DoctorCheck::ok("session", m.as_str())
}

/// The login shell.
pub fn check_shell(probe: &SystemProbe) -> (r: DoctorCheck)
    ensures
        check_view(r) == ok_view("shell"@, "shell: "@ + or_unknown(opt_view(probe.shell))),
{
    let shell = or_unknown_exec(&probe.shell);
    let m = concat2("shell: ", shell.as_str());
    DoctorCheck::ok("shell", m.as_str())
}

pub open spec fn path_setup_hint() -> Seq<char> {
    "Run directly with: ~/.cargo/bin/v8q status\nFor bash: echo 'export PATH=\"$HOME/.cargo/bin:$PATH\"' >> ~/.bashrc && source ~/.bashrc\nFor zsh:  echo 'export PATH=\"$HOME/.cargo/bin:$PATH\"' >> ~/.zshrc && source ~/.zshrc"@
}

pub open spec fn v8q_path_check(path: Option<Seq<char>>) -> CheckView {
    match path {
        Some(p) => ok_view("v8q-path"@, "v8q found in PATH: "@ + p),
        None => warn_view("v8q-path"@, "v8q is not in PATH"@, Some(path_setup_hint())),
    }
}

/// Whether `v8q` is on `$PATH`.
pub fn check_v8q_on_path(path: &Option<String>) -> (r: DoctorCheck)
    ensures
        check_view(r) == v8q_path_check(opt_view(*path)),
{
    match path {
        Some(p) => {
            let m = concat2("v8q found in PATH: ", p.as_str());
            DoctorCheck::ok("v8q-path", m.as_str())
        },
        None => DoctorCheck::warn(
            "v8q-path",
            "v8q is not in PATH",
            Some(
                owned(
                    "Run directly with: ~/.cargo/bin/v8q status\nFor bash: echo 'export PATH=\"$HOME/.cargo/bin:$PATH\"' >> ~/.bashrc && source ~/.bashrc\nFor zsh:  echo 'export PATH=\"$HOME/.cargo/bin:$PATH\"' >> ~/.zshrc && source ~/.zshrc",
                ),
            ),
        ),
    }
}

pub open spec fn current_exe_check(exe: Result<String, String>) -> CheckView {
    match exe {
        Ok(p) => ok_view("current-exe"@, "current executable: "@ + p@),
        Err(e) => warn_view("current-exe"@, "could not resolve current executable"@, Some(e@)),
    }
}

/// The running executable.
pub fn check_current_exe(exe: &Result<String, String>) -> (r: DoctorCheck)
    ensures
        check_view(r) == current_exe_check(*exe),
{
    match exe {
        Ok(p) => {
            let m = concat2("current executable: ", p.as_str());
            DoctorCheck::ok("current-exe", m.as_str())
        },
        Err(e) => DoctorCheck::warn("current-exe", "could not resolve current executable", Some(e.clone())),
    }
}

pub open spec fn cargo_path_hint() -> Seq<char> {
    "Add this to ~/.bashrc:\nexport PATH=\"$HOME/.cargo/bin:$PATH\"\nThen run: source ~/.bashrc"@
}

pub open spec fn cargo_bin_check(home: Option<Seq<char>>, exists: bool, in_path: bool) -> CheckView {
    match home {
        None => warn_view("cargo-bin"@, "could not locate home directory"@, None),
        Some(h) => if !exists {
            warn_view("cargo-bin"@, "~/.cargo/bin does not exist"@, Some("Run: cargo install --path ."@))
        } else if in_path {
            ok_view("cargo-bin"@, "~/.cargo/bin is in PATH: "@ + join(h, ".cargo/bin"@))
        } else {
            warn_view("cargo-bin"@, "~/.cargo/bin is not in PATH"@, Some(cargo_path_hint()))
        },
    }
}

/// Whether `~/.cargo/bin` exists and is on `$PATH`.
pub fn check_cargo_bin(probe: &SystemProbe) -> (r: DoctorCheck)
    ensures
        check_view(r) == cargo_bin_check(opt_view(probe.home), probe.cargo_bin_exists, probe.cargo_bin_in_path),
{
    let home = match &probe.home {
        Some(h) => h,
        None => {
            return DoctorCheck::warn("cargo-bin", "could not locate home directory", None);
        },
    };
    if !probe.cargo_bin_exists {
        return DoctorCheck::warn(
            "cargo-bin",
            "~/.cargo/bin does not exist",
            Some(owned("Run: cargo install --path .")),
        );
    }
    if probe.cargo_bin_in_path {
        let cargo_bin = join_path(home.as_str(), ".cargo/bin");
        let m = concat2("~/.cargo/bin is in PATH: ", cargo_bin.as_str());
        DoctorCheck::ok("cargo-bin", m.as_str())
    } else {
        DoctorCheck::warn(
            "cargo-bin",
            "~/.cargo/bin is not in PATH",
            Some(owned("Add this to ~/.bashrc:\nexport PATH=\"$HOME/.cargo/bin:$PATH\"\nThen run: source ~/.bashrc")),
        )
    }
}

/// The install hint for a missing command.
pub open spec fn install_hint_spec(command: Seq<char>) -> Option<Seq<char>> {
    if command == "ffmpeg"@ {
        Some("Install on Arch/Omarchy: sudo pacman -S ffmpeg"@)
    } else if command == "wl-screenrec"@ {
        Some("Install on Arch/Omarchy: paru -S wl-screenrec"@)
    } else {
        None
    }
}

/// How to install a missing command, where V8Q knows.
pub fn install_hint(command: &str) -> (r: Option<String>)
    ensures
        opt_view(r) == install_hint_spec(command@),
{
    if str_eq(command, "ffmpeg") {
        Some(owned("Install on Arch/Omarchy: sudo pacman -S ffmpeg"))
    } else if str_eq(command, "wl-screenrec") {
        Some(owned("Install on Arch/Omarchy: paru -S wl-screenrec"))
    } else {
        None
    }
}

pub open spec fn command_check(command: Seq<char>, path: Option<Seq<char>>) -> CheckView {
    match path {
        Some(p) => ok_view(command, command + " found: "@ + p),
        None => fail_view(command, command + " not found"@, install_hint_spec(command)),
    }
}

/// Whether a command is installed.
pub fn check_command(command: &str, path: &Option<String>) -> (r: DoctorCheck)
    ensures
        check_view(r) == command_check(command@, opt_view(*path)),
{
    match path {
        Some(p) => {
            let m = concat3(command, " found: ", p.as_str());
            DoctorCheck::ok(command, m.as_str())
        },
        None => {
            let m = concat2(command, " not found");
            DoctorCheck::fail(command, m.as_str(), install_hint(command))
        },
    }
}

/// The path recorded for a command; unknown commands were not found.
pub open spec fn lookup_path(ls: Seq<CommandLookup>, name: Seq<char>) -> Option<Seq<char>>
    decreases ls.len(),
{
    if ls.len() == 0 {
        None
    } else if ls[0].name@ == name {
        opt_view(ls[0].path)
    } else {
        lookup_path(ls.drop_first(), name)
    }
}

fn find_command(ls: &Vec<CommandLookup>, name: &str) -> (r: Option<String>)
    ensures
        opt_view(r) == lookup_path(ls@, name@),
{
    let mut i: usize = 0;
    assert(ls@.subrange(0, ls@.len() as int) == ls@);
    while i < ls.len()
        invariant
            i <= ls.len(),
            lookup_path(ls@, name@) == lookup_path(ls@.subrange(i as int, ls@.len() as int), name@),
        decreases ls.len() - i,
    {
        assert(ls@.subrange(i as int, ls@.len() as int).drop_first() == ls@.subrange(i + 1, ls@.len() as int));
        if str_eq(ls[i].name.as_str(), name) {
            return crate::config::copy_opt_string(&ls[i].path);
        }
        i = i + 1;
    }
    None
}

/// The flags that are not in the help text, in order.
pub open spec fn missing_flags(flags: Seq<Seq<char>>, help: Seq<char>) -> Seq<Seq<char>>
    decreases flags.len(),
{
    if flags.len() == 0 {
        flags
    } else if contains(help, flags.last()) {
        missing_flags(flags.drop_last(), help)
    } else {
        missing_flags(flags.drop_last(), help).push(flags.last())
    }
}

pub open spec fn flag_views(flags: Seq<&'static str>) -> Seq<Seq<char>> {
    flags.map_values(|f: &'static str| f@)
}

fn missing(flags: &Vec<&'static str>, help: &str) -> (r: Vec<String>)
    ensures
        views(r@) == missing_flags(flag_views(flags@), help@),
{
    let ghost fv = flag_views(flags@);
    let mut r: Vec<String> = Vec::new();
    let mut i: usize = 0;
    while i < flags.len()
        invariant
            fv == flag_views(flags@),
            i <= flags.len(),
            views(r@) == missing_flags(fv.take(i as int), help@),
        decreases flags.len() - i,
    {
        assert(fv.take(i + 1).drop_last() =~= fv.take(i as int));
        assert(fv.take(i + 1).last() == flags@[i as int]@);
        if !contains_str(help, flags[i]) {
            let ghost before = r@;
            r.push(owned(flags[i]));
            assert(views(r@) =~= views(before).push(flags@[i as int]@));
        }
        i = i + 1;
    }
    assert(fv.take(i as int) =~= fv);
    r
}

fn prefixed_lines(items: &Vec<String>, prefix: &str, suffix: &str) -> (r: String)
    ensures
        r@ == joined(views(items@).map_values(|f: Seq<char>| prefix@ + f + suffix@), "\n"@),
{
    let mut lines: Vec<String> = Vec::new();
    let mut i: usize = 0;
    while i < items.len()
        invariant
            i <= items.len(),
            lines@.len() == i,
            forall|k: int| 0 <= k < i ==> #[trigger] lines@[k]@ == prefix@ + items@[k]@ + suffix@,
        decreases items.len() - i,
    {
        lines.push(concat3(prefix, items[i].as_str(), suffix));
        i = i + 1;
    }
    assert(lines@.map_values(|s: String| s@) =~= views(items@).map_values(
        |f: Seq<char>| prefix@ + f + suffix@,
    ));
    join_strings(&lines, "\n")
}

pub open spec fn install_wl_screenrec_hint() -> Seq<char> {
    "Install wl-screenrec, then rerun: v8q doctor"@
}

pub open spec fn required_flags_check(flags: Seq<Seq<char>>, help: Option<Seq<char>>) -> CheckView {
    match help {
        None => warn_view("wl-screenrec-help"@, "could not inspect wl-screenrec --help"@, Some(install_wl_screenrec_hint())),
        Some(h) => if missing_flags(flags, h).len() == 0 {
            ok_view("wl-screenrec-flags"@, "wl-screenrec supports required flags"@)
        } else {
            fail_view(
                "wl-screenrec-flags"@,
                "wl-screenrec is missing flags used by V8Q"@,
                Some(joined(missing_flags(flags, h).map_values(|f: Seq<char>| "missing "@ + f + ""@), "\n"@)),
            )
        },
    }
}

/// Whether wl-screenrec offers the flags V8Q needs.
pub fn check_wl_screenrec_flags(flags: &Vec<&'static str>, help: &Option<String>) -> (r: DoctorCheck)
    ensures
        check_view(r) == required_flags_check(flag_views(flags@), opt_view(*help)),
{
    let help = match help {
        Some(h) => h,
        None => {
            return DoctorCheck::warn(
                "wl-screenrec-help",
                "could not inspect wl-screenrec --help",
                Some(owned("Install wl-screenrec, then rerun: v8q doctor")),
            );
        },
    };
    let m = missing(flags, help.as_str());
    if m.len() == 0 {
        DoctorCheck::ok("wl-screenrec-flags", "wl-screenrec supports required flags")
    } else {
        let hint = prefixed_lines(&m, "missing ", "");
        DoctorCheck::fail("wl-screenrec-flags", "wl-screenrec is missing flags used by V8Q", Some(hint))
    }
}

pub open spec fn optional_flags_check(flags: Seq<Seq<char>>, help: Option<Seq<char>>) -> CheckView {
    match help {
        None => warn_view(
            "wl-screenrec-optional-flags"@,
            "could not inspect optional wl-screenrec flags"@,
            Some(install_wl_screenrec_hint()),
        ),
        Some(h) => if missing_flags(flags, h).len() == 0 {
            ok_view("wl-screenrec-optional-flags"@, "optional wl-screenrec flags available"@)
        } else {
            warn_view(
                "wl-screenrec-optional-flags"@,
                "optional wl-screenrec flags not available"@,
                Some(joined(missing_flags(flags, h).map_values(|f: Seq<char>| ""@ + f + " not found; V8Q does not pass it by default"@), "\n"@)),
            )
        },
    }
}

/// Which optional wl-screenrec flags are missing.
pub fn check_wl_screenrec_optional_flags(flags: &Vec<&'static str>, help: &Option<String>) -> (r: DoctorCheck)
    ensures
        check_view(r) == optional_flags_check(flag_views(flags@), opt_view(*help)),
{
    let help = match help {
        Some(h) => h,
        None => {
            return DoctorCheck::warn(
                "wl-screenrec-optional-flags",
                "could not inspect optional wl-screenrec flags",
                Some(owned("Install wl-screenrec, then rerun: v8q doctor")),
            );
        },
    };
    let m = missing(flags, help.as_str());
    if m.len() == 0 {
        DoctorCheck::ok("wl-screenrec-optional-flags", "optional wl-screenrec flags available")
    } else {
        let hint = prefixed_lines(&m, "", " not found; V8Q does not pass it by default");
        DoctorCheck::warn("wl-screenrec-optional-flags", "optional wl-screenrec flags not available", Some(hint))
    }
}

pub open spec fn nvenc_hint() -> Seq<char> {
    "For NVIDIA NVENC, confirm your NVIDIA driver and FFmpeg build support NVENC.\nTry: ffmpeg -hide_banner -encoders | grep nvenc"@
}

pub open spec fn encoder_check(encoder: Seq<char>, encoders: Option<Seq<char>>) -> CheckView {
    match encoders {
        None => fail_view("ffmpeg-encoder"@, "could not inspect ffmpeg encoders"@, Some("Install ffmpeg: sudo pacman -S ffmpeg"@)),
        Some(out) => if contains(out, encoder) {
            ok_view("ffmpeg-encoder"@, "ffmpeg encoder available: "@ + encoder)
        } else {
            fail_view("ffmpeg-encoder"@, "ffmpeg encoder not found: "@ + encoder, Some(nvenc_hint()))
        },
    }
}

/// Whether FFmpeg offers the encoder.
pub fn check_ffmpeg_encoder(encoder: &str, encoders: &Option<String>) -> (r: DoctorCheck)
    ensures
        check_view(r) == encoder_check(encoder@, opt_view(*encoders)),
{
    match encoders {
        None => DoctorCheck::fail(
            "ffmpeg-encoder",
            "could not inspect ffmpeg encoders",
            Some(owned("Install ffmpeg: sudo pacman -S ffmpeg")),
        ),
        Some(out) => if contains_str(out.as_str(), encoder) {
            let m = concat2("ffmpeg encoder available: ", encoder);
            DoctorCheck::ok("ffmpeg-encoder", m.as_str())
        } else {
            let m = concat2("ffmpeg encoder not found: ", encoder);
            DoctorCheck::fail(
                "ffmpeg-encoder",
                m.as_str(),
                Some(owned("For NVIDIA NVENC, confirm your NVIDIA driver and FFmpeg build support NVENC.\nTry: ffmpeg -hide_banner -encoders | grep nvenc")),
            )
        },
    }
}

/// How many lines of the text mention `.monitor`.
pub open spec fn monitor_count(pieces: Seq<Seq<char>>) -> nat
    decreases pieces.len(),
{
    if pieces.len() == 0 {
        0
    } else {
        monitor_count(pieces.drop_last()) + if contains(pieces.last(), ".monitor"@) {
            1nat
        } else {
            0nat
        }
    }
}

pub open spec fn audio_check(c: Config, sources: Option<Seq<char>>) -> CheckView {
    match sources {
        None => warn_view("audio"@, "could not inspect pactl sources"@, Some("Install/check pipewire-pulse and pactl"@)),
        Some(out) => {
            let n = monitor_count(split_on(out, '\n'));
            if c.wl_screenrec.audio && n == 0 {
                warn_view("audio"@, "audio enabled but no .monitor source found"@, Some("Run: pactl list short sources"@))
            } else if c.wl_screenrec.audio && c.wl_screenrec.audio_device@ != "default"@ && !contains(out, c.wl_screenrec.audio_device@) {
                warn_view("audio"@, "configured audio_device was not found"@, Some(c.wl_screenrec.audio_device@))
            } else {
                ok_view("audio"@, "pactl sources available; monitor sources: "@ + decimal(n))
            }
        },
    }
}

/// Whether audio capture has a source to record.
pub fn check_audio(config: &Config, sources: &Option<String>) -> (r: DoctorCheck)
    ensures
        check_view(r) == audio_check(*config, opt_view(*sources)),
{
    let out = match sources {
        Some(o) => o,
        None => {
            return DoctorCheck::warn(
                "audio",
                "could not inspect pactl sources",
                Some(owned("Install/check pipewire-pulse and pactl")),
            );
        },
    };
    let lines = split_char(out.as_str(), '\n');
    let ghost pieces = split_on(out@, '\n');
    let mut count: u64 = 0;
    let mut i: usize = 0;
    while i < lines.len()
        invariant
            pieces == split_on(out@, '\n'),
            lines@.len() == pieces.len(),
            forall|k: int| 0 <= k < lines@.len() ==> #[trigger] lines@[k]@ == pieces[k],
            i <= lines.len(),
            count == monitor_count(pieces.take(i as int)),
            count <= i,
        decreases lines.len() - i,
    {
        assert(pieces.take(i + 1).drop_last() =~= pieces.take(i as int));
        if contains_str(lines[i].as_str(), ".monitor") {
            count = count + 1;
        }
        i = i + 1;
    }
    assert(pieces.take(i as int) =~= pieces);
    let w = &config.wl_screenrec;
    if w.audio && count == 0 {
        return DoctorCheck::warn(
            "audio",
            "audio enabled but no .monitor source found",
            Some(owned("Run: pactl list short sources")),
        );
    }
    if w.audio && !str_eq(w.audio_device.as_str(), "default") && !contains_str(out.as_str(), w.audio_device.as_str()) {
        return DoctorCheck::warn("audio", "configured audio_device was not found", Some(w.audio_device.clone()));
    }
    let n = u64_to_string(count);
    let m = concat2("pactl sources available; monitor sources: ", n.as_str());
    DoctorCheck::ok("audio", m.as_str())
}

pub open spec fn audio_default_check(c: Config) -> CheckView {
    if c.wl_screenrec.audio && c.wl_screenrec.audio_device@ == "default"@ {
        warn_view(
            "audio-device"@,
            "audio_device is 'default'; wl-screenrec may fail on some PipeWire setups"@,
            Some("Prefer a .monitor source from `v8q audio sources`, or set `[wl_screenrec] audio = false` for testing."@),
        )
    } else {
        ok_view("audio-device"@, "wl-screenrec audio_device is explicit or audio is off"@)
    }
}

/// Warns when audio records from the `default` device.
pub fn check_audio_default(config: &Config) -> (r: DoctorCheck)
    ensures
        check_view(r) == audio_default_check(*config),
{
    if config.wl_screenrec.audio && str_eq(config.wl_screenrec.audio_device.as_str(), "default") {
        DoctorCheck::warn(
            "audio-device",
            "audio_device is 'default'; wl-screenrec may fail on some PipeWire setups",
            Some(owned("Prefer a .monitor source from `v8q audio sources`, or set `[wl_screenrec] audio = false` for testing.")),
        )
    } else {
        DoctorCheck::ok("audio-device", "wl-screenrec audio_device is explicit or audio is off")
    }
}

pub open spec fn legacy_buffer_check(c: Config, home: Option<Seq<char>>, default_buffer: Seq<char>) -> CheckView {
    let dir = expand_tilde_spec(c.paths.buffer_dir@, home);
    if path_components(dir) == path_components("/tmp/v8q-buffer"@) {
        warn_view(
            "buffer-directory"@,
            "Using legacy buffer_dir /tmp/v8q-buffer"@,
            Some("Recommended runtime buffer: "@ + default_buffer + ". Run `v8q config migrate --write` when you are ready to migrate paths."@),
        )
    } else {
        ok_view("buffer-directory"@, "buffer_dir is not using the legacy default: "@ + dir)
    }
}

/// Warns when the buffer is still the legacy `/tmp/v8q-buffer`.
pub fn check_legacy_buffer_dir(config: &Config, home: &Option<String>, default_buffer_dir: &str) -> (r: DoctorCheck)
    ensures
        check_view(r) == legacy_buffer_check(*config, opt_view(*home), default_buffer_dir@),
{
    let dir = config.paths.buffer_dir_path_in(home);
    if same_path(dir.as_str(), "/tmp/v8q-buffer") {
        let hint = concat3(
            "Recommended runtime buffer: ",
            default_buffer_dir,
            ". Run `v8q config migrate --write` when you are ready to migrate paths.",
        );
        DoctorCheck::warn("buffer-directory", "Using legacy buffer_dir /tmp/v8q-buffer", Some(hint))
    } else {
        let m = concat2("buffer_dir is not using the legacy default: ", dir.as_str());
        DoctorCheck::ok("buffer-directory", m.as_str())
    }
}

pub open spec fn multiple_outputs_hint(names: Seq<Seq<char>>) -> Seq<char> {
    "wl-screenrec may exit before recording. Set `[wl_screenrec] output = \""@ + names[0]
        + "\"` or another output from: "@ + joined(names, ", "@)
}

pub open spec fn output_selection_check(c: Config, monitors: Option<Seq<Seq<char>>>) -> CheckView {
    let w = c.wl_screenrec;
    match backend_of(c) {
        None => warn_view("wl-screenrec-output"@, "backend is invalid"@, None),
        Some(b) => if b != CaptureBackend::WlScreenrec {
            ok_view("wl-screenrec-output"@, "wl-screenrec output selection not needed"@)
        } else if w.capture_mode@ == "active-window"@ || w.capture_mode@ == "window"@ {
            ok_view("wl-screenrec-output"@, "wl-screenrec is configured to capture the active window with --geometry"@)
        } else if !blank(w.output@) || !blank(w.geometry@) {
            ok_view("wl-screenrec-output"@, "wl-screenrec output/geometry is configured"@)
        } else if w.auto_select_focused_output {
            ok_view("wl-screenrec-output"@, "wl-screenrec will auto-select the focused Hyprland output"@)
        } else {
            match monitors {
                None => warn_view(
                    "wl-screenrec-output"@,
                    "could not inspect Hyprland monitors"@,
                    Some("If wl-screenrec reports multiple displays, set `[wl_screenrec] output = \"DP-1\"` or another output from `hyprctl monitors -j`."@),
                ),
                Some(names) => if names.len() > 1 {
                    warn_view(
                        "wl-screenrec-output"@,
                        "multiple enabled displays detected and wl_screenrec.output is empty"@,
                        Some(multiple_outputs_hint(names)),
                    )
                } else {
                    ok_view("wl-screenrec-output"@, "single display detected or no explicit output needed"@)
                },
            }
        },
    }
}

/// The monitor names in what `hyprctl monitors -j` printed, if it ran.
pub open spec fn listed_monitors(o: Option<String>) -> Option<Seq<Seq<char>>> {
    match o {
        Some(t) => Some(string_names(hyprctl_monitor_fields(t@))),
        None => None,
    }
}

/// Whether wl-screenrec knows which output to record.
pub fn check_wl_screenrec_output_selection(config: &Config, monitors: &Option<String>) -> (r: DoctorCheck)
    ensures
        check_view(r) == output_selection_check(*config, listed_monitors(*monitors)),
{
    let backend = match config.effective_backend() {
        Ok(b) => b,
        Err(_) => {
            return DoctorCheck::warn("wl-screenrec-output", "backend is invalid", None);
        },
    };
    if backend != CaptureBackend::WlScreenrec {
        return DoctorCheck::ok("wl-screenrec-output", "wl-screenrec output selection not needed");
    }
    let w = &config.wl_screenrec;
    if str_eq(w.capture_mode.as_str(), "active-window") || str_eq(w.capture_mode.as_str(), "window") {
        return DoctorCheck::ok(
            "wl-screenrec-output",
            "wl-screenrec is configured to capture the active window with --geometry",
        );
    }
    if !is_blank(w.output.as_str()) || !is_blank(w.geometry.as_str()) {
        return DoctorCheck::ok("wl-screenrec-output", "wl-screenrec output/geometry is configured");
    }
    if w.auto_select_focused_output {
        return DoctorCheck::ok("wl-screenrec-output", "wl-screenrec will auto-select the focused Hyprland output");
    }
    let names = match monitors {
        Some(text) => monitor_names_from_hyprctl_json(text.as_str()),
        None => {
            return DoctorCheck::warn(
                "wl-screenrec-output",
                "could not inspect Hyprland monitors",
                Some(owned("If wl-screenrec reports multiple displays, set `[wl_screenrec] output = \"DP-1\"` or another output from `hyprctl monitors -j`.")),
            );
        },
    };
    if names.len() > 1 {
        let all = join_strings(&names, ", ");
        assert(names@.map_values(|s: String| s@) == views(names@));
        let mut hint = concat3(
            "wl-screenrec may exit before recording. Set `[wl_screenrec] output = \"",
            names[0].as_str(),
            "\"` or another output from: ",
        );
        hint.append(all.as_str());
        assert(views(names@)[0] == names@[0]@);
        DoctorCheck::warn(
            "wl-screenrec-output",
            "multiple enabled displays detected and wl_screenrec.output is empty",
            Some(hint),
        )
    } else {
        DoctorCheck::ok("wl-screenrec-output", "single display detected or no explicit output needed")
    }
}

pub open spec fn window_capture_check(c: Config, help: Option<Seq<char>>, windows: Result<Seq<WindowInfo>, Seq<char>>) -> CheckView {
    let h = match help {
        Some(t) => t,
        None => Seq::empty(),
    };
    match window_source(c) {
        None => ok_view("window-capture"@, "window capture is disabled"@),
        Some(w) => if !w.enabled {
            ok_view("window-capture"@, "window capture is disabled"@)
        } else if !contains(h, "--geometry"@) {
            fail_view("window-capture"@, "window capture requires wl-screenrec --geometry"@, Some("Update wl-screenrec or use fullscreen capture."@))
        } else if blank(w.geometry@) {
            fail_view("window-capture"@, "window capture is enabled but no geometry is configured"@, Some("Run: v8q window select"@))
        } else if w.follow {
            match selected_geometry(c, windows) {
                Ok(Some(_)) => ok_view("window-capture"@, "selected window can be resolved"@),
                Ok(None) => warn_view("window-capture"@, "window capture is enabled but no window was resolved"@, Some("Run: v8q window select"@)),
                Err(_) => fail_view("window-capture"@, "selected window could not be resolved"@, Some(crate::window::selected_error_text(c, windows))),
            }
        } else {
            ok_view("window-capture"@, "window capture uses fixed geometry: "@ + w.geometry@)
        },
    }
}

/// Whether the configured capture window can be recorded.
pub fn check_window_capture(config: &Config, help: &Option<String>, windows: &Result<Vec<WindowInfo>, String>) -> (r: DoctorCheck)
    ensures
        check_view(r) == window_capture_check(*config, opt_view(*help), list_view(*windows)),
{
    let text = match help {
        Some(t) => t.clone(),
        None => String::new(),
    };
    let window = config.effective_capture_window();
    if !window.enabled {
        return DoctorCheck::ok("window-capture", "window capture is disabled");
    }
    if !contains_str(text.as_str(), "--geometry") {
        return DoctorCheck::fail(
            "window-capture",
            "window capture requires wl-screenrec --geometry",
            Some(owned("Update wl-screenrec or use fullscreen capture.")),
        );
    }
    if is_blank(window.geometry.as_str()) {
        return DoctorCheck::fail(
            "window-capture",
            "window capture is enabled but no geometry is configured",
            Some(owned("Run: v8q window select")),
        );
    }
    if window.follow {
        match selected_window_geometry(config, windows) {
            Ok(Some(_)) => DoctorCheck::ok("window-capture", "selected window can be resolved"),
            Ok(None) => DoctorCheck::warn(
                "window-capture",
                "window capture is enabled but no window was resolved",
                Some(owned("Run: v8q window select")),
            ),
            Err(e) => DoctorCheck::fail("window-capture", "selected window could not be resolved", Some(e.message())),
        }
    } else {
        let m = concat2("window capture uses fixed geometry: ", window.geometry.as_str());
        DoctorCheck::ok("window-capture", m.as_str())
    }
}

pub open spec fn legacy_window_check(c: Config) -> CheckView {
    if c.capture_window is Some {
        warn_view(
            "legacy-capture-window"@,
            "legacy [capture_window] is present; [capture.window] takes precedence"@,
            Some("Run: v8q config migrate --write"@),
        )
    } else {
        ok_view("legacy-capture-window"@, "no legacy [capture_window] section"@)
    }
}

/// Warns about a legacy `[capture_window]` section.
pub fn check_legacy_capture_window(config: &Config) -> (r: DoctorCheck)
    ensures
        check_view(r) == legacy_window_check(*config),
{
    if config.capture_window.is_some() {
        DoctorCheck::warn(
            "legacy-capture-window",
            "legacy [capture_window] is present; [capture.window] takes precedence",
            Some(owned("Run: v8q config migrate --write")),
        )
    } else {
        DoctorCheck::ok("legacy-capture-window", "no legacy [capture_window] section")
    }
}

pub open spec fn service_check(service: Seq<char>, state: ServiceState) -> CheckView {
    match state {
        ServiceState::Active => ok_view(service, service + " active"@),
        ServiceState::Inactive(st) => fail_view(service, service + " inactive"@, Some("systemctl reported: "@ + st@)),
        ServiceState::Unavailable(e) => warn_view(service, "could not check "@ + service, Some(e@)),
    }
}

/// Whether a user service is active.
pub fn check_systemd_user_active(service: &str, state: &ServiceState) -> (r: DoctorCheck)
    ensures
        check_view(r) == service_check(service@, *state),
{
    match state {
        ServiceState::Active => {
            let m = concat2(service, " active");
            DoctorCheck::ok(service, m.as_str())
        },
        ServiceState::Inactive(st) => {
            let m = concat2(service, " inactive");
            DoctorCheck::fail(service, m.as_str(), Some(concat2("systemctl reported: ", st.as_str())))
        },
        ServiceState::Unavailable(e) => {
            let m = concat2("could not check ", service);
            DoctorCheck::warn(service, m.as_str(), Some(e.clone()))
        },
    }
}

/// The state recorded for a service; an unknown service is unavailable.
pub open spec fn lookup_service(ls: Seq<ServiceLookup>, name: Seq<char>) -> Option<ServiceState>
    decreases ls.len(),
{
    if ls.len() == 0 {
        None
    } else if ls[0].name@ == name {
        Some(ls[0].state)
    } else {
        lookup_service(ls.drop_first(), name)
    }
}

pub open spec fn service_check_in(ls: Seq<ServiceLookup>, name: Seq<char>) -> CheckView {
    match lookup_service(ls, name) {
        Some(st) => service_check(name, st),
        None => warn_view(name, "could not check "@ + name, Some("not probed"@)),
    }
}

fn service_in(ls: &Vec<ServiceLookup>, name: &str) -> (r: DoctorCheck)
    ensures
        check_view(r) == service_check_in(ls@, name@),
{
    let mut i: usize = 0;
    assert(ls@.subrange(0, ls@.len() as int) == ls@);
    while i < ls.len()
        invariant
            i <= ls.len(),
            lookup_service(ls@, name@) == lookup_service(ls@.subrange(i as int, ls@.len() as int), name@),
        decreases ls.len() - i,
    {
        assert(ls@.subrange(i as int, ls@.len() as int).drop_first() == ls@.subrange(i + 1, ls@.len() as int));
        if str_eq(ls[i].name.as_str(), name) {
            return check_systemd_user_active(name, &ls[i].state);
        }
        i = i + 1;
    }
    let m = concat2("could not check ", name);
    DoctorCheck::warn(name, m.as_str(), Some(owned("not probed")))
}

pub open spec fn directory_check(label: Seq<char>, path: Seq<char>, created: Result<(), Seq<char>>) -> CheckView {
    match created {
        Ok(_) => ok_view(label, label + " exists or can be created: "@ + path),
        Err(e) => fail_view(label, label + " cannot be created: "@ + path, Some(e)),
    }
}

pub open spec fn unit_result_view(r: Result<(), String>) -> Result<(), Seq<char>> {
    match r {
        Ok(_) => Ok(()),
        Err(e) => Err(e@),
    }
}

/// Whether a directory exists or could be created.
pub fn check_directory(label: &str, path: &str, created: &Result<(), String>) -> (r: DoctorCheck)
    ensures
        check_view(r) == directory_check(label@, path@, unit_result_view(*created)),
{
    match created {
        Ok(()) => {
            let m = concat3(label, " exists or can be created: ", path);
            DoctorCheck::ok(label, m.as_str())
        },
        Err(e) => {
            let m = concat3(label, " cannot be created: ", path);
            DoctorCheck::fail(label, m.as_str(), Some(e.clone()))
        },
    }
}

pub open spec fn parent_check(label: Seq<char>, path: Seq<char>, parent: Option<(String, Result<(), String>)>) -> CheckView {
    match parent {
        None => fail_view(label, label + " has no parent: "@ + path, None),
        Some(p) => directory_check(label, p.0@, unit_result_view(p.1)),
    }
}

/// Whether the parent directory of a file exists or could be created.
pub fn check_parent_directory(label: &str, path: &str, parent: &Option<(String, Result<(), String>)>) -> (r: DoctorCheck)
    ensures
        check_view(r) == parent_check(label@, path@, *parent),
{
    match parent {
        None => {
            let m = concat3(label, " has no parent: ", path);
            DoctorCheck::fail(label, m.as_str(), None)
        },
        Some((p, created)) => check_directory(label, p.as_str(), created),
    }
}

/// The flags without which V8Q cannot record with wl-screenrec.
pub fn required_flags() -> (r: Vec<&'static str>)
    ensures
        flag_views(r@) == seq!["--history"@, "--filename"@],
{
    let mut v: Vec<&'static str> = Vec::new();
    v.push("--history");
    v.push("--filename");
    assert(flag_views(v@) =~= seq!["--history"@, "--filename"@]);
    v
}

/// The wl-screenrec flags that V8Q passes when they exist.
pub fn optional_flags() -> (r: Vec<&'static str>)
    ensures
        flag_views(r@) == seq!["--max-fps"@, "--ffmpeg-encoder"@, "--audio"@, "--audio-device"@, "--audio-backend"@, "--audio-codec"@, "--bitrate"@, "--ffmpeg-encoder-options"@, "--output"@, "--geometry"@],
{
    let mut v: Vec<&'static str> = Vec::new();
    v.push("--max-fps");
    v.push("--ffmpeg-encoder");
    v.push("--audio");
    v.push("--audio-device");
    v.push("--audio-backend");
    v.push("--audio-codec");
    v.push("--bitrate");
    v.push("--ffmpeg-encoder-options");
    v.push("--output");
    v.push("--geometry");
    assert(flag_views(v@) =~= seq!["--max-fps"@, "--ffmpeg-encoder"@, "--audio"@, "--audio-device"@, "--audio-backend"@, "--audio-codec"@, "--bitrate"@, "--ffmpeg-encoder-options"@, "--output"@, "--geometry"@]);
    v
}

/// The first required flag that the help text lacks.
pub open spec fn first_missing_flag(flags: Seq<Seq<char>>, help: Seq<char>) -> Option<Seq<char>> {
    if missing_flags(flags, help).len() == 0 {
        None
    } else {
        Some(missing_flags(flags, help)[0])
    }
}

proof fn lemma_missing_flags_first(flags: Seq<Seq<char>>, help: Seq<char>, i: int)
    requires
        0 <= i <= flags.len(),
        forall|j: int| 0 <= j < i ==> contains(help, #[trigger] flags[j]),
    ensures
        missing_flags(flags.take(i), help).len() == 0,
    decreases i,
{
    if i > 0 {
        assert(flags.take(i).drop_last() =~= flags.take(i - 1));
        lemma_missing_flags_first(flags, help, i - 1);
    }
}

proof fn lemma_missing_flags_prefix(flags: Seq<Seq<char>>, help: Seq<char>, i: int, k: int)
    requires
        0 <= i < k <= flags.len(),
        missing_flags(flags.take(i), help).len() == 0,
        !contains(help, flags[i]),
    ensures
        missing_flags(flags.take(k), help).len() > 0,
        missing_flags(flags.take(k), help)[0] == flags[i],
    decreases k,
{
    assert(flags.take(k).drop_last() =~= flags.take(k - 1));
    if k == i + 1 {
        assert(flags.take(k).last() == flags[i]);
    } else {
        lemma_missing_flags_prefix(flags, help, i, k - 1);
    }
}

/// The text that `wl-screenrec --help` printed (its standard output and
/// error), or the error when it could not be run or failed.
pub fn wl_screenrec_help_text(output: Option<String>) -> (r: Result<String, String>)
    ensures
        match output {
            Some(t) => r matches Ok(x) && x@ == t@,
            None => r matches Err(m) && m@ == "failed to run wl-screenrec --help"@,
        },
{
    match output {
        Some(t) => Ok(t),
        None => Err(owned("failed to run wl-screenrec --help")),
    }
}

/// Checks that the help text lists every flag; the error names the first
/// flag it lacks.
pub fn wl_screenrec_help_has_flags(help: &str, flags: &Vec<&'static str>) -> (r: Result<(), String>)
    ensures
        match first_missing_flag(flag_views(flags@), help@) {
            None => r is Ok,
            Some(f) => r matches Err(m) && m@ == "wl-screenrec --help does not contain required flag "@ + f,
        },
{
    let ghost fv = flag_views(flags@);
    let mut i: usize = 0;
    while i < flags.len()
        invariant
            fv == flag_views(flags@),
            i <= flags.len(),
            forall|j: int| 0 <= j < i ==> contains(help@, #[trigger] fv[j]),
        decreases flags.len() - i,
    {
        if !contains_str(help, flags[i]) {
            proof {
                lemma_missing_flags_first(fv, help@, i as int);
                lemma_missing_flags_prefix(fv, help@, i as int, fv.len() as int);
                assert(fv.take(fv.len() as int) =~= fv);
            }
            return Err(concat2("wl-screenrec --help does not contain required flag ", flags[i]));
        }
        i = i + 1;
    }
    proof {
        lemma_missing_flags_first(fv, help@, fv.len() as int);
        assert(fv.take(fv.len() as int) =~= fv);
    }
    Ok(())
}

/// The encoder the configuration records with, or the recording encoder when
/// the backend is unknown.
pub open spec fn doctor_encoder(c: Config) -> Seq<char> {
    match backend_of(c) {
        Some(b) => encoder_for(c, b),
        None => c.recording.encoder@,
    }
}

/// The paths that the directory checks look at.
pub open spec fn expanded(c: Config, home: Option<Seq<char>>) -> (Seq<char>, Seq<char>, Seq<char>) {
    (
        expand_tilde_spec(c.paths.buffer_dir@, home),
        expand_tilde_spec(c.paths.output_dir@, home),
        expand_tilde_spec(c.paths.pid_file@, home),
    )
}

/// Every check of `v8q doctor`, in the order it reports them.
pub open spec fn all_checks(c: Config, config_path: Seq<char>, p: SystemProbe) -> Seq<CheckView> {
    let home = opt_view(p.home);
    let help = opt_view(p.wl_screenrec_help);
    let dirs = expanded(c, home);
    seq![
        ok_view("config"@, "config loaded: "@ + config_path),
        backend_check(c),
        session_check(p),
        ok_view("shell"@, "shell: "@ + or_unknown(opt_view(p.shell))),
        v8q_path_check(lookup_path(p.commands@, "v8q"@)),
        current_exe_check(p.current_exe),
        cargo_bin_check(home, p.cargo_bin_exists, p.cargo_bin_in_path),
        command_check("ffmpeg"@, lookup_path(p.commands@, "ffmpeg"@)),
        command_check("ffprobe"@, lookup_path(p.commands@, "ffprobe"@)),
        command_check("wl-screenrec"@, lookup_path(p.commands@, "wl-screenrec"@)),
        command_check("pactl"@, lookup_path(p.commands@, "pactl"@)),
        command_check("notify-send"@, lookup_path(p.commands@, "notify-send"@)),
        command_check("xdg-open"@, lookup_path(p.commands@, "xdg-open"@)),
        command_check("systemctl"@, lookup_path(p.commands@, "systemctl"@)),
        command_check("hyprctl"@, lookup_path(p.commands@, "hyprctl"@)),
        required_flags_check(seq!["--history"@, "--filename"@], help),
        optional_flags_check(seq!["--max-fps"@, "--ffmpeg-encoder"@, "--audio"@, "--audio-device"@, "--audio-backend"@, "--audio-codec"@, "--bitrate"@, "--ffmpeg-encoder-options"@, "--output"@, "--geometry"@], help),
        encoder_check(doctor_encoder(c), opt_view(p.ffmpeg_encoders)),
        encoder_check("h264_nvenc"@, opt_view(p.ffmpeg_encoders)),
        encoder_check("libx264"@, opt_view(p.ffmpeg_encoders)),
        audio_check(c, opt_view(p.pactl_sources)),
        audio_default_check(c),
        output_selection_check(c, listed_monitors(p.hyprctl_monitors)),
        window_capture_check(c, help, list_view(p.windows)),
        legacy_window_check(c),
        service_check_in(p.services@, "pipewire"@),
        service_check_in(p.services@, "wireplumber"@),
        service_check_in(p.services@, "xdg-desktop-portal"@),
        service_check_in(p.services@, "xdg-desktop-portal-hyprland"@),
        directory_check("buffer directory"@, dirs.0, unit_result_view(p.buffer_dir_created)),
        legacy_buffer_check(c, home, p.default_buffer_dir@),
        directory_check("output directory"@, dirs.1, unit_result_view(p.output_dir_created)),
        parent_check("PID file parent"@, dirs.2, p.pid_parent),
    ]
}

pub open spec fn check_views(s: Seq<DoctorCheck>) -> Seq<CheckView> {
    s.map_values(|c: DoctorCheck| check_view(c))
}

fn add_check(checks: &mut Vec<DoctorCheck>, c: DoctorCheck)
    ensures
        check_views(final(checks)@) == check_views(old(checks)@).push(check_view(c)),
{
    let ghost before = checks@;
    checks.push(c);
    assert(check_views(checks@) =~= check_views(before).push(check_view(c)));
}

/// Every check of `v8q doctor`.
#[verifier::rlimit(60)]
pub fn collect_checks(config: &Config, config_path: &str, probe: &SystemProbe) -> (r: Vec<DoctorCheck>)
    ensures
        check_views(r@) == all_checks(*config, config_path@, *probe),
{
    let mut checks: Vec<DoctorCheck> = Vec::new();
    let m = concat2("config loaded: ", config_path);
    add_check(&mut checks, DoctorCheck::ok("config", m.as_str()));
    add_check(&mut checks, check_backend(config));
    add_check(&mut checks, check_session(probe));
    add_check(&mut checks, check_shell(probe));
    add_check(&mut checks, check_v8q_on_path(&find_command(&probe.commands, "v8q")));
    add_check(&mut checks, check_current_exe(&probe.current_exe));
    add_check(&mut checks, check_cargo_bin(probe));
    add_check(&mut checks, check_command("ffmpeg", &find_command(&probe.commands, "ffmpeg")));
    add_check(&mut checks, check_command("ffprobe", &find_command(&probe.commands, "ffprobe")));
    add_check(&mut checks, check_command("wl-screenrec", &find_command(&probe.commands, "wl-screenrec")));
    add_check(&mut checks, check_command("pactl", &find_command(&probe.commands, "pactl")));
    add_check(&mut checks, check_command("notify-send", &find_command(&probe.commands, "notify-send")));
    add_check(&mut checks, check_command("xdg-open", &find_command(&probe.commands, "xdg-open")));
    add_check(&mut checks, check_command("systemctl", &find_command(&probe.commands, "systemctl")));
    add_check(&mut checks, check_command("hyprctl", &find_command(&probe.commands, "hyprctl")));
    add_check(&mut checks, check_wl_screenrec_flags(&required_flags(), &probe.wl_screenrec_help));
    add_check(&mut checks, check_wl_screenrec_optional_flags(&optional_flags(), &probe.wl_screenrec_help));
    let encoder: &str = match config.effective_encoder() {
        Ok(e) => e,
        Err(_) => config.recording.encoder.as_str(),
    };
    add_check(&mut checks, check_ffmpeg_encoder(encoder, &probe.ffmpeg_encoders));
    add_check(&mut checks, check_ffmpeg_encoder("h264_nvenc", &probe.ffmpeg_encoders));
    add_check(&mut checks, check_ffmpeg_encoder("libx264", &probe.ffmpeg_encoders));
    add_check(&mut checks, check_audio(config, &probe.pactl_sources));
    add_check(&mut checks, check_audio_default(config));
    add_check(&mut checks, check_wl_screenrec_output_selection(config, &probe.hyprctl_monitors));
    add_check(&mut checks, check_window_capture(config, &probe.wl_screenrec_help, &probe.windows));
    add_check(&mut checks, check_legacy_capture_window(config));
    add_check(&mut checks, service_in(&probe.services, "pipewire"));
    add_check(&mut checks, service_in(&probe.services, "wireplumber"));
    add_check(&mut checks, service_in(&probe.services, "xdg-desktop-portal"));
    add_check(&mut checks, service_in(&probe.services, "xdg-desktop-portal-hyprland"));
    let buffer = config.paths.buffer_dir_path_in(&probe.home);
    add_check(&mut checks, check_directory("buffer directory", buffer.as_str(), &probe.buffer_dir_created));
    add_check(&mut checks, check_legacy_buffer_dir(config, &probe.home, probe.default_buffer_dir.as_str()));
    let output = config.paths.output_dir_path_in(&probe.home);
    add_check(&mut checks, check_directory("output directory", output.as_str(), &probe.output_dir_created));
    let pid = config.paths.pid_file_path_in(&probe.home);
    add_check(&mut checks, check_parent_directory("PID file parent", pid.as_str(), &probe.pid_parent));
    assert(check_views(checks@) =~= all_checks(*config, config_path@, *probe));
    checks
}

/// Why no report could be made.
#[derive(Debug, Clone, Copy, PartialEq, Eq, Structural)]
pub enum ReportError {
    /// No user configuration directory could be found.
    NoConfigDir,
}

/// The report on a configuration whose file is at `config_path`: the checks
/// in order, their counts, the summary line and the hints of the checks that
/// did not pass.
pub open spec fn report_matches(r: DoctorReport, c: Config, config_path: Seq<char>, p: SystemProbe) -> bool {
    &&& check_views(r.checks@) == all_checks(c, config_path, p)
    &&& r.ok_count == count_status(r.checks@, DoctorCheckStatus::Pass)
    &&& r.warn_count == count_status(r.checks@, DoctorCheckStatus::Warn)
    &&& r.fail_count == count_status(r.checks@, DoctorCheckStatus::Fail)
    &&& r.summary@ == summary_text(r.ok_count as nat, r.warn_count as nat, r.fail_count as nat)
    &&& views(r.recommended_actions@) == hints_of(r.checks@)
}

/// The doctor report for the configuration file at `config_path`.
pub fn report_for(config: &Config, config_path: &str, probe: &SystemProbe) -> (r: DoctorReport)
    ensures
        report_matches(r, *config, config_path@, *probe),
{
    DoctorReport::from_checks(collect_checks(config, config_path, probe))
}

/// The doctor report for the user's configuration file; it fails only when
/// no configuration directory can be found.
pub fn run_report(config: &Config, probe: &SystemProbe) -> (r: Result<DoctorReport, ReportError>)
    ensures
        r matches Ok(rep) ==> exists|d: Seq<char>| #[trigger] report_matches(
            rep,
            *config,
            join(join(d, "v8q"@), "config.toml"@),
            *probe,
        ),
{
    let path = match Config::config_file_path() {
        Some(p) => p,
        None => {
            return Err(ReportError::NoConfigDir);
        },
    };
    let rep = report_for(config, path.as_str(), probe);
    let ghost d = choose|d: Seq<char>| path@ == #[trigger] join(join(d, "v8q"@), "config.toml"@);
    assert(report_matches(rep, *config, join(join(d, "v8q"@), "config.toml"@), *probe));
    let r: Result<DoctorReport, ReportError> = Ok(rep);
    assert(r matches Ok(x) && x == rep);
    r
}

/// The encoder check follows FFmpeg's encoder list: when the list names the
/// encoder somewhere, the check passes with "ffmpeg encoder available: …";
/// when the list is known but the encoder's name occurs nowhere in it, or the
/// list could not be read, the check fails.
pub proof fn lemma_encoder_check_follows_the_list(e: Seq<char>, out: Seq<char>)
    ensures
        (exists|i: int| 0 <= i && i + e.len() <= out.len() && #[trigger] out.subrange(i, i + e.len()) == e)
            ==> encoder_check(e, Some(out)).1 == DoctorCheckStatus::Pass && encoder_check(e, Some(out)).2
            == "ffmpeg encoder available: "@ + e,
        !(exists|i: int| 0 <= i && i + e.len() <= out.len() && #[trigger] out.subrange(i, i + e.len()) == e)
            ==> encoder_check(e, Some(out)).1 == DoctorCheckStatus::Fail && encoder_check(e, Some(out)).2
            == "ffmpeg encoder not found: "@ + e,
        encoder_check(e, None).1 == DoctorCheckStatus::Fail,
{
    if exists|i: int| 0 <= i && i + e.len() <= out.len() && #[trigger] out.subrange(i, i + e.len()) == e {
        let i = choose|i: int| 0 <= i && i + e.len() <= out.len() && #[trigger] out.subrange(i, i + e.len()) == e;
        assert(occurs_at(out, e, i));
    } else {
        assert forall|i: int| !occurs_at(out, e, i) by {
            if occurs_at(out, e, i) {
                assert(out.subrange(i, i + e.len()) == e);
            }
        }
    }
}

} // verus!
