//! Hyprland windows: choosing one by title, class or app id, resolving the
//! configured capture window to a geometry, and storing a selection.
use vstd::prelude::*;

use crate::config::{window_cleared, window_source, CaptureConfig, CaptureWindowConfig, Config};
use crate::text::{
    blank, concat2, contains, contains_str, i64_to_string, is_blank, lowercase, signed_decimal,
    str_eq, to_lowercase,
};

verus! {

/// A window as `hyprctl clients -j` reports it.
#[derive(Debug, Clone, PartialEq, Eq)]
pub struct WindowInfo {
    pub title: String,
    pub class: String,
    pub app_id: String,
    pub workspace: String,
    pub pid: Option<u32>,
    pub address: String,
    pub x: i64,
    pub y: i64,
    pub width: i64,
    pub height: i64,
}

/// Why no single window could be used.
#[derive(Debug, Clone)]
pub enum WindowError {
    /// Listing the windows failed, with the reason.
    ListFailed(String),
    /// No window matched the filter.
    NoMatch,
    /// More than one window matched; the first ten of them.
    Ambiguous(Vec<WindowInfo>),
    /// The configured window address is not among the windows.
    NotFound,
    /// Window capture is enabled with a fixed geometry that is empty.
    EmptyGeometry,
}

/// The kind of a `WindowError`.
#[derive(Debug, Clone, Copy, PartialEq, Eq, Structural)]
pub enum WindowFailure {
    ListFailed,
    NoMatch,
    Ambiguous,
    NotFound,
    EmptyGeometry,
}

pub open spec fn window_failure(e: WindowError) -> WindowFailure {
    match e {
        WindowError::ListFailed(_) => WindowFailure::ListFailed,
        WindowError::NoMatch => WindowFailure::NoMatch,
        WindowError::Ambiguous(_) => WindowFailure::Ambiguous,
        WindowError::NotFound => WindowFailure::NotFound,
        WindowError::EmptyGeometry => WindowFailure::EmptyGeometry,
    }
}

/// `x,y wxh`, the geometry wl-screenrec takes.
pub open spec fn geometry_text(w: WindowInfo) -> Seq<char> {
    signed_decimal(w.x as int) + ","@ + signed_decimal(w.y as int) + " "@ + signed_decimal(
        w.width as int,
    ) + "x"@ + signed_decimal(w.height as int)
}

/// Case-insensitive substring test.
pub open spec fn contains_ci_spec(hay: Seq<char>, needle: Seq<char>) -> bool {
    contains(lowercase(hay), lowercase(needle))
}

/// A window passes the optional title, class and app-id filters (the app-id
/// filter also accepts the class).
pub open spec fn window_passes(
    w: WindowInfo,
    title: Option<Seq<char>>,
    class: Option<Seq<char>>,
    app_id: Option<Seq<char>>,
) -> bool {
    &&& (title matches Some(t) ==> contains_ci_spec(w.title@, t))
    &&& (class matches Some(c) ==> contains_ci_spec(w.class@, c))
    &&& (app_id matches Some(a) ==> contains_ci_spec(w.app_id@, a) || contains_ci_spec(
        w.class@,
        a,
    ))
}

/// The windows that pass the filters, in order.
pub open spec fn matching(
    ws: Seq<WindowInfo>,
    title: Option<Seq<char>>,
    class: Option<Seq<char>>,
    app_id: Option<Seq<char>>,
) -> Seq<WindowInfo>
    decreases ws.len(),
{
    if ws.len() == 0 {
        ws
    } else if window_passes(ws.last(), title, class, app_id) {
        matching(ws.drop_last(), title, class, app_id).push(ws.last())
    } else {
        matching(ws.drop_last(), title, class, app_id)
    }
}

pub open spec fn opt_str_view(o: Option<&str>) -> Option<Seq<char>> {
    match o {
        Some(s) => Some(s@),
        None => None,
    }
}

/// The outcome of `select_window`: the one match, or why there is none.
pub open spec fn select_outcome(m: Seq<WindowInfo>) -> Result<WindowInfo, WindowFailure> {
    if m.len() == 0 {
        Err(WindowFailure::NoMatch)
    } else if m.len() > 1 {
        Err(WindowFailure::Ambiguous)
    } else {
        Ok(m[0])
    }
}

/// At most the first ten windows.
pub open spec fn first_ten(m: Seq<WindowInfo>) -> Seq<WindowInfo> {
    if m.len() > 10 {
        m.subrange(0, 10)
    } else {
        m
    }
}

/// The first window with the given address.
pub open spec fn first_with_address(ws: Seq<WindowInfo>, address: Seq<char>) -> Option<int>
    decreases ws.len(),
{
    if ws.len() == 0 {
        None
    } else if ws[0].address@ == address {
        Some(0)
    } else {
        match first_with_address(ws.drop_first(), address) {
            Some(i) => Some(i + 1),
            None => None,
        }
    }
}

/// A filter from a configured value: blank means no filter.
pub open spec fn filter_of(s: Seq<char>) -> Option<Seq<char>> {
    if blank(s) {
        None
    } else {
        Some(s)
    }
}

/// What the capture window resolves to, given the window list: `Ok(None)`
/// when window capture is off, the geometry of the followed window, or the
/// fixed geometry.
pub open spec fn selected_geometry(c: Config, windows: Result<Seq<WindowInfo>, Seq<char>>) -> Result<
    Option<Seq<char>>,
    WindowFailure,
> {
    match window_source(c) {
        None => Ok(None),
        Some(w) => if !w.enabled {
            Ok(None)
        } else if w.follow {
            match windows {
                Err(_) => Err(WindowFailure::ListFailed),
                Ok(ws) => if !blank(w.address@) {
                    match first_with_address(ws, w.address@) {
                        Some(i) => Ok(Some(geometry_text(ws[i]))),
                        None => Err(WindowFailure::NotFound),
                    }
                } else {
                    match select_outcome(
                        matching(ws, filter_of(w.title@), filter_of(w.class@), None),
                    ) {
                        Ok(sel) => Ok(Some(geometry_text(sel))),
                        Err(f) => Err(f),
                    }
                },
            }
        } else if blank(w.geometry@) {
            Err(WindowFailure::EmptyGeometry)
        } else {
            Ok(Some(w.geometry@))
        },
    }
}

/// The view of a window-list result.
pub open spec fn list_view(r: Result<Vec<WindowInfo>, String>) -> Result<Seq<WindowInfo>, Seq<char>> {
    match r {
        Ok(v) => Ok(v@),
        Err(e) => Err(e@),
    }
}

impl WindowInfo {
    /// A field-for-field copy.
    pub fn duplicate(&self) -> (r: Self)
        ensures
            r == *self,
    {
        WindowInfo {
            title: self.title.clone(),
            class: self.class.clone(),
            app_id: self.app_id.clone(),
            workspace: self.workspace.clone(),
            pid: self.pid,
            address: self.address.clone(),
            x: self.x,
            y: self.y,
            width: self.width,
            height: self.height,
        }
    }

    /// `x,y wxh`.
    pub fn geometry(&self) -> (r: String)
        ensures
            r@ == geometry_text(*self),
    {
        let x = i64_to_string(self.x);
        let y = i64_to_string(self.y);
        let w = i64_to_string(self.width);
        let h = i64_to_string(self.height);
        let mut r = concat2(x.as_str(), ",");
        r.append(y.as_str());
        r.append(" ");
        r.append(w.as_str());
        r.append("x");
        r.append(h.as_str());
        r
    }
}

/// Case-insensitive `hay.contains(needle)`.
pub fn contains_ci(hay: &str, needle: &str) -> (r: bool)
    ensures
        r == contains_ci_spec(hay@, needle@),
{
    let h = to_lowercase(hay);
    let n = to_lowercase(needle);
    contains_str(h.as_str(), n.as_str())
}

fn passes(w: &WindowInfo, title: Option<&str>, class: Option<&str>, app_id: Option<&str>) -> (r:
    bool)
    ensures
        r == window_passes(*w, opt_str_view(title), opt_str_view(class), opt_str_view(app_id)),
{
    (match title {
        Some(t) => contains_ci(w.title.as_str(), t),
        None => true,
    }) && (match class {
        Some(c) => contains_ci(w.class.as_str(), c),
        None => true,
    }) && (match app_id {
        Some(a) => contains_ci(w.app_id.as_str(), a) || contains_ci(w.class.as_str(), a),
        None => true,
    })
}

/// The single window that passes the filters; `NoMatch` when none does,
/// `Ambiguous` with the first ten matches when several do.
pub fn select_window(
    windows: &Vec<WindowInfo>,
    title: Option<&str>,
    class: Option<&str>,
    app_id: Option<&str>,
) -> (r: Result<WindowInfo, WindowError>)
    ensures
        ({
            let m = matching(windows@, opt_str_view(title), opt_str_view(class), opt_str_view(app_id));
            match select_outcome(m) {
                Ok(w) => r matches Ok(x) && x == w,
                Err(f) => r matches Err(e) && window_failure(e) == f && (e matches WindowError::Ambiguous(c) ==> c@ == first_ten(m)),
            }
        }),
{
    let ghost t = opt_str_view(title);
    let ghost c = opt_str_view(class);
    let ghost a = opt_str_view(app_id);
    let mut matches: Vec<WindowInfo> = Vec::new();
    let mut i: usize = 0;
    while i < windows.len()
        invariant
            i <= windows.len(),
            t == opt_str_view(title),
            c == opt_str_view(class),
            a == opt_str_view(app_id),
            matches@ == matching(windows@.take(i as int), t, c, a),
        decreases windows.len() - i,
    {
        assert(windows@.take(i + 1).drop_last() == windows@.take(i as int));
        assert(windows@.take(i + 1).last() == windows@[i as int]);
        if passes(&windows[i], title, class, app_id) {
            matches.push(windows[i].duplicate());
        }
        i = i + 1;
    }
    assert(windows@.take(i as int) == windows@);
    if matches.len() == 0 {
        return Err(WindowError::NoMatch);
    }
    if matches.len() > 1 {
        matches.truncate(10);
        return Err(WindowError::Ambiguous(matches));
    }
    Ok(matches.remove(0))
}

fn find_address(windows: &Vec<WindowInfo>, address: &str) -> (r: Option<usize>)
    ensures
        match first_with_address(windows@, address@) {
            Some(i) => r matches Some(j) && j == i && 0 <= i < windows@.len(),
            None => r is None,
        },
{
    let mut i: usize = 0;
    proof {
        lemma_first_with_address_bound(windows@, address@);
    }
    assert(windows@.subrange(0, windows@.len() as int) == windows@);
    while i < windows.len()
        invariant
            i <= windows.len(),
            first_with_address(windows@, address@) == (match first_with_address(
                windows@.subrange(i as int, windows@.len() as int),
                address@,
            ) {
                Some(k) => Some(k + i),
                None => None,
            }),
        decreases windows.len() - i,
    {
        let ghost rest = windows@.subrange(i as int, windows@.len() as int);
        assert(rest.drop_first() == windows@.subrange(i + 1, windows@.len() as int));
        if str_eq(windows[i].address.as_str(), address) {
            return Some(i);
        }
        i = i + 1;
    }
    None
}

proof fn lemma_first_with_address_bound(ws: Seq<WindowInfo>, address: Seq<char>)
    ensures
        first_with_address(ws, address) matches Some(i) ==> 0 <= i < ws.len() && ws[i].address@
            == address,
    decreases ws.len(),
{
    if ws.len() > 0 && ws[0].address@ != address {
        lemma_first_with_address_bound(ws.drop_first(), address);
    }
}

/// The geometry to capture for the configured window: `None` when window
/// capture is off. `windows` is the current window list (or why it could not
/// be read); it is only consulted for a followed window.
pub fn selected_window_geometry(config: &Config, windows: &Result<Vec<WindowInfo>, String>) -> (r:
    Result<Option<String>, WindowError>)
    ensures
        match selected_geometry(*config, list_view(*windows)) {
            Ok(g) => r matches Ok(x) && match g {
                Some(s) => x matches Some(y) && y@ == s,
                None => x is None,
            },
            Err(f) => r matches Err(e) && window_failure(e) == f && (e matches WindowError::ListFailed(m) ==> windows matches Err(m2) && m == m2)
                && window_error_text(e) == selected_error_text(*config, list_view(*windows)),
        },
{
    let window = config.effective_capture_window();
    if !window.enabled {
        return Ok(None);
    }
    if window.follow {
        let ws = match windows {
            Ok(ws) => ws,
            Err(e) => {
                return Err(WindowError::ListFailed(e.clone()));
            },
        };
        if !is_blank(window.address.as_str()) {
            let found = find_address(ws, window.address.as_str());
            proof {
                lemma_first_with_address_bound(ws@, window.address@);
                assert(list_view(*windows) == Ok::<Seq<WindowInfo>, Seq<char>>(ws@));
            }
            match found {
                Some(i) => {
                    assert(first_with_address(ws@, window.address@) is Some);
                    let g = ws[i].geometry();
                    assert(window_source(*config) == Some(window));
                    assert(first_with_address(ws@, window.address@) == Some(i as int));
                    return Ok(Some(g));
                },
                None => {
                    return Err(WindowError::NotFound);
                },
            }
        }
        let title = if is_blank(window.title.as_str()) {
            None
        } else {
            Some(window.title.as_str())
        };
        let class = if is_blank(window.class.as_str()) {
            None
        } else {
            Some(window.class.as_str())
        };
        let selected = select_window(ws, title, class, None)?;
        return Ok(Some(selected.geometry()));
    }
    if is_blank(window.geometry.as_str()) {
        return Err(WindowError::EmptyGeometry);
    }
    Ok(Some(window.geometry.clone()))
}

/// The configuration after selecting `window`: a fixed-geometry
/// `[capture.window]` for it, the legacy section removed, and wl-screenrec
/// switched to geometry capture.
pub open spec fn window_applied(c: Config, r: Config, w: WindowInfo) -> bool {
    window_applied_with(c, r, w, false)
}

/// The window selected for capture, following it or not; the rest of the
/// configuration is kept.
pub open spec fn window_applied_with(c: Config, r: Config, w: WindowInfo, follow: bool) -> bool {
    &&& r.capture matches Some(cap) && cap.window matches Some(win) && {
        &&& win.enabled
        &&& win.title == w.title
        &&& win.class == w.class
        &&& win.address == w.address
        &&& win.geometry@ == geometry_text(w)
        &&& win.follow == follow
        &&& cap.backend@ == (match c.capture {
            Some(old) => old.backend@,
            None => "wl-screenrec"@,
        })
    }
    &&& r.capture_window is None
    &&& r.wl_screenrec.capture_mode@ == "geometry"@
    &&& r.wl_screenrec.geometry@ == geometry_text(w)
    &&& r.recording == c.recording
    &&& r.paths == c.paths
    &&& r.ffmpeg == c.ffmpeg
    &&& r.ui == c.ui
    &&& r.notifications == c.notifications
    &&& r.wl_screenrec.auto_select_focused_output == c.wl_screenrec.auto_select_focused_output
    &&& r.wl_screenrec.output == c.wl_screenrec.output
    &&& r.wl_screenrec.audio == c.wl_screenrec.audio
    &&& r.wl_screenrec.audio_device == c.wl_screenrec.audio_device
    &&& r.wl_screenrec.audio_backend == c.wl_screenrec.audio_backend
    &&& r.wl_screenrec.ffmpeg_encoder == c.wl_screenrec.ffmpeg_encoder
    &&& r.wl_screenrec.ffmpeg_encoder_options == c.wl_screenrec.ffmpeg_encoder_options
    &&& r.wl_screenrec.bitrate == c.wl_screenrec.bitrate
    &&& r.wl_screenrec.extra_args == c.wl_screenrec.extra_args
}

/// Stores `window` as the capture window.
pub fn apply_selected_window(config: &mut Config, window: &WindowInfo)
    ensures
        window_applied(*old(config), *final(config), *window),
{
    let mut capture = match config.capture.take() {
        Some(cap) => cap,
        None => CaptureConfig::default(),
    };
    capture.window = Some(
        CaptureWindowConfig {
            enabled: true,
            title: window.title.clone(),
            class: window.class.clone(),
            address: window.address.clone(),
            geometry: window.geometry(),
            follow: false,
        },
    );
    config.capture = Some(capture);
    config.capture_window = None;
    config.wl_screenrec.capture_mode = crate::text::owned("geometry");
    config.wl_screenrec.geometry = window.geometry();
}

/// The text of the error that resolving the capture window gives.
pub open spec fn selected_error_text(c: Config, windows: Result<Seq<WindowInfo>, Seq<char>>) -> Seq<char> {
    let w = window_source(c).unwrap();
    if w.follow {
        match windows {
            Err(m) => m,
            Ok(ws) => if !blank(w.address@) {
                "configured window was not found; run `v8q window select` again"@
            } else {
                let m = matching(ws, filter_of(w.title@), filter_of(w.class@), None);
                if m.len() == 0 {
                    "no window matched the requested filter"@
                } else {
                    ambiguous_text(first_ten(m))
                }
            },
        }
    } else {
        "capture.window.enabled is true, but geometry is empty; run `v8q window select`"@
    }
}

pub open spec fn ambiguous_text(ws: Seq<WindowInfo>) -> Seq<char> {
    "multiple windows matched. Use --title or --app-id with a more specific value:\n"@
        + crate::text::joined(ws.map_values(|w: WindowInfo| candidate_line(w)), "\n"@)
}

/// One candidate line of an ambiguous selection.
pub open spec fn candidate_line(w: WindowInfo) -> Seq<char> {
    "- title='"@ + w.title@ + "' class='"@ + w.class@ + "' address="@ + w.address@ + " geometry="@
        + geometry_text(w)
}

/// The text of a window error; `list_error` is the reason a failed listing
/// reported.
pub open spec fn window_error_text(e: WindowError) -> Seq<char> {
    match e {
        WindowError::ListFailed(m) => m@,
        WindowError::NoMatch => "no window matched the requested filter"@,
        WindowError::Ambiguous(ws) => ambiguous_text(ws@),
        WindowError::NotFound => "configured window was not found; run `v8q window select` again"@,
        WindowError::EmptyGeometry => "capture.window.enabled is true, but geometry is empty; run `v8q window select`"@,
    }
}

fn candidate(w: &WindowInfo) -> (r: String)
    ensures
        r@ == candidate_line(*w),
{
    let mut r = concat2("- title='", w.title.as_str());
    r.append("' class='");
    r.append(w.class.as_str());
    r.append("' address=");
    r.append(w.address.as_str());
    r.append(" geometry=");
    let g = w.geometry();
    r.append(g.as_str());
    r
}

impl WindowError {
    /// The text of the error.
    pub fn message(&self) -> (r: String)
        ensures
            r@ == window_error_text(*self),
    {
        match self {
            WindowError::ListFailed(m) => m.clone(),
            WindowError::NoMatch => crate::text::owned("no window matched the requested filter"),
            WindowError::Ambiguous(ws) => {
                let mut lines: Vec<String> = Vec::new();
                let mut i: usize = 0;
                while i < ws.len()
                    invariant
                        i <= ws.len(),
                        lines@.len() == i,
                        forall|k: int| 0 <= k < i ==> #[trigger] lines@[k]@ == candidate_line(ws@[k]),
                    decreases ws.len() - i,
                {
                    lines.push(candidate(&ws[i]));
                    i = i + 1;
                }
                assert(lines@.map_values(|s: String| s@) =~= ws@.map_values(|w: WindowInfo| candidate_line(w)));
                let joined = crate::text::join_strings(&lines, "\n");
                assert(ambiguous_text(ws@) == "multiple windows matched. Use --title or --app-id with a more specific value:\n"@
                    + crate::text::joined(lines@.map_values(|s: String| s@), "\n"@));
                concat2(
                    "multiple windows matched. Use --title or --app-id with a more specific value:\n",
                    joined.as_str(),
                )
            },
            WindowError::NotFound => crate::text::owned(
                "configured window was not found; run `v8q window select` again",
            ),
            WindowError::EmptyGeometry => crate::text::owned(
                "capture.window.enabled is true, but geometry is empty; run `v8q window select`",
            ),
        }
    }
}

/// The configuration with the window selected for capture, and whether the
/// capture follows it.
pub fn with_selected_window(config: Config, window: &WindowInfo, follow: bool) -> (r: Config)
    ensures
        window_applied_with(config, r, *window, follow),
{
    let mut next = config;
    apply_selected_window(&mut next, window);
    let mut capture = next.capture.unwrap();
    let mut win = capture.window.unwrap();
    win.follow = follow;
    capture.window = Some(win);
    next.capture = Some(capture);
    next
}

/// Window capture cleared: the capture window reset, the legacy section
/// dropped, whole-output capture, no geometry; the rest is kept.
pub open spec fn window_capture_cleared(c: Config, r: Config) -> bool {
    &&& r.capture matches Some(cap) && cap.window matches Some(win) && crate::config::window_cleared(
        win,
    ) && cap.backend@ == (match c.capture {
        Some(old) => old.backend@,
        None => "wl-screenrec"@,
    })
    &&& r.capture_window is None
    &&& r.wl_screenrec.capture_mode@ == "output"@
    &&& r.wl_screenrec.geometry@.len() == 0
    &&& r.recording == c.recording
    &&& r.paths == c.paths
    &&& r.ffmpeg == c.ffmpeg
    &&& r.ui == c.ui
    &&& r.notifications == c.notifications
    &&& r.wl_screenrec.auto_select_focused_output == c.wl_screenrec.auto_select_focused_output
    &&& r.wl_screenrec.output == c.wl_screenrec.output
    &&& r.wl_screenrec.audio == c.wl_screenrec.audio
    &&& r.wl_screenrec.audio_device == c.wl_screenrec.audio_device
    &&& r.wl_screenrec.audio_backend == c.wl_screenrec.audio_backend
    &&& r.wl_screenrec.ffmpeg_encoder == c.wl_screenrec.ffmpeg_encoder
    &&& r.wl_screenrec.ffmpeg_encoder_options == c.wl_screenrec.ffmpeg_encoder_options
    &&& r.wl_screenrec.bitrate == c.wl_screenrec.bitrate
    &&& r.wl_screenrec.extra_args == c.wl_screenrec.extra_args
}

/// The configuration with window capture cleared (`v8q window clear`).
pub fn without_capture_window(config: Config) -> (r: Config)
    ensures
        window_capture_cleared(config, r),
{
    let mut next = config;
    let mut capture = match next.capture.take() {
        Some(cap) => cap,
        None => CaptureConfig::default(),
    };
    capture.window = Some(CaptureWindowConfig::default());
    next.capture = Some(capture);
    next.capture_window = None;
    next.wl_screenrec.capture_mode = crate::text::owned("output");
    next.wl_screenrec.geometry = String::new();
    next
}

proof fn lemma_first_with_address_is(ws: Seq<WindowInfo>, address: Seq<char>, i: int)
    requires
        0 <= i < ws.len(),
        ws[i].address@ == address,
        forall|j: int| 0 <= j < i ==> (#[trigger] ws[j]).address@ != address,
    ensures
        first_with_address(ws, address) == Some(i),
    decreases ws.len(),
{
    if i > 0 {
        let rest = ws.drop_first();
        assert forall|j: int| 0 <= j < i - 1 implies (#[trigger] rest[j]).address@ != address by {
            assert(rest[j] == ws[j + 1]);
        }
        assert(ws[0].address@ != address);
        lemma_first_with_address_is(rest, address, i - 1);
    }
}

/// A followed window is captured where it is now: with window capture on,
/// following on and an address set, when the first window of the list with
/// that address is window `i`, the geometry to capture is that window's
/// current position and size, `x,y wxh`, whatever geometry was stored.
pub proof fn lemma_followed_window_geometry(c: Config, ws: Seq<WindowInfo>, i: int)
    requires
        window_source(c) matches Some(w) && w.enabled && w.follow && !blank(w.address@) && 0 <= i
            < ws.len() && ws[i].address@ == w.address@ && forall|j: int|
            0 <= j < i ==> (#[trigger] ws[j]).address@ != w.address@,
    ensures
        selected_geometry(c, Ok(ws)) == Ok::<Option<Seq<char>>, WindowFailure>(
            Some(
                signed_decimal(ws[i].x as int) + ","@ + signed_decimal(ws[i].y as int) + " "@
                    + signed_decimal(ws[i].width as int) + "x"@ + signed_decimal(ws[i].height as int),
            ),
        ),
{
    let w = window_source(c)->Some_0;
    lemma_first_with_address_is(ws, w.address@, i);
}

} // verus!
