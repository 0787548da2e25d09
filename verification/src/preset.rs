//! Named recording presets: the table, applying one to a configuration,
//! recognising the preset a configuration matches, and describing the change.
use vstd::prelude::*;

use crate::config::{views, Config};
use crate::text::{concat2, concat4, decimal, owned, str_eq, u64_to_string};

verus! {

/// A named bundle of settings; `None` leaves a setting as it is.
#[derive(Debug, Clone)]
pub struct Preset {
    pub name: &'static str,
    pub description: &'static str,
    pub audience: &'static str,
    pub risks: &'static str,
    pub fps: Option<u32>,
    pub encoder: Option<&'static str>,
    pub bitrate: Option<&'static str>,
    pub duration_seconds: Option<u64>,
    pub ffmpeg_encoder_options: Option<&'static str>,
    pub wl_screenrec_audio: Option<bool>,
    pub wl_screenrec_extra_args: Option<Vec<&'static str>>,
}

/// The views of a list of string slices.
pub open spec fn str_views(v: Seq<&'static str>) -> Seq<Seq<char>> {
    v.map_values(|s: &'static str| s@)
}

pub open spec fn opt_str(o: Option<&'static str>) -> Option<Seq<char>> {
    match o {
        Some(s) => Some(s@),
        None => None,
    }
}

pub open spec fn opt_strs(o: Option<Vec<&'static str>>) -> Option<Seq<Seq<char>>> {
    match o {
        Some(v) => Some(str_views(v@)),
        None => None,
    }
}

/// What a preset holds, as plain values: name, description, audience, risks,
/// fps, encoder, bitrate, duration, encoder options, audio, extra arguments.
pub type PresetView = (
    Seq<char>,
    Seq<char>,
    Seq<char>,
    Seq<char>,
    Option<u32>,
    Option<Seq<char>>,
    Option<Seq<char>>,
    Option<u64>,
    Option<Seq<char>>,
    Option<bool>,
    Option<Seq<Seq<char>>>,
);

/// The plain values of a preset.
pub open spec fn preset_view(p: Preset) -> PresetView {
    (
        p.name@,
        p.description@,
        p.audience@,
        p.risks@,
        p.fps,
        opt_str(p.encoder),
        opt_str(p.bitrate),
        p.duration_seconds,
        opt_str(p.ffmpeg_encoder_options),
        p.wl_screenrec_audio,
        opt_strs(p.wl_screenrec_extra_args),
    )
}

/// How many presets the table holds.
pub open spec fn preset_count() -> int {
    8
}

/// Entry `i` of the preset table.
pub open spec fn table_entry(i: int) -> PresetView {
    if i == 0 {
        (
            "beginner-safe"@,
            "Most conservative first-run preset for Hyprland/NVIDIA troubleshooting."@,
            "New users who want the highest chance of getting the first clip saved."@,
            "Lower FPS, lower bitrate, no audio, and CPU encoding; quality is intentionally modest."@,
            Some(30u32),
            Some("libx264"@),
            Some("10M"@),
            Some(20u64),
            Some("preset=veryfast,tune=zerolatency,bf=0,g=30,x264-params=level=5.2"@),
            Some(false),
            Some(seq!["--experimental-vulkan"@]),
        )
    } else if i == 1 {
        (
            "performance"@,
            "Good balance for an Nvidia gaming PC."@,
            "Most beginners with Nvidia GPUs."@,
            "Requires NVENC support in FFmpeg/wl-screenrec."@,
            Some(60u32),
            Some("h264_nvenc"@),
            Some("20M"@),
            Some(30u64),
            None,
            None,
            None,
        )
    } else if i == 2 {
        (
            "quality"@,
            "Larger, cleaner clips."@,
            "Users who prefer quality over file size."@,
            "Higher bitrate and longer duration create larger files."@,
            Some(60u32),
            Some("h264_nvenc"@),
            Some("35M"@),
            Some(60u64),
            None,
            None,
            None,
        )
    } else if i == 3 {
        (
            "low-end"@,
            "Lower impact for weaker PCs."@,
            "Older CPUs/GPUs or laptops."@,
            "Lower FPS and bitrate."@,
            Some(30u32),
            Some("h264_nvenc"@),
            Some("10M"@),
            Some(20u64),
            None,
            None,
            None,
        )
    } else if i == 4 {
        (
            "cpu"@,
            "Software encoder fallback without NVENC."@,
            "Systems where NVENC is unavailable or broken."@,
            "Uses more CPU than hardware encoding."@,
            Some(30u32),
            Some("libx264"@),
            Some("12M"@),
            None,
            None,
            None,
            None,
        )
    } else if i == 5 {
        (
            "nvidia"@,
            "Use Nvidia's H.264 encoder."@,
            "Nvidia users with working NVENC."@,
            "May fail if wl-screenrec cannot negotiate NVIDIA dmabuf formats."@,
            None,
            Some("h264_nvenc"@),
            None,
            None,
            Some("preset=p5"@),
            None,
            None,
        )
    } else if i == 6 {
        (
            "no-audio"@,
            "Disable wl-screenrec audio capture."@,
            "Debugging setups where audio breaks recording."@,
            "Clips will not include audio."@,
            None,
            None,
            None,
            None,
            None,
            Some(false),
            None,
        )
    } else {
        (
            "wl-screenrec-nvidia-compat"@,
            "Compatibility path for wl-screenrec on some NVIDIA/Hyprland systems."@,
            "Users seeing wl-screenrec format negotiation errors or history-mode x264 panics."@,
            "Uses CPU encoding and experimental Vulkan; treat as a workaround."@,
            Some(60u32),
            Some("libx264"@),
            Some("20M"@),
            None,
            Some("preset=veryfast,tune=zerolatency,bf=0,g=60,x264-params=level=5.2"@),
            Some(false),
            Some(seq!["--experimental-vulkan"@]),
        )
    }
}

/// The preset table, in the order that `find` and `detect` try it.
pub open spec fn preset_table(t: Seq<Preset>) -> bool {
    &&& t.len() == preset_count()
    &&& forall|i: int| 0 <= i < preset_count() ==> #[trigger] preset_view(t[i]) == table_entry(i)
}

/// A configuration already has every setting that the preset view fixes.
pub open spec fn settings_match(c: Config, e: PresetView) -> bool {
    &&& (e.4 matches Some(f) ==> c.recording.fps == f)
    &&& (e.5 matches Some(v) ==> c.wl_screenrec.ffmpeg_encoder@ == v)
    &&& (e.6 matches Some(b) ==> c.wl_screenrec.bitrate@ == b)
    &&& (e.7 matches Some(d) ==> c.recording.duration_seconds == d)
    &&& (e.8 matches Some(o) ==> c.wl_screenrec.ffmpeg_encoder_options@ == o)
    &&& (e.9 matches Some(a) ==> c.wl_screenrec.audio == a)
    &&& (e.10 matches Some(a) ==> views(c.wl_screenrec.extra_args@) == a)
}

/// The first table entry from `i` on that `c` matches.
pub open spec fn first_matching(c: Config, i: int) -> Option<int>
    decreases preset_count() - i,
{
    if i >= preset_count() || i < 0 {
        None
    } else if settings_match(c, table_entry(i)) {
        Some(i)
    } else {
        first_matching(c, i + 1)
    }
}

/// The first table entry from `i` on with the given name.
pub open spec fn first_named(name: Seq<char>, i: int) -> Option<int>
    decreases preset_count() - i,
{
    if i >= preset_count() || i < 0 {
        None
    } else if table_entry(i).0 == name {
        Some(i)
    } else {
        first_named(name, i + 1)
    }
}

/// A configuration already has every setting that the preset fixes.
pub open spec fn preset_matches_spec(c: Config, p: Preset) -> bool {
    settings_match(c, preset_view(p))
}

/// `r` is `c` with the preset's settings applied; everything else unchanged.
pub open spec fn applied(c: Config, r: Config, p: Preset) -> bool {
    &&& r.recording.fps == (match p.fps {
        Some(f) => f,
        None => c.recording.fps,
    })
    &&& r.recording.encoder@ == (match p.encoder {
        Some(e) => e@,
        None => c.recording.encoder@,
    })
    &&& r.wl_screenrec.ffmpeg_encoder@ == (match p.encoder {
        Some(e) => e@,
        None => c.wl_screenrec.ffmpeg_encoder@,
    })
    &&& r.recording.video_bitrate@ == (match p.bitrate {
        Some(b) => b@,
        None => c.recording.video_bitrate@,
    })
    &&& r.wl_screenrec.bitrate@ == (match p.bitrate {
        Some(b) => b@,
        None => c.wl_screenrec.bitrate@,
    })
    &&& r.recording.duration_seconds == (match p.duration_seconds {
        Some(d) => d,
        None => c.recording.duration_seconds,
    })
    &&& r.wl_screenrec.ffmpeg_encoder_options@ == (match p.ffmpeg_encoder_options {
        Some(o) => o@,
        None => c.wl_screenrec.ffmpeg_encoder_options@,
    })
    &&& r.wl_screenrec.audio == (match p.wl_screenrec_audio {
        Some(a) => a,
        None => c.wl_screenrec.audio,
    })
    &&& views(r.wl_screenrec.extra_args@) == (match p.wl_screenrec_extra_args {
        Some(a) => str_views(a@),
        None => views(c.wl_screenrec.extra_args@),
    })
    &&& r.recording.segment_seconds == c.recording.segment_seconds
    &&& r.recording.width == c.recording.width
    &&& r.recording.height == c.recording.height
    &&& r.recording.audio_codec == c.recording.audio_codec
    &&& r.paths == c.paths
    &&& r.capture == c.capture
    &&& r.capture_window == c.capture_window
    &&& r.ffmpeg == c.ffmpeg
    &&& r.ui == c.ui
    &&& r.notifications == c.notifications
    &&& r.wl_screenrec.capture_mode == c.wl_screenrec.capture_mode
    &&& r.wl_screenrec.auto_select_focused_output == c.wl_screenrec.auto_select_focused_output
    &&& r.wl_screenrec.output == c.wl_screenrec.output
    &&& r.wl_screenrec.geometry == c.wl_screenrec.geometry
    &&& r.wl_screenrec.audio_device == c.wl_screenrec.audio_device
    &&& r.wl_screenrec.audio_backend == c.wl_screenrec.audio_backend
}

/// `true` and `false` as `Display` writes them.
pub open spec fn bool_text(b: bool) -> Seq<char> {
    if b {
        "true"@
    } else {
        "false"@
    }
}

/// `{:?}` of a list of strings, as `Debug` for `Vec<String>` writes it.
pub uninterp spec fn debug_strings(v: Seq<Seq<char>>) -> Seq<char>;

/// `<label>: <old> -> <new>`.
pub open spec fn change_line(label: Seq<char>, old: Seq<char>, new: Seq<char>) -> Seq<char> {
    label + ": "@ + old + " -> "@ + new
}

pub open spec fn line_if(cond: bool, line: Seq<char>) -> Seq<Seq<char>> {
    if cond {
        seq![line]
    } else {
        Seq::empty()
    }
}

/// The lines that describe what applying `p` to `c` changes, in order.
pub open spec fn diff_lines(c: Config, p: Preset) -> Seq<Seq<char>> {
    let recording_encoder = match p.encoder {
        Some(e) => e@,
        None => c.recording.encoder@,
    };
    let recording_bitrate = match p.bitrate {
        Some(b) => b@,
        None => c.recording.video_bitrate@,
    };
    let fps = match p.fps {
        Some(f) => f,
        None => c.recording.fps,
    };
    let duration = match p.duration_seconds {
        Some(d) => d,
        None => c.recording.duration_seconds,
    };
    let encoder = match p.encoder {
        Some(e) => e@,
        None => c.wl_screenrec.ffmpeg_encoder@,
    };
    let bitrate = match p.bitrate {
        Some(b) => b@,
        None => c.wl_screenrec.bitrate@,
    };
    let options = match p.ffmpeg_encoder_options {
        Some(o) => o@,
        None => c.wl_screenrec.ffmpeg_encoder_options@,
    };
    let audio = match p.wl_screenrec_audio {
        Some(a) => a,
        None => c.wl_screenrec.audio,
    };
    let args = match p.wl_screenrec_extra_args {
        Some(a) => str_views(a@),
        None => views(c.wl_screenrec.extra_args@),
    };
    line_if(
        c.recording.fps != fps,
        change_line("recording.fps"@, decimal(c.recording.fps as nat), decimal(fps as nat)),
    ) + line_if(
        c.recording.duration_seconds != duration,
        change_line(
            "recording.duration_seconds"@,
            decimal(c.recording.duration_seconds as nat),
            decimal(duration as nat),
        ),
    ) + line_if(
        c.recording.encoder@ != recording_encoder,
        change_line("recording.encoder"@, c.recording.encoder@, recording_encoder),
    ) + line_if(
        c.recording.video_bitrate@ != recording_bitrate,
        change_line("recording.video_bitrate"@, c.recording.video_bitrate@, recording_bitrate),
    ) + line_if(
        c.wl_screenrec.ffmpeg_encoder@ != encoder,
        change_line("wl_screenrec.ffmpeg_encoder"@, c.wl_screenrec.ffmpeg_encoder@, encoder),
    ) + line_if(
        c.wl_screenrec.bitrate@ != bitrate,
        change_line("wl_screenrec.bitrate"@, c.wl_screenrec.bitrate@, bitrate),
    ) + line_if(
        c.wl_screenrec.ffmpeg_encoder_options@ != options,
        change_line(
            "wl_screenrec.ffmpeg_encoder_options"@,
            c.wl_screenrec.ffmpeg_encoder_options@,
            options,
        ),
    ) + line_if(
        c.wl_screenrec.audio != audio,
        change_line("wl_screenrec.audio"@, bool_text(c.wl_screenrec.audio), bool_text(audio)),
    ) + line_if(
        views(c.wl_screenrec.extra_args@) != args,
        change_line(
            "wl_screenrec.extra_args"@,
            debug_strings(views(c.wl_screenrec.extra_args@)),
            debug_strings(args),
        ),
    )
}

/// Each line prefixed with `- `.
pub open spec fn bulleted(lines: Seq<Seq<char>>) -> Seq<Seq<char>> {
    lines.map_values(|l: Seq<char>| "- "@ + l)
}

/// The text of `v8q preset explain`.
pub open spec fn explain_lines(c: Config, p: Preset) -> Seq<Seq<char>> {
    seq![
        "Preset: "@ + p.name@,
        "Description: "@ + p.description@,
        "For: "@ + p.audience@,
        "Risks: "@ + p.risks@,
        "Changes:"@,
    ] + if diff_lines(c, p).len() == 0 {
        seq!["- no changes from current config"@]
    } else {
        bulleted(diff_lines(c, p))
    }
}

/// `{:?}` of a list of strings (`Debug` for `Vec<String>`); its result is
/// named `debug_strings` and depends on the strings alone.
#[verifier::external_body]
fn debug_string_list(v: &Vec<String>) -> (r: String)
    ensures
        r@ == debug_strings(views(v@)),
{
    format!("{:?}", v)
}

/// The preset table.
pub fn presets() -> (r: Vec<Preset>)
    ensures
        preset_table(r@),
{
    let mut args0: Vec<&'static str> = Vec::new();
    args0.push("--experimental-vulkan");
    let mut args7: Vec<&'static str> = Vec::new();
    args7.push("--experimental-vulkan");
    let mut v: Vec<Preset> = Vec::new();
    v.push(
        Preset {
            name: "beginner-safe",
            description: "Most conservative first-run preset for Hyprland/NVIDIA troubleshooting.",
            audience: "New users who want the highest chance of getting the first clip saved.",
            risks: "Lower FPS, lower bitrate, no audio, and CPU encoding; quality is intentionally modest.",
            fps: Some(30),
            encoder: Some("libx264"),
            bitrate: Some("10M"),
            duration_seconds: Some(20),
            ffmpeg_encoder_options: Some(
                "preset=veryfast,tune=zerolatency,bf=0,g=30,x264-params=level=5.2",
            ),
            wl_screenrec_audio: Some(false),
            wl_screenrec_extra_args: Some(args0),
        },
    );
    v.push(
        Preset {
            name: "performance",
            description: "Good balance for an Nvidia gaming PC.",
            audience: "Most beginners with Nvidia GPUs.",
            risks: "Requires NVENC support in FFmpeg/wl-screenrec.",
            fps: Some(60),
            encoder: Some("h264_nvenc"),
            bitrate: Some("20M"),
            duration_seconds: Some(30),
            ffmpeg_encoder_options: None,
            wl_screenrec_audio: None,
            wl_screenrec_extra_args: None,
        },
    );
    v.push(
        Preset {
            name: "quality",
            description: "Larger, cleaner clips.",
            audience: "Users who prefer quality over file size.",
            risks: "Higher bitrate and longer duration create larger files.",
            fps: Some(60),
            encoder: Some("h264_nvenc"),
            bitrate: Some("35M"),
            duration_seconds: Some(60),
            ffmpeg_encoder_options: None,
            wl_screenrec_audio: None,
            wl_screenrec_extra_args: None,
        },
    );
    v.push(
        Preset {
            name: "low-end",
            description: "Lower impact for weaker PCs.",
            audience: "Older CPUs/GPUs or laptops.",
            risks: "Lower FPS and bitrate.",
            fps: Some(30),
            encoder: Some("h264_nvenc"),
            bitrate: Some("10M"),
            duration_seconds: Some(20),
            ffmpeg_encoder_options: None,
            wl_screenrec_audio: None,
            wl_screenrec_extra_args: None,
        },
    );
    v.push(
        Preset {
            name: "cpu",
            description: "Software encoder fallback without NVENC.",
            audience: "Systems where NVENC is unavailable or broken.",
            risks: "Uses more CPU than hardware encoding.",
            fps: Some(30),
            encoder: Some("libx264"),
            bitrate: Some("12M"),
            duration_seconds: None,
            ffmpeg_encoder_options: None,
            wl_screenrec_audio: None,
            wl_screenrec_extra_args: None,
        },
    );
    v.push(
        Preset {
            name: "nvidia",
            description: "Use Nvidia's H.264 encoder.",
            audience: "Nvidia users with working NVENC.",
            risks: "May fail if wl-screenrec cannot negotiate NVIDIA dmabuf formats.",
            fps: None,
            encoder: Some("h264_nvenc"),
            bitrate: None,
            duration_seconds: None,
            ffmpeg_encoder_options: Some("preset=p5"),
            wl_screenrec_audio: None,
            wl_screenrec_extra_args: None,
        },
    );
    v.push(
        Preset {
            name: "no-audio",
            description: "Disable wl-screenrec audio capture.",
            audience: "Debugging setups where audio breaks recording.",
            risks: "Clips will not include audio.",
            fps: None,
            encoder: None,
            bitrate: None,
            duration_seconds: None,
            ffmpeg_encoder_options: None,
            wl_screenrec_audio: Some(false),
            wl_screenrec_extra_args: None,
        },
    );
    v.push(
        Preset {
            name: "wl-screenrec-nvidia-compat",
            description: "Compatibility path for wl-screenrec on some NVIDIA/Hyprland systems.",
            audience: "Users seeing wl-screenrec format negotiation errors or history-mode x264 panics.",
            risks: "Uses CPU encoding and experimental Vulkan; treat as a workaround.",
            fps: Some(60),
            encoder: Some("libx264"),
            bitrate: Some("20M"),
            duration_seconds: None,
            ffmpeg_encoder_options: Some(
                "preset=veryfast,tune=zerolatency,bf=0,g=60,x264-params=level=5.2",
            ),
            wl_screenrec_audio: Some(false),
            wl_screenrec_extra_args: Some(args7),
        },
    );
    assert(str_views(args0@) =~= seq!["--experimental-vulkan"@]);
    assert(str_views(args7@) =~= seq!["--experimental-vulkan"@]);
    assert forall|i: int| 0 <= i < preset_count() implies #[trigger] preset_view(v@[i]) == table_entry(i) by {
    }
    v
}

proof fn lemma_first_matching_skip(c: Config, i: int, k: int)
    requires
        0 <= i <= k <= preset_count(),
        forall|j: int| i <= j < k ==> !settings_match(c, #[trigger] table_entry(j)),
    ensures
        first_matching(c, i) == first_matching(c, k),
    decreases k - i,
{
    if i < k {
        lemma_first_matching_skip(c, i + 1, k);
    }
}

proof fn lemma_first_named_skip(name: Seq<char>, i: int, k: int)
    requires
        0 <= i <= k <= preset_count(),
        forall|j: int| i <= j < k ==> (#[trigger] table_entry(j)).0 != name,
    ensures
        first_named(name, i) == first_named(name, k),
    decreases k - i,
{
    if i < k {
        lemma_first_named_skip(name, i + 1, k);
    }
}

/// The preset with the given name, the first in the table.
pub fn find(name: &str) -> (r: Option<Preset>)
    ensures
        match first_named(name@, 0) {
            Some(i) => r matches Some(p) && preset_view(p) == table_entry(i),
            None => r is None,
        },
{
    let mut table = presets();
    let mut i: usize = 0;
    while i < table.len()
        invariant
            preset_table(table@),
            i <= table.len(),
            forall|j: int| 0 <= j < i ==> (#[trigger] table_entry(j)).0 != name@,
        decreases table.len() - i,
    {
        assert(preset_view(table@[i as int]) == table_entry(i as int));
        if str_eq(table[i].name, name) {
            proof {
                lemma_first_named_skip(name@, 0, i as int);
            }
            return Some(table.remove(i));
        }
        i = i + 1;
    }
    proof {
        lemma_first_named_skip(name@, 0, preset_count());
    }
    None
}

fn args_equal(a: &Vec<String>, b: &Vec<&'static str>) -> (r: bool)
    ensures
        r == (views(a@) == str_views(b@)),
{
    if a.len() != b.len() {
        assert(views(a@).len() != str_views(b@).len());
        return false;
    }
    let mut i: usize = 0;
    while i < a.len()
        invariant
            a.len() == b.len(),
            i <= a.len(),
            forall|j: int| 0 <= j < i ==> a@[j]@ == b@[j]@,
        decreases a.len() - i,
    {
        if !str_eq(a[i].as_str(), b[i]) {
            assert(views(a@)[i as int] != str_views(b@)[i as int]);
            return false;
        }
        i = i + 1;
    }
    assert(views(a@) =~= str_views(b@));
    true
}

fn owned_args(v: &Vec<&'static str>) -> (r: Vec<String>)
    ensures
        views(r@) == str_views(v@),
{
    let mut r: Vec<String> = Vec::new();
    let mut i: usize = 0;
    while i < v.len()
        invariant
            i <= v.len(),
            views(r@) == str_views(v@.take(i as int)),
        decreases v.len() - i,
    {
        r.push(owned(v[i]));
        assert(str_views(v@.take(i + 1)) =~= str_views(v@.take(i as int)).push(v@[i as int]@));
        assert(views(r@) =~= views(r@.drop_last()).push(r@.last()@));
        i = i + 1;
    }
    assert(v@.take(i as int) == v@);
    r
}

/// Whether `config` already has every setting that `preset` fixes.
pub fn preset_matches(config: &Config, preset: &Preset) -> (r: bool)
    ensures
        r == preset_matches_spec(*config, *preset),
{
    (match preset.fps {
        Some(fps) => config.recording.fps == fps,
        None => true,
    }) && (match preset.encoder {
        Some(e) => str_eq(config.wl_screenrec.ffmpeg_encoder.as_str(), e),
        None => true,
    }) && (match preset.bitrate {
        Some(b) => str_eq(config.wl_screenrec.bitrate.as_str(), b),
        None => true,
    }) && (match preset.duration_seconds {
        Some(d) => config.recording.duration_seconds == d,
        None => true,
    }) && (match preset.ffmpeg_encoder_options {
        Some(o) => str_eq(config.wl_screenrec.ffmpeg_encoder_options.as_str(), o),
        None => true,
    }) && (match preset.wl_screenrec_audio {
        Some(a) => config.wl_screenrec.audio == a,
        None => true,
    }) && (match &preset.wl_screenrec_extra_args {
        Some(args) => args_equal(&config.wl_screenrec.extra_args, args),
        None => true,
    })
}

/// The name of the first preset that the configuration matches.
pub fn detect(config: &Config) -> (r: Option<&'static str>)
    ensures
        match first_matching(*config, 0) {
            Some(i) => r matches Some(n) && n@ == table_entry(i).0,
            None => r is None,
        },
{
    let table = presets();
    let mut i: usize = 0;
    while i < table.len()
        invariant
            preset_table(table@),
            i <= table.len(),
            forall|j: int| 0 <= j < i ==> !settings_match(*config, #[trigger] table_entry(j)),
        decreases table.len() - i,
    {
        assert(preset_view(table@[i as int]) == table_entry(i as int));
        if preset_matches(config, &table[i]) {
            proof {
                lemma_first_matching_skip(*config, 0, i as int);
            }
            return Some(table[i].name);
        }
        i = i + 1;
    }
    proof {
        lemma_first_matching_skip(*config, 0, preset_count());
    }
    None
}

/// Writes the preset's settings into the configuration.
pub fn apply(config: &mut Config, preset: &Preset)
    ensures
        applied(*old(config), *final(config), *preset),
{
    if let Some(fps) = preset.fps {
        config.recording.fps = fps;
    }
    if let Some(encoder) = preset.encoder {
        config.recording.encoder = owned(encoder);
        config.wl_screenrec.ffmpeg_encoder = owned(encoder);
    }
    if let Some(bitrate) = preset.bitrate {
        config.recording.video_bitrate = owned(bitrate);
        config.wl_screenrec.bitrate = owned(bitrate);
    }
    if let Some(duration) = preset.duration_seconds {
        config.recording.duration_seconds = duration;
    }
    if let Some(options) = preset.ffmpeg_encoder_options {
        config.wl_screenrec.ffmpeg_encoder_options = owned(options);
    }
    if let Some(audio) = preset.wl_screenrec_audio {
        config.wl_screenrec.audio = audio;
    }
    if let Some(extra_args) = &preset.wl_screenrec_extra_args {
        config.wl_screenrec.extra_args = owned_args(extra_args);
    }
}

fn bool_string(b: bool) -> (r: String)
    ensures
        r@ == bool_text(b),
{
    if b {
        owned("true")
    } else {
        owned("false")
    }
}

fn change(label: &str, old: &str, new: &str) -> (r: String)
    ensures
        r@ == change_line(label@, old@, new@),
{
    let head = concat4(label, ": ", old, " -> ");
    concat2(head.as_str(), new)
}

fn push_if(lines: &mut Vec<String>, cond: bool, line: String)
    ensures
        views(final(lines)@) == views(old(lines)@) + line_if(cond, line@),
{
    let ghost before = lines@;
    if cond {
        lines.push(line);
        assert(views(lines@) =~= views(before) + seq![line@]);
    } else {
        assert(views(lines@) =~= views(before) + Seq::<Seq<char>>::empty());
    }
}

/// The lines that describe what applying the preset would change.
#[verifier::rlimit(40)]
pub fn describe_diff(config: &Config, preset: &Preset) -> (r: Vec<String>)
    ensures
        views(r@) == diff_lines(*config, *preset),
{
    let mut lines: Vec<String> = Vec::new();
    let fps = match preset.fps {
        Some(f) => f,
        None => config.recording.fps,
    };
    let old = u64_to_string(config.recording.fps as u64);
    let new = u64_to_string(fps as u64);
    push_if(&mut lines, config.recording.fps != fps, change("recording.fps", old.as_str(), new.as_str()));
    let ghost v1 = views(lines@);
    let duration = match preset.duration_seconds {
        Some(d) => d,
        None => config.recording.duration_seconds,
    };
    let old = u64_to_string(config.recording.duration_seconds);
    let new = u64_to_string(duration);
    push_if(
        &mut lines,
        config.recording.duration_seconds != duration,
        change("recording.duration_seconds", old.as_str(), new.as_str()),
    );
    let ghost v2 = views(lines@);
    let recording_encoder: &str = match preset.encoder {
        Some(e) => e,
        None => config.recording.encoder.as_str(),
    };
    push_if(
        &mut lines,
        !str_eq(config.recording.encoder.as_str(), recording_encoder),
        change("recording.encoder", config.recording.encoder.as_str(), recording_encoder),
    );
    let recording_bitrate: &str = match preset.bitrate {
        Some(b) => b,
        None => config.recording.video_bitrate.as_str(),
    };
    push_if(
        &mut lines,
        !str_eq(config.recording.video_bitrate.as_str(), recording_bitrate),
        change("recording.video_bitrate", config.recording.video_bitrate.as_str(), recording_bitrate),
    );
    let encoder: &str = match preset.encoder {
        Some(e) => e,
        None => config.wl_screenrec.ffmpeg_encoder.as_str(),
    };
    push_if(
        &mut lines,
        !str_eq(config.wl_screenrec.ffmpeg_encoder.as_str(), encoder),
        change("wl_screenrec.ffmpeg_encoder", config.wl_screenrec.ffmpeg_encoder.as_str(), encoder),
    );
    let ghost v3 = views(lines@);
    let bitrate: &str = match preset.bitrate {
        Some(b) => b,
        None => config.wl_screenrec.bitrate.as_str(),
    };
    push_if(
        &mut lines,
        !str_eq(config.wl_screenrec.bitrate.as_str(), bitrate),
        change("wl_screenrec.bitrate", config.wl_screenrec.bitrate.as_str(), bitrate),
    );
    let ghost v4 = views(lines@);
    let options: &str = match preset.ffmpeg_encoder_options {
        Some(o) => o,
        None => config.wl_screenrec.ffmpeg_encoder_options.as_str(),
    };
    push_if(
        &mut lines,
        !str_eq(config.wl_screenrec.ffmpeg_encoder_options.as_str(), options),
        change(
            "wl_screenrec.ffmpeg_encoder_options",
            config.wl_screenrec.ffmpeg_encoder_options.as_str(),
            options,
        ),
    );
    let ghost v5 = views(lines@);
    let audio = match preset.wl_screenrec_audio {
        Some(a) => a,
        None => config.wl_screenrec.audio,
    };
    let old = bool_string(config.wl_screenrec.audio);
    let new = bool_string(audio);
    push_if(
        &mut lines,
        config.wl_screenrec.audio != audio,
        change("wl_screenrec.audio", old.as_str(), new.as_str()),
    );
    let ghost v6 = views(lines@);
    let args = match &preset.wl_screenrec_extra_args {
        Some(a) => owned_args(a),
        None => crate::config::copy_strings(&config.wl_screenrec.extra_args),
    };
    let old = debug_string_list(&config.wl_screenrec.extra_args);
    let new = debug_string_list(&args);
    push_if(
        &mut lines,
        !strings_equal(&config.wl_screenrec.extra_args, &args),
        change("wl_screenrec.extra_args", old.as_str(), new.as_str()),
    );
    proof {
        let c = *config;
        let p = *preset;
        assert(views(args@) == (match p.wl_screenrec_extra_args {
            Some(a) => str_views(a@),
            None => views(c.wl_screenrec.extra_args@),
        }));
        assert(views(lines@) =~= diff_lines(c, p));
    }
    lines
}

/// Whether two lists of strings are equal.
pub fn strings_equal(a: &Vec<String>, b: &Vec<String>) -> (r: bool)
    ensures
        r == (views(a@) == views(b@)),
{
    if a.len() != b.len() {
        assert(views(a@).len() != views(b@).len());
        return false;
    }
    let mut i: usize = 0;
    while i < a.len()
        invariant
            a.len() == b.len(),
            i <= a.len(),
            forall|j: int| 0 <= j < i ==> a@[j]@ == b@[j]@,
        decreases a.len() - i,
    {
        if !str_eq(a[i].as_str(), b[i].as_str()) {
            assert(views(a@)[i as int] != views(b@)[i as int]);
            return false;
        }
        i = i + 1;
    }
    assert(views(a@) =~= views(b@));
    true
}

/// The text of `v8q preset explain`: the preset's description and the
/// changes it would make.
pub fn explain(config: &Config, preset: &Preset) -> (r: Vec<String>)
    ensures
        views(r@) == explain_lines(*config, *preset),
{
    let mut lines: Vec<String> = Vec::new();
    lines.push(concat2("Preset: ", preset.name));
    lines.push(concat2("Description: ", preset.description));
    lines.push(concat2("For: ", preset.audience));
    lines.push(concat2("Risks: ", preset.risks));
    lines.push(owned("Changes:"));
    let diff = describe_diff(config, preset);
    if diff.len() == 0 {
        lines.push(owned("- no changes from current config"));
    } else {
        let ghost head = views(lines@);
        let mut i: usize = 0;
        while i < diff.len()
            invariant
                views(diff@) == diff_lines(*config, *preset),
                i <= diff.len(),
                views(lines@) == head + bulleted(views(diff@).take(i as int)),
            decreases diff.len() - i,
        {
            let ghost before = lines@;
            lines.push(concat2("- ", diff[i].as_str()));
            assert(bulleted(views(diff@).take(i + 1)) =~= bulleted(views(diff@).take(i as int)).push(
                "- "@ + diff@[i as int]@,
            ));
            assert(views(lines@) =~= views(before).push(lines@.last()@));
            i = i + 1;
        }
        assert(views(diff@).take(i as int) == views(diff@));
    }
    assert(views(lines@) =~= explain_lines(*config, *preset));
    lines
}

/// Applying a preset leaves the configuration matching it.
pub proof fn lemma_apply_then_matches(c: Config, r: Config, p: Preset)
    requires
        applied(c, r, p),
    ensures
        preset_matches_spec(r, p),
{
}

/// Applying a preset twice is the same as applying it once.
pub proof fn lemma_apply_idempotent(c: Config, r: Config, r2: Config, p: Preset)
    requires
        applied(c, r, p),
        applied(r, r2, p),
    ensures
        applied(c, r2, p),
{
}

/// The diff of a preset is empty exactly when applying the preset would
/// leave the configuration as it is.
#[verifier::spinoff_prover]
#[verifier::rlimit(40)]
pub proof fn lemma_no_diff_iff_matches(c: Config, p: Preset)
    ensures
        diff_lines(c, p).len() == 0 <==> applied(c, c, p),
{
    let d = diff_lines(c, p);
    if applied(c, c, p) {
        assert(d =~= Seq::<Seq<char>>::empty());
    } else {
        assert(d.len() > 0);
    }
}

/// The settings a preset can change, each on a line `<setting>: <old> ->
/// <new>` where the value differs between `c` and `r`, in a fixed order.
pub open spec fn changed_fields(c: Config, r: Config) -> Seq<Seq<char>> {
    line_if(
        c.recording.fps != r.recording.fps,
        change_line("recording.fps"@, decimal(c.recording.fps as nat), decimal(r.recording.fps as nat)),
    ) + line_if(
        c.recording.duration_seconds != r.recording.duration_seconds,
        change_line(
            "recording.duration_seconds"@,
            decimal(c.recording.duration_seconds as nat),
            decimal(r.recording.duration_seconds as nat),
        ),
    ) + line_if(
        c.recording.encoder@ != r.recording.encoder@,
        change_line("recording.encoder"@, c.recording.encoder@, r.recording.encoder@),
    ) + line_if(
        c.recording.video_bitrate@ != r.recording.video_bitrate@,
        change_line("recording.video_bitrate"@, c.recording.video_bitrate@, r.recording.video_bitrate@),
    ) + line_if(
        c.wl_screenrec.ffmpeg_encoder@ != r.wl_screenrec.ffmpeg_encoder@,
        change_line("wl_screenrec.ffmpeg_encoder"@, c.wl_screenrec.ffmpeg_encoder@, r.wl_screenrec.ffmpeg_encoder@),
    ) + line_if(
        c.wl_screenrec.bitrate@ != r.wl_screenrec.bitrate@,
        change_line("wl_screenrec.bitrate"@, c.wl_screenrec.bitrate@, r.wl_screenrec.bitrate@),
    ) + line_if(
        c.wl_screenrec.ffmpeg_encoder_options@ != r.wl_screenrec.ffmpeg_encoder_options@,
        change_line(
            "wl_screenrec.ffmpeg_encoder_options"@,
            c.wl_screenrec.ffmpeg_encoder_options@,
            r.wl_screenrec.ffmpeg_encoder_options@,
        ),
    ) + line_if(
        c.wl_screenrec.audio != r.wl_screenrec.audio,
        change_line("wl_screenrec.audio"@, bool_text(c.wl_screenrec.audio), bool_text(r.wl_screenrec.audio)),
    ) + line_if(
        views(c.wl_screenrec.extra_args@) != views(r.wl_screenrec.extra_args@),
        change_line(
            "wl_screenrec.extra_args"@,
            debug_strings(views(c.wl_screenrec.extra_args@)),
            debug_strings(views(r.wl_screenrec.extra_args@)),
        ),
    )
}

/// `c` and `r` agree on every setting a preset can change.
pub open spec fn same_settings(c: Config, r: Config) -> bool {
    &&& c.recording.fps == r.recording.fps
    &&& c.recording.duration_seconds == r.recording.duration_seconds
    &&& c.recording.encoder@ == r.recording.encoder@
    &&& c.recording.video_bitrate@ == r.recording.video_bitrate@
    &&& c.wl_screenrec.ffmpeg_encoder@ == r.wl_screenrec.ffmpeg_encoder@
    &&& c.wl_screenrec.bitrate@ == r.wl_screenrec.bitrate@
    &&& c.wl_screenrec.ffmpeg_encoder_options@ == r.wl_screenrec.ffmpeg_encoder_options@
    &&& c.wl_screenrec.audio == r.wl_screenrec.audio
    &&& views(c.wl_screenrec.extra_args@) == views(r.wl_screenrec.extra_args@)
}

proof fn lemma_in_sum(a: Seq<Seq<char>>, b: Seq<Seq<char>>)
    ensures
        forall|x: Seq<char>| (a.contains(x) || b.contains(x)) ==> #[trigger] (a + b).contains(x),
{
    assert forall|x: Seq<char>| (a.contains(x) || b.contains(x)) implies #[trigger] (a + b).contains(x) by {
        if a.contains(x) {
            let i = choose|i: int| 0 <= i < a.len() && a[i] == x;
            assert((a + b)[i] == x);
        } else {
            let j = choose|j: int| 0 <= j < b.len() && b[j] == x;
            assert((a + b)[a.len() + j] == x);
        }
    }
}

/// The dry-run diff of a preset is what applying it changes: with `r` the
/// configuration after applying `p` to `c`, the diff is the list of the
/// settings whose value differs between `c` and `r`, each as
/// `<setting>: <old> -> <new>`; so every changed setting has its line, and
/// the diff is empty exactly when applying changes nothing.
#[verifier::spinoff_prover]
#[verifier::rlimit(40)]
pub proof fn lemma_diff_lists_changes(c: Config, r: Config, p: Preset)
    requires
        applied(c, r, p),
    ensures
        diff_lines(c, p) == changed_fields(c, r),
        c.recording.fps != r.recording.fps ==> diff_lines(c, p).contains(
            change_line("recording.fps"@, decimal(c.recording.fps as nat), decimal(r.recording.fps as nat)),
        ),
        c.recording.duration_seconds != r.recording.duration_seconds ==> diff_lines(c, p).contains(
            change_line(
                "recording.duration_seconds"@,
                decimal(c.recording.duration_seconds as nat),
                decimal(r.recording.duration_seconds as nat),
            ),
        ),
        c.recording.encoder@ != r.recording.encoder@ ==> diff_lines(c, p).contains(
            change_line("recording.encoder"@, c.recording.encoder@, r.recording.encoder@),
        ),
        c.recording.video_bitrate@ != r.recording.video_bitrate@ ==> diff_lines(c, p).contains(
            change_line("recording.video_bitrate"@, c.recording.video_bitrate@, r.recording.video_bitrate@),
        ),
        c.wl_screenrec.ffmpeg_encoder@ != r.wl_screenrec.ffmpeg_encoder@ ==> diff_lines(c, p).contains(
            change_line("wl_screenrec.ffmpeg_encoder"@, c.wl_screenrec.ffmpeg_encoder@, r.wl_screenrec.ffmpeg_encoder@),
        ),
        c.wl_screenrec.bitrate@ != r.wl_screenrec.bitrate@ ==> diff_lines(c, p).contains(
            change_line("wl_screenrec.bitrate"@, c.wl_screenrec.bitrate@, r.wl_screenrec.bitrate@),
        ),
        c.wl_screenrec.ffmpeg_encoder_options@ != r.wl_screenrec.ffmpeg_encoder_options@ ==> diff_lines(c, p).contains(
            change_line(
                "wl_screenrec.ffmpeg_encoder_options"@,
                c.wl_screenrec.ffmpeg_encoder_options@,
                r.wl_screenrec.ffmpeg_encoder_options@,
            ),
        ),
        c.wl_screenrec.audio != r.wl_screenrec.audio ==> diff_lines(c, p).contains(
            change_line("wl_screenrec.audio"@, bool_text(c.wl_screenrec.audio), bool_text(r.wl_screenrec.audio)),
        ),
        views(c.wl_screenrec.extra_args@) != views(r.wl_screenrec.extra_args@) ==> diff_lines(c, p).contains(
            change_line(
                "wl_screenrec.extra_args"@,
                debug_strings(views(c.wl_screenrec.extra_args@)),
                debug_strings(views(r.wl_screenrec.extra_args@)),
            ),
        ),
        diff_lines(c, p).len() == 0 <==> same_settings(c, r),
{
    assert(diff_lines(c, p) =~= changed_fields(c, r));
    let l1 = line_if(
        c.recording.fps != r.recording.fps,
        change_line("recording.fps"@, decimal(c.recording.fps as nat), decimal(r.recording.fps as nat)),
    );
    let l2 = line_if(
        c.recording.duration_seconds != r.recording.duration_seconds,
        change_line(
            "recording.duration_seconds"@,
            decimal(c.recording.duration_seconds as nat),
            decimal(r.recording.duration_seconds as nat),
        ),
    );
    let l3 = line_if(
        c.recording.encoder@ != r.recording.encoder@,
        change_line("recording.encoder"@, c.recording.encoder@, r.recording.encoder@),
    );
    let l4 = line_if(
        c.recording.video_bitrate@ != r.recording.video_bitrate@,
        change_line("recording.video_bitrate"@, c.recording.video_bitrate@, r.recording.video_bitrate@),
    );
    let l5 = line_if(
        c.wl_screenrec.ffmpeg_encoder@ != r.wl_screenrec.ffmpeg_encoder@,
        change_line("wl_screenrec.ffmpeg_encoder"@, c.wl_screenrec.ffmpeg_encoder@, r.wl_screenrec.ffmpeg_encoder@),
    );
    let l6 = line_if(
        c.wl_screenrec.bitrate@ != r.wl_screenrec.bitrate@,
        change_line("wl_screenrec.bitrate"@, c.wl_screenrec.bitrate@, r.wl_screenrec.bitrate@),
    );
    let l7 = line_if(
        c.wl_screenrec.ffmpeg_encoder_options@ != r.wl_screenrec.ffmpeg_encoder_options@,
        change_line(
            "wl_screenrec.ffmpeg_encoder_options"@,
            c.wl_screenrec.ffmpeg_encoder_options@,
            r.wl_screenrec.ffmpeg_encoder_options@,
        ),
    );
    let l8 = line_if(
        c.wl_screenrec.audio != r.wl_screenrec.audio,
        change_line("wl_screenrec.audio"@, bool_text(c.wl_screenrec.audio), bool_text(r.wl_screenrec.audio)),
    );
    let l9 = line_if(
        views(c.wl_screenrec.extra_args@) != views(r.wl_screenrec.extra_args@),
        change_line(
            "wl_screenrec.extra_args"@,
            debug_strings(views(c.wl_screenrec.extra_args@)),
            debug_strings(views(r.wl_screenrec.extra_args@)),
        ),
    );
    assert(changed_fields(c, r) == l1 + l2 + l3 + l4 + l5 + l6 + l7 + l8 + l9);
    assert(l1.len() > 0 ==> l1.contains(l1[0]));
    assert(l2.len() > 0 ==> l2.contains(l2[0]));
    assert(l3.len() > 0 ==> l3.contains(l3[0]));
    assert(l4.len() > 0 ==> l4.contains(l4[0]));
    assert(l5.len() > 0 ==> l5.contains(l5[0]));
    assert(l6.len() > 0 ==> l6.contains(l6[0]));
    assert(l7.len() > 0 ==> l7.contains(l7[0]));
    assert(l8.len() > 0 ==> l8.contains(l8[0]));
    assert(l9.len() > 0 ==> l9.contains(l9[0]));
    lemma_in_sum(l1, l2);
    lemma_in_sum(l1 + l2, l3);
    lemma_in_sum(l1 + l2 + l3, l4);
    lemma_in_sum(l1 + l2 + l3 + l4, l5);
    lemma_in_sum(l1 + l2 + l3 + l4 + l5, l6);
    lemma_in_sum(l1 + l2 + l3 + l4 + l5 + l6, l7);
    lemma_in_sum(l1 + l2 + l3 + l4 + l5 + l6 + l7, l8);
    lemma_in_sum(l1 + l2 + l3 + l4 + l5 + l6 + l7 + l8, l9);
}

/// Applying a preset a second time changes nothing: the applied
/// configuration already has the preset's settings, so applying again gives
/// it back and its dry-run diff is empty.
pub proof fn lemma_apply_twice_changes_nothing(c: Config, r: Config, p: Preset)
    requires
        applied(c, r, p),
    ensures
        applied(r, r, p),
        diff_lines(r, p).len() == 0,
{
    lemma_no_diff_iff_matches(r, p);
}

proof fn lemma_first_matching_upto(c: Config, k: int, i: int)
    requires
        0 <= k <= i < preset_count(),
        settings_match(c, table_entry(i)),
    ensures
        first_matching(c, k) matches Some(j) && k <= j <= i,
    decreases i - k,
{
    if k < i && !settings_match(c, table_entry(k)) {
        lemma_first_matching_upto(c, k + 1, i);
    }
}

/// After applying a preset of the table, `detect` finds a preset: this one,
/// or one before it in the table whose settings the result also has.
pub proof fn lemma_detect_after_apply(c: Config, r: Config, p: Preset, i: int)
    requires
        0 <= i < preset_count(),
        preset_view(p) == table_entry(i),
        applied(c, r, p),
    ensures
        first_matching(r, 0) matches Some(j) && j <= i,
{
    lemma_apply_then_matches(c, r, p);
    lemma_first_matching_upto(r, 0, i);
}

/// After applying `beginner-safe`, the first preset in the table, `detect`
/// reports it.
pub proof fn lemma_detect_after_first_preset(c: Config, r: Config, p: Preset)
    requires
        preset_view(p) == table_entry(0),
        applied(c, r, p),
    ensures
        first_matching(r, 0) == Some(0int),
{
    lemma_apply_then_matches(c, r, p);
}

} // verus!
