//! The segmented FFmpeg backends: the X11 command line, and a custom command
//! template with its placeholders filled in.
use vstd::prelude::*;

use crate::config::{
    at_least_one, backend_of, segments_for, views, CaptureBackend, Config, ConfigError,
};
use crate::paths::{expand_tilde_spec, join, join_path, opt_view};
use crate::text::{blank, concat3, decimal, is_blank, owned, replace, replace_str, u64_to_string};
use crate::wl_screenrec::{extend_strings, push_arg};

verus! {

/// Why no FFmpeg command could be built.
#[derive(Debug, Clone, Copy, PartialEq, Eq, Structural)]
pub enum RecordCommandError {
    /// The backend name is not known.
    Config(ConfigError),
    /// The custom backend has no command template.
    CustomCommandMissing,
    /// The rendered custom command has an unmatched quote.
    CustomCommandUnparsable,
    /// wl-screenrec does not record FFmpeg segments.
    NotSegmented,
}

/// A character that makes `shell_words::quote` quote its argument.
pub open spec fn shell_special(c: char) -> bool {
    c == '\n' || c == '\'' || c == '|' || c == '&' || c == ';' || c == '<' || c == '>' || c == '('
        || c == ')' || c == '$' || c == '`' || c == '\\' || c == '"' || c == ' ' || c == '\t' || c
        == '*' || c == '?' || c == '[' || c == '#' || c == '~' || c == '=' || c == '%'
}

pub open spec fn has_char(s: Seq<char>, c: char) -> bool {
    exists|i: int| 0 <= i < s.len() && s[i] == c
}

pub open spec fn has_special(s: Seq<char>) -> bool {
    exists|i: int| 0 <= i < s.len() && shell_special(#[trigger] s[i])
}

/// What `shell_words::quote` returns: empty strings and strings with special
/// characters are single-quoted, with `'` written as `'\''` unless the string
/// has a newline and no `'`.
pub open spec fn shell_quote_spec(s: Seq<char>) -> Seq<char> {
    if s.len() == 0 {
        "''"@
    } else if !has_special(s) {
        s
    } else if has_char(s, '\n') && !has_char(s, '\'') {
        "'"@ + s + "'"@
    } else {
        "'"@ + replace(s, "'"@, "'\\''"@) + "'"@
    }
}

/// How `shell_words::split` splits a command line into words, `None` for an
/// unmatched quote.
pub uninterp spec fn shell_split_spec(s: Seq<char>) -> Option<Seq<Seq<char>>>;

/// `shell_words::quote`: the argument quoted for a POSIX shell, as
/// `shell_quote_spec` describes.
#[verifier::external_body]
fn shell_quote(s: &str) -> (r: String)
    ensures
        r@ == shell_quote_spec(s@),
{
    shell_words::quote(s).into_owned()
}

/// `shell_words::split`: the words of a command line; the result is named
/// `shell_split_spec`, and `None` stands for its `ParseError`.
#[verifier::external_body]
fn shell_split(s: &str) -> (r: Option<Vec<String>>)
    ensures
        match r {
            Some(v) => shell_split_spec(s@) == Some(views(v@)),
            None => shell_split_spec(s@) is None,
        },
{
    match shell_words::split(s) {
        Ok(words) => Some(words),
        Err(_) => None,
    }
}

/// The buffer directory with `~` expanded.
pub open spec fn buffer_of(c: Config, home: Option<Seq<char>>) -> Seq<char> {
    expand_tilde_spec(c.paths.buffer_dir@, home)
}

/// FFmpeg's segment muxer arguments.
pub open spec fn segment_args_spec(c: Config, home: Option<Seq<char>>) -> Seq<Seq<char>> {
    seq![
        "-f"@,
        "segment"@,
        "-segment_time"@,
        decimal(at_least_one(c.recording.segment_seconds)),
        "-segment_wrap"@,
        decimal(segments_for(c.recording.duration_seconds, c.recording.segment_seconds) + 3),
        "-reset_timestamps"@,
        "1"@,
        join(buffer_of(c, home), "seg_%06d.mkv"@),
    ]
}

/// The X11 grab command line.
pub open spec fn x11_command_spec(c: Config, home: Option<Seq<char>>) -> Seq<Seq<char>> {
    let r = c.recording;
    seq![
        "ffmpeg"@,
        "-y"@,
        "-f"@,
        "x11grab"@,
        "-framerate"@,
        decimal(r.fps as nat),
        "-video_size"@,
        decimal(r.width as nat) + "x"@ + decimal(r.height as nat),
        "-i"@,
        ":0.0"@,
        "-f"@,
        "pulse"@,
        "-i"@,
        "default"@,
        "-c:v"@,
        r.encoder@,
        "-preset"@,
        "p5"@,
        "-b:v"@,
        r.video_bitrate@,
        "-c:a"@,
        r.audio_codec@,
    ] + views(c.ffmpeg.extra_args@) + segment_args_spec(c, home)
}

/// `{key}` replaced by `value`.
pub open spec fn fill(t: Seq<char>, key: Seq<char>, value: Seq<char>) -> Seq<char> {
    replace(t, "{"@ + key + "}"@, value)
}

/// The custom command template with its placeholders filled in, in this order:
/// fps, width, height, encoder, video_bitrate, audio_codec, segment_seconds,
/// buffer_dir (shell-quoted).
pub open spec fn rendered_spec(template: Seq<char>, c: Config, home: Option<Seq<char>>) -> Seq<char> {
    let r = c.recording;
    let t1 = fill(template, "fps"@, decimal(r.fps as nat));
    let t2 = fill(t1, "width"@, decimal(r.width as nat));
    let t3 = fill(t2, "height"@, decimal(r.height as nat));
    let t4 = fill(t3, "encoder"@, r.encoder@);
    let t5 = fill(t4, "video_bitrate"@, r.video_bitrate@);
    let t6 = fill(t5, "audio_codec"@, r.audio_codec@);
    let t7 = fill(t6, "segment_seconds"@, decimal(at_least_one(r.segment_seconds)));
    fill(t7, "buffer_dir"@, shell_quote_spec(buffer_of(c, home)))
}

/// The command line of the configured segmented backend.
pub open spec fn record_command_spec(c: Config, home: Option<Seq<char>>) -> Result<
    Seq<Seq<char>>,
    RecordCommandError,
> {
    match backend_of(c) {
        None => Err(RecordCommandError::Config(ConfigError::UnknownBackend)),
        Some(CaptureBackend::X11) => Ok(x11_command_spec(c, home)),
        Some(CaptureBackend::Custom) => if blank(c.ffmpeg.custom_record_command@) {
            Err(RecordCommandError::CustomCommandMissing)
        } else {
            match shell_split_spec(rendered_spec(c.ffmpeg.custom_record_command@, c, home)) {
                Some(words) => Ok(words),
                None => Err(RecordCommandError::CustomCommandUnparsable),
            }
        },
        Some(CaptureBackend::WlScreenrec) => Err(RecordCommandError::NotSegmented),
    }
}

/// The requirement that `-segment_wrap` fits a `usize`.
pub open spec fn wrap_fits(c: Config) -> bool {
    segments_for(c.recording.duration_seconds, c.recording.segment_seconds) as usize + 3
        <= usize::MAX && segments_for(c.recording.duration_seconds, c.recording.segment_seconds)
        <= usize::MAX
}

fn segment_args(config: &Config, home: &Option<String>) -> (r: Vec<String>)
    requires
        wrap_fits(*config),
    ensures
        views(r@) == segment_args_spec(*config, opt_view(*home)),
{
    let buffer = config.paths.buffer_dir_path_in(home);
    let pattern = join_path(buffer.as_str(), "seg_%06d.mkv");
    let seg = if config.recording.segment_seconds == 0 {
        1
    } else {
        config.recording.segment_seconds
    };
    let wrap = config.ffmpeg_segment_wrap_count();
    let mut v: Vec<String> = Vec::new();
    push_arg(&mut v, owned("-f"));
    push_arg(&mut v, owned("segment"));
    push_arg(&mut v, owned("-segment_time"));
    push_arg(&mut v, u64_to_string(seg));
    push_arg(&mut v, owned("-segment_wrap"));
    push_arg(&mut v, u64_to_string(wrap as u64));
    push_arg(&mut v, owned("-reset_timestamps"));
    push_arg(&mut v, owned("1"));
    push_arg(&mut v, pattern);
    assert(views(v@) =~= segment_args_spec(*config, opt_view(*home)));
    v
}

fn default_x11_command(config: &Config, home: &Option<String>) -> (r: Vec<String>)
    requires
        wrap_fits(*config),
    ensures
        views(r@) == x11_command_spec(*config, opt_view(*home)),
{
    let r = &config.recording;
    let mut v: Vec<String> = Vec::new();
    push_arg(&mut v, owned("ffmpeg"));
    push_arg(&mut v, owned("-y"));
    push_arg(&mut v, owned("-f"));
    push_arg(&mut v, owned("x11grab"));
    push_arg(&mut v, owned("-framerate"));
    push_arg(&mut v, u64_to_string(r.fps as u64));
    push_arg(&mut v, owned("-video_size"));
    let w = u64_to_string(r.width as u64);
    let h = u64_to_string(r.height as u64);
    push_arg(&mut v, concat3(w.as_str(), "x", h.as_str()));
    push_arg(&mut v, owned("-i"));
    push_arg(&mut v, owned(":0.0"));
    push_arg(&mut v, owned("-f"));
    push_arg(&mut v, owned("pulse"));
    push_arg(&mut v, owned("-i"));
    push_arg(&mut v, owned("default"));
    push_arg(&mut v, owned("-c:v"));
    push_arg(&mut v, r.encoder.clone());
    push_arg(&mut v, owned("-preset"));
    push_arg(&mut v, owned("p5"));
    push_arg(&mut v, owned("-b:v"));
    push_arg(&mut v, r.video_bitrate.clone());
    push_arg(&mut v, owned("-c:a"));
    push_arg(&mut v, r.audio_codec.clone());
    let ghost head = views(v@);
    extend_strings(&mut v, crate::config::copy_strings(&config.ffmpeg.extra_args));
    extend_strings(&mut v, segment_args(config, home));
    assert(views(v@) =~= x11_command_spec(*config, opt_view(*home)));
    v
}

fn fill_exec(t: &str, key: &str, value: &str) -> (r: String)
    ensures
        r@ == fill(t@, key@, value@),
{
    let pat = concat3("{", key, "}");
    proof {
        reveal_strlit("{");
    }
    replace_str(t, pat.as_str(), value)
}

/// The custom command template with its placeholders filled in.
pub fn render_custom_command(template: &str, config: &Config, home: &Option<String>) -> (r: String)
    ensures
        r@ == rendered_spec(template@, *config, opt_view(*home)),
{
    let r = &config.recording;
    let buffer = config.paths.buffer_dir_path_in(home);
    let seg = if r.segment_seconds == 0 {
        1
    } else {
        r.segment_seconds
    };
    let t = fill_exec(template, "fps", u64_to_string(r.fps as u64).as_str());
    let t = fill_exec(t.as_str(), "width", u64_to_string(r.width as u64).as_str());
    let t = fill_exec(t.as_str(), "height", u64_to_string(r.height as u64).as_str());
    let t = fill_exec(t.as_str(), "encoder", r.encoder.as_str());
    let t = fill_exec(t.as_str(), "video_bitrate", r.video_bitrate.as_str());
    let t = fill_exec(t.as_str(), "audio_codec", r.audio_codec.as_str());
    let t = fill_exec(t.as_str(), "segment_seconds", u64_to_string(seg).as_str());
    let q = shell_quote(buffer.as_str());
    fill_exec(t.as_str(), "buffer_dir", q.as_str())
}

/// The command line of the configured segmented backend, with `~` expanded
/// against `home`.
pub fn build_record_command_in(config: &Config, home: &Option<String>) -> (r: Result<
    Vec<String>,
    RecordCommandError,
>)
    requires
        backend_of(*config) == Some(CaptureBackend::X11) ==> wrap_fits(*config),
    ensures
        match record_command_spec(*config, opt_view(*home)) {
            Ok(v) => r matches Ok(x) && views(x@) == v,
            Err(e) => r matches Err(x) && x == e,
        },
{
    let backend = match config.effective_backend() {
        Ok(b) => b,
        Err(e) => {
            return Err(RecordCommandError::Config(e));
        },
    };
    match backend {
        CaptureBackend::X11 => Ok(default_x11_command(config, home)),
        CaptureBackend::Custom => {
            if is_blank(config.ffmpeg.custom_record_command.as_str()) {
                return Err(RecordCommandError::CustomCommandMissing);
            }
            let rendered = render_custom_command(
                config.ffmpeg.custom_record_command.as_str(),
                config,
                home,
            );
            match shell_split(rendered.as_str()) {
                Some(words) => Ok(words),
                None => Err(RecordCommandError::CustomCommandUnparsable),
            }
        },
        CaptureBackend::WlScreenrec => Err(RecordCommandError::NotSegmented),
    }
}

/// The command line of the configured segmented backend.
pub fn build_record_command(config: &Config) -> (r: Result<Vec<String>, RecordCommandError>)
    requires
        backend_of(*config) == Some(CaptureBackend::X11) ==> wrap_fits(*config),
    ensures
        exists|h: Option<Seq<char>>|
            crate::paths::usable_home(h) && match #[trigger] record_command_spec(*config, h) {
                Ok(v) => r matches Ok(x) && views(x@) == v,
                Err(e) => r matches Err(x) && x == e,
            },
{
    let home = crate::paths::home_dir();
    let r = build_record_command_in(config, &home);
    assert(match record_command_spec(*config, opt_view(home)) {
        Ok(v) => r matches Ok(x) && views(x@) == v,
        Err(e) => r matches Err(x) && x == e,
    });
    r
}

/// The text of a record command error.
pub open spec fn record_error_text(e: RecordCommandError, c: Config) -> Seq<char> {
    match e {
        RecordCommandError::Config(ce) => crate::config::config_error_text(ce, c),
        RecordCommandError::CustomCommandMissing => "capture backend 'custom' requires ffmpeg.custom_record_command"@,
        RecordCommandError::CustomCommandUnparsable => "failed to parse custom_record_command"@,
        RecordCommandError::NotSegmented => "wl-screenrec is not an FFmpeg segmented backend; use capture.start path"@,
    }
}

impl RecordCommandError {
    /// The text of the error.
    pub fn message(&self, config: &Config) -> (r: String)
        ensures
            r@ == record_error_text(*self, *config),
    {
        match self {
            RecordCommandError::Config(ce) => ce.message(config),
            RecordCommandError::CustomCommandMissing => owned(
                "capture backend 'custom' requires ffmpeg.custom_record_command",
            ),
            RecordCommandError::CustomCommandUnparsable => owned(
                "failed to parse custom_record_command",
            ),
            RecordCommandError::NotSegmented => owned(
                "wl-screenrec is not an FFmpeg segmented backend; use capture.start path",
            ),
        }
    }
}

/// The X11 backend records with the configured settings: its FFmpeg command
/// grabs at `recording.fps`, encodes with `recording.encoder` (the argument
/// after `-c:v`) at `recording.video_bitrate` (after `-b:v`), with
/// `recording.audio_codec` for the sound (after `-c:a`), and writes its
/// segments into the buffer directory.
pub proof fn lemma_x11_command_uses_recording_settings(c: Config, home: Option<Seq<char>>)
    requires
        backend_of(c) == Some(CaptureBackend::X11),
    ensures
        record_command_spec(c, home) matches Ok(v) && v.len() >= 22 && v[0] == "ffmpeg"@ && v[4]
            == "-framerate"@ && v[5] == decimal(c.recording.fps as nat) && v[14] == "-c:v"@ && v[15]
            == c.recording.encoder@ && v[18] == "-b:v"@ && v[19] == c.recording.video_bitrate@
            && v[20] == "-c:a"@ && v[21] == c.recording.audio_codec@ && v.last() == join(
            expand_tilde_spec(c.paths.buffer_dir@, home),
            "seg_%06d.mkv"@,
        ),
{
    let v = record_command_spec(c, home)->Ok_0;
    assert(v == x11_command_spec(c, home));
}

} // verus!
