//! Replay bookkeeping: which buffer files are segments, which segments make
//! up a replay, how saved clips are listed and named, and the text that
//! status and failures report.
use vstd::prelude::*;

use crate::config::{segments_for, views, window_enabled, window_source, Config};
use crate::paths::{expand_tilde_spec, opt_view, path_components};
use crate::paths::{join, join_path, named_pieces, split_slash};
use crate::text::{
    blank, concat2, concat3, contains, contains_str, ends_with, ends_with_str, joined,
    join_strings, owned, push_char, replace, replace_str, split_char, split_on, starts_with,
    starts_with_str, str_eq, u64_to_string, chars_of, decimal, is_blank,
};

verus! {

/// A history file smaller than this is not a usable replay yet.
pub const MIN_VALID_HISTORY_BYTES: u64 = 1024;

/// A file with its modification time, in nanoseconds from the Unix epoch.
#[derive(Debug, Clone)]
pub struct TimedPath {
    pub modified: i128,
    pub path: String,
}

/// Options of `v8q save`.
#[derive(Debug, Clone)]
pub struct SaveOptions {
    pub name: Option<String>,
    pub duration_seconds: Option<u64>,
}

impl Default for SaveOptions {
    fn default() -> (r: Self)
        ensures
            r.name is None && r.duration_seconds is None,
    {
        SaveOptions { name: None, duration_seconds: None }
    }
}

// ----- ANSI escapes -----

pub open spec fn is_csi_final(c: char) -> bool {
    '\x40' <= c && c <= '\x7e'
}

/// How many characters of a CSI sequence's parameters follow `ESC [`, its
/// final character included (all of them when it is unterminated).
pub open spec fn csi_len(t: Seq<char>) -> nat
    decreases t.len(),
{
    if t.len() == 0 {
        0
    } else if is_csi_final(t[0]) {
        1
    } else {
        1 + csi_len(t.drop_first())
    }
}

/// An escape sequence never runs past the end of the text.
pub proof fn lemma_csi_len(t: Seq<char>)
    ensures
        csi_len(t) <= t.len(),
    decreases t.len(),
{
    if t.len() > 0 && !is_csi_final(t[0]) {
        lemma_csi_len(t.drop_first());
    }
}

/// `s` without its `ESC [ ... final` sequences.
pub open spec fn strip_ansi_spec(s: Seq<char>) -> Seq<char>
    decreases s.len(),
{
    if s.len() == 0 {
        s
    } else if s.len() >= 2 && s[0] == '\x1b' && s[1] == '[' {
        let t = s.subrange(2, s.len() as int);
        proof {
            lemma_csi_len(t);
        }
        strip_ansi_spec(t.subrange(csi_len(t) as int, t.len() as int))
    } else {
        seq![s[0]] + strip_ansi_spec(s.drop_first())
    }
}

proof fn lemma_csi_step(t: Seq<char>, k: int)
    requires
        0 <= k < t.len(),
        forall|j: int| 0 <= j < k ==> !is_csi_final(#[trigger] t[j]),
    ensures
        is_csi_final(t[k]) ==> csi_len(t) == k + 1,
        !is_csi_final(t[k]) ==> csi_len(t) == k + 1 + csi_len(t.subrange(k + 1, t.len() as int)),
    decreases k,
{
    if k > 0 {
        assert(!is_csi_final(t[0]));
        let u = t.drop_first();
        assert forall|j: int| 0 <= j < k - 1 implies !is_csi_final(#[trigger] u[j]) by {
            assert(u[j] == t[j + 1]);
        }
        lemma_csi_step(u, k - 1);
        assert(u.subrange(k, u.len() as int) == t.subrange(k + 1, t.len() as int));
    } else {
        assert(t.drop_first() == t.subrange(1, t.len() as int));
    }
}

proof fn lemma_csi_plain(t: Seq<char>)
    requires
        forall|k: int| 0 <= k < t.len() ==> !is_csi_final(#[trigger] t[k]),
    ensures
        csi_len(t) == t.len(),
    decreases t.len(),
{
    if t.len() > 0 {
        let u = t.drop_first();
        assert forall|k: int| 0 <= k < u.len() implies !is_csi_final(#[trigger] u[k]) by {
            assert(u[k] == t[k + 1]);
        }
        lemma_csi_plain(u);
    }
}

/// `text` without ANSI CSI escape sequences (`ESC [` up to a final character
/// in `@`..`~`).
pub fn strip_ansi(text: &str) -> (r: String)
    ensures
        r@ == strip_ansi_spec(text@),
{
    let v = chars_of(text);
    let n = v.len();
    let mut out = String::new();
    let mut i: usize = 0;
    assert(v@.subrange(0, n as int) == v@);
    while i < n
        invariant
            v@ == text@,
            n == v.len(),
            i <= n,
            out@ + strip_ansi_spec(v@.subrange(i as int, n as int)) == strip_ansi_spec(text@),
        decreases n - i,
    {
        let ghost rest = v@.subrange(i as int, n as int);
        if v[i] == '\x1b' && i + 1 < n && v[i + 1] == '[' {
            let ghost t = rest.subrange(2, rest.len() as int);
            assert(t == v@.subrange(i + 2, n as int));
            proof {
                lemma_csi_len(t);
            }
            let start = i + 2;
            let mut j = start;
            loop
                invariant_except_break
                    v@ == text@,
                    n == v.len(),
                    start <= j <= n,
                    t == v@.subrange(start as int, n as int),
                    forall|k: int| start <= k < j ==> !is_csi_final(#[trigger] v@[k]),
                ensures
                    start <= j <= n,
                    csi_len(t) == j - start,
                decreases n - j,
            {
                proof {
                    assert forall|k: int| 0 <= k < j - start implies !is_csi_final(#[trigger] t[k]) by {
                        assert(t[k] == v@[start + k]);
                    }
                }
                if j >= n {
                    proof {
                        lemma_csi_plain(t);
                    }
                    break;
                }
                proof {
                    lemma_csi_step(t, j - start);
                }
                if is_csi_final_char(v[j]) {
                    j = j + 1;
                    break;
                }
                j = j + 1;
            }
            assert(t.subrange(csi_len(t) as int, t.len() as int) == v@.subrange(j as int, n as int));
            i = j;
        } else {
            assert(rest.drop_first() == v@.subrange(i + 1, n as int));
            assert(out@.push(v@[i as int]) == out@ + seq![rest[0]]);
            push_char(&mut out, v[i]);
            i = i + 1;
        }
    }
    assert(v@.subrange(i as int, n as int).len() == 0);
    out
}

fn is_csi_final_char(c: char) -> (r: bool)
    ensures
        r == is_csi_final(c),
{
    '\x40' <= c && c <= '\x7e'
}

// ----- log lines -----

/// A line that reports an error.
pub open spec fn relevant_error(line: Seq<char>) -> bool {
    contains(line, "ERROR"@) || contains(line, "Error:"@) || contains(line, "error:"@) || contains(
        line,
        "panic"@,
    ) || contains(line, "failed"@) || contains(line, "Failed"@)
}

/// Whether a log line reports an error.
pub fn is_relevant_log_error(line: &str) -> (r: bool)
    ensures
        r == relevant_error(line@),
{
    contains_str(line, "ERROR") || contains_str(line, "Error:") || contains_str(line, "error:")
        || contains_str(line, "panic") || contains_str(line, "failed") || contains_str(
        line,
        "Failed",
    )
}

/// The index of the last line that reports an error.
pub open spec fn last_error_index(lines: Seq<Seq<char>>) -> Option<int>
    decreases lines.len(),
{
    if lines.len() == 0 {
        None
    } else if relevant_error(lines.last()) {
        Some(lines.len() - 1)
    } else {
        last_error_index(lines.drop_last())
    }
}

pub open spec fn str_slice_views(v: Seq<&str>) -> Seq<Seq<char>> {
    v.map_values(|s: &str| s@)
}

/// The last line that reports an error.
pub fn last_relevant_log_error(lines: &[&str]) -> (r: Option<String>)
    ensures
        match last_error_index(str_slice_views(lines@)) {
            Some(i) => r matches Some(l) && l@ == lines@[i]@,
            None => r is None,
        },
{
    let ghost all = str_slice_views(lines@);
    let mut i: usize = lines.len();
    assert(all.take(i as int) =~= all);
    while i > 0
        invariant
            all == str_slice_views(lines@),
            i <= lines@.len(),
            last_error_index(all) == last_error_index(all.take(i as int)),
        decreases i,
    {
        assert(all.take(i as int).drop_last() =~= all.take(i - 1));
        assert(all.take(i as int).last() == lines@[i - 1]@);
        if is_relevant_log_error(lines[i - 1]) {
            return Some(owned(lines[i - 1]));
        }
        i = i - 1;
    }
    None
}

/// `str::lines`: pieces between `\n`, a `\r` before a `\n` removed, and no
/// empty last piece.
pub open spec fn lines_of(s: Seq<char>) -> Seq<Seq<char>> {
    let p = split_on(s, '\n');
    let q = p.map(|i: int, l: Seq<char>| if i < p.len() - 1 && l.len() > 0 && l.last() == '\r' {
        l.drop_last()
    } else {
        l
    });
    if p.last().len() == 0 {
        q.drop_last()
    } else {
        q
    }
}

/// At most the last `n` items.
pub open spec fn last_n<A>(s: Seq<A>, n: nat) -> Seq<A> {
    if s.len() > n {
        s.subrange(s.len() - n, s.len() as int)
    } else {
        s
    }
}

/// The last `n` lines of a text.
pub fn last_lines(contents: &str, n: usize) -> (r: Vec<String>)
    ensures
        views(r@) == last_n(lines_of(contents@), n as nat),
        lines_of(contents@).len() <= usize::MAX,
{
    let pieces = split_char(contents, '\n');
    let ghost p = split_on(contents@, '\n');
    proof {
        crate::text::lemma_split_on_nonempty(contents@, '\n');
    }
    let ghost all = lines_of(contents@);
    let count = if pieces[pieces.len() - 1].as_str().is_empty() {
        pieces.len() - 1
    } else {
        pieces.len()
    };
    assert(all.len() == count);
    let first = if count > n {
        count - n
    } else {
        0
    };
    let mut out: Vec<String> = Vec::new();
    let mut i = first;
    while i < count
        invariant
            p == split_on(contents@, '\n'),
            all == lines_of(contents@),
            pieces@.len() == p.len(),
            forall|k: int| 0 <= k < pieces@.len() ==> #[trigger] pieces@[k]@ == p[k],
            all.len() == count,
            count <= pieces@.len(),
            first <= i <= count,
            views(out@) == all.subrange(first as int, i as int),
        decreases count - i,
    {
        let line = &pieces[i];
        let l = if i + 1 < pieces.len() && ends_with_str(line.as_str(), "\r") {
            let cs = chars_of(line.as_str());
            proof {
                reveal_strlit("\r");
                assert("\r"@ =~= seq!['\r']);
            }
            crate::text::string_from_range(&cs, 0, cs.len() - 1)
        } else {
            line.clone()
        };
        proof {
            reveal_strlit("\r");
            assert("\r"@ =~= seq!['\r']);
            let li = p[i as int];
            if li.len() > 0 && li.last() == '\r' {
                assert(li.subrange(li.len() - 1, li.len() as int) =~= seq!['\r']);
                assert(ends_with(li, "\r"@));
            }
            if ends_with(li, "\r"@) {
                assert(li.subrange(li.len() - 1, li.len() as int) == seq!['\r']);
                assert(li.subrange(li.len() - 1, li.len() as int)[0] == li.last());
                assert(li.last() == '\r');
                assert(li.drop_last() == li.subrange(0, li.len() - 1));
            }
        }
        let ghost before = out@;
        out.push(l);
        assert(views(out@) =~= views(before).push(l@));
        assert(all.subrange(first as int, i + 1) =~= all.subrange(first as int, i as int).push(all[i as int]));
        i = i + 1;
    }
    assert(all.subrange(first as int, count as int) =~= last_n(all, n as nat));
    out
}

/// The lines of a text (`str::lines`).
pub fn all_lines(contents: &str) -> (r: Vec<String>)
    ensures
        views(r@) == lines_of(contents@),
{
    last_lines(contents, usize::MAX)
}

/// The last `n` lines of a log, without ANSI escapes.
pub fn log_tail(contents: &str, n: usize) -> (r: Vec<String>)
    ensures
        views(r@) == last_n(lines_of(contents@), n as nat).map_values(|l: Seq<char>| strip_ansi_spec(l)),
{
    let lines = last_lines(contents, n);
    let mut out: Vec<String> = Vec::new();
    let mut i: usize = 0;
    while i < lines.len()
        invariant
            i <= lines.len(),
            out@.len() == i,
            forall|k: int| 0 <= k < i ==> #[trigger] out@[k]@ == strip_ansi_spec(lines@[k]@),
        decreases lines.len() - i,
    {
        out.push(strip_ansi(lines[i].as_str()));
        i = i + 1;
    }
    assert(views(out@) =~= views(lines@).map_values(|l: Seq<char>| strip_ansi_spec(l)));
    out
}

// ----- file names -----

/// `Path::file_name`: the last component unless it is `..`, or nothing.
pub open spec fn file_name(path: Seq<char>) -> Option<Seq<char>> {
    let n = named_pieces(split_slash(path));
    if n.len() > 0 && n.last() != seq!['.', '.'] {
        Some(n.last())
    } else {
        None
    }
}

pub open spec fn is_segment_name(name: Seq<char>) -> bool {
    starts_with(name, "seg_"@) && ends_with(name, ".mkv"@)
}

/// A buffer file that `clean` removes: segments, concat lists, the history.
pub open spec fn cleanable_name(name: Seq<char>) -> bool {
    is_segment_name(name) || (starts_with(name, "concat_"@) && ends_with(name, ".txt"@)) || name
        == "history.mkv"@
}

/// A saved clip.
pub open spec fn clip_name(name: Seq<char>) -> bool {
    starts_with(name, "v8q_"@) && ends_with(name, ".mkv"@)
}

/// The last component of a path, if it has one.
pub fn file_name_of(path: &str) -> (r: Option<String>)
    ensures
        crate::paths::opt_view(r) == file_name(path@),
{
    let named = crate::paths::named_components(path);
    if named.len() > 0 {
        let last = &named[named.len() - 1];
        if !str_eq(last.as_str(), "..") {
            proof {
                reveal_strlit("..");
                assert(".."@ =~= seq!['.', '.']);
            }
            return Some(last.clone());
        }
        proof {
            reveal_strlit("..");
            assert(".."@ =~= seq!['.', '.']);
        }
    }
    None
}

/// Whether a path names a segment file (`seg_*.mkv`).
pub fn is_segment_file_name(path: &str) -> (r: bool)
    ensures
        r == (file_name(path@) matches Some(n) && is_segment_name(n)),
{
    match file_name_of(path) {
        Some(n) => starts_with_str(n.as_str(), "seg_") && ends_with_str(n.as_str(), ".mkv"),
        None => false,
    }
}

/// Whether `clean` removes the file: segments, `concat_*.txt` and
/// `history.mkv`, never logs.
pub fn is_cleanable_buffer_file(path: &str) -> (r: bool)
    ensures
        r == (file_name(path@) matches Some(n) && cleanable_name(n)),
{
    match file_name_of(path) {
        Some(n) => {
            let s = n.as_str();
            (starts_with_str(s, "seg_") && ends_with_str(s, ".mkv")) || (starts_with_str(s, "concat_")
                && ends_with_str(s, ".txt")) || str_eq(s, "history.mkv")
        },
        None => false,
    }
}

/// Whether a path names a saved clip (`v8q_*.mkv`).
pub fn is_clip_file_name(path: &str) -> (r: bool)
    ensures
        r == (file_name(path@) matches Some(n) && clip_name(n)),
{
    match file_name_of(path) {
        Some(n) => starts_with_str(n.as_str(), "v8q_") && ends_with_str(n.as_str(), ".mkv"),
        None => false,
    }
}

/// A path as a single-quoted entry of an FFmpeg concat list needs it.
pub fn escape_concat_path(path: &str) -> (r: String)
    ensures
        r@ == replace(path@, "'"@, "'\\''"@),
{
    proof {
        reveal_strlit("'");
    }
    replace_str(path, "'", "'\\''")
}

// ----- ordering by time -----

/// `x` placed after every item that is not newer than it.
pub open spec fn insert_by_time(s: Seq<TimedPath>, x: TimedPath) -> Seq<TimedPath>
    decreases s.len(),
{
    if s.len() == 0 {
        seq![x]
    } else if s.last().modified <= x.modified {
        s.push(x)
    } else {
        insert_by_time(s.drop_last(), x).push(s.last())
    }
}

/// The stable sort by modification time, oldest first.
pub open spec fn sort_by_time(s: Seq<TimedPath>) -> Seq<TimedPath>
    decreases s.len(),
{
    if s.len() == 0 {
        s
    } else {
        insert_by_time(sort_by_time(s.drop_last()), s.last())
    }
}

pub open spec fn time_sorted(s: Seq<TimedPath>) -> bool {
    forall|i: int, j: int| 0 <= i <= j < s.len() ==> s[i].modified <= s[j].modified
}

proof fn lemma_insert_at(s: Seq<TimedPath>, x: TimedPath, j: int)
    requires
        0 <= j <= s.len(),
        forall|k: int| j <= k < s.len() ==> (#[trigger] s[k]).modified > x.modified,
        j == 0 || s[j - 1].modified <= x.modified,
    ensures
        insert_by_time(s, x) == s.take(j).push(x) + s.skip(j),
    decreases s.len(),
{
    if s.len() == 0 {
        assert(s.take(j).push(x) + s.skip(j) =~= seq![x]);
    } else if s.last().modified <= x.modified {
        assert(j == s.len());
        assert(s.take(j).push(x) + s.skip(j) =~= s.push(x));
    } else {
        let t = s.drop_last();
        assert(j < s.len());
        assert forall|k: int| j <= k < t.len() implies (#[trigger] t[k]).modified > x.modified by {
            assert(t[k] == s[k]);
        }
        lemma_insert_at(t, x, j);
        assert((t.take(j).push(x) + t.skip(j)).push(s.last()) =~= s.take(j).push(x) + s.skip(j));
    }
}

proof fn lemma_insert_sorted(s: Seq<TimedPath>, x: TimedPath)
    requires
        time_sorted(s),
    ensures
        time_sorted(insert_by_time(s, x)),
        insert_by_time(s, x).len() == s.len() + 1,
    decreases s.len(),
{
    if s.len() > 0 && s.last().modified > x.modified {
        let t = s.drop_last();
        lemma_insert_sorted(t, x);
        let r = insert_by_time(t, x);
        let w = r.push(s.last());
        assert forall|i: int, j: int| 0 <= i <= j < w.len() implies w[i].modified <= w[j].modified by {
            if j == w.len() - 1 && i < j {
                // every item of `r` is an item of `t` or `x`, all no newer than the last of `s`
                lemma_insert_members(t, x, i);
            }
        }
    }
}

proof fn lemma_insert_members(t: Seq<TimedPath>, x: TimedPath, i: int)
    requires
        0 <= i < t.len() + 1,
        insert_by_time(t, x).len() == t.len() + 1,
    ensures
        insert_by_time(t, x)[i] == x || exists|k: int| 0 <= k < t.len() && t[k] == insert_by_time(t, x)[i],
    decreases t.len(),
{
    if t.len() > 0 && t.last().modified > x.modified {
        let u = t.drop_last();
        lemma_insert_len(u, x);
        if i < u.len() + 1 {
            lemma_insert_members(u, x, i);
            if insert_by_time(u, x)[i] != x {
                let k = choose|k: int| 0 <= k < u.len() && u[k] == insert_by_time(u, x)[i];
                assert(t[k] == u[k]);
            }
        } else {
            assert(insert_by_time(t, x)[i] == t[t.len() - 1]);
        }
    } else if t.len() > 0 {
        if i < t.len() {
            assert(insert_by_time(t, x)[i] == t[i]);
        }
    }
}

proof fn lemma_insert_len(t: Seq<TimedPath>, x: TimedPath)
    ensures
        insert_by_time(t, x).len() == t.len() + 1,
    decreases t.len(),
{
    if t.len() > 0 && t.last().modified > x.modified {
        lemma_insert_len(t.drop_last(), x);
    }
}

/// The time order is sorted, oldest first.
pub proof fn lemma_sort_by_time_sorted(s: Seq<TimedPath>)
    ensures
        time_sorted(sort_by_time(s)),
        sort_by_time(s).len() == s.len(),
    decreases s.len(),
{
    if s.len() > 0 {
        lemma_sort_by_time_sorted(s.drop_last());
        lemma_insert_sorted(sort_by_time(s.drop_last()), s.last());
    }
}

/// The items sorted by modification time, oldest first; items with the same
/// time keep their order.
pub fn sort_by_modified(items: Vec<TimedPath>) -> (r: Vec<TimedPath>)
    ensures
        r@ == sort_by_time(items@),
{
    let ghost all = items@;
    let mut items = items;
    let mut out: Vec<TimedPath> = Vec::new();
    let ghost mut n: int = 0;
    while items.len() > 0
        invariant
            0 <= n <= all.len(),
            items@ == all.subrange(n, all.len() as int),
            out@ == sort_by_time(all.take(n)),
        decreases items.len(),
    {
        let x = items.remove(0);
        assert(x == all[n]);
        assert(all.take(n + 1).drop_last() =~= all.take(n));
        assert(all.take(n + 1).last() == x);
        let mut j = out.len();
        while j > 0 && out[j - 1].modified > x.modified
            invariant
                j <= out@.len(),
                forall|k: int| j <= k < out@.len() ==> (#[trigger] out@[k]).modified > x.modified,
            decreases j,
        {
            j = j - 1;
        }
        proof {
            lemma_insert_at(out@, x, j as int);
        }
        let ghost before = out@;
        out.insert(j, x);
        assert(out@ =~= before.take(j as int).push(x) + before.skip(j as int));
        proof {
            n = n + 1;
        }
        assert(items@ =~= all.subrange(n, all.len() as int));
    }
    assert(all.take(n) =~= all);
    out
}

pub open spec fn paths_of(s: Seq<TimedPath>) -> Seq<Seq<char>> {
    s.map_values(|t: TimedPath| t.path@)
}

/// The saved clips among the files, oldest first.
pub open spec fn clips_of(s: Seq<TimedPath>) -> Seq<TimedPath>
    decreases s.len(),
{
    if s.len() == 0 {
        s
    } else if file_name(s.last().path@) matches Some(n) && clip_name(n) {
        clips_of(s.drop_last()).push(s.last())
    } else {
        clips_of(s.drop_last())
    }
}

/// The clips among the files of the output directory, oldest first.
pub fn order_clips(files: Vec<TimedPath>) -> (r: crate::ClipsResult)
    ensures
        views(r.clips@) == paths_of(sort_by_time(clips_of(files@))),
{
    let ghost all = files@;
    let mut files = files;
    let mut kept: Vec<TimedPath> = Vec::new();
    let ghost mut i: int = 0;
    while files.len() > 0
        invariant
            0 <= i <= all.len(),
            files@ == all.subrange(i, all.len() as int),
            kept@ == clips_of(all.take(i)),
        decreases files.len(),
    {
        let x = files.remove(0);
        assert(x == all[i]);
        assert(all.take(i + 1).drop_last() =~= all.take(i));
        assert(all.take(i + 1).last() == x);
        if is_clip_file_name(x.path.as_str()) {
            kept.push(x);
        }
        proof {
            i = i + 1;
        }
        assert(files@ =~= all.subrange(i, all.len() as int));
    }
    assert(all.take(i) =~= all);
    let sorted = sort_by_modified(kept);
    let mut clips: Vec<String> = Vec::new();
    let mut k: usize = 0;
    while k < sorted.len()
        invariant
            k <= sorted.len(),
            clips@.len() == k,
            forall|m: int| 0 <= m < k ==> #[trigger] clips@[m]@ == sorted@[m].path@,
        decreases sorted.len() - k,
    {
        clips.push(sorted[k].path.clone());
        k = k + 1;
    }
    assert(views(clips@) =~= paths_of(sorted@));
    crate::ClipsResult { clips }
}

// ----- choosing segments -----

/// Why a replay cannot be saved from the segments.
#[derive(Debug, Clone, Copy, PartialEq, Eq, Structural)]
pub enum SegmentError {
    /// Fewer segments than the duration needs: have, need, duration.
    NotEnough(usize, usize, u64),
}

/// The replay duration of a save.
pub open spec fn save_duration(c: Config, o: SaveOptions) -> u64 {
    match o.duration_seconds {
        Some(d) => d,
        None => c.recording.duration_seconds,
    }
}

/// The newest segments that hold the duration, oldest first, or why there
/// are not enough.
pub open spec fn chosen_segments(c: Config, o: SaveOptions, segments: Seq<TimedPath>) -> Result<
    Seq<Seq<char>>,
    SegmentError,
> {
    let d = save_duration(c, o);
    let needed = segments_for(d, c.recording.segment_seconds) as usize;
    let sorted = sort_by_time(segments);
    if sorted.len() < needed {
        Err(SegmentError::NotEnough(sorted.len() as usize, needed, d))
    } else {
        Ok(paths_of(sorted.subrange(sorted.len() - needed, sorted.len() as int)))
    }
}

/// The newest segments that hold the requested duration, oldest first.
pub fn choose_segments(config: &Config, options: &SaveOptions, segments: Vec<TimedPath>) -> (r: Result<
    Vec<String>,
    SegmentError,
>)
    ensures
        match chosen_segments(*config, *options, segments@) {
            Ok(p) => r matches Ok(v) && views(v@) == p,
            Err(e) => r matches Err(x) && x == e,
        },
{
    let duration = match options.duration_seconds {
        Some(d) => d,
        None => config.recording.duration_seconds,
    };
    let needed = crate::config::segments_needed(duration, config.recording.segment_seconds);
    let ghost original = segments@;
    let sorted = sort_by_modified(segments);
    proof {
        lemma_sort_by_time_sorted(original);
    }
    if sorted.len() < needed {
        return Err(SegmentError::NotEnough(sorted.len(), needed, duration));
    }
    let first = sorted.len() - needed;
    let mut out: Vec<String> = Vec::new();
    let mut k = first;
    while k < sorted.len()
        invariant
            first <= k <= sorted.len(),
            out@.len() == k - first,
            forall|m: int| 0 <= m < k - first ==> #[trigger] out@[m]@ == sorted@[first + m].path@,
        decreases sorted.len() - k,
    {
        out.push(sorted[k].path.clone());
        k = k + 1;
    }
    assert(views(out@) =~= paths_of(sorted@.subrange(first as int, sorted@.len() as int)));
    Ok(out)
}

/// The error text when there are not enough segments.
pub open spec fn not_enough_text(have: usize, need: usize, duration: u64) -> Seq<char> {
    "not enough segments yet: have "@ + decimal(have as nat) + ", need "@ + decimal(need as nat)
        + " for "@ + decimal(duration as nat) + " seconds"@
}

impl SegmentError {
    /// The text of the error.
    pub fn message(&self) -> (r: String)
        ensures
            match *self {
                SegmentError::NotEnough(h, n, d) => r@ == not_enough_text(h, n, d),
            },
    {
        match self {
            SegmentError::NotEnough(have, need, duration) => {
                let h = u64_to_string(*have as u64);
                let n = u64_to_string(*need as u64);
                let d = u64_to_string(*duration);
                let mut r = concat2("not enough segments yet: have ", h.as_str());
                r.append(", need ");
                r.append(n.as_str());
                r.append(" for ");
                r.append(d.as_str());
                r.append(" seconds");
                r
            },
        }
    }
}

// ----- status -----

/// `true` or `false`, as `{}` formats a `bool`.
pub open spec fn bool_text(b: bool) -> Seq<char> {
    if b {
        "true"@
    } else {
        "false"@
    }
}

/// The one-line description of what is captured.
pub open spec fn capture_target_spec(c: Config) -> Seq<char> {
    if window_enabled(c) {
        let w = window_source(c).unwrap();
        "window title='"@ + w.title@ + "' class='"@ + w.class@ + "' address='"@ + w.address@
            + "' geometry='"@ + w.geometry@ + "' follow="@ + bool_text(w.follow)
    } else {
        let m = c.wl_screenrec.capture_mode@;
        if m == "geometry"@ {
            "geometry "@ + c.wl_screenrec.geometry@
        } else if m == "active-window"@ || m == "window"@ {
            "active window"@
        } else if !blank(c.wl_screenrec.output@) {
            "output "@ + c.wl_screenrec.output@
        } else {
            "fullscreen/focused output"@
        }
    }
}

fn bool_string(b: bool) -> (r: &'static str)
    ensures
        r@ == bool_text(b),
{
    if b {
        "true"
    } else {
        "false"
    }
}

/// What is captured: the window, a geometry, the active window, an output,
/// or the focused output.
pub fn capture_target_summary(config: &Config) -> (r: String)
    ensures
        r@ == capture_target_spec(*config),
{
    let window = config.effective_capture_window();
    if window.enabled {
        let mut r = concat2("window title='", window.title.as_str());
        r.append("' class='");
        r.append(window.class.as_str());
        r.append("' address='");
        r.append(window.address.as_str());
        r.append("' geometry='");
        r.append(window.geometry.as_str());
        r.append("' follow=");
        r.append(bool_string(window.follow));
        return r;
    }
    let mode = config.wl_screenrec.capture_mode.as_str();
    if str_eq(mode, "geometry") {
        concat2("geometry ", config.wl_screenrec.geometry.as_str())
    } else if str_eq(mode, "active-window") || str_eq(mode, "window") {
        owned("active window")
    } else if !is_blank(config.wl_screenrec.output.as_str()) {
        concat2("output ", config.wl_screenrec.output.as_str())
    } else {
        owned("fullscreen/focused output")
    }
}

/// The lines that report errors, in order.
pub open spec fn errors_of(lines: Seq<Seq<char>>) -> Seq<Seq<char>>
    decreases lines.len(),
{
    if lines.len() == 0 {
        lines
    } else if relevant_error(lines.last()) {
        errors_of(lines.drop_last()).push(lines.last())
    } else {
        errors_of(lines.drop_last())
    }
}

/// At most the last `n` lines that report errors, in order.
pub fn error_lines(lines: &Vec<String>, n: usize) -> (r: Vec<String>)
    ensures
        views(r@) == last_n(errors_of(views(lines@)), n as nat),
{
    let ghost all = views(lines@);
    let mut found: Vec<String> = Vec::new();
    let mut i: usize = 0;
    while i < lines.len()
        invariant
            all == views(lines@),
            i <= lines.len(),
            views(found@) == errors_of(all.take(i as int)),
        decreases lines.len() - i,
    {
        assert(all.take(i + 1).drop_last() =~= all.take(i as int));
        assert(all.take(i + 1).last() == lines@[i as int]@);
        if is_relevant_log_error(lines[i].as_str()) {
            let ghost before = views(found@);
            found.push(lines[i].clone());
            assert(views(found@) =~= before.push(lines@[i as int]@));
        }
        i = i + 1;
    }
    assert(all.take(i as int) =~= all);
    let first = if found.len() > n {
        found.len() - n
    } else {
        0
    };
    let mut out: Vec<String> = Vec::new();
    let mut k = first;
    while k < found.len()
        invariant
            first <= k <= found.len(),
            out@.len() == k - first,
            forall|m: int| 0 <= m < k - first ==> #[trigger] out@[m]@ == found@[first + m]@,
        decreases found.len() - k,
    {
        out.push(found[k].clone());
        k = k + 1;
    }
    assert(views(out@) =~= last_n(views(found@), n as nat));
    out
}

/// What `v8q status` found on the machine: the recorder PID and the
/// warnings about a stale one, the recorder's command line and metadata, the
/// configuration file's path, the home and runtime directories, the size of
/// wl-screenrec's history file (`None` when it is missing), wl-screenrec's
/// log and its contents (`None` when unreadable), the number of segment files,
/// the log files that exist with their contents, and the newest clip.
#[derive(Debug)]
pub struct StatusObservation {
    pub recorder_pid: Option<u32>,
    pub pid_warnings: Vec<String>,
    pub process_command: Option<String>,
    pub metadata: Option<crate::process::ProcessMeta>,
    pub config_path: Option<String>,
    pub home: Option<String>,
    pub runtime_dir: String,
    pub history_size_bytes: Option<u64>,
    pub wl_log_file: String,
    pub wl_log_contents: Option<String>,
    pub segment_count: usize,
    pub log_files: Vec<(String, String)>,
    pub latest_clip: Option<String>,
}

/// Why no status could be reported.
#[derive(Debug, Clone, Copy, PartialEq, Eq, Structural)]
pub enum StatusError {
    /// The capture backend is not known.
    Config(crate::config::ConfigError),
    /// The configuration directory is not known.
    NoConfigPath,
}

/// The buffer directory is the legacy `/tmp/v8q-buffer`.
pub open spec fn legacy_buffer(c: Config, home: Option<Seq<char>>) -> bool {
    path_components(expand_tilde_spec(c.paths.buffer_dir@, home)) == path_components(
        "/tmp/v8q-buffer"@,
    )
}

/// The warning about the legacy buffer directory.
pub open spec fn legacy_buffer_warning(runtime_dir: Seq<char>) -> Seq<char> {
    "Using legacy buffer_dir /tmp/v8q-buffer. Recommended: "@ + join(runtime_dir, "buffer"@)
}

/// The warning about a history file too small to be a replay.
pub open spec fn tiny_history_warning(size: u64) -> Seq<char> {
    "History file exists but is probably not a valid replay yet: size is only "@ + decimal(
        size as nat,
    ) + " bytes."@
}

/// The warnings of a status: the stale-PID warnings, then the legacy buffer
/// directory, then a history file that is too small (wl-screenrec only).
pub open spec fn status_warnings_spec(c: Config, o: StatusObservation, wl: bool) -> Seq<Seq<char>> {
    views(o.pid_warnings@) + (if legacy_buffer(c, opt_view(o.home)) {
        seq![legacy_buffer_warning(o.runtime_dir@)]
    } else {
        Seq::empty()
    }) + (if wl && o.history_size_bytes is Some && o.history_size_bytes.unwrap() < MIN_VALID_HISTORY_BYTES {
        seq![tiny_history_warning(o.history_size_bytes.unwrap())]
    } else {
        Seq::empty()
    })
}

/// The wl-screenrec log tail that status shows: its last 30 lines without
/// ANSI escapes (none for the segmented backends).
pub open spec fn status_log_tail(o: StatusObservation, wl: bool) -> Seq<Seq<char>> {
    if wl && o.wl_log_contents is Some {
        last_n(lines_of(o.wl_log_contents.unwrap()@), 30).map_values(
            |l: Seq<char>| strip_ansi_spec(l),
        )
    } else {
        Seq::empty()
    }
}

fn status_warnings(config: &Config, obs: &StatusObservation, wl: bool) -> (r: Vec<String>)
    ensures
        views(r@) == status_warnings_spec(*config, *obs, wl),
{
    let mut warnings = crate::config::copy_strings(&obs.pid_warnings);
    let buffer = config.paths.buffer_dir_path_in(&obs.home);
    let ghost w0 = views(warnings@);
    if crate::paths::same_path(buffer.as_str(), "/tmp/v8q-buffer") {
        let d = crate::paths::default_buffer_dir(obs.runtime_dir.as_str());
        warnings.push(concat2("Using legacy buffer_dir /tmp/v8q-buffer. Recommended: ", d.as_str()));
        assert(views(warnings@) =~= w0.push(legacy_buffer_warning(obs.runtime_dir@)));
    }
    let ghost w1 = views(warnings@);
    if wl {
        if let Some(size) = obs.history_size_bytes {
            if size < MIN_VALID_HISTORY_BYTES {
                let n = u64_to_string(size);
                warnings.push(concat3(
                    "History file exists but is probably not a valid replay yet: size is only ",
                    n.as_str(),
                    " bytes.",
                ));
                assert(views(warnings@) =~= w1.push(tiny_history_warning(size)));
            }
        }
    }
    assert(views(warnings@) =~= status_warnings_spec(*config, *obs, wl));
    warnings
}

fn status_log_lines(obs: &StatusObservation, wl: bool) -> (r: Vec<String>)
    ensures
        views(r@) == status_log_tail(*obs, wl),
{
    if wl {
        if let Some(contents) = &obs.wl_log_contents {
            return log_tail(contents.as_str(), 30);
        }
    }
    Vec::new()
}

/// The tail that `v8q logs` shows of a log: its last 10 lines without ANSI
/// escapes.
pub open spec fn log_tail_spec(contents: Seq<char>) -> Seq<Seq<char>> {
    last_n(lines_of(contents), 10).map_values(|l: Seq<char>| strip_ansi_spec(l))
}

/// The log tails, given the log files that exist and their contents.
pub open spec fn logs_match(r: crate::LogsResult, files: Seq<(String, String)>) -> bool {
    &&& r.logs@.len() == files.len()
    &&& forall|i: int|
        0 <= i < files.len() ==> (#[trigger] r.logs@[i]).0@ == files[i].0@ && views(r.logs@[i].1@)
            == log_tail_spec(files[i].1@)
}

/// The tails of the log files that exist, given with their contents.
pub fn logs(log_files: &Vec<(String, String)>) -> (r: crate::LogsResult)
    ensures
        logs_match(r, log_files@),
{
    let mut out: Vec<(String, Vec<String>)> = Vec::new();
    let mut i: usize = 0;
    while i < log_files.len()
        invariant
            i <= log_files.len(),
            out@.len() == i,
            forall|k: int|
                0 <= k < i ==> (#[trigger] out@[k]).0@ == log_files@[k].0@ && views(out@[k].1@)
                    == log_tail_spec(log_files@[k].1@),
        decreases log_files.len() - i,
    {
        let (path, contents) = &log_files[i];
        let tail = log_tail(contents.as_str(), 10);
        out.push((path.clone(), tail));
        i = i + 1;
    }
    crate::LogsResult { logs: out }
}

/// The status report for a configuration with backend `b`, given what was
/// observed.
pub open spec fn status_matches(r: crate::StatusInfo, c: Config, o: StatusObservation, b: crate::config::CaptureBackend) -> bool {
    let wl = b == crate::config::CaptureBackend::WlScreenrec;
    let buffer = expand_tilde_spec(c.paths.buffer_dir@, opt_view(o.home));
    let history = join(buffer, "history.mkv"@);
    let tail = status_log_tail(o, wl);
    &&& r.is_running == o.recorder_pid is Some
    &&& r.pid == o.recorder_pid
    &&& r.backend@ == crate::config::backend_label(b)
    &&& Some(r.config_path@) == opt_view(o.config_path)
    &&& r.buffer_dir@ == buffer
    &&& r.output_dir@ == expand_tilde_spec(c.paths.output_dir@, opt_view(o.home))
    &&& opt_view(r.latest_clip) == opt_view(o.latest_clip)
    &&& match crate::preset::first_matching(c, 0) {
        Some(i) => r.detected_preset matches Some(n) && n@ == crate::preset::table_entry(i).0,
        None => r.detected_preset is None,
    }
    &&& r.capture_target@ == capture_target_spec(c)
    &&& r.replay_duration == c.recording.duration_seconds
    &&& r.segment_duration == c.recording.segment_seconds
    &&& r.fps == c.recording.fps
    &&& r.encoder@ == crate::config::encoder_for(c, b)
    &&& r.bitrate@ == crate::config::bitrate_for(c, b)
    &&& r.audio_enabled == (if wl {
        Some(c.wl_screenrec.audio)
    } else {
        None
    })
    &&& r.segment_count == (if wl {
        None
    } else {
        Some(o.segment_count)
    })
    &&& opt_view(r.history_file) == (if wl {
        Some(history)
    } else {
        None
    })
    &&& opt_view(r.expected_history_file) == opt_view(r.history_file)
    &&& logs_match(crate::LogsResult { logs: r.last_log_lines }, o.log_files@)
    &&& opt_view(r.process_command) == opt_view(o.process_command)
    &&& r.metadata == o.metadata
    &&& views(r.warnings@) == status_warnings_spec(c, o, wl)
    &&& r.error is None
    &&& views(r.log_tail@) == tail
    &&& views(r.last_error_lines@) == last_n(errors_of(tail), 3)
    &&& opt_view(r.log_file) == (if wl {
        Some(o.wl_log_file@)
    } else {
        None
    })
    &&& r.history_exists == (if wl {
        Some(o.history_size_bytes is Some)
    } else {
        None
    })
    &&& r.history_size_bytes == (if wl {
        o.history_size_bytes
    } else {
        None
    })
    &&& r.history_valid == (if wl && o.history_size_bytes is Some {
        Some(o.history_size_bytes.unwrap() >= MIN_VALID_HISTORY_BYTES)
    } else {
        None
    })
}

/// The status report: the backend, paths and recording settings of the
/// configuration, with what was observed of the recorder, its history file
/// and its logs.
pub fn status_info(config: &Config, obs: StatusObservation) -> (r: Result<crate::StatusInfo, StatusError>)
    ensures
        match crate::config::backend_result(*config) {
            Err(e) => r matches Err(StatusError::Config(x)) && x == e,
            Ok(b) => match obs.config_path {
                None => r matches Err(StatusError::NoConfigPath),
                Some(_) => r matches Ok(s) && status_matches(s, *config, obs, b),
            },
        },
{
    let ghost o = obs;
    let backend = match config.effective_backend() {
        Ok(b) => b,
        Err(e) => {
            return Err(StatusError::Config(e));
        },
    };
    let wl = match backend {
        crate::config::CaptureBackend::WlScreenrec => true,
        _ => false,
    };
    let config_path = match &obs.config_path {
        Some(p) => p.clone(),
        None => {
            return Err(StatusError::NoConfigPath);
        },
    };
    let warnings = status_warnings(config, &obs, wl);
    let log_tail_lines = status_log_lines(&obs, wl);
    let last_error_lines = error_lines(&log_tail_lines, 3);
    let last_log_lines = logs(&obs.log_files).logs;
    let buffer_dir = config.paths.buffer_dir_path_in(&obs.home);
    let output_dir = config.paths.output_dir_path_in(&obs.home);
    let history = join_path(buffer_dir.as_str(), "history.mkv");
    let expected_history_file = if wl {
        Some(history.clone())
    } else {
        None
    };
    let history_file = if wl {
        Some(history)
    } else {
        None
    };
    let encoder = match config.effective_encoder() {
        Ok(e) => owned(e),
        Err(e) => {
            return Err(StatusError::Config(e));
        },
    };
    let bitrate = match config.effective_bitrate() {
        Ok(e) => owned(e),
        Err(e) => {
            return Err(StatusError::Config(e));
        },
    };
    let detected_preset = match crate::preset::detect(config) {
        Some(n) => Some(owned(n)),
        None => None,
    };
    let history_valid = if wl {
        match obs.history_size_bytes {
            Some(size) => Some(size >= MIN_VALID_HISTORY_BYTES),
            None => None,
        }
    } else {
        None
    };
    let StatusObservation {
        recorder_pid,
        pid_warnings: _,
        process_command,
        metadata,
        config_path: _,
        home: _,
        runtime_dir: _,
        history_size_bytes,
        wl_log_file,
        wl_log_contents: _,
        segment_count,
        log_files: _,
        latest_clip,
    } = obs;
    let info = crate::StatusInfo {
        is_running: recorder_pid.is_some(),
        pid: recorder_pid,
        backend: owned(backend.as_str()),
        config_path,
        buffer_dir,
        output_dir,
        latest_clip,
        detected_preset,
        capture_target: capture_target_summary(config),
        replay_duration: config.recording.duration_seconds,
        segment_duration: config.recording.segment_seconds,
        fps: config.recording.fps,
        encoder,
        bitrate,
        audio_enabled: if wl {
            Some(config.wl_screenrec.audio)
        } else {
            None
        },
        segment_count: if wl {
            None
        } else {
            Some(segment_count)
        },
        history_file,
        last_log_lines,
        process_command,
        metadata,
        warnings,
        error: None,
        log_tail: log_tail_lines,
        last_error_lines,
        log_file: if wl {
            Some(wl_log_file)
        } else {
            None
        },
        expected_history_file,
        history_exists: if wl {
            Some(history_size_bytes.is_some())
        } else {
            None
        },
        history_size_bytes: if wl {
            history_size_bytes
        } else {
            None
        },
        history_valid,
    };
    assert(status_matches(info, *config, o, backend));
    Ok(info)
}

// ----- clean -----

/// The files that `clean` removes, in order.
pub open spec fn cleanable_of(files: Seq<Seq<char>>) -> Seq<Seq<char>>
    decreases files.len(),
{
    if files.len() == 0 {
        files
    } else if file_name(files.last()) matches Some(n) && cleanable_name(n) {
        cleanable_of(files.drop_last()).push(files.last())
    } else {
        cleanable_of(files.drop_last())
    }
}

/// What `v8q clean` does in the buffer directory.
#[derive(Debug)]
pub struct CleanPlan {
    pub buffer_dir: String,
    pub remove: Vec<String>,
}

impl CleanPlan {
    /// The result once every file of the plan was removed.
    pub fn done(self) -> (r: crate::CleanResult)
        ensures
            r.buffer_dir@ == self.buffer_dir@,
            r.removed_files == self.remove@.len(),
    {
        let n = self.remove.len();
        crate::CleanResult { buffer_dir: self.buffer_dir, removed_files: n }
    }
}

/// The files of the buffer directory that `clean` removes: segments, concat
/// lists and the wl-screenrec history, never logs. `files` are the regular
/// files found there (none when the directory does not exist).
pub fn clean(config: &Config, home: &Option<String>, files: &Vec<String>) -> (r: CleanPlan)
    ensures
        r.buffer_dir@ == expand_tilde_spec(config.paths.buffer_dir@, opt_view(*home)),
        views(r.remove@) == cleanable_of(views(files@)),
{
    let ghost all = views(files@);
    let mut remove: Vec<String> = Vec::new();
    let mut i: usize = 0;
    while i < files.len()
        invariant
            all == views(files@),
            i <= files.len(),
            views(remove@) == cleanable_of(all.take(i as int)),
        decreases files.len() - i,
    {
        assert(all.take(i + 1).drop_last() =~= all.take(i as int));
        assert(all.take(i + 1).last() == files@[i as int]@);
        if is_cleanable_buffer_file(files[i].as_str()) {
            let ghost before = views(remove@);
            remove.push(files[i].clone());
            assert(views(remove@) =~= before.push(files@[i as int]@));
        }
        i = i + 1;
    }
    assert(all.take(i as int) =~= all);
    CleanPlan { buffer_dir: config.paths.buffer_dir_path_in(home), remove }
}

// ----- save -----

/// One line of an FFmpeg concat list.
pub open spec fn concat_entry(path: Seq<char>) -> Seq<char> {
    "file '"@ + replace(path, "'"@, "'\\''"@) + "'\n"@
}

/// The FFmpeg concat list of the segments, one line each.
pub open spec fn concat_list_spec(paths: Seq<Seq<char>>) -> Seq<char>
    decreases paths.len(),
{
    if paths.len() == 0 {
        Seq::empty()
    } else {
        concat_list_spec(paths.drop_last()) + concat_entry(paths.last())
    }
}

/// The FFmpeg command that joins the listed segments into the clip.
pub open spec fn concat_args(concat_file: Seq<char>, output_file: Seq<char>) -> Seq<Seq<char>> {
    seq![
        "ffmpeg"@,
        "-y"@,
        "-f"@,
        "concat"@,
        "-safe"@,
        "0"@,
        "-i"@,
        concat_file,
        "-c"@,
        "copy"@,
        output_file,
    ]
}

/// The concat list of the segments.
pub fn concat_list(paths: &Vec<String>) -> (r: String)
    ensures
        r@ == concat_list_spec(views(paths@)),
{
    let ghost all = views(paths@);
    let mut out = String::new();
    let mut i: usize = 0;
    while i < paths.len()
        invariant
            all == views(paths@),
            i <= paths.len(),
            out@ == concat_list_spec(all.take(i as int)),
        decreases paths.len() - i,
    {
        assert(all.take(i + 1).drop_last() =~= all.take(i as int));
        assert(all.take(i + 1).last() == paths@[i as int]@);
        let e = escape_concat_path(paths[i].as_str());
        out.append("file '");
        out.append(e.as_str());
        out.append("'\n");
        i = i + 1;
    }
    assert(all.take(i as int) =~= all);
    out
}

/// What a save of a segmented replay writes and runs: the concat list and
/// its file, the FFmpeg command, and the result it reports.
#[derive(Debug)]
pub struct ConcatSave {
    pub concat_file: String,
    pub concat_list: String,
    pub ffmpeg_args: Vec<String>,
    pub result: crate::SaveResult,
}

/// How a replay is saved.
#[derive(Debug)]
pub enum SavePlan {
    /// wl-screenrec flushes its history file, which becomes the clip.
    WlScreenrec { history_file: String, duration_seconds: u64 },
    /// FFmpeg joins the newest segments.
    Concat(ConcatSave),
}

/// Why a replay cannot be saved.
#[derive(Debug, Clone, Copy, PartialEq, Eq, Structural)]
pub enum SaveError {
    /// The capture backend is not known.
    Config(crate::config::ConfigError),
    /// Not enough segments for the duration.
    Segments(SegmentError),
}

/// The save of a replay. `segments` are the segment files of the buffer with
/// their modification times; `output_file` is the clip to write and
/// `timestamp` names the concat list.
pub open spec fn save_plan_matches(
    r: Result<SavePlan, SaveError>,
    c: Config,
    o: SaveOptions,
    segments: Seq<TimedPath>,
    output: OutputAttempt,
    timestamp: Seq<char>,
    home: Option<Seq<char>>,
) -> bool {
    let buffer = expand_tilde_spec(c.paths.buffer_dir@, home);
    let output_file = output_candidate(expand_tilde_spec(c.paths.output_dir@, home), opt_view(o.name), timestamp, output);
    match crate::config::backend_result(c) {
        Err(e) => r matches Err(SaveError::Config(x)) && x == e,
        Ok(b) => if b == crate::config::CaptureBackend::WlScreenrec {
            r matches Ok(SavePlan::WlScreenrec { history_file, duration_seconds }) && history_file@
                == join(buffer, "history.mkv"@) && duration_seconds == save_duration(c, o)
        } else {
            match chosen_segments(c, o, segments) {
                Err(e) => r matches Err(SaveError::Segments(x)) && x == e,
                Ok(p) => r matches Ok(SavePlan::Concat(s)) && s.concat_file@ == join(
                    buffer,
                    "concat_"@ + timestamp + ".txt"@,
                ) && s.concat_list@ == concat_list_spec(p) && views(s.ffmpeg_args@)
                    == concat_args(s.concat_file@, output_file) && s.result.output_file@
                    == output_file && s.result.duration_seconds == save_duration(c, o)
                    && s.result.backend@ == crate::config::backend_label(b),
            }
        },
    }
}

/// How to save the replay with the given options.
pub fn save_with_options(
    config: &Config,
    options: &SaveOptions,
    segments: Vec<TimedPath>,
    output: OutputAttempt,
    timestamp: &str,
    home: &Option<String>,
) -> (r: Result<SavePlan, SaveError>)
    ensures
        save_plan_matches(r, *config, *options, segments@, output, timestamp@, opt_view(*home)),
{
    let backend = match config.effective_backend() {
        Ok(b) => b,
        Err(e) => {
            return Err(SaveError::Config(e));
        },
    };
    let duration = match options.duration_seconds {
        Some(d) => d,
        None => config.recording.duration_seconds,
    };
    let buffer = config.paths.buffer_dir_path_in(home);
    if let crate::config::CaptureBackend::WlScreenrec = backend {
        return Ok(
            SavePlan::WlScreenrec {
                history_file: join_path(buffer.as_str(), "history.mkv"),
                duration_seconds: duration,
            },
        );
    }
    let selected = match choose_segments(config, options, segments) {
        Ok(p) => p,
        Err(e) => {
            return Err(SaveError::Segments(e));
        },
    };
    let dir = config.paths.output_dir_path_in(home);
    let output_file = output_candidate_path(dir.as_str(), name_str(&options.name), timestamp, output);
    let name = concat3("concat_", timestamp, ".txt");
    let concat_file = join_path(buffer.as_str(), name.as_str());
    let list = concat_list(&selected);
    let mut args: Vec<String> = Vec::new();
    args.push(owned("ffmpeg"));
    args.push(owned("-y"));
    args.push(owned("-f"));
    args.push(owned("concat"));
    args.push(owned("-safe"));
    args.push(owned("0"));
    args.push(owned("-i"));
    args.push(concat_file.clone());
    args.push(owned("-c"));
    args.push(owned("copy"));
    args.push(output_file.clone());
    assert(views(args@) =~= concat_args(concat_file@, output_file@));
    Ok(
        SavePlan::Concat(
            ConcatSave {
                concat_file,
                concat_list: list,
                ffmpeg_args: args,
                result: crate::SaveResult {
                    output_file,
                    duration_seconds: duration,
                    backend: owned(backend.as_str()),
                },
            },
        ),
    )
}

/// How to save the replay of the configured duration.
pub fn save(
    config: &Config,
    segments: Vec<TimedPath>,
    output: OutputAttempt,
    timestamp: &str,
    home: &Option<String>,
) -> (r: Result<SavePlan, SaveError>)
    ensures
        save_plan_matches(
            r,
            *config,
            SaveOptions { name: None, duration_seconds: None },
            segments@,
            output,
            timestamp@,
            opt_view(*home),
        ),
{
    let options = SaveOptions::default();
    save_with_options(config, &options, segments, output, timestamp, home)
}

// ----- the wl-screenrec save -----

/// What one look at wl-screenrec while waiting for its history file found.
#[derive(Debug, Clone)]
pub enum HistoryPoll {
    /// The recorder is gone; the message says so.
    Exited(String),
    /// The history file is large enough to be a replay.
    Ready,
    /// Keep waiting.
    Waiting,
}

/// The error when the recorder exits before writing its history.
pub open spec fn exited_text(pid: u32, cmdline: Seq<char>) -> Seq<char> {
    "recorder process exited before save; wl-screenrec crashed or stopped before writing history file; pid="@
        + decimal(pid as nat) + "; cmdline="@ + cmdline
}

/// One look while waiting for the history file: the recorder must still run,
/// and the file must reach `MIN_VALID_HISTORY_BYTES`.
pub fn poll_history(pid: u32, cmdline: &str, running: bool, history_size: Option<u64>) -> (r:
    HistoryPoll)
    ensures
        !running ==> (r matches HistoryPoll::Exited(m) && m@ == exited_text(pid, cmdline@)),
        running ==> (r is Ready <==> (history_size is Some && history_size.unwrap()
            >= MIN_VALID_HISTORY_BYTES)),
        running ==> (r is Ready || r is Waiting),
{
    if !running {
        let p = u64_to_string(pid as u64);
        let mut m = concat2(
            "recorder process exited before save; wl-screenrec crashed or stopped before writing history file; pid=",
            p.as_str(),
        );
        m.append("; cmdline=");
        m.append(cmdline);
        return HistoryPoll::Exited(m);
    }
    match history_size {
        Some(s) => if s >= MIN_VALID_HISTORY_BYTES {
            HistoryPoll::Ready
        } else {
            HistoryPoll::Waiting
        },
        None => HistoryPoll::Waiting,
    }
}

/// Watches a file until its size, at least `MIN_VALID_HISTORY_BYTES`, is the
/// same at three looks in a row.
#[derive(Debug, Clone, Copy, PartialEq, Eq, Structural)]
pub struct StableWatch {
    pub last_size: Option<u64>,
    pub stable_ticks: u8,
}

impl StableWatch {
    /// A watch that has seen nothing yet.
    pub fn new() -> (r: Self)
        ensures
            r.last_size is None,
            r.stable_ticks == 0,
    {
        StableWatch { last_size: None, stable_ticks: 0 }
    }

    /// Records one look at the file (`None` when it could not be read);
    /// returns whether the file is now stable.
    pub fn observe(&mut self, size: Option<u64>) -> (done: bool)
        requires
            old(self).stable_ticks < 2,
        ensures
            match size {
                None => *final(self) == *old(self) && !done,
                Some(s) => if s >= MIN_VALID_HISTORY_BYTES && old(self).last_size == Some(s) {
                    final(self).last_size == old(self).last_size && final(self).stable_ticks
                        == old(self).stable_ticks + 1 && done == (final(self).stable_ticks >= 2)
                } else {
                    final(self).last_size == Some(s) && final(self).stable_ticks == 0 && !done
                },
            },
    {
        match size {
            None => false,
            Some(s) => {
                if s >= MIN_VALID_HISTORY_BYTES && self.last_size == Some(s) {
                    self.stable_ticks = self.stable_ticks + 1;
                    self.stable_ticks >= 2
                } else {
                    self.stable_ticks = 0;
                    self.last_size = Some(s);
                    false
                }
            },
        }
    }
}

/// `<none>` for no warnings, else the warnings joined with `; `.
pub open spec fn warning_text(warnings: Seq<Seq<char>>) -> Seq<char> {
    if warnings.len() == 0 {
        "<none>"@
    } else {
        crate::text::joined(warnings, "; "@)
    }
}

/// `<empty>` for no lines, else the lines joined with newlines.
pub open spec fn tail_text(lines: Seq<Seq<char>>) -> Seq<char> {
    if lines.len() == 0 {
        "<empty>"@
    } else {
        crate::text::joined(lines, "\n"@)
    }
}

/// The last 100 lines of wl-screenrec's log without ANSI escapes; none when
/// it could not be read.
pub open spec fn long_tail(log: Option<Seq<char>>) -> Seq<Seq<char>> {
    match log {
        Some(t) => last_n(lines_of(t), 100).map_values(|l: Seq<char>| strip_ansi_spec(l)),
        None => Seq::empty(),
    }
}

fn long_tail_of(log: &Option<String>) -> (r: Vec<String>)
    ensures
        views(r@) == long_tail(opt_view(*log)),
{
    match log {
        Some(t) => log_tail(t.as_str(), 100),
        None => Vec::new(),
    }
}

fn warning_string(warnings: &Vec<String>) -> (r: String)
    ensures
        r@ == warning_text(views(warnings@)),
{
    if warnings.len() == 0 {
        owned("<none>")
    } else {
        crate::text::join_strings(warnings, "; ")
    }
}

fn tail_string(lines: &Vec<String>) -> (r: String)
    ensures
        r@ == tail_text(views(lines@)),
{
    if lines.len() == 0 {
        owned("<empty>")
    } else {
        crate::text::join_strings(lines, "\n")
    }
}

/// The error when `save` finds no running wl-screenrec.
pub open spec fn not_running_text(history_file: Seq<char>, warnings: Seq<Seq<char>>, log: Option<Seq<char>>) -> Seq<char> {
    "recorder process exited before save; wl-screenrec crashed or is not running.\nV8Q detected it and preserved the log.\nwarnings: "@
        + warning_text(warnings) + "\nexpected history file: "@ + history_file + "\nlog tail:\n"@
        + tail_text(long_tail(log))
        + "\nRecommended actions:\n- Run `v8q debug wl-screenrec --test-run 5`.\n- Run `v8q preset apply beginner-safe --write` or `v8q preset apply wl-screenrec-nvidia-compat --write`.\n- Reduce FPS/bitrate if the backend still exits.\n- Test a custom/wf-recorder backend if wl-screenrec keeps crashing on this NVIDIA/Hyprland setup."@
}

/// The error when `save` finds no running wl-screenrec: the warnings, the
/// expected history file, the tail of wl-screenrec's log (`log`, its
/// contents if it could be read) and what to try.
pub fn recorder_not_running_message(history_file: &str, warnings: &Vec<String>, log: &Option<String>) -> (r:
    String)
    ensures
        r@ == not_running_text(history_file@, views(warnings@), opt_view(*log)),
{
    let w = warning_string(warnings);
    let lines = long_tail_of(log);
    let t = tail_string(&lines);
    let mut r = concat2(
        "recorder process exited before save; wl-screenrec crashed or is not running.\nV8Q detected it and preserved the log.\nwarnings: ",
        w.as_str(),
    );
    r.append("\nexpected history file: ");
    r.append(history_file);
    r.append("\nlog tail:\n");
    r.append(t.as_str());
    r.append(
        "\nRecommended actions:\n- Run `v8q debug wl-screenrec --test-run 5`.\n- Run `v8q preset apply beginner-safe --write` or `v8q preset apply wl-screenrec-nvidia-compat --write`.\n- Reduce FPS/bitrate if the backend still exits.\n- Test a custom/wf-recorder backend if wl-screenrec keeps crashing on this NVIDIA/Hyprland setup.",
    );
    r
}

/// One line of the buffer listing.
pub open spec fn listing_line(entry: (String, u64)) -> Seq<char> {
    "  "@ + entry.0@ + " ("@ + decimal(entry.1 as nat) + " bytes)"@
}

/// The buffer listing: a line per entry, or why the directory could not be
/// listed.
pub open spec fn listing_text(listing: Result<Seq<(String, u64)>, Seq<char>>) -> Seq<char> {
    match listing {
        Ok(entries) => crate::text::joined(entries.map_values(|e: (String, u64)| listing_line(e)), "\n"@),
        Err(e) => "  <failed to list buffer dir: "@ + e + ">"@,
    }
}

pub open spec fn listing_view(listing: Result<Vec<(String, u64)>, String>) -> Result<
    Seq<(String, u64)>,
    Seq<char>,
> {
    match listing {
        Ok(v) => Ok(v@),
        Err(e) => Err(e@),
    }
}

fn listing_string(listing: &Result<Vec<(String, u64)>, String>) -> (r: String)
    ensures
        r@ == listing_text(listing_view(*listing)),
{
    match listing {
        Ok(entries) => {
            let mut lines: Vec<String> = Vec::new();
            let mut i: usize = 0;
            while i < entries.len()
                invariant
                    i <= entries.len(),
                    lines@.len() == i,
                    forall|k: int| 0 <= k < i ==> #[trigger] lines@[k]@ == listing_line(entries@[k]),
                decreases entries.len() - i,
            {
                let (path, size) = &entries[i];
                let n = u64_to_string(*size);
                let mut l = concat3("  ", path.as_str(), " (");
                l.append(n.as_str());
                l.append(" bytes)");
                lines.push(l);
                i = i + 1;
            }
            assert(lines@.map_values(|s: String| s@) =~= entries@.map_values(
                |e: (String, u64)| listing_line(e),
            ));
            crate::text::join_strings(&lines, "\n")
        },
        Err(e) => concat3("  <failed to list buffer dir: ", e.as_str(), ">"),
    }
}

/// The debug context added to a failed wl-screenrec save.
pub open spec fn failure_context_text(
    pid: u32,
    cmdline: Seq<char>,
    history_file: Seq<char>,
    buffer_dir: Seq<char>,
    alive: bool,
    warnings: Seq<Seq<char>>,
    listing: Result<Seq<(String, u64)>, Seq<char>>,
    log: Option<Seq<char>>,
) -> Seq<char> {
    "wl-screenrec save debug context:\n  pid: "@ + decimal(pid as nat) + "\n  cmdline: "@ + cmdline
        + "\n  expected history file: "@ + history_file + "\n  buffer dir: "@ + buffer_dir
        + "\n  process alive: "@ + bool_text(alive) + "\n  warnings: "@ + warning_text(warnings)
        + "\n  buffer listing:\n"@ + listing_text(listing) + "\n  log tail:\n"@ + tail_text(
        long_tail(log),
    )
        + "\nRecommended actions:\n  - Run `v8q debug wl-screenrec --test-run 5`.\n  - Run `v8q preset apply beginner-safe --write` for the safest first-run config.\n  - Run `v8q preset apply wl-screenrec-nvidia-compat --write` for the 60 FPS NVIDIA compatibility path.\n  - Reduce FPS/bitrate if the backend still exits.\n  - If multiple displays are enabled, set `[wl_screenrec] output = \"DP-1\"` or another output from `hyprctl monitors -j`.\n  - Test a custom/wf-recorder backend if wl-screenrec keeps crashing on this NVIDIA/Hyprland setup."@
}

/// The debug context of a failed wl-screenrec save: the recorder, its
/// history file, the buffer directory and its listing (each file with its
/// size, or why it could not be listed), the warnings, the log tail and what
/// to try.
pub fn wl_screenrec_failure_context(
    pid: u32,
    cmdline: &str,
    history_file: &str,
    buffer_dir: &str,
    alive: bool,
    warnings: &Vec<String>,
    listing: &Result<Vec<(String, u64)>, String>,
    log: &Option<String>,
) -> (r: String)
    ensures
        r@ == failure_context_text(
            pid,
            cmdline@,
            history_file@,
            buffer_dir@,
            alive,
            views(warnings@),
            listing_view(*listing),
            opt_view(*log),
        ),
{
    let p = u64_to_string(pid as u64);
    let w = warning_string(warnings);
    let l = listing_string(listing);
    let lines = long_tail_of(log);
    let t = tail_string(&lines);
    let mut r = concat2("wl-screenrec save debug context:\n  pid: ", p.as_str());
    r.append("\n  cmdline: ");
    r.append(cmdline);
    r.append("\n  expected history file: ");
    r.append(history_file);
    r.append("\n  buffer dir: ");
    r.append(buffer_dir);
    r.append("\n  process alive: ");
    r.append(bool_string(alive));
    r.append("\n  warnings: ");
    r.append(w.as_str());
    r.append("\n  buffer listing:\n");
    r.append(l.as_str());
    r.append("\n  log tail:\n");
    r.append(t.as_str());
    r.append(
        "\nRecommended actions:\n  - Run `v8q debug wl-screenrec --test-run 5`.\n  - Run `v8q preset apply beginner-safe --write` for the safest first-run config.\n  - Run `v8q preset apply wl-screenrec-nvidia-compat --write` for the 60 FPS NVIDIA compatibility path.\n  - Reduce FPS/bitrate if the backend still exits.\n  - If multiple displays are enabled, set `[wl_screenrec] output = \"DP-1\"` or another output from `hyprctl monitors -j`.\n  - Test a custom/wf-recorder backend if wl-screenrec keeps crashing on this NVIDIA/Hyprland setup.",
    );
    r
}

// ----- clip paths -----

/// The index of the last `.` in `s`, or -1.
pub open spec fn last_dot(s: Seq<char>) -> int
    decreases s.len(),
{
    if s.len() == 0 {
        -1
    } else if s.last() == '.' {
        s.len() - 1
    } else {
        last_dot(s.drop_last())
    }
}

/// `Path::file_stem` of a file name: the name without its last extension; a
/// leading dot starts no extension, and `..` has none.
pub open spec fn stem_spec(name: Seq<char>) -> Seq<char> {
    if name == ".."@ {
        name
    } else if last_dot(name) > 0 {
        name.take(last_dot(name))
    } else {
        name
    }
}

fn stem_of(name: &str) -> (r: String)
    ensures
        r@ == stem_spec(name@),
{
    proof {
        reveal_strlit("..");
    }
    let v = chars_of(name);
    if str_eq(name, "..") {
        return owned(name);
    }
    let mut i = v.len();
    assert(name@.take(i as int) =~= name@);
    while i > 0 && v[i - 1] != '.'
        invariant
            v@ == name@,
            i <= v.len(),
            forall|j: int| i <= j < v@.len() ==> v@[j] != '.',
            last_dot(name@) == last_dot(name@.take(i as int)),
        decreases i,
    {
        assert(name@.take(i as int).drop_last() =~= name@.take(i - 1));
        i = i - 1;
    }
    proof {
        if i > 0 {
            assert(name@.take(i as int).last() == '.');
        } else {
            assert(name@.take(0) =~= Seq::<char>::empty());
        }
    }
    if i > 1 {
        crate::text::string_from_range(&v, 0, i - 1)
    } else {
        owned(name)
    }
}

/// The first path tried for a new clip: its file name in the output
/// directory.
pub fn first_output_path(output_dir: &str, name: Option<&str>, timestamp: &str) -> (r: String)
    ensures
        r@ == join(output_dir@, crate::clip_filename(crate::process::opt_seq(name), timestamp@)),
{
    let f = crate::clip_filename_at(name, timestamp);
    join_path(output_dir, f.as_str())
}

/// The path tried when the first one is taken: `<stem>_<n>.mkv` in the
/// output directory, where `first_name` is the first path's file name.
pub fn numbered_output_path(output_dir: &str, first_name: &str, n: u64) -> (r: String)
    ensures
        r@ == join(output_dir@, stem_spec(first_name@) + "_"@ + decimal(n as nat) + ".mkv"@),
{
    let stem = stem_of(first_name);
    let d = u64_to_string(n);
    let mut f = concat3(stem.as_str(), "_", d.as_str());
    f.append(".mkv");
    join_path(output_dir, f.as_str())
}

/// Which path a new clip goes to: the first one, the `n`th numbered one,
/// or the last resort, numbered with the time in milliseconds.
#[derive(Debug, Clone, Copy, PartialEq, Eq, Structural)]
pub enum OutputAttempt {
    First,
    Numbered(u64),
    Fallback(u64),
}

/// The path of a new clip in `dir`: the clip's file name, or its stem with
/// `_<n>.mkv` for a numbered path.
pub open spec fn output_candidate(
    dir: Seq<char>,
    name: Option<Seq<char>>,
    timestamp: Seq<char>,
    a: OutputAttempt,
) -> Seq<char> {
    join(dir, output_file_name(name, timestamp, a))
}

/// The file name of a new clip: the clip's file name, or its stem with
/// `_<n>.mkv` for a numbered attempt.
pub open spec fn output_file_name(name: Option<Seq<char>>, timestamp: Seq<char>, a: OutputAttempt) -> Seq<char> {
    let first = crate::clip_filename(name, timestamp);
    match a {
        OutputAttempt::First => first,
        OutputAttempt::Numbered(n) => stem_spec(first) + "_"@ + decimal(n as nat) + ".mkv"@,
        OutputAttempt::Fallback(n) => stem_spec(first) + "_"@ + decimal(n as nat) + ".mkv"@,
    }
}

proof fn lemma_stem_of_mkv(x: Seq<char>)
    requires
        x.len() > 0,
    ensures
        stem_spec(x + ".mkv"@) == x,
{
    reveal_strlit(".mkv");
    reveal_strlit(".mk");
    reveal_strlit(".m");
    reveal_strlit(".");
    reveal_strlit("..");
    let f = x + ".mkv"@;
    assert(f.drop_last() =~= x + ".mk"@);
    assert(f.drop_last().drop_last() =~= x + ".m"@);
    assert(f.drop_last().drop_last().drop_last() =~= x + "."@);
    assert((x + "."@).last() == '.');
    assert(last_dot(x + "."@) == x.len());
    assert((x + ".m"@).last() == 'm');
    assert(last_dot(x + ".m"@) == last_dot(x + "."@));
    assert((x + ".mk"@).last() == 'k');
    assert(last_dot(x + ".mk"@) == last_dot(x + ".m"@));
    assert(f.last() == 'v');
    assert(last_dot(f) == last_dot(x + ".mk"@));
    assert(f != ".."@) by {
        assert(f.len() != 2);
    }
    assert(f.take(x.len() as int) =~= x);
}

/// Every path that a save may write names a clip that `v8q clips` lists:
/// its file name starts with `v8q_` and ends with `.mkv`.
pub proof fn lemma_output_files_are_clips(name: Option<Seq<char>>, timestamp: Seq<char>, a: OutputAttempt)
    ensures
        clip_name(output_file_name(name, timestamp, a)),
{
    reveal_strlit("v8q_");
    reveal_strlit(".mkv");
    let first = crate::clip_filename(name, timestamp);
    crate::lemma_saved_clip_is_listed(name, timestamp);
    let x = first.take(first.len() - 4);
    assert(x + ".mkv"@ =~= first);
    lemma_stem_of_mkv(x);
    let f = output_file_name(name, timestamp, a);
    assert(f.subrange(0, 4) =~= "v8q_"@);
    assert(f.subrange(f.len() - 4, f.len() as int) =~= ".mkv"@);
}

/// The path of a new clip for an attempt.
pub fn output_candidate_path(output_dir: &str, name: Option<&str>, timestamp: &str, a: OutputAttempt) -> (r: String)
    ensures
        r@ == output_candidate(output_dir@, crate::process::opt_seq(name), timestamp@, a),
{
    match a {
        OutputAttempt::First => first_output_path(output_dir, name, timestamp),
        OutputAttempt::Numbered(n) => {
            let first = crate::clip_filename_at(name, timestamp);
            numbered_output_path(output_dir, first.as_str(), n)
        },
        OutputAttempt::Fallback(n) => {
            let first = crate::clip_filename_at(name, timestamp);
            numbered_output_path(output_dir, first.as_str(), n)
        },
    }
}

/// The search for a free clip path goes on with a path to check, or ends
/// with the path to use.
#[derive(Debug, Clone, Copy, PartialEq, Eq, Structural)]
pub enum OutputStep {
    Check(OutputAttempt),
    Use(OutputAttempt),
}

/// What follows once it is known whether the path of attempt `a` exists:
/// a free path is used; a taken first path leads to `_1`, a taken `_n` to
/// `_n+1` up to `_999`, and after that the path numbered with `millis` is
/// used unchecked. The search starts by checking `OutputAttempt::First`.
pub open spec fn output_step(a: OutputAttempt, exists: bool, millis: u64) -> OutputStep {
    if !exists {
        OutputStep::Use(a)
    } else {
        match a {
            OutputAttempt::First => OutputStep::Check(OutputAttempt::Numbered(1)),
            OutputAttempt::Numbered(n) => if n < 999 {
                OutputStep::Check(OutputAttempt::Numbered((n + 1) as u64))
            } else {
                OutputStep::Use(OutputAttempt::Fallback(millis))
            },
            OutputAttempt::Fallback(m) => OutputStep::Use(OutputAttempt::Fallback(m)),
        }
    }
}

/// The next step of the search for a free clip path.
pub fn after_output_check(a: OutputAttempt, exists: bool, millis: u64) -> (r: OutputStep)
    ensures
        r == output_step(a, exists, millis),
{
    if !exists {
        return OutputStep::Use(a);
    }
    match a {
        OutputAttempt::First => OutputStep::Check(OutputAttempt::Numbered(1)),
        OutputAttempt::Numbered(n) => if n < 999 {
            OutputStep::Check(OutputAttempt::Numbered(n + 1))
        } else {
            OutputStep::Use(OutputAttempt::Fallback(millis))
        },
        OutputAttempt::Fallback(m) => OutputStep::Use(OutputAttempt::Fallback(m)),
    }
}

/// The name of a save, as the clip path takes it.
fn name_str(o: &Option<String>) -> (r: Option<&str>)
    ensures
        crate::process::opt_seq(r) == opt_view(*o),
{
    match o {
        Some(n) => Some(n.as_str()),
        None => None,
    }
}

/// The result of a wl-screenrec save: its history file moved to the clip
/// path of `output` in the output directory.
pub fn wl_screenrec_save_result(
    config: &Config,
    options: &SaveOptions,
    output: OutputAttempt,
    timestamp: &str,
    home: &Option<String>,
) -> (r: crate::SaveResult)
    ensures
        r.output_file@ == output_candidate(
            expand_tilde_spec(config.paths.output_dir@, opt_view(*home)),
            opt_view(options.name),
            timestamp@,
            output,
        ),
        r.duration_seconds == save_duration(*config, *options),
        r.backend@ == "wl-screenrec"@,
{
    let dir = config.paths.output_dir_path_in(home);
    let output_file = output_candidate_path(dir.as_str(), name_str(&options.name), timestamp, output);
    let duration = match options.duration_seconds {
        Some(d) => d,
        None => config.recording.duration_seconds,
    };
    crate::SaveResult { output_file, duration_seconds: duration, backend: owned("wl-screenrec") }
}

/// The text of a save error.
pub open spec fn save_error_text(e: SaveError, c: Config) -> Seq<char> {
    match e {
        SaveError::Config(ce) => crate::config::config_error_text(ce, c),
        SaveError::Segments(SegmentError::NotEnough(h, n, d)) => not_enough_text(h, n, d),
    }
}

impl SaveError {
    /// The text of the error.
    pub fn message(&self, config: &Config) -> (r: String)
        ensures
            r@ == save_error_text(*self, *config),
    {
        match self {
            SaveError::Config(ce) => ce.message(config),
            SaveError::Segments(se) => se.message(),
        }
    }
}

/// The text of a status error.
pub open spec fn status_error_text(e: StatusError, c: Config) -> Seq<char> {
    match e {
        StatusError::Config(ce) => crate::config::config_error_text(ce, c),
        StatusError::NoConfigPath => "could not locate user config directory"@,
    }
}

impl StatusError {
    /// The text of the error.
    pub fn message(&self, config: &Config) -> (r: String)
        ensures
            r@ == status_error_text(*self, *config),
    {
        match self {
            StatusError::Config(ce) => ce.message(config),
            StatusError::NoConfigPath => owned("could not locate user config directory"),
        }
    }
}

// ----- clips and logs on the command line -----

/// The clips to list: newest first when asked, at most `limit` of them.
pub open spec fn clip_listing_spec(clips: Seq<Seq<char>>, newest_first: bool, limit: Option<usize>) -> Seq<
    Seq<char>,
> {
    let ordered = if newest_first {
        clips.reverse()
    } else {
        clips
    };
    match limit {
        Some(l) => if ordered.len() > l {
            ordered.take(l as int)
        } else {
            ordered
        },
        None => ordered,
    }
}

/// The clips that `v8q clips` lists, from the listing oldest first.
pub fn clip_listing(clips: Vec<String>, sort: crate::cli::ClipSort, limit: Option<usize>) -> (r: Vec<
    String,
>)
    ensures
        views(r@) == clip_listing_spec(views(clips@), sort == crate::cli::ClipSort::Newest, limit),
{
    let ghost all = views(clips@);
    let newest = match sort {
        crate::cli::ClipSort::Newest => true,
        crate::cli::ClipSort::Oldest => false,
    };
    let mut ordered: Vec<String> = Vec::new();
    if newest {
        let mut rest = clips;
        while rest.len() > 0
            invariant
                views(ordered@) + views(rest@).reverse() == all.reverse(),
            decreases rest.len(),
        {
            let ghost before_rest = views(rest@);
            let x = rest.pop().unwrap();
            let ghost before = views(ordered@);
            ordered.push(x);
            assert(before_rest =~= views(rest@).push(x@));
            assert(before_rest.reverse() =~= seq![x@] + views(rest@).reverse());
            assert(views(ordered@) =~= before.push(x@));
        }
        assert(views(ordered@) =~= all.reverse());
    } else {
        ordered = clips;
    }
    let ghost o = views(ordered@);
    match limit {
        Some(l) => {
            if ordered.len() > l {
                ordered.truncate(l);
                assert(views(ordered@) =~= o.take(l as int));
            }
        },
        None => {},
    }
    ordered
}

/// Where `v8q clip rename` moves a clip: the sanitized name, `.mkv`, in the
/// output directory.
pub fn rename_target(output_dir: &str, new_name: &str) -> (r: String)
    ensures
        r@ == join(output_dir@, crate::sanitized(new_name@) + ".mkv"@),
{
    let name = crate::sanitize_clip_name(new_name);
    let f = concat2(name.as_str(), ".mkv");
    join_path(output_dir, f.as_str())
}

/// `Path::extension` of a path is `log`.
pub open spec fn is_log_path(path: Seq<char>) -> bool {
    file_name(path) matches Some(n) && n != ".."@ && last_dot(n) > 0 && n.skip(last_dot(n) + 1)
        == "log"@
}

/// Whether `v8q clean logs` removes the file: its extension is `log`.
pub fn is_log_file(path: &str) -> (r: bool)
    ensures
        r == is_log_path(path@),
{
    proof {
        reveal_strlit("..");
        reveal_strlit("log");
    }
    match file_name_of(path) {
        None => false,
        Some(n) => {
            if str_eq(n.as_str(), "..") {
                return false;
            }
            let v = chars_of(n.as_str());
            let mut i = v.len();
            assert(n@.take(i as int) =~= n@);
            while i > 0 && v[i - 1] != '.'
                invariant
                    v@ == n@,
                    i <= v.len(),
                    last_dot(n@) == last_dot(n@.take(i as int)),
                decreases i,
            {
                assert(n@.take(i as int).drop_last() =~= n@.take(i - 1));
                i = i - 1;
            }
            proof {
                if i > 0 {
                    assert(n@.take(i as int).last() == '.');
                } else {
                    assert(n@.take(0) =~= Seq::<char>::empty());
                }
            }
            if i <= 1 {
                return false;
            }
            let ext = crate::text::string_from_range(&v, i, v.len());
            assert(ext@ =~= n@.skip(i as int));
            str_eq(ext.as_str(), "log")
        },
    }
}

/// The logs that `v8q logs` reads: one backend's log of the day, or both
/// with `latest.log`.
pub open spec fn log_files_spec(backend: Option<Seq<char>>, logs_dir: Seq<char>, date: Seq<char>) -> Seq<
    Seq<char>,
> {
    let wl = join(logs_dir, "wl-screenrec"@ + "_"@ + date + ".log"@);
    let ff = join(logs_dir, "ffmpeg"@ + "_"@ + date + ".log"@);
    if backend == Some("wl-screenrec"@) {
        seq![wl]
    } else if backend == Some("ffmpeg"@) {
        seq![ff]
    } else {
        seq![wl, ff, join(logs_dir, "latest.log"@)]
    }
}

/// The log files that `v8q logs` shows for the backend asked for.
pub fn log_files(backend: Option<&str>, logs_dir: &str, date: &str) -> (r: Vec<String>)
    ensures
        views(r@) == log_files_spec(crate::process::opt_seq(backend), logs_dir@, date@),
{
    proof {
        reveal_strlit("wl-screenrec");
        reveal_strlit("ffmpeg");
    }
    let wl = crate::paths::log_file_for_backend(logs_dir, "wl-screenrec", date);
    let ff = crate::paths::log_file_for_backend(logs_dir, "ffmpeg", date);
    let mut out: Vec<String> = Vec::new();
    match backend {
        Some(b) => {
            if str_eq(b, "wl-screenrec") {
                out.push(wl);
                assert(views(out@) =~= seq![out@[0]@]);
                return out;
            } else if str_eq(b, "ffmpeg") {
                out.push(ff);
                assert(views(out@) =~= seq![out@[0]@]);
                return out;
            }
        },
        None => {},
    }
    out.push(wl);
    out.push(ff);
    out.push(crate::paths::latest_log_file(logs_dir));
    assert(views(out@) =~= seq![out@[0]@, out@[1]@, out@[2]@]);
    out
}

// ----- laws -----

proof fn lemma_first_char(s: Seq<char>, p: Seq<char>)
    requires
        starts_with(s, p),
        p.len() > 0,
    ensures
        s[0] == p[0],
{
    assert(s.subrange(0, p.len() as int)[0] == s[0]);
}

proof fn lemma_last_char(s: Seq<char>, q: Seq<char>)
    requires
        ends_with(s, q),
        q.len() > 0,
    ensures
        s[s.len() - 1] == q[q.len() - 1],
{
    assert(s.subrange(s.len() - q.len(), s.len() as int)[q.len() - 1] == s[s.len() - 1]);
}

/// `clean` never removes a log or a saved clip.
pub proof fn lemma_clean_keeps_logs_and_clips(name: Seq<char>)
    requires
        cleanable_name(name),
    ensures
        !clip_name(name),
        !ends_with(name, ".log"@),
{
    reveal_strlit("seg_");
    reveal_strlit(".mkv");
    reveal_strlit("concat_");
    reveal_strlit(".txt");
    reveal_strlit("history.mkv");
    reveal_strlit("v8q_");
    reveal_strlit(".log");
    if starts_with(name, "v8q_"@) {
        lemma_first_char(name, "v8q_"@);
    }
    if ends_with(name, ".log"@) {
        lemma_last_char(name, ".log"@);
    }
    if ends_with(name, ".mkv"@) {
        lemma_last_char(name, ".mkv"@);
    }
    if starts_with(name, "seg_"@) {
        lemma_first_char(name, "seg_"@);
    }
    if starts_with(name, "concat_"@) {
        lemma_first_char(name, "concat_"@);
    }
    if ends_with(name, ".txt"@) {
        lemma_last_char(name, ".txt"@);
    }
}

/// Ordering by time keeps every file: the result holds the same items as
/// the input, each as often.
pub proof fn lemma_sort_by_time_permutes(s: Seq<TimedPath>)
    ensures
        sort_by_time(s).to_multiset() =~= s.to_multiset(),
    decreases s.len(),
{
    broadcast use vstd::seq_lib::group_to_multiset_ensures;
    if s.len() > 0 {
        lemma_sort_by_time_permutes(s.drop_last());
        lemma_insert_multiset(sort_by_time(s.drop_last()), s.last());
        assert(s =~= s.drop_last().push(s.last()));
    }
}

proof fn lemma_insert_multiset(s: Seq<TimedPath>, x: TimedPath)
    ensures
        insert_by_time(s, x).to_multiset() =~= s.to_multiset().insert(x),
    decreases s.len(),
{
    broadcast use vstd::seq_lib::group_to_multiset_ensures;
    if s.len() == 0 {
        assert(insert_by_time(s, x) =~= s.push(x));
    } else if s.last().modified <= x.modified {
    } else {
        lemma_insert_multiset(s.drop_last(), x);
        assert(s =~= s.drop_last().push(s.last()));
    }
}

/// Text without an escape character is left as it is.
pub proof fn lemma_strip_ansi_plain(s: Seq<char>)
    requires
        forall|i: int| 0 <= i < s.len() ==> s[i] != '\x1b',
    ensures
        strip_ansi_spec(s) == s,
    decreases s.len(),
{
    if s.len() > 0 {
        let t = s.drop_first();
        assert forall|i: int| 0 <= i < t.len() implies t[i] != '\x1b' by {
            assert(t[i] == s[i + 1]);
        }
        lemma_strip_ansi_plain(t);
        assert(seq![s[0]] + t =~= s);
    }
}

/// The concat list keeps the segments' order: the list of segments `a` then
/// `b` is the list of `a` followed by the list of `b`, the list of one
/// segment is the line `file '<path>'` (each `'` in the path written
/// `'\''`), and no segments give an empty list. So its `i`-th line names the
/// `i`-th segment.
pub proof fn lemma_concat_list_in_order(a: Seq<Seq<char>>, b: Seq<Seq<char>>, p: Seq<char>)
    ensures
        concat_list_spec(a + b) == concat_list_spec(a) + concat_list_spec(b),
        concat_list_spec(seq![p]) == "file '"@ + replace(p, "'"@, "'\\''"@) + "'\n"@,
        concat_list_spec(Seq::<Seq<char>>::empty()).len() == 0,
    decreases b.len(),
{
    assert(seq![p].drop_last() =~= Seq::<Seq<char>>::empty());
    assert(concat_list_spec(seq![p]) == concat_list_spec(Seq::<Seq<char>>::empty()) + concat_entry(p));
    assert(Seq::<char>::empty() + concat_entry(p) =~= concat_entry(p));
    if b.len() == 0 {
        assert(a + b =~= a);
    } else {
        lemma_concat_list_in_order(a, b.drop_last(), p);
        assert((a + b).drop_last() =~= a + b.drop_last());
        assert((a + b).last() == b.last());
    }
}

/// The segments that a save joins are the newest ones, oldest first: the
/// segments split into a part left out and the chosen part `q`, the chosen
/// paths are those of `q` in order, `q` is ordered by modification time, and
/// nothing left out is newer than anything chosen.
pub proof fn lemma_chosen_segments_oldest_first(c: Config, o: SaveOptions, segments: Seq<TimedPath>)
    requires
        chosen_segments(c, o, segments) is Ok,
    ensures
        exists|rest: Seq<TimedPath>, q: Seq<TimedPath>|
            #![trigger (rest + q).to_multiset(), paths_of(q)]
            time_sorted(q) && paths_of(q) == chosen_segments(c, o, segments)->Ok_0 && (rest
                + q).to_multiset() =~= segments.to_multiset() && forall|i: int, j: int|
                0 <= i < rest.len() && 0 <= j < q.len() ==> #[trigger] rest[i].modified
                    <= #[trigger] q[j].modified,
{
    let d = save_duration(c, o);
    let needed = segments_for(d, c.recording.segment_seconds) as usize;
    let sorted = sort_by_time(segments);
    lemma_sort_by_time_sorted(segments);
    lemma_sort_by_time_permutes(segments);
    let cut = sorted.len() - needed;
    let q = sorted.subrange(cut, sorted.len() as int);
    let rest = sorted.subrange(0, cut);
    assert(rest + q =~= sorted);
    assert(time_sorted(q)) by {
        assert forall|i: int, j: int| 0 <= i <= j < q.len() implies q[i].modified <= q[j].modified by {
            assert(q[i] == sorted[cut + i]);
            assert(q[j] == sorted[cut + j]);
        }
    }
    assert forall|i: int, j: int| 0 <= i < rest.len() && 0 <= j < q.len() implies #[trigger] rest[i].modified
        <= #[trigger] q[j].modified by {
        assert(rest[i] == sorted[i]);
        assert(q[j] == sorted[cut + j]);
    }
    assert(paths_of(q) == chosen_segments(c, o, segments)->Ok_0);
    assert((rest + q).to_multiset() =~= segments.to_multiset());
}

} // verus!
