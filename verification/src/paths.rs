//! Filesystem locations used by the recorder, modelled as strings.
use vstd::prelude::*;

use crate::text::{split_on, lemma_split_on_nonempty, concat2, concat3, owned, starts_with, starts_with_str, str_eq, chars_of,
    string_from_range};

verus! {

/// `PathBuf::join` on Unix: an absolute `p` replaces `base`; otherwise a `/`
/// is inserted unless `base` is empty or already ends with one.
pub open spec fn join(base: Seq<char>, p: Seq<char>) -> Seq<char> {
    if p.len() > 0 && p[0] == '/' {
        p
    } else if base.len() == 0 {
        p
    } else if base.last() == '/' {
        base + p
    } else {
        base + seq!['/'] + p
    }
}

/// `~` and `~/rest` expanded against the home directory, when it is known.
pub open spec fn expand_tilde_spec(value: Seq<char>, home: Option<Seq<char>>) -> Seq<char> {
    if value == seq!['~'] {
        match home {
            Some(h) => h,
            None => value,
        }
    } else if starts_with(value, seq!['~', '/']) && home is Some {
        join(home.unwrap(), value.subrange(2, value.len() as int))
    } else {
        value
    }
}

/// The view of an optional string.
pub open spec fn opt_view(o: Option<String>) -> Option<Seq<char>> {
    match o {
        Some(s) => Some(s@),
        None => None,
    }
}

/// The directory that runtime files live in: `$XDG_RUNTIME_DIR/v8q`, or
/// `/tmp/v8q-$UID` (with `unknown` when `UID` is not set).
pub open spec fn runtime_dir_spec(xdg_runtime_dir: Option<Seq<char>>, uid: Option<Seq<char>>) -> Seq<
    char,
> {
    match xdg_runtime_dir {
        Some(d) => join(d, "v8q"@),
        None => "/tmp/v8q-"@ + match uid {
            Some(u) => u,
            None => "unknown"@,
        },
    }
}

/// The `/`-separated pieces of `s`, empty ones included.
pub open spec fn split_slash(s: Seq<char>) -> Seq<Seq<char>> {
    split_on(s, '/')
}

/// A piece that `Path::components` keeps as a normal component (or `..`).
pub open spec fn is_named_piece(piece: Seq<char>) -> bool {
    piece.len() > 0 && piece != seq!['.']
}

/// The named pieces, in order.
pub open spec fn named_pieces(pieces: Seq<Seq<char>>) -> Seq<Seq<char>>
    decreases pieces.len(),
{
    if pieces.len() == 0 {
        pieces
    } else if is_named_piece(pieces.last()) {
        named_pieces(pieces.drop_last()).push(pieces.last())
    } else {
        named_pieces(pieces.drop_last())
    }
}

/// What `Path::components` yields on Unix: whether there is a root, whether
/// a relative path starts with `.`, and the named components.
pub open spec fn path_components(s: Seq<char>) -> (bool, bool, Seq<Seq<char>>) {
    let absolute = s.len() > 0 && s[0] == '/';
    let pieces = split_slash(s);
    (absolute, !absolute && pieces[0] == seq!['.'], named_pieces(pieces))
}

proof fn lemma_split_slash_nonempty(s: Seq<char>)
    ensures
        split_slash(s).len() >= 1,
{
    lemma_split_on_nonempty(s, '/');
}

/// The pieces of `s`, computed left to right.
fn split_pieces(s: &str) -> (r: Vec<Vec<char>>)
    ensures
        r@.len() == split_slash(s@).len(),
        forall|i: int| 0 <= i < r@.len() ==> #[trigger] r@[i]@ == split_slash(s@)[i],
{
    let v = chars_of(s);
    let mut out: Vec<Vec<char>> = Vec::new();
    let mut cur: Vec<char> = Vec::new();
    let mut i: usize = 0;
    while i < v.len()
        invariant
            v@ == s@,
            i <= v.len(),
            out@.len() + 1 == split_slash(v@.take(i as int)).len(),
            forall|k: int| 0 <= k < out@.len() ==> #[trigger] out@[k]@ == split_slash(v@.take(i as int))[k],
            cur@ == split_slash(v@.take(i as int)).last(),
        decreases v.len() - i,
    {
        proof {
            lemma_split_slash_nonempty(v@.take(i as int));
            assert(v@.take(i + 1).drop_last() == v@.take(i as int));
            assert(v@.take(i + 1).last() == v@[i as int]);
        }
        if v[i] == '/' {
            out.push(cur);
            cur = Vec::new();
        } else {
            cur.push(v[i]);
        }
        i = i + 1;
    }
    assert(v@.take(i as int) == s@);
    out.push(cur);
    out
}

/// Whether `Path::new(a) == Path::new(b)`: the same components, so that
/// repeated or trailing slashes and inner `.` pieces do not matter.
pub fn same_path(a: &str, b: &str) -> (r: bool)
    ensures
        r == (path_components(a@) == path_components(b@)),
{
    let pa = split_pieces(a);
    let pb = split_pieces(b);
    let va = chars_of(a);
    let vb = chars_of(b);
    proof {
        lemma_split_slash_nonempty(a@);
        lemma_split_slash_nonempty(b@);
        assert(pa@.map_values(|p: Vec<char>| p@) =~= split_slash(a@));
        assert(pb@.map_values(|p: Vec<char>| p@) =~= split_slash(b@));
    }
    let abs_a = va.len() > 0 && va[0] == '/';
    let abs_b = vb.len() > 0 && vb[0] == '/';
    if abs_a != abs_b {
        return false;
    }
    let cur_a = !abs_a && is_dot(&pa[0]);
    let cur_b = !abs_b && is_dot(&pb[0]);
    if cur_a != cur_b {
        return false;
    }
    let na = named_of(&pa);
    let nb = named_of(&pb);
    let ghost sa = named_pieces(split_slash(a@));
    let ghost sb = named_pieces(split_slash(b@));
    if na.len() != nb.len() {
        assert(sa.len() != sb.len());
        return false;
    }
    let mut k: usize = 0;
    while k < na.len()
        invariant
            sa == named_pieces(split_slash(a@)),
            sb == named_pieces(split_slash(b@)),
            na@.len() == sa.len(),
            nb@.len() == sb.len(),
            na@.len() == nb@.len(),
            forall|j: int| 0 <= j < na@.len() ==> #[trigger] na@[j]@ == sa[j],
            forall|j: int| 0 <= j < nb@.len() ==> #[trigger] nb@[j]@ == sb[j],
            k <= na@.len(),
            forall|j: int| 0 <= j < k ==> sa[j] == sb[j],
        decreases na@.len() - k,
    {
        if !chars_eq(&na[k], &nb[k]) {
            assert(na@[k as int]@ == sa[k as int]);
            assert(nb@[k as int]@ == sb[k as int]);
            assert(sa[k as int] != sb[k as int]);
            assert(sa != sb);
            assert(path_components(a@).2 == sa);
            assert(path_components(b@).2 == sb);
            return false;
        }
        k = k + 1;
    }
    assert(sa =~= sb);
    true
}

fn is_dot(p: &Vec<char>) -> (r: bool)
    ensures
        r == (p@ == seq!['.']),
{
    let r = p.len() == 1 && p[0] == '.';
    if r {
        assert(p@ =~= seq!['.']);
    }
    r
}

fn chars_eq(a: &Vec<char>, b: &Vec<char>) -> (r: bool)
    ensures
        r == (a@ == b@),
{
    if a.len() != b.len() {
        return false;
    }
    let mut i: usize = 0;
    while i < a.len()
        invariant
            a.len() == b.len(),
            i <= a.len(),
            forall|j: int| 0 <= j < i ==> a@[j] == b@[j],
        decreases a.len() - i,
    {
        if a[i] != b[i] {
            return false;
        }
        i = i + 1;
    }
    assert(a@ =~= b@);
    true
}

fn named_of(pieces: &Vec<Vec<char>>) -> (r: Vec<Vec<char>>)
    ensures
        r@.len() == named_pieces(pieces@.map_values(|p: Vec<char>| p@)).len(),
        forall|i: int| 0 <= i < r@.len() ==> #[trigger] r@[i]@ == named_pieces(
            pieces@.map_values(|p: Vec<char>| p@),
        )[i],
{
    let ghost all = pieces@.map_values(|p: Vec<char>| p@);
    let mut out: Vec<Vec<char>> = Vec::new();
    let mut i: usize = 0;
    while i < pieces.len()
        invariant
            all == pieces@.map_values(|p: Vec<char>| p@),
            i <= pieces.len(),
            out@.len() == named_pieces(all.take(i as int)).len(),
            forall|k: int| 0 <= k < out@.len() ==> #[trigger] out@[k]@ == named_pieces(all.take(i as int))[k],
        decreases pieces.len() - i,
    {
        assert(all.take(i + 1).drop_last() == all.take(i as int));
        assert(all.take(i + 1).last() == pieces@[i as int]@);
        let p = &pieces[i];
        if p.len() > 0 && !is_dot(p) {
            out.push(p.clone());
        }
        i = i + 1;
    }
    assert(all.take(i as int) == all);
    out
}

/// The named components of a path, in order (`Path::components` without
/// the root, `.` and empty pieces).
pub fn named_components(path: &str) -> (r: Vec<String>)
    ensures
        crate::config::views(r@) == named_pieces(split_slash(path@)),
{
    let pieces = split_pieces(path);
    proof {
        assert(pieces@.map_values(|p: Vec<char>| p@) =~= split_slash(path@));
    }
    let named = named_of(&pieces);
    let ghost want = named_pieces(split_slash(path@));
    let mut out: Vec<String> = Vec::new();
    let mut i: usize = 0;
    while i < named.len()
        invariant
            want == named_pieces(split_slash(path@)),
            named@.len() == want.len(),
            forall|k: int| 0 <= k < named@.len() ==> #[trigger] named@[k]@ == want[k],
            i <= named.len(),
            out@.len() == i,
            forall|k: int| 0 <= k < i ==> #[trigger] out@[k]@ == want[k],
        decreases named.len() - i,
    {
        out.push(crate::text::string_from_chars(&named[i]));
        i = i + 1;
    }
    assert(crate::config::views(out@) =~= want);
    out
}

/// A home directory as the lookup can give one: none, or a non-empty path.
pub open spec fn usable_home(h: Option<Seq<char>>) -> bool {
    match h {
        Some(d) => d.len() > 0,
        None => true,
    }
}

/// A runtime directory as the lookup can give one: none, or an absolute path.
pub open spec fn absolute_dir(x: Option<Seq<char>>) -> bool {
    match x {
        Some(d) => d.len() > 0 && d[0] == '/',
        None => true,
    }
}

/// Home directory as `dirs::home_dir` finds it (`$HOME`, else the passwd
/// database). Which directory depends on the machine; only that it is not
/// empty is stated, since both sources skip an empty value.
#[verifier::external_body]
pub fn home_dir() -> (r: Option<String>)
    ensures
        r matches Some(h) ==> h@.len() > 0,
{
    match dirs::home_dir() {
        Some(p) => Some(p.to_string_lossy().into_owned()),
        None => None,
    }
}

/// The user's configuration directory as `dirs::config_dir` finds it;
/// nothing is stated of the value, which depends on the environment.
#[verifier::external_body]
pub fn config_dir() -> (r: Option<String>) {
    match dirs::config_dir() {
        Some(p) => Some(p.to_string_lossy().into_owned()),
        None => None,
    }
}

/// `PathBuf::join` on strings.
pub fn join_path(base: &str, p: &str) -> (r: String)
    ensures
        r@ == join(base@, p@),
{
    let pv = chars_of(p);
    if pv.len() > 0 && pv[0] == '/' {
        return owned(p);
    }
    let bv = chars_of(base);
    if bv.len() == 0 {
        owned(p)
    } else if bv[bv.len() - 1] == '/' {
        concat2(base, p)
    } else {
        proof {
            reveal_strlit("/");
        }
        concat3(base, "/", p)
    }
}

/// `expand_tilde` with the home directory given.
pub fn expand_tilde_with(value: &str, home: &Option<String>) -> (r: String)
    ensures
        r@ == expand_tilde_spec(value@, opt_view(*home)),
{
    proof {
        reveal_strlit("~");
        reveal_strlit("~/");
        assert("~"@ =~= seq!['~']);
        assert("~/"@ =~= seq!['~', '/']);
    }
    if str_eq(value, "~") {
        return match home {
            Some(h) => h.clone(),
            None => owned(value),
        };
    }
    if starts_with_str(value, "~/") {
        if let Some(h) = home {
            let v = chars_of(value);
            let rest = string_from_range(&v, 2, v.len());
            return join_path(h.as_str(), rest.as_str());
        }
    }
    owned(value)
}

/// `~` and `~/...` expanded against the current user's home directory.
pub fn expand_tilde(value: &str) -> (r: String)
    ensures
        exists|h: Option<Seq<char>>| crate::paths::usable_home(h) && r@ == #[trigger] expand_tilde_spec(value@, h),
{
    let home = home_dir();
    let r = expand_tilde_with(value, &home);
    assert(r@ == expand_tilde_spec(value@, opt_view(home)));
    r
}

/// The config file below a given configuration directory, or `None` when
/// the directory is unknown.
pub fn config_file_in(config_dir: &Option<String>) -> (r: Option<String>)
    ensures
        match *config_dir {
            Some(d) => r is Some && r.unwrap()@ == join(join(d@, "v8q"@), "config.toml"@),
            None => r is None,
        },
{
    match config_dir {
        Some(d) => {
            let dir = join_path(d.as_str(), "v8q");
            Some(join_path(dir.as_str(), "config.toml"))
        },
        None => None,
    }
}

/// `~/.config/v8q/config.toml` (or the XDG equivalent); `None` when no
/// configuration directory can be found.
pub fn config_file() -> (r: Option<String>)
    ensures
        r matches Some(p) ==> exists|d: Seq<char>| p@ == #[trigger] join(join(d, "v8q"@), "config.toml"@),
{
    let dir = config_dir();
    let r = config_file_in(&dir);
    proof {
        if let Some(d) = dir {
            assert(r.unwrap()@ == join(join(d@, "v8q"@), "config.toml"@));
        }
    }
    r
}

/// `$XDG_RUNTIME_DIR/v8q`, else `/tmp/v8q-$UID`, from the two variables.
pub fn runtime_dir_from(xdg_runtime_dir: &Option<String>, uid: &Option<String>) -> (r: String)
    ensures
        r@ == runtime_dir_spec(opt_view(*xdg_runtime_dir), opt_view(*uid)),
{
    match xdg_runtime_dir {
        Some(d) => join_path(d.as_str(), "v8q"),
        None => match uid {
            Some(u) => concat2("/tmp/v8q-", u.as_str()),
            None => concat2("/tmp/v8q-", "unknown"),
        },
    }
}

/// `dirs::runtime_dir`: on Linux `$XDG_RUNTIME_DIR` when it holds an
/// absolute path. The value depends on the environment; only that it is
/// absolute is stated.
#[verifier::external_body]
pub fn xdg_runtime_dir() -> (r: Option<String>)
    ensures
        r matches Some(p) ==> p@.len() > 0 && p@[0] == '/',
{
    match dirs::runtime_dir() {
        Some(p) => Some(p.to_string_lossy().into_owned()),
        None => None,
    }
}

/// `dirs::state_dir`: on Linux `$XDG_STATE_HOME` when it holds an absolute
/// path, else `.local/state` in the home directory. The value depends on the
/// environment, so nothing is stated of it.
#[verifier::external_body]
pub fn xdg_state_dir() -> (r: Option<String>) {
    match dirs::state_dir() {
        Some(p) => Some(p.to_string_lossy().into_owned()),
        None => None,
    }
}

/// The directory that runtime files live in, from `$XDG_RUNTIME_DIR`.
pub fn runtime_dir() -> (r: String)
    ensures
        exists|x: Option<Seq<char>>| absolute_dir(x) && r@ == #[trigger] runtime_dir_spec(x, None),
{
    let x = xdg_runtime_dir();
    let none: Option<String> = None;
    let r = runtime_dir_from(&x, &none);
    assert(r@ == runtime_dir_spec(opt_view(x), None));
    r
}

/// V8Q's state directory: `v8q` in the state directory, else in
/// `.local/state` in the home directory, else in the temporary directory.
pub open spec fn state_dir_spec(state: Option<Seq<char>>, home: Option<Seq<char>>, temp_dir: Seq<char>) -> Seq<char> {
    join(
        match state {
            Some(s) => s,
            None => match home {
                Some(h) => join(h, ".local/state"@),
                None => temp_dir,
            },
        },
        "v8q"@,
    )
}

/// V8Q's state directory, from the state and home directories found and
/// the temporary directory.
pub fn state_dir(state: &Option<String>, home: &Option<String>, temp_dir: &str) -> (r: String)
    ensures
        r@ == state_dir_spec(opt_view(*state), opt_view(*home), temp_dir@),
{
    let base = match state {
        Some(s) => s.clone(),
        None => match home {
            Some(h) => join_path(h.as_str(), ".local/state"),
            None => owned(temp_dir),
        },
    };
    join_path(base.as_str(), "v8q")
}

/// The replay buffer directory below the runtime directory.
pub fn default_buffer_dir(runtime_dir: &str) -> (r: String)
    ensures
        r@ == join(runtime_dir@, "buffer"@),
{
    join_path(runtime_dir, "buffer")
}

/// The PID file below the runtime directory.
pub fn default_pid_file(runtime_dir: &str) -> (r: String)
    ensures
        r@ == join(runtime_dir@, "v8q.pid"@),
{
    join_path(runtime_dir, "v8q.pid")
}

/// The save lock below the runtime directory.
pub fn default_save_lock_file(runtime_dir: &str) -> (r: String)
    ensures
        r@ == join(runtime_dir@, "v8q-save.lock"@),
{
    join_path(runtime_dir, "v8q-save.lock")
}

/// The log directory below the state directory.
pub fn logs_dir(state_dir: &str) -> (r: String)
    ensures
        r@ == join(state_dir@, "logs"@),
{
    join_path(state_dir, "logs")
}

/// `latest.log` in the log directory.
pub fn latest_log_file(logs_dir: &str) -> (r: String)
    ensures
        r@ == join(logs_dir@, "latest.log"@),
{
    join_path(logs_dir, "latest.log")
}

/// `<backend>_<date>.log` in the log directory.
pub fn log_file_for_backend(logs_dir: &str, backend: &str, date: &str) -> (r: String)
    ensures
        r@ == join(logs_dir@, backend@ + "_"@ + date@ + ".log"@),
{
    let name = concat3(backend, "_", date);
    let name = concat2(name.as_str(), ".log");
    join_path(logs_dir, name.as_str())
}

/// Today's date as `YYYY-MM-DD` in local time (`chrono::Local::now`); it
/// depends on the clock, so nothing is stated of it.
#[verifier::external_body]
pub fn local_date() -> (r: String) {
    chrono::Local::now().format("%Y-%m-%d").to_string()
}

/// The current local time as `YYYY-MM-DD_HH-MM-SS` (`chrono::Local::now`);
/// it depends on the clock, so nothing is stated of it.
#[verifier::external_body]
pub fn local_timestamp() -> (r: String) {
    chrono::Local::now().format("%Y-%m-%d_%H-%M-%S").to_string()
}

/// The components of a path as `Path::components` yields them, the root as
/// `/` and a leading current directory as `.`.
pub open spec fn component_list(s: Seq<char>) -> Seq<Seq<char>> {
    let (absolute, current, named) = path_components(s);
    (if absolute {
        seq![seq!['/']]
    } else {
        Seq::empty()
    }) + (if current {
        seq![seq!['.']]
    } else {
        Seq::empty()
    }) + named
}

fn component_vec(s: &str) -> (r: Vec<Vec<char>>)
    ensures
        r@.map_values(|p: Vec<char>| p@) == component_list(s@),
{
    let pieces = split_pieces(s);
    proof {
        lemma_split_slash_nonempty(s@);
        assert(pieces@.map_values(|p: Vec<char>| p@) =~= split_slash(s@));
    }
    let v = chars_of(s);
    let absolute = v.len() > 0 && v[0] == '/';
    let current = !absolute && is_dot(&pieces[0]);
    let named = named_of(&pieces);
    let mut out: Vec<Vec<char>> = Vec::new();
    if absolute {
        let mut root: Vec<char> = Vec::new();
        root.push('/');
        out.push(root);
    }
    if current {
        let mut dot: Vec<char> = Vec::new();
        dot.push('.');
        out.push(dot);
    }
    let ghost head = out@.map_values(|p: Vec<char>| p@);
    let ghost want = named_pieces(split_slash(s@));
    let mut i: usize = 0;
    while i < named.len()
        invariant
            want == named_pieces(split_slash(s@)),
            named@.len() == want.len(),
            forall|k: int| 0 <= k < named@.len() ==> #[trigger] named@[k]@ == want[k],
            i <= named.len(),
            out@.map_values(|p: Vec<char>| p@) == head + want.take(i as int),
        decreases named.len() - i,
    {
        let ghost before = out@.map_values(|p: Vec<char>| p@);
        out.push(named[i].clone());
        assert(out@.map_values(|p: Vec<char>| p@) =~= before.push(want[i as int]));
        assert(want.take(i + 1) =~= want.take(i as int).push(want[i as int]));
        i = i + 1;
    }
    assert(want.take(i as int) =~= want);
    assert(out@.map_values(|p: Vec<char>| p@) =~= component_list(s@));
    out
}

/// `Path::starts_with`: the components of `base` begin the components of
/// `path`.
pub fn path_starts_with(path: &str, base: &str) -> (r: bool)
    ensures
        r == (component_list(base@).len() <= component_list(path@).len() && component_list(
            path@,
        ).take(component_list(base@).len() as int) == component_list(base@)),
{
    let p = component_vec(path);
    let b = component_vec(base);
    let ghost ps = component_list(path@);
    let ghost bs = component_list(base@);
    assert(p@.len() == ps.len() && b@.len() == bs.len());
    if b.len() > p.len() {
        return false;
    }
    let mut i: usize = 0;
    while i < b.len()
        invariant
            ps == component_list(path@),
            bs == component_list(base@),
            p@.map_values(|x: Vec<char>| x@) == ps,
            b@.map_values(|x: Vec<char>| x@) == bs,
            b@.len() <= p@.len(),
            i <= b@.len(),
            forall|j: int| 0 <= j < i ==> ps[j] == bs[j],
        decreases b.len() - i,
    {
        assert(ps[i as int] == p@[i as int]@);
        assert(bs[i as int] == b@[i as int]@);
        if !chars_eq(&p[i], &b[i]) {
            assert(bs.len() == b@.len());
            assert(ps.take(bs.len() as int)[i as int] != bs[i as int]);
            assert(ps.take(bs.len() as int) != bs);
            return false;
        }
        i = i + 1;
    }
    assert(ps.take(bs.len() as int) =~= bs);
    true
}

} // verus!
