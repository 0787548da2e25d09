//! Hyprland's monitors, as `hyprctl monitors -j` lists them: the output to
//! record when wl-screenrec is to follow the focused monitor, and the names
//! the doctor lists.
use vstd::prelude::*;

use crate::config::views;
use crate::paths::opt_view;
use crate::text::owned;

verus! {

/// One monitor of the listing: its `name` and `focused` fields, each where
/// it is present with the right JSON type.
pub type MonitorFields = (Option<Seq<char>>, Option<bool>);

/// The monitors that `serde_json` reads from the text: `None` when the text
/// is not JSON or not a JSON array; else, for each element in order, its
/// `name` where that is a string and its `focused` where that is a boolean.
pub uninterp spec fn hyprctl_monitor_fields(text: Seq<char>) -> Option<Seq<(Option<Seq<char>>, Option<bool>)>>;

/// The views of the fields of each monitor.
pub open spec fn monitor_fields_view(v: Seq<(Option<String>, Option<bool>)>) -> Seq<MonitorFields> {
    v.map_values(|m: (Option<String>, Option<bool>)| (opt_view(m.0), m.1))
}

/// `serde_json::from_str` into a `serde_json::Value`, then, where that is
/// an array, each element's `name` (`Value::as_str`) and `focused`
/// (`Value::as_bool`). The result is named `hyprctl_monitor_fields`; it
/// depends on the text alone.
#[verifier::external_body]
fn read_hyprctl_monitors(text: &str) -> (r: Option<Vec<(Option<String>, Option<bool>)>>)
    ensures
        match r {
            Some(v) => hyprctl_monitor_fields(text@) == Some(monitor_fields_view(v@)),
            None => hyprctl_monitor_fields(text@) is None,
        },
{
    let value = serde_json::from_str::<serde_json::Value>(text).ok()?;
    let monitors = value.as_array()?;
    Some(
        monitors.iter().map(
            |m| (m.get("name").and_then(|n| n.as_str()).map(|n| n.to_string()), m.get("focused").and_then(|f| f.as_bool())),
        ).collect(),
    )
}

/// The index of the first focused monitor at or after `i`.
pub open spec fn first_focused_from(ms: Seq<MonitorFields>, i: nat) -> Option<nat>
    decreases ms.len() - i,
{
    if i >= ms.len() {
        None
    } else if ms[i as int].1 == Some(true) {
        Some(i)
    } else {
        first_focused_from(ms, i + 1)
    }
}

/// The focused monitor, else the first one, if there is any.
pub open spec fn chosen_monitor(ms: Seq<MonitorFields>) -> Option<MonitorFields> {
    match first_focused_from(ms, 0) {
        Some(i) => Some(ms[i as int]),
        None => if ms.len() > 0 {
            Some(ms[0])
        } else {
            None
        },
    }
}

/// The name of the focused monitor, else of the first one; `None` when the
/// listing cannot be read, is empty, or the chosen monitor has no name.
pub open spec fn focused_or_first_name(f: Option<Seq<MonitorFields>>) -> Option<Seq<char>> {
    match f {
        Some(ms) => match chosen_monitor(ms) {
            Some(m) => m.0,
            None => None,
        },
        None => None,
    }
}

/// The names of the monitors that have one, in order.
pub open spec fn names_of(ms: Seq<MonitorFields>) -> Seq<Seq<char>>
    decreases ms.len(),
{
    if ms.len() == 0 {
        Seq::empty()
    } else {
        names_of(ms.drop_last()) + match ms.last().0 {
            Some(n) => seq![n],
            None => Seq::<Seq<char>>::empty(),
        }
    }
}

/// The monitor names of a listing; none when it cannot be read.
pub open spec fn string_names(f: Option<Seq<MonitorFields>>) -> Seq<Seq<char>> {
    match f {
        Some(ms) => names_of(ms),
        None => Seq::empty(),
    }
}

/// The output that wl-screenrec is to record when it follows the focused
/// monitor: the focused monitor's name, else the first monitor's.
pub fn focused_output_from_hyprctl(text: &str) -> (r: Option<String>)
    ensures
        opt_view(r) == focused_or_first_name(hyprctl_monitor_fields(text@)),
{
    let monitors = match read_hyprctl_monitors(text) {
        Some(v) => v,
        None => {
            return None;
        },
    };
    let ghost ms = monitor_fields_view(monitors@);
    let mut i: usize = 0;
    while i < monitors.len()
        invariant
            ms == monitor_fields_view(monitors@),
            i <= monitors.len(),
            hyprctl_monitor_fields(text@) == Some(ms),
            first_focused_from(ms, 0) == first_focused_from(ms, i as nat),
        decreases monitors.len() - i,
    {
        let focused = match monitors[i].1 {
            Some(b) => b,
            None => false,
        };
        if focused {
            assert(first_focused_from(ms, i as nat) == Some(i as nat));
            assert(ms[i as int] == (opt_view(monitors@[i as int].0), monitors@[i as int].1));
            let r = match &monitors[i].0 {
                Some(n) => Some(owned(n.as_str())),
                None => None,
            };
            assert(opt_view(r) == ms[i as int].0);
            return r;
        }
        assert(first_focused_from(ms, i as nat) == first_focused_from(ms, (i + 1) as nat));
        i = i + 1;
    }
    assert(first_focused_from(ms, i as nat) is None);
    if monitors.len() == 0 {
        return None;
    }
    assert(ms[0] == (opt_view(monitors@[0].0), monitors@[0].1));
    match &monitors[0].0 {
        Some(n) => Some(owned(n.as_str())),
        None => None,
    }
}

/// The names of the monitors in `hyprctl monitors -j` output, in order;
/// none when the output cannot be read.
pub fn monitor_names_from_hyprctl_json(text: &str) -> (r: Vec<String>)
    ensures
        views(r@) == string_names(hyprctl_monitor_fields(text@)),
{
    let monitors = match read_hyprctl_monitors(text) {
        Some(v) => v,
        None => {
            return Vec::new();
        },
    };
    let ghost ms = monitor_fields_view(monitors@);
    let mut names: Vec<String> = Vec::new();
    let mut i: usize = 0;
    while i < monitors.len()
        invariant
            ms == monitor_fields_view(monitors@),
            i <= monitors.len(),
            hyprctl_monitor_fields(text@) == Some(ms),
            views(names@) == names_of(ms.take(i as int)),
        decreases monitors.len() - i,
    {
        assert(ms.take(i + 1).drop_last() =~= ms.take(i as int));
        let ghost before = views(names@);
        if let Some(n) = &monitors[i].0 {
            names.push(owned(n.as_str()));
        }
        assert(views(names@) =~= names_of(ms.take(i + 1)));
        i = i + 1;
    }
    assert(ms.take(i as int) =~= ms);
    names
}

} // verus!
