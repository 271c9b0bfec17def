//! Choosing what to capture among the windows and displays that the system
//! offers.
use vstd::prelude::*;

use crate::text::str_eq;

verus! {

/// Something the screen can be captured from, as the capture library lists
/// it: a window or a display, with its id and title.
#[derive(Debug, Clone)]
pub enum CaptureTarget {
    Window { id: u32, title: String },
    Display { id: u32, title: String },
}

/// Is `t` one of the application's own windows, whose titles are `titles`?
pub open spec fn is_app_window(t: CaptureTarget, titles: Seq<String>) -> bool {
    match t {
        CaptureTarget::Window { title, .. } => exists|i: int|
            0 <= i < titles.len() && #[trigger] titles[i]@ == title@,
        CaptureTarget::Display { .. } => false,
    }
}

/// The application's own windows among `ts`, in their order.
pub open spec fn app_windows(ts: Seq<CaptureTarget>, titles: Seq<String>) -> Seq<CaptureTarget>
    decreases ts.len(),
{
    if ts.len() == 0 {
        Seq::empty()
    } else {
        let rest = app_windows(ts.drop_last(), titles);
        if is_app_window(ts.last(), titles) {
            rest.push(ts.last())
        } else {
            rest
        }
    }
}

fn title_listed(titles: &Vec<String>, title: &String) -> (b: bool)
    ensures
        b == (exists|i: int| 0 <= i < titles.len() && #[trigger] titles@[i]@ == title@),
{
    let mut i: usize = 0;
    while i < titles.len()
        invariant
            i <= titles.len(),
            forall|j: int| 0 <= j < i ==> #[trigger] titles@[j]@ != title@,
        decreases titles.len() - i,
    {
        if str_eq(titles[i].as_str(), title.as_str()) {
            return true;
        }
        i = i + 1;
    }
    false
}

/// Keeps the targets that are windows of the application itself (whose
/// titles are `app_titles`), in their order.
pub fn get_app_targets(targets: Vec<CaptureTarget>, app_titles: &Vec<String>) -> (r: Vec<
    CaptureTarget,
>)
    ensures
        r@ == app_windows(targets@, app_titles@),
{
    let ghost all = targets@;
    let mut rest = targets;
    let mut r: Vec<CaptureTarget> = Vec::new();
    let ghost mut k: int = 0;
    while rest.len() > 0
        invariant
            0 <= k <= all.len(),
            rest@ == all.skip(k),
            r@ == app_windows(all.take(k), app_titles@),
        decreases rest.len(),
    {
        let t = rest.remove(0);
        proof {
            assert(t == all[k]);
            assert(all.take(k + 1).drop_last() =~= all.take(k));
            assert(all.take(k + 1).last() == all[k]);
        }
        let keep = match &t {
            CaptureTarget::Window { title, .. } => title_listed(app_titles, title),
            CaptureTarget::Display { .. } => false,
        };
        if keep {
            r.push(t);
        }
        proof {
            k = k + 1;
            assert(rest@ =~= all.skip(k));
        }
    }
    assert(all.take(k) =~= all);
    r
}

/// Is `t` the display called `name`?
pub open spec fn is_display_named(t: CaptureTarget, name: Seq<char>) -> bool {
    t matches CaptureTarget::Display { title, .. } && title@ == name
}

/// Is `t` the window with id `window_id`?
pub open spec fn is_window_with_id(t: CaptureTarget, window_id: u32) -> bool {
    t matches CaptureTarget::Window { id, .. } && id == window_id
}

/// Is `t` a window titled `name`?
pub open spec fn is_window_titled(t: CaptureTarget, name: Seq<char>) -> bool {
    t matches CaptureTarget::Window { title, .. } && title@ == name
}

/// `i` is the first position of `ts` that `p` holds at.
pub open spec fn first_match(ts: Seq<CaptureTarget>, p: spec_fn(CaptureTarget) -> bool, i: int) -> bool {
    &&& 0 <= i < ts.len()
    &&& p(ts[i])
    &&& forall|j: int| 0 <= j < i ==> !p(#[trigger] ts[j])
}

/// The first target that `p` holds of: `None` when there is none.
pub open spec fn find_first(ts: Seq<CaptureTarget>, p: spec_fn(CaptureTarget) -> bool) -> Option<CaptureTarget> {
    if exists|i: int| first_match(ts, p, i) {
        Some(ts[choose|i: int| first_match(ts, p, i)])
    } else {
        None
    }
}

proof fn lemma_find_first(ts: Seq<CaptureTarget>, p: spec_fn(CaptureTarget) -> bool, i: int)
    requires
        first_match(ts, p, i),
    ensures
        find_first(ts, p) == Some(ts[i]),
{
    let k = choose|k: int| first_match(ts, p, k);
    assert(first_match(ts, p, k));
    if k < i {
        assert(!p(ts[k]));
    } else if i < k {
        assert(!p(ts[i]));
    }
}

proof fn lemma_find_none(ts: Seq<CaptureTarget>, p: spec_fn(CaptureTarget) -> bool)
    requires
        forall|j: int| 0 <= j < ts.len() ==> !p(#[trigger] ts[j]),
    ensures
        find_first(ts, p) is None,
{
}

/// Which predicate a search goes by.
enum TargetQuery<'a> {
    DisplayNamed(&'a str),
    WindowWithId(u32),
    WindowTitled(&'a str),
}

spec fn query_pred(q: TargetQuery) -> spec_fn(CaptureTarget) -> bool {
    match q {
        TargetQuery::DisplayNamed(name) => |t: CaptureTarget| is_display_named(t, name@),
        TargetQuery::WindowWithId(id) => |t: CaptureTarget| is_window_with_id(t, id),
        TargetQuery::WindowTitled(name) => |t: CaptureTarget| is_window_titled(t, name@),
    }
}

fn query_holds(q: &TargetQuery, t: &CaptureTarget) -> (b: bool)
    ensures
        b == query_pred(*q)(*t),
{
    match (q, t) {
        (TargetQuery::DisplayNamed(name), CaptureTarget::Display { title, .. }) => str_eq(
            title.as_str(),
            name,
        ),
        (TargetQuery::WindowWithId(wanted), CaptureTarget::Window { id, .. }) => *id == *wanted,
        (TargetQuery::WindowTitled(name), CaptureTarget::Window { title, .. }) => str_eq(
            title.as_str(),
            name,
        ),
        _ => false,
    }
}

fn position_of(targets: &Vec<CaptureTarget>, q: &TargetQuery) -> (r: Option<usize>)
    ensures
        match r {
            Some(i) => first_match(targets@, query_pred(*q), i as int),
            None => forall|j: int| 0 <= j < targets.len() ==> !query_pred(*q)(#[trigger] targets@[j]),
        },
{
    let mut i: usize = 0;
    while i < targets.len()
        invariant
            i <= targets.len(),
            forall|j: int| 0 <= j < i ==> !query_pred(*q)(#[trigger] targets@[j]),
        decreases targets.len() - i,
    {
        if query_holds(q, &targets[i]) {
            return Some(i);
        }
        i = i + 1;
    }
    None
}

fn take_first(targets: Vec<CaptureTarget>, q: TargetQuery) -> (r: Option<CaptureTarget>)
    ensures
        r == find_first(targets@, query_pred(q)),
{
    let mut targets = targets;
    match position_of(&targets, &q) {
        Some(i) => {
            proof {
                lemma_find_first(targets@, query_pred(q), i as int);
            }
            Some(targets.remove(i))
        },
        None => {
            proof {
                lemma_find_none(targets@, query_pred(q));
            }
            None
        },
    }
}

/// The display target called `display_name`: the first one when several
/// share the name, `None` when none does.
pub fn get_display_scap_target(targets: Vec<CaptureTarget>, display_name: &str) -> (r: Option<
    CaptureTarget,
>)
    ensures
        r == find_first(targets@, |t: CaptureTarget| is_display_named(t, display_name@)),
{
    take_first(targets, TargetQuery::DisplayNamed(display_name))
}

/// The window target with id `window_id`, if there is one.
pub fn get_window(targets: Vec<CaptureTarget>, window_id: u32) -> (r: Option<CaptureTarget>)
    ensures
        r == find_first(targets@, |t: CaptureTarget| is_window_with_id(t, window_id)),
{
    take_first(targets, TargetQuery::WindowWithId(window_id))
}

/// The id of the first window target titled `title`, if there is one.
pub fn window_target_id(targets: Vec<CaptureTarget>, title: &str) -> (r: Option<u32>)
    ensures
        r == match find_first(targets@, |t: CaptureTarget| is_window_titled(t, title@)) {
            Some(CaptureTarget::Window { id, .. }) => Some(id),
            _ => None,
        },
{
    match take_first(targets, TargetQuery::WindowTitled(title)) {
        Some(CaptureTarget::Window { id, .. }) => Some(id),
        _ => None,
    }
}

/// Is `name` the name of a monitor called `id`?
pub open spec fn names_monitor(name: Option<String>, id: Seq<char>) -> bool {
    name matches Some(n) && n@ == id
}

/// Position of the monitor called `display_id` among the monitors (listed
/// by name, where they have one); the first monitor when none has that
/// name.
pub fn display_index(monitor_names: &Vec<Option<String>>, display_id: &str) -> (i: usize)
    ensures
        (exists|k: int| 0 <= k < monitor_names.len() && names_monitor(#[trigger] monitor_names@[k], display_id@)) ==> {
            &&& i < monitor_names.len()
            &&& names_monitor(monitor_names@[i as int], display_id@)
            &&& forall|j: int| 0 <= j < i ==> !names_monitor(#[trigger] monitor_names@[j], display_id@)
        },
        !(exists|k: int| 0 <= k < monitor_names.len() && names_monitor(#[trigger] monitor_names@[k], display_id@)) ==> i == 0,
{
    let mut i: usize = 0;
    while i < monitor_names.len()
        invariant
            i <= monitor_names.len(),
            forall|j: int| 0 <= j < i ==> !names_monitor(#[trigger] monitor_names@[j], display_id@),
        decreases monitor_names.len() - i,
    {
        match &monitor_names[i] {
            Some(n) => {
                if str_eq(n.as_str(), display_id) {
                    return i;
                }
            },
            None => {},
        }
        i = i + 1;
    }
    0
}

/// Is a window the system reports one to offer for recording? Only a window
/// with a title that is not empty, in the normal window layer (0), and on
/// screen.
pub fn is_listed_window(title: Option<&str>, window_layer: i64, is_on_screen: bool) -> (b: bool)
    ensures
        b == (title matches Some(t) && t@.len() > 0 && window_layer == 0 && is_on_screen),
{
    match title {
        Some(t) => t.unicode_len() > 0 && window_layer == 0 && is_on_screen,
        None => false,
    }
}

/// The id of the window target titled `title`, looked up without taking
/// the targets.
fn titled_target_id(targets: &Vec<CaptureTarget>, title: &str) -> (r: Option<u32>)
    ensures
        r == match find_first(targets@, |t: CaptureTarget| is_window_titled(t, title@)) {
            Some(CaptureTarget::Window { id, .. }) => Some(id),
            _ => None,
        },
{
    let q = TargetQuery::WindowTitled(title);
    assert(query_pred(q) == (|t: CaptureTarget| is_window_titled(t, title@)));
    match position_of(targets, &q) {
        Some(i) => {
            proof {
                lemma_find_first(targets@, query_pred(q), i as int);
            }
            match &targets[i] {
                CaptureTarget::Window { id, .. } => Some(*id),
                CaptureTarget::Display { .. } => None,
            }
        },
        None => {
            proof {
                lemma_find_none(targets@, query_pred(q));
            }
            None
        },
    }
}

/// For each window the system lists, by title, the id of the capture
/// target that records it: the first window target with the same title;
/// `None` for a window that no target records (it is not offered).
pub fn match_window_targets(window_titles: &Vec<String>, targets: &Vec<CaptureTarget>) -> (ids: Vec<
    Option<u32>,
>)
    ensures
        ids.len() == window_titles.len(),
        forall|i: int|
            0 <= i < ids.len() ==> #[trigger] ids@[i] == match find_first(
                targets@,
                |t: CaptureTarget| is_window_titled(t, window_titles@[i]@),
            ) {
                Some(CaptureTarget::Window { id, .. }) => Some(id),
                _ => None,
            },
{
    let mut ids: Vec<Option<u32>> = Vec::new();
    let mut i: usize = 0;
    while i < window_titles.len()
        invariant
            i <= window_titles.len(),
            ids.len() == i,
            forall|j: int|
                0 <= j < i ==> #[trigger] ids@[j] == match find_first(
                    targets@,
                    |t: CaptureTarget| is_window_titled(t, window_titles@[j]@),
                ) {
                    Some(CaptureTarget::Window { id, .. }) => Some(id),
                    _ => None,
                },
        decreases window_titles.len() - i,
    {
        let id = titled_target_id(targets, window_titles[i].as_str());
        ids.push(id);
        i = i + 1;
    }
    ids
}

} // verus!
