//! The state of the terminal application and every change that a key, a mouse
//! wheel, an engine reply or the clock makes to it. The event loop outside the
//! library performs the engine calls and drawing that these functions ask for.

use vstd::prelude::*;
use crate::daemon::DaemonState;
use crate::models::{ContainerRow, ContainerStats, ImageRow, VolumeRow};
use crate::sanitize::{sanitize_log_line, sanitized};
use crate::shell_output::{feed_shell_output, keep_last, lines_view, shell_feed, fresh_screen, MAX_SHELL_LINES};
use crate::keymap::Action;
use crate::engine::{call_error_message, call_error_text, CallError};
use crate::text::{strings_view, byte_prefix, concat2, concat3, decimal, eq_str, owned, take_bytes, u64_to_string};
use crate::ui::{ResourceTab, Tab};

verus! {

/// The most log lines the logs view keeps; older ones are dropped.
pub const MAX_LOG_LINES: usize = 3000;

/// The most samples kept per container for the history graphs.
pub const MAX_STATS_HISTORY: usize = 400;

/// How long, in milliseconds, a sample stays in the history.
pub const STATS_MAX_AGE_MS: u64 = 300_000;

/// How long, in milliseconds, a fresh or pending sample satisfies a new request.
pub const STATS_REFRESH_WINDOW_MS: u64 = 800;

/// One sample of a container's resource use, taken at `at` milliseconds on the
/// program's monotonic clock.
#[derive(Debug, Clone, Copy)]
pub struct StatsPoint {
    pub at: u64,
    pub cpu_percent: u64,
    pub mem_percent: u64,
    pub net_total: u64,
    pub block_total: u64,
    pub pids: u64,
    pub mem_usage_bytes: u64,
}

/// Everything the screen shows and the loop decides on. Times are milliseconds
/// on the program's monotonic clock.
pub struct AppState {
    pub tab: Tab,
    pub resource_tab: ResourceTab,
    pub status: String,
    pub containers: Vec<ContainerRow>,
    pub selected_container: usize,
    pub images: Vec<ImageRow>,
    pub selected_image: usize,
    pub volumes: Vec<VolumeRow>,
    pub selected_volume: usize,
    pub logs_title: String,
    pub logs_lines: Vec<String>,
    pub logs_follow: bool,
    pub logs_scroll: usize,
    pub logs_viewport_height: u16,
    pub logs_running: bool,
    pub engine_daemon_state: DaemonState,
    /// Containers with an operation under way, each with its spinner frame.
    pub stopping_containers: Vec<(String, usize)>,
    pub container_stats: Option<ContainerStats>,
    pub container_stats_for: Option<String>,
    pub container_stats_loading: bool,
    pub container_stats_error: Option<String>,
    pub container_stats_updated_at: Option<u64>,
    pub container_stats_requested_at: Option<u64>,
    /// The samples of each container, oldest first.
    pub container_stats_history: Vec<(String, Vec<StatsPoint>)>,
    pub shell_active: bool,
    pub shell_title: String,
    pub shell_lines: Vec<String>,
    pub shell_current: String,
}

/// A selection into a list of `len` rows points at a row, or at 0 when there is none.
pub open spec fn selection_ok(len: nat, sel: usize) -> bool {
    if len == 0 {
        sel == 0
    } else {
        sel < len
    }
}

pub open spec fn opt_string_view(o: Option<String>) -> Option<Seq<char>> {
    match o {
        Some(s) => Some(s@),
        None => None,
    }
}

/// How far the logs view can scroll: the lines that do not fit in the viewport.
pub open spec fn logs_scroll_limit(lines: nat, viewport: u16) -> nat {
    if lines > viewport {
        (lines - viewport) as nat
    } else {
        0
    }
}

impl AppState {
    /// What every operation keeps: each selection points at a row of its list,
    /// the logs and shell panes hold no more than their caps, and no container
    /// is listed twice among the busy ones or among the stats histories.
    pub open spec fn wf(&self) -> bool {
        &&& selection_ok(self.containers@.len(), self.selected_container)
        &&& selection_ok(self.images@.len(), self.selected_image)
        &&& selection_ok(self.volumes@.len(), self.selected_volume)
        &&& self.logs_lines@.len() <= MAX_LOG_LINES
        &&& self.shell_lines@.len() <= MAX_SHELL_LINES
        &&& keys_distinct(self.stopping_containers@)
        &&& keys_distinct(self.container_stats_history@)
    }

    /// The state at start-up: the containers tab, nothing loaded, logs following.
    pub fn new() -> (app: AppState)
        ensures
            app.wf(),
            app.tab == Tab::Containers,
            app.resource_tab == ResourceTab::Stats,
            app.status@ == "Ready"@,
            app.containers@.len() == 0,
            app.selected_container == 0,
            app.images@.len() == 0,
            app.selected_image == 0,
            app.volumes@.len() == 0,
            app.selected_volume == 0,
            app.logs_title@ == "Logs"@,
            app.logs_lines@.len() == 0,
            app.logs_follow,
            app.logs_scroll == 0,
            app.logs_viewport_height == 0,
            !app.logs_running,
            app.engine_daemon_state == DaemonState::Unknown,
            app.stopping_containers@.len() == 0,
            app.container_stats is None,
            app.container_stats_for is None,
            !app.container_stats_loading,
            app.container_stats_error is None,
            app.container_stats_updated_at is None,
            app.container_stats_requested_at is None,
            app.container_stats_history@.len() == 0,
            !app.shell_active,
            app.shell_title@.len() == 0,
            app.shell_lines@.len() == 0,
            app.shell_current@.len() == 0,
    {
        AppState {
            tab: Tab::Containers,
            resource_tab: ResourceTab::Stats,
            status: owned("Ready"),
            containers: Vec::new(),
            selected_container: 0,
            images: Vec::new(),
            selected_image: 0,
            volumes: Vec::new(),
            selected_volume: 0,
            logs_title: owned("Logs"),
            logs_lines: Vec::new(),
            logs_follow: true,
            logs_scroll: 0,
            logs_viewport_height: 0,
            logs_running: false,
            engine_daemon_state: DaemonState::Unknown,
            stopping_containers: Vec::new(),
            container_stats: None,
            container_stats_for: None,
            container_stats_loading: false,
            container_stats_error: None,
            container_stats_updated_at: None,
            container_stats_requested_at: None,
            container_stats_history: Vec::new(),
            shell_active: false,
            shell_title: String::new(),
            shell_lines: Vec::new(),
            shell_current: String::new(),
        }
    }
}

/// How far the logs view can scroll: the lines that do not fit in the viewport.
pub fn max_logs_scroll(app: &AppState) -> (r: usize)
    ensures
        r == logs_scroll_limit(app.logs_lines@.len(), app.logs_viewport_height),
{
    let viewport = app.logs_viewport_height as usize;
    if app.logs_lines.len() > viewport {
        app.logs_lines.len() - viewport
    } else {
        0
    }
}

/// Whether the containers tab is shown and its selected container is running.
pub open spec fn selected_running(app: AppState) -> bool {
    &&& app.tab == Tab::Containers
    &&& app.selected_container < app.containers@.len()
    &&& app.containers@[app.selected_container as int].state@ == "running"@
}

pub fn selected_container_is_running(app: &AppState) -> (r: bool)
    ensures
        r == selected_running(*app),
{
    if app.tab != Tab::Containers || app.containers.len() == 0 {
        return false;
    }
    if app.selected_container < app.containers.len() {
        eq_str(app.containers[app.selected_container].state.as_str(), "running")
    } else {
        false
    }
}

} // verus!

verus! {

/// `a` with the status line `s`.
pub open spec fn with_status(a: AppState, s: String) -> AppState {
    AppState { status: s, ..a }
}

/// The logs view after following is switched off by manual scrolling: it stays
/// where following had put it, at the bottom.
pub open spec fn unfollowed(a: AppState) -> AppState {
    if a.logs_follow {
        AppState {
            logs_follow: false,
            logs_scroll: logs_scroll_limit(a.logs_lines@.len(), a.logs_viewport_height) as usize,
            ..a
        }
    } else {
        a
    }
}

/// The status line that switching following off shows.
pub open spec fn unfollowed_status(a: AppState, s: Seq<char>) -> bool {
    if a.logs_follow {
        s == "Logs follow: false"@
    } else {
        s == a.status@
    }
}

/// One step down a list of `len` rows from `sel`, stopping at the last row.
pub open spec fn step_down(len: nat, sel: usize) -> usize {
    if len == 0 {
        0
    } else if sel + 1 < len {
        (sel + 1) as usize
    } else {
        (len - 1) as usize
    }
}

/// `pos + by`, but no further than `limit`.
pub open spec fn scroll_down_to(pos: usize, by: nat, limit: nat) -> usize {
    if pos + by < limit {
        (pos + by) as usize
    } else {
        limit as usize
    }
}

/// `pos - by`, but no further than 0.
pub open spec fn scroll_up_to(pos: usize, by: nat) -> usize {
    if pos >= by {
        (pos - by) as usize
    } else {
        0
    }
}

/// The logs view scrolled down by `by` lines after following is switched off.
pub open spec fn logs_scrolled_down(a: AppState, by: nat) -> AppState {
    let u = unfollowed(a);
    AppState {
        logs_scroll: scroll_down_to(
            u.logs_scroll,
            by,
            logs_scroll_limit(u.logs_lines@.len(), u.logs_viewport_height),
        ),
        ..u
    }
}

/// The logs view scrolled up by `by` lines after following is switched off.
pub open spec fn logs_scrolled_up(a: AppState, by: nat) -> AppState {
    let u = unfollowed(a);
    AppState { logs_scroll: scroll_up_to(u.logs_scroll, by), ..u }
}

/// The state after moving down, apart from the status line.
pub open spec fn moved_down(a: AppState) -> AppState {
    match a.tab {
        Tab::Containers => AppState {
            selected_container: step_down(a.containers@.len(), a.selected_container),
            ..a
        },
        Tab::Images => AppState { selected_image: step_down(a.images@.len(), a.selected_image), ..a },
        Tab::Volumes => AppState {
            selected_volume: step_down(a.volumes@.len(), a.selected_volume),
            ..a
        },
        Tab::Logs => logs_scrolled_down(a, 1),
    }
}

/// The state after moving up, apart from the status line.
pub open spec fn moved_up(a: AppState) -> AppState {
    match a.tab {
        Tab::Containers => AppState {
            selected_container: scroll_up_to(a.selected_container, 1),
            ..a
        },
        Tab::Images => AppState { selected_image: scroll_up_to(a.selected_image, 1), ..a },
        Tab::Volumes => AppState { selected_volume: scroll_up_to(a.selected_volume, 1), ..a },
        Tab::Logs => logs_scrolled_up(a, 1),
    }
}

/// The status line after moving: changed only when scrolling switches following off.
pub open spec fn moved_status(a: AppState, s: Seq<char>) -> bool {
    if a.tab == Tab::Logs {
        unfollowed_status(a, s)
    } else {
        s == a.status@
    }
}

fn stop_following(app: &mut AppState)
    ensures
        *final(app) == with_status(unfollowed(*old(app)), final(app).status),
        unfollowed_status(*old(app), final(app).status@),
{
    if app.logs_follow {
        app.logs_follow = false;
        app.status = owned("Logs follow: false");
        app.logs_scroll = max_logs_scroll(app);
    }
}

/// Moves the selection one row down, or scrolls the logs one line down.
pub fn move_down(app: &mut AppState)
    requires
        old(app).wf(),
    ensures
        final(app).wf(),
        *final(app) == with_status(moved_down(*old(app)), final(app).status),
        moved_status(*old(app), final(app).status@),
{
    match app.tab {
        Tab::Containers => {
            if app.containers.len() > 0 {
                let next = if app.selected_container + 1 < app.containers.len() {
                    app.selected_container + 1
                } else {
                    app.containers.len() - 1
                };
                app.selected_container = next;
            }
        },
        Tab::Images => {
            if app.images.len() > 0 {
                let next = if app.selected_image + 1 < app.images.len() {
                    app.selected_image + 1
                } else {
                    app.images.len() - 1
                };
                app.selected_image = next;
            }
        },
        Tab::Volumes => {
            if app.volumes.len() > 0 {
                let next = if app.selected_volume + 1 < app.volumes.len() {
                    app.selected_volume + 1
                } else {
                    app.volumes.len() - 1
                };
                app.selected_volume = next;
            }
        },
        Tab::Logs => {
            stop_following(app);
            let max_scroll = max_logs_scroll(app);
            let s = app.logs_scroll.saturating_add(1);
            app.logs_scroll = if s < max_scroll { s } else { max_scroll };
        },
    }
}

/// Moves the selection one row up, or scrolls the logs one line up.
pub fn move_up(app: &mut AppState)
    requires
        old(app).wf(),
    ensures
        final(app).wf(),
        *final(app) == with_status(moved_up(*old(app)), final(app).status),
        moved_status(*old(app), final(app).status@),
{
    match app.tab {
        Tab::Containers => {
            app.selected_container = app.selected_container.saturating_sub(1);
        },
        Tab::Images => {
            app.selected_image = app.selected_image.saturating_sub(1);
        },
        Tab::Volumes => {
            app.selected_volume = app.selected_volume.saturating_sub(1);
        },
        Tab::Logs => {
            stop_following(app);
            app.logs_scroll = app.logs_scroll.saturating_sub(1);
        },
    }
}

/// A turn of the mouse wheel.
#[derive(Debug, Clone, Copy, PartialEq, Eq, Structural)]
pub enum Wheel {
    Up,
    Down,
    /// Any other mouse event.
    Other,
}

/// The state after a wheel event over the logs view, apart from the status line.
pub open spec fn wheeled(a: AppState, wheel: Wheel) -> AppState {
    match wheel {
        Wheel::Up => logs_scrolled_up(a, 3),
        Wheel::Down => logs_scrolled_down(a, 3),
        Wheel::Other => a,
    }
}

/// Scrolls the logs view three lines per wheel step, switching following off.
pub fn handle_logs_mouse_scroll(app: &mut AppState, wheel: Wheel)
    requires
        old(app).wf(),
    ensures
        final(app).wf(),
        *final(app) == with_status(wheeled(*old(app), wheel), final(app).status),
        wheel == Wheel::Other ==> final(app).status == old(app).status,
        wheel != Wheel::Other ==> unfollowed_status(*old(app), final(app).status@),
{
    match wheel {
        Wheel::Other => {},
        Wheel::Up => {
            stop_following(app);
            app.logs_scroll = app.logs_scroll.saturating_sub(3);
        },
        Wheel::Down => {
            stop_following(app);
            let max_scroll = max_logs_scroll(app);
            let s = app.logs_scroll.saturating_add(3);
            app.logs_scroll = if s < max_scroll { s } else { max_scroll };
        },
    }
}

/// The state after following is switched on or off, apart from the status line.
pub open spec fn follow_toggled(a: AppState) -> AppState {
    AppState {
        logs_follow: !a.logs_follow,
        logs_scroll: if a.logs_follow {
            logs_scroll_limit(a.logs_lines@.len(), a.logs_viewport_height) as usize
        } else {
            a.logs_scroll
        },
        ..a
    }
}

/// Switches following of the logs on or off; switching it off keeps the view at the bottom.
pub fn toggle_follow(app: &mut AppState)
    requires
        old(app).wf(),
    ensures
        final(app).wf(),
        *final(app) == with_status(follow_toggled(*old(app)), final(app).status),
        final(app).status@ == (if old(app).logs_follow {
            "Logs follow: false"@
        } else {
            "Logs follow: true"@
        }),
{
    app.logs_follow = !app.logs_follow;
    if !app.logs_follow {
        app.logs_scroll = max_logs_scroll(app);
        app.status = owned("Logs follow: false");
    } else {
        app.status = owned("Logs follow: true");
    }
}

/// The other view of the resource pane.
pub open spec fn other_resource_tab(r: ResourceTab) -> ResourceTab {
    match r {
        ResourceTab::Stats => ResourceTab::Graphs,
        ResourceTab::Graphs => ResourceTab::Stats,
    }
}

pub open spec fn resource_tab_status(r: ResourceTab) -> Seq<char> {
    match r {
        ResourceTab::Stats => "Resource view: Stats"@,
        ResourceTab::Graphs => "Resource view: Graphs"@,
    }
}

/// On the containers tab, switches the resource pane between numbers and graphs.
pub fn toggle_resource_tab(app: &mut AppState)
    requires
        old(app).wf(),
    ensures
        final(app).wf(),
        old(app).tab != Tab::Containers ==> *final(app) == *old(app),
        old(app).tab == Tab::Containers ==> *final(app) == with_status(
            AppState { resource_tab: other_resource_tab(old(app).resource_tab), ..*old(app) },
            final(app).status,
        ),
        old(app).tab == Tab::Containers ==> final(app).status@ == resource_tab_status(
            other_resource_tab(old(app).resource_tab),
        ),
{
    if app.tab == Tab::Containers {
        match app.resource_tab {
            ResourceTab::Stats => {
                app.resource_tab = ResourceTab::Graphs;
                app.status = owned("Resource view: Graphs");
            },
            ResourceTab::Graphs => {
                app.resource_tab = ResourceTab::Stats;
                app.status = owned("Resource view: Stats");
            },
        }
    }
}

} // verus!

verus! {

/// The position of the first entry of `v` whose key is `k`, if any.
pub open spec fn first_key<V>(v: Seq<(String, V)>, k: Seq<char>) -> Option<int>
    decreases v.len(),
{
    if v.len() == 0 {
        None
    } else if v[0].0@ == k {
        Some(0)
    } else {
        match first_key(v.drop_first(), k) {
            Some(i) => Some(i + 1),
            None => None,
        }
    }
}

/// No key occurs twice.
pub open spec fn keys_distinct<V>(v: Seq<(String, V)>) -> bool {
    forall|i: int, j: int| 0 <= i < j < v.len() ==> (#[trigger] v[i]).0@ != (#[trigger] v[j]).0@
}

proof fn lemma_first_key_none<V>(v: Seq<(String, V)>, k: Seq<char>)
    requires
        first_key(v, k) is None,
    ensures
        forall|j: int| 0 <= j < v.len() ==> (#[trigger] v[j]).0@ != k,
    decreases v.len(),
{
    if v.len() > 0 {
        let w = v.drop_first();
        lemma_first_key_none(w, k);
        assert forall|j: int| 0 <= j < v.len() implies (#[trigger] v[j]).0@ != k by {
            if j > 0 {
                assert(v[j] == w[j - 1]);
            }
        }
    }
}

proof fn lemma_marked_busy_distinct(v: Seq<(String, usize)>, id: String)
    requires
        keys_distinct(v),
    ensures
        keys_distinct(marked_busy(v, id)),
{
    lemma_first_key_bounds(v, id@);
    let m = marked_busy(v, id);
    match first_key(v, id@) {
        Some(i) => {
            assert forall|a: int, b: int| 0 <= a < b < m.len() implies (#[trigger] m[a]).0@ != (#[trigger] m[b]).0@ by {
                assert(m[a].0 == v[a].0);
                assert(m[b].0 == v[b].0);
            }
        },
        None => {
            lemma_first_key_none(v, id@);
            assert forall|a: int, b: int| 0 <= a < b < m.len() implies (#[trigger] m[a]).0@ != (#[trigger] m[b]).0@ by {
                if b == v.len() {
                    assert(m[a] == v[a]);
                } else {
                    assert(m[a] == v[a]);
                    assert(m[b] == v[b]);
                }
            }
        },
    }
}

proof fn lemma_marked_all_distinct(v: Seq<(String, usize)>, ids: Seq<String>)
    requires
        keys_distinct(v),
    ensures
        keys_distinct(marked_all(v, ids)),
    decreases ids.len(),
{
    if ids.len() > 0 {
        lemma_marked_all_distinct(v, ids.drop_last());
        lemma_marked_busy_distinct(marked_all(v, ids.drop_last()), ids.last());
    }
}

proof fn lemma_first_key_found<V>(v: Seq<(String, V)>, k: Seq<char>, i: int)
    requires
        0 <= i < v.len(),
        v[i].0@ == k,
        forall|j: int| 0 <= j < i ==> (#[trigger] v[j]).0@ != k,
    ensures
        first_key(v, k) == Some(i),
    decreases i,
{
    if i > 0 {
        let w = v.drop_first();
        assert forall|j: int| 0 <= j < i - 1 implies (#[trigger] w[j]).0@ != k by {
            assert(w[j] == v[j + 1]);
        }
        assert(v[0].0@ != k);
        lemma_first_key_found(w, k, i - 1);
    }
}

proof fn lemma_first_key_absent<V>(v: Seq<(String, V)>, k: Seq<char>)
    requires
        forall|j: int| 0 <= j < v.len() ==> (#[trigger] v[j]).0@ != k,
    ensures
        first_key(v, k) is None,
    decreases v.len(),
{
    if v.len() > 0 {
        let w = v.drop_first();
        assert forall|j: int| 0 <= j < w.len() implies (#[trigger] w[j]).0@ != k by {
            assert(w[j] == v[j + 1]);
        }
        assert(v[0].0@ != k);
        lemma_first_key_absent(w, k);
    }
}

proof fn lemma_first_key_bounds<V>(v: Seq<(String, V)>, k: Seq<char>)
    ensures
        first_key(v, k) matches Some(i) ==> 0 <= i < v.len() && v[i].0@ == k,
    decreases v.len(),
{
    if v.len() > 0 && v[0].0@ != k {
        lemma_first_key_bounds(v.drop_first(), k);
    }
}

/// The position of the first entry keyed `k`.
fn find_key<V>(v: &Vec<(String, V)>, k: &str) -> (r: Option<usize>)
    ensures
        match r {
            Some(i) => first_key(v@, k@) == Some(i as int),
            None => first_key(v@, k@) is None,
        },
{
    let mut i: usize = 0;
    while i < v.len()
        invariant
            i <= v.len(),
            forall|j: int| 0 <= j < i ==> (#[trigger] v@[j]).0@ != k@,
        decreases v.len() - i,
    {
        if eq_str(v[i].0.as_str(), k) {
            proof {
                lemma_first_key_found(v@, k@, i as int);
            }
            return Some(i);
        }
        i = i + 1;
    }
    proof {
        lemma_first_key_absent(v@, k@);
    }
    None
}

/// The busy list after `id` is marked as just started: its spinner restarts
/// from the first frame, and an id not yet listed is added at the end.
pub open spec fn marked_busy(v: Seq<(String, usize)>, id: String) -> Seq<(String, usize)> {
    match first_key(v, id@) {
        Some(i) => v.update(i, (v[i].0, 0usize)),
        None => v.push((id, 0usize)),
    }
}

/// The busy list after each of `ids` is marked, in order.
pub open spec fn marked_all(v: Seq<(String, usize)>, ids: Seq<String>) -> Seq<(String, usize)>
    decreases ids.len(),
{
    if ids.len() == 0 {
        v
    } else {
        marked_busy(marked_all(v, ids.drop_last()), ids.last())
    }
}

fn mark_busy(v: &mut Vec<(String, usize)>, id: String)
    ensures
        final(v)@ == marked_busy(old(v)@, id),
{
    match find_key(v, id.as_str()) {
        Some(i) => {
            proof {
                lemma_first_key_bounds(v@, id@);
            }
            let key = v[i].0.clone();
            v.set(i, (key, 0));
        },
        None => {
            v.push((id, 0));
        },
    }
}

fn mark_all_busy(v: &mut Vec<(String, usize)>, ids: Vec<String>)
    ensures
        final(v)@ == marked_all(old(v)@, ids@),
{
    let mut i: usize = 0;
    while i < ids.len()
        invariant
            i <= ids.len(),
            v@ == marked_all(old(v)@, ids@.take(i as int)),
        decreases ids.len() - i,
    {
        let id = ids[i].clone();
        proof {
            let t = ids@.take(i + 1);
            assert(t.drop_last() =~= ids@.take(i as int));
        }
        mark_busy(v, id);
        i = i + 1;
    }
    assert(ids@.take(i as int) =~= ids@);
}

/// The busy list one spinner frame later: every frame advances, wrapping after ten.
pub open spec fn ticked(v: Seq<(String, usize)>) -> Seq<(String, usize)> {
    Seq::new(v.len(), |i: int| (v[i].0, ((v[i].1 + 1) % 10) as usize))
}

/// Advances the spinner of every busy container by one frame.
pub fn tick_spinners(app: &mut AppState)
    requires
        old(app).wf(),
    ensures
        final(app).wf(),
        *final(app) == (AppState {
            stopping_containers: final(app).stopping_containers,
            ..*old(app)
        }),
        final(app).stopping_containers@ == ticked(old(app).stopping_containers@),
{
    let mut i: usize = 0;
    let ghost orig = app.stopping_containers@;
    while i < app.stopping_containers.len()
        invariant
            i <= app.stopping_containers@.len(),
            app.stopping_containers@.len() == orig.len(),
            old(app).wf(),
            orig == old(app).stopping_containers@,
            *app == (AppState { stopping_containers: app.stopping_containers, ..*old(app) }),
            forall|j: int| 0 <= j < i ==> app.stopping_containers@[j] == (#[trigger] ticked(orig)[j]),
            forall|j: int| i <= j < orig.len() ==> app.stopping_containers@[j] == orig[j],
        decreases orig.len() - i,
    {
        let key = app.stopping_containers[i].0.clone();
        let frame = (app.stopping_containers[i].1 % 10 + 1) % 10;
        assert(frame == (orig[i as int].1 + 1) % 10) by (nonlinear_arith)
            requires
                frame == (orig[i as int].1 % 10 + 1) % 10,
        ;
        app.stopping_containers.set(i, (key, frame));
        i = i + 1;
    }
    assert(app.stopping_containers@ =~= ticked(orig));
}

} // verus!

verus! {

/// The logs view after one more line arrived: the line is sanitized and
/// appended, the oldest lines beyond `MAX_LOG_LINES` are dropped, and a view
/// that does not follow keeps showing the same lines where it can.
pub open spec fn log_line_added(a: AppState, line: Seq<char>) -> (Seq<Seq<char>>, usize) {
    let all = lines_view(a.logs_lines@).push(sanitized(line));
    let extra: int = if all.len() > MAX_LOG_LINES { all.len() - MAX_LOG_LINES } else { 0 };
    let scroll = if extra > 0 && !a.logs_follow {
        if a.logs_scroll >= extra { (a.logs_scroll - extra) as usize } else { 0usize }
    } else {
        a.logs_scroll
    };
    (keep_last(all, MAX_LOG_LINES as nat), scroll)
}

/// Adds one line of container output to the logs view.
pub fn push_log_line(app: &mut AppState, line: &str)
    requires
        old(app).wf(),
    ensures
        final(app).wf(),
        *final(app) == (AppState {
            logs_lines: final(app).logs_lines,
            logs_scroll: final(app).logs_scroll,
            ..*old(app)
        }),
        (lines_view(final(app).logs_lines@), final(app).logs_scroll) == log_line_added(*old(app), line@),
{
    let cleaned = sanitize_log_line(line);
    app.logs_lines.push(cleaned);
    assert(lines_view(app.logs_lines@) =~= lines_view(old(app).logs_lines@).push(sanitized(line@)));
    if app.logs_lines.len() > MAX_LOG_LINES {
        let extra = app.logs_lines.len() - MAX_LOG_LINES;
        let kept = app.logs_lines.split_off(extra);
        app.logs_lines = kept;
        if !app.logs_follow {
            if app.logs_scroll >= extra {
                app.logs_scroll = app.logs_scroll - extra;
            } else {
                app.logs_scroll = 0;
            }
        }
        assert(lines_view(app.logs_lines@) =~= keep_last(
            lines_view(old(app).logs_lines@).push(sanitized(line@)),
            MAX_LOG_LINES as nat,
        ));
    }
}

/// The log stream ended, failed or was cancelled; `reason` says which.
pub fn log_stopped(app: &mut AppState, reason: String)
    requires
        old(app).wf(),
    ensures
        final(app).wf(),
        *final(app) == (AppState { logs_running: false, status: reason, ..*old(app) }),
{
    app.logs_running = false;
    app.status = reason;
}

/// Shows a message in the status line.
pub fn set_status(app: &mut AppState, message: String)
    requires
        old(app).wf(),
    ensures
        final(app).wf(),
        *final(app) == with_status(*old(app), message),
{
    app.status = message;
}

/// Records the engine state that the last poll reported.
pub fn set_daemon_state(app: &mut AppState, state: DaemonState)
    requires
        old(app).wf(),
    ensures
        final(app).wf(),
        *final(app) == (AppState { engine_daemon_state: state, ..*old(app) }),
{
    app.engine_daemon_state = state;
}

/// The engine is about to be stopped and these running containers are being stopped first.
pub fn containers_stopping(app: &mut AppState, ids: Vec<String>)
    requires
        old(app).wf(),
    ensures
        final(app).wf(),
        *final(app) == (AppState {
            stopping_containers: final(app).stopping_containers,
            status: final(app).status,
            ..*old(app)
        }),
        final(app).stopping_containers@ == marked_all(old(app).stopping_containers@, ids@),
        final(app).status@ == "Stopping running containers..."@,
{
    proof {
        lemma_marked_all_distinct(app.stopping_containers@, ids@);
    }
    mark_all_busy(&mut app.stopping_containers, ids);
    app.status = owned("Stopping running containers...");
}

/// All containers were stopped and the engine itself is being stopped.
pub fn containers_stopped(app: &mut AppState)
    requires
        old(app).wf(),
    ensures
        final(app).wf(),
        *final(app) == (AppState {
            stopping_containers: final(app).stopping_containers,
            status: final(app).status,
            ..*old(app)
        }),
        final(app).stopping_containers@.len() == 0,
        final(app).status@ == "Containers stopped. Stopping engine..."@,
{
    app.stopping_containers = Vec::new();
    app.status = owned("Containers stopped. Stopping engine...");
}

/// An operation on these containers has started.
pub fn containers_activity_start(app: &mut AppState, ids: Vec<String>)
    requires
        old(app).wf(),
    ensures
        final(app).wf(),
        *final(app) == (AppState { stopping_containers: final(app).stopping_containers, ..*old(app) }),
        final(app).stopping_containers@ == marked_all(old(app).stopping_containers@, ids@),
{
    proof {
        lemma_marked_all_distinct(app.stopping_containers@, ids@);
    }
    mark_all_busy(&mut app.stopping_containers, ids);
}

/// The operation on the busy containers is over; `message` tells how it went.
pub fn containers_activity_done(app: &mut AppState, message: String)
    requires
        old(app).wf(),
    ensures
        final(app).wf(),
        *final(app) == (AppState {
            stopping_containers: final(app).stopping_containers,
            status: message,
            ..*old(app)
        }),
        final(app).stopping_containers@.len() == 0,
{
    app.stopping_containers = Vec::new();
    app.status = message;
}

/// A selection kept inside a list that now has `len` rows.
pub open spec fn clamped(len: nat, sel: usize) -> usize {
    if sel >= len {
        if len > 0 { (len - 1) as usize } else { 0 }
    } else {
        sel
    }
}

/// Replaces the container list; the selection moves to the last row if it fell off the end.
pub fn set_containers(app: &mut AppState, list: Vec<ContainerRow>)
    requires
        old(app).wf(),
    ensures
        final(app).wf(),
        *final(app) == (AppState {
            containers: list,
            selected_container: clamped(list@.len(), old(app).selected_container),
            ..*old(app)
        }),
{
    app.containers = list;
    if app.selected_container >= app.containers.len() {
        app.selected_container = app.containers.len().saturating_sub(1);
    }
}

/// Replaces the image list, keeping the selection inside it.
pub fn set_images(app: &mut AppState, list: Vec<ImageRow>)
    requires
        old(app).wf(),
    ensures
        final(app).wf(),
        *final(app) == (AppState {
            images: list,
            selected_image: clamped(list@.len(), old(app).selected_image),
            ..*old(app)
        }),
{
    app.images = list;
    if app.selected_image >= app.images.len() {
        app.selected_image = app.images.len().saturating_sub(1);
    }
}

/// Replaces the volume list, keeping the selection inside it.
pub fn set_volumes(app: &mut AppState, list: Vec<VolumeRow>)
    requires
        old(app).wf(),
    ensures
        final(app).wf(),
        *final(app) == (AppState {
            volumes: list,
            selected_volume: clamped(list@.len(), old(app).selected_volume),
            ..*old(app)
        }),
{
    app.volumes = list;
    if app.selected_volume >= app.volumes.len() {
        app.selected_volume = app.volumes.len().saturating_sub(1);
    }
}

} // verus!

verus! {

/// Whether a sample taken at `at` is older than the history keeps at time `now`.
pub open spec fn is_stale(at: u64, now: u64) -> bool {
    now > at && now - at > STATS_MAX_AGE_MS
}

/// The history without its leading samples that have grown too old.
pub open spec fn drop_stale(h: Seq<StatsPoint>, now: u64) -> Seq<StatsPoint>
    decreases h.len(),
{
    if h.len() > 0 && is_stale(h[0].at, now) {
        drop_stale(h.drop_first(), now)
    } else {
        h
    }
}

/// A container's history after the sample `p` was taken at `now`.
pub open spec fn history_after(h: Seq<StatsPoint>, p: StatsPoint, now: u64) -> Seq<StatsPoint> {
    keep_last(drop_stale(h.push(p), now), MAX_STATS_HISTORY as nat)
}

/// The sample that a stats report gives.
pub open spec fn stats_point(s: ContainerStats, now: u64) -> StatsPoint {
    StatsPoint {
        at: now,
        cpu_percent: s.cpu_percent_whole,
        mem_percent: s.mem_percent_whole,
        net_total: if s.net_rx_bytes + s.net_tx_bytes > u64::MAX { u64::MAX } else {
            (s.net_rx_bytes + s.net_tx_bytes) as u64
        },
        block_total: if s.block_read_bytes + s.block_write_bytes > u64::MAX { u64::MAX } else {
            (s.block_read_bytes + s.block_write_bytes) as u64
        },
        pids: s.pids_value,
        mem_usage_bytes: s.mem_usage_bytes,
    }
}

pub open spec fn history_view(v: Seq<(String, Vec<StatsPoint>)>) -> Seq<(Seq<char>, Seq<StatsPoint>)> {
    v.map_values(|e: (String, Vec<StatsPoint>)| (e.0@, e.1@))
}

/// All histories after the sample `p` of container `id`: its own history grows,
/// and a container without one gets a new one at the end.
pub open spec fn histories_after(
    v: Seq<(String, Vec<StatsPoint>)>,
    id: Seq<char>,
    p: StatsPoint,
    now: u64,
) -> Seq<(Seq<char>, Seq<StatsPoint>)> {
    let hv = history_view(v);
    match first_key(v, id) {
        Some(i) => hv.update(i, (hv[i].0, history_after(hv[i].1, p, now))),
        None => hv.push((id, history_after(Seq::empty(), p, now))),
    }
}

proof fn lemma_drop_stale_skip(h: Seq<StatsPoint>, now: u64, j: int)
    requires
        0 <= j <= h.len(),
        forall|k: int| 0 <= k < j ==> is_stale((#[trigger] h[k]).at, now),
    ensures
        drop_stale(h, now) == drop_stale(h.skip(j), now),
    decreases j,
{
    if j == 0 {
        assert(h.skip(0) =~= h);
    } else {
        assert(is_stale(h[0].at, now));
        assert(h.drop_first().skip(j - 1) =~= h.skip(j));
        lemma_drop_stale_skip(h.drop_first(), now, j - 1);
    }
}

fn copy_points(v: &Vec<StatsPoint>) -> (r: Vec<StatsPoint>)
    ensures
        r@ == v@,
{
    let mut r: Vec<StatsPoint> = Vec::new();
    let mut i: usize = 0;
    while i < v.len()
        invariant
            i <= v.len(),
            r@ == v@.take(i as int),
        decreases v.len() - i,
    {
        r.push(v[i]);
        i = i + 1;
        assert(r@ =~= v@.take(i as int));
    }
    assert(v@.take(i as int) =~= v@);
    r
}

fn grown_history(h: &Vec<StatsPoint>, p: StatsPoint, now: u64) -> (r: Vec<StatsPoint>)
    ensures
        r@ == history_after(h@, p, now),
{
    let mut all = copy_points(h);
    all.push(p);
    let mut j: usize = 0;
    while j < all.len() && now > all[j].at && now - all[j].at > STATS_MAX_AGE_MS
        invariant
            j <= all.len(),
            forall|k: int| 0 <= k < j ==> is_stale((#[trigger] all@[k]).at, now),
        decreases all.len() - j,
    {
        j = j + 1;
    }
    proof {
        lemma_drop_stale_skip(all@, now, j as int);
        let t = all@.skip(j as int);
        assert(t.len() == 0 || !is_stale(t[0].at, now));
    }
    let ghost whole = all@;
    let mut fresh = all.split_off(j);
    assert(fresh@ =~= whole.skip(j as int));
    if fresh.len() > MAX_STATS_HISTORY {
        let extra = fresh.len() - MAX_STATS_HISTORY;
        let kept = fresh.split_off(extra);
        fresh = kept;
    }
    fresh
}

/// Adds the current stats of container `id`, taken at `now`, to its history,
/// dropping samples older than five minutes and all but the last 400.
pub fn push_stats_history(app: &mut AppState, id: &str, now: u64)
    requires
        old(app).wf(),
    ensures
        final(app).wf(),
        *final(app) == (AppState {
            container_stats_history: final(app).container_stats_history,
            ..*old(app)
        }),
        match (old(app).container_stats_for, old(app).container_stats) {
            (Some(f), Some(s)) => f@ == id@ ==> history_view(final(app).container_stats_history@)
                == histories_after(old(app).container_stats_history@, id@, stats_point(s, now), now),
            _ => true,
        },
        !(old(app).container_stats_for matches Some(f) && f@ == id@ && old(app).container_stats is Some)
            ==> final(app).container_stats_history == old(app).container_stats_history,
{
    let same = match &app.container_stats_for {
        Some(f) => eq_str(f.as_str(), id),
        None => false,
    };
    if !same {
        return;
    }
    let point = match &app.container_stats {
        Some(s) => StatsPoint {
            at: now,
            cpu_percent: s.cpu_percent_whole,
            mem_percent: s.mem_percent_whole,
            net_total: s.net_rx_bytes.saturating_add(s.net_tx_bytes),
            block_total: s.block_read_bytes.saturating_add(s.block_write_bytes),
            pids: s.pids_value,
            mem_usage_bytes: s.mem_usage_bytes,
        },
        None => {
            return;
        },
    };
    let ghost old_hist = app.container_stats_history@;
    match find_key(&app.container_stats_history, id) {
        Some(i) => {
            proof {
                lemma_first_key_bounds(old_hist, id@);
            }
            let key = app.container_stats_history[i].0.clone();
            let grown = grown_history(&app.container_stats_history[i].1, point, now);
            app.container_stats_history.set(i, (key, grown));
            proof {
                let v = app.container_stats_history@;
                assert forall|a: int, b: int| 0 <= a < b < v.len() implies (#[trigger] v[a]).0@
                    != (#[trigger] v[b]).0@ by {
                    assert(v[a].0@ == old_hist[a].0@);
                    assert(v[b].0@ == old_hist[b].0@);
                }
            }
            assert(history_view(app.container_stats_history@) =~= histories_after(
                old_hist,
                id@,
                point,
                now,
            ));
        },
        None => {
            let empty: Vec<StatsPoint> = Vec::new();
            let grown = grown_history(&empty, point, now);
            proof {
                lemma_first_key_none(old_hist, id@);
            }
            app.container_stats_history.push((owned(id), grown));
            proof {
                let v = app.container_stats_history@;
                assert forall|a: int, b: int| 0 <= a < b < v.len() implies (#[trigger] v[a]).0@
                    != (#[trigger] v[b]).0@ by {
                    assert(v[a] == old_hist[a]);
                    if b < old_hist.len() {
                        assert(v[b] == old_hist[b]);
                    }
                }
            }
            assert(history_view(app.container_stats_history@) =~= histories_after(
                old_hist,
                id@,
                point,
                now,
            ));
        },
    }
}

} // verus!

verus! {

/// Whether the stats on screen belong to the container `id`.
pub open spec fn stats_are_for(a: AppState, id: Seq<char>) -> bool {
    a.container_stats_for matches Some(f) && f@ == id
}

/// A stats report for container `id` arrived at `now`. It is shown, and added
/// to the history, only if that container is still the one selected.
pub fn receive_container_stats(app: &mut AppState, id: String, stats: ContainerStats, now: u64)
    requires
        old(app).wf(),
    ensures
        final(app).wf(),
        !stats_are_for(*old(app), id@) ==> *final(app) == *old(app),
        stats_are_for(*old(app), id@) ==> {
            &&& *final(app) == (AppState {
                container_stats: Some(stats),
                container_stats_loading: false,
                container_stats_error: None,
                container_stats_updated_at: Some(now),
                container_stats_history: final(app).container_stats_history,
                ..*old(app)
            })
            &&& history_view(final(app).container_stats_history@) == histories_after(
                old(app).container_stats_history@,
                id@,
                stats_point(stats, now),
                now,
            )
        },
{
    let same = match &app.container_stats_for {
        Some(f) => eq_str(f.as_str(), id.as_str()),
        None => false,
    };
    if same {
        app.container_stats = Some(stats);
        app.container_stats_loading = false;
        app.container_stats_error = None;
        app.container_stats_updated_at = Some(now);
        push_stats_history(app, id.as_str(), now);
    }
}

/// Fetching the stats of container `id` failed with `error`; shown only if
/// that container is still the one selected.
pub fn receive_container_stats_error(app: &mut AppState, id: String, error: String)
    requires
        old(app).wf(),
    ensures
        final(app).wf(),
        !stats_are_for(*old(app), id@) ==> *final(app) == *old(app),
        stats_are_for(*old(app), id@) ==> *final(app) == (AppState {
            container_stats: None,
            container_stats_loading: false,
            container_stats_error: Some(error),
            container_stats_updated_at: None,
            ..*old(app)
        }),
{
    let same = match &app.container_stats_for {
        Some(f) => eq_str(f.as_str(), id.as_str()),
        None => false,
    };
    if same {
        app.container_stats = None;
        app.container_stats_loading = false;
        app.container_stats_error = Some(error);
        app.container_stats_updated_at = None;
    }
}

/// Whether a time stamp is less than the refresh window before `now`.
pub open spec fn recent(t: Option<u64>, now: u64) -> bool {
    t matches Some(at) && (if now > at { now - at } else { 0 }) < STATS_REFRESH_WINDOW_MS
}

/// The stats fields of `a` with nothing selected to show.
pub open spec fn stats_cleared(a: AppState) -> AppState {
    AppState {
        container_stats: None,
        container_stats_for: None,
        container_stats_loading: false,
        container_stats_error: None,
        container_stats_updated_at: None,
        container_stats_requested_at: None,
        ..a
    }
}

/// The stats fields of `a` once `row`'s id is the one shown: they are reset
/// unless it already was.
pub open spec fn stats_retargeted(a: AppState, row: ContainerRow) -> AppState {
    let base = if stats_are_for(a, row.id@) {
        a
    } else {
        AppState {
            container_stats: None,
            container_stats_error: None,
            container_stats_loading: false,
            container_stats_updated_at: None,
            container_stats_requested_at: None,
            ..a
        }
    };
    AppState { container_stats_for: Some(row.id), ..base }
}

/// What asking for the selected container's stats at `now` does: the state
/// afterwards, apart from the text of an error, and that text; and the id whose
/// stats the loop must fetch, if any.
pub open spec fn stats_request(a: AppState, now: u64) -> (AppState, Option<Seq<char>>, Option<Seq<char>>) {
    if a.tab != Tab::Containers {
        (a, opt_string_view(a.container_stats_error), None)
    } else if a.selected_container >= a.containers@.len() {
        (stats_cleared(a), None, None)
    } else {
        let row = a.containers@[a.selected_container as int];
        let same = stats_are_for(a, row.id@);
        if same && a.container_stats_loading {
            (a, opt_string_view(a.container_stats_error), None)
        } else {
            let b = stats_retargeted(a, row);
            if a.engine_daemon_state != DaemonState::Running {
                (
                    AppState {
                        container_stats: None,
                        container_stats_loading: false,
                        container_stats_updated_at: None,
                        ..b
                    },
                    Some("Engine is not running"@),
                    None,
                )
            } else if row.state@ != "running"@ {
                (
                    AppState {
                        container_stats: None,
                        container_stats_loading: false,
                        container_stats_updated_at: None,
                        ..b
                    },
                    Some("Container is not running"@),
                    None,
                )
            } else if same && (recent(a.container_stats_updated_at, now) || recent(
                a.container_stats_requested_at,
                now,
            )) {
                (b, opt_string_view(b.container_stats_error), None)
            } else {
                (
                    AppState {
                        container_stats_loading: b.container_stats is None || !same,
                        container_stats_requested_at: Some(now),
                        ..b
                    },
                    None,
                    Some(row.id@),
                )
            }
        }
    }
}

/// Decides whether the selected container's stats must be fetched now, and
/// updates what the resource pane shows meanwhile. Returns the id to fetch.
pub fn request_selected_container_stats(app: &mut AppState, now: u64) -> (r: Option<String>)
    requires
        old(app).wf(),
    ensures
        final(app).wf(),
        ({
            let (b, err, fetch) = stats_request(*old(app), now);
            &&& *final(app) == (AppState { container_stats_error: final(app).container_stats_error, ..b })
            &&& opt_string_view(final(app).container_stats_error) == err
            &&& opt_string_view(r) == fetch
        }),
{
    if app.tab != Tab::Containers {
        return None;
    }
    if app.selected_container >= app.containers.len() {
        app.container_stats = None;
        app.container_stats_for = None;
        app.container_stats_loading = false;
        app.container_stats_error = None;
        app.container_stats_updated_at = None;
        app.container_stats_requested_at = None;
        return None;
    }
    let row = app.containers[app.selected_container].duplicate();
    let same = match &app.container_stats_for {
        Some(f) => eq_str(f.as_str(), row.id.as_str()),
        None => false,
    };
    if same && app.container_stats_loading {
        return None;
    }
    if !same {
        app.container_stats = None;
        app.container_stats_error = None;
        app.container_stats_loading = false;
        app.container_stats_updated_at = None;
        app.container_stats_requested_at = None;
    }
    app.container_stats_for = Some(row.id.clone());
    if app.engine_daemon_state != DaemonState::Running {
        app.container_stats = None;
        app.container_stats_loading = false;
        app.container_stats_error = Some(owned("Engine is not running"));
        app.container_stats_updated_at = None;
        return None;
    }
    if !eq_str(row.state.as_str(), "running") {
        app.container_stats = None;
        app.container_stats_loading = false;
        app.container_stats_error = Some(owned("Container is not running"));
        app.container_stats_updated_at = None;
        return None;
    }
    if same {
        if let Some(updated_at) = app.container_stats_updated_at {
            if now.saturating_sub(updated_at) < STATS_REFRESH_WINDOW_MS {
                return None;
            }
        }
        if let Some(requested_at) = app.container_stats_requested_at {
            if now.saturating_sub(requested_at) < STATS_REFRESH_WINDOW_MS {
                return None;
            }
        }
    }
    app.container_stats_loading = app.container_stats.is_none() || !same;
    app.container_stats_error = None;
    app.container_stats_requested_at = Some(now);
    Some(row.id)
}

} // verus!

verus! {

/// The list that a refresh fetches.
#[derive(Debug, Clone, Copy, PartialEq, Eq, Structural)]
pub enum ListKind {
    Containers,
    Images,
    Volumes,
}

/// What starting a refresh does to the status line, and which list it fetches.
pub open spec fn refresh_start(a: AppState) -> (Seq<char>, Option<ListKind>) {
    if a.engine_daemon_state != DaemonState::Running {
        ("Engine is stopped; start it to refresh"@, None)
    } else {
        match a.tab {
            Tab::Containers => ("Refreshing containers..."@, Some(ListKind::Containers)),
            Tab::Images => ("Refreshing images..."@, Some(ListKind::Images)),
            Tab::Volumes => ("Refreshing volumes..."@, Some(ListKind::Volumes)),
            Tab::Logs => (a.status@, None),
        }
    }
}

/// Starts refreshing the current tab. Returns the list to fetch, if any: none
/// while the engine is not running, and none on the logs tab.
pub fn begin_refresh(app: &mut AppState) -> (r: Option<ListKind>)
    requires
        old(app).wf(),
    ensures
        final(app).wf(),
        *final(app) == with_status(*old(app), final(app).status),
        (final(app).status@, r) == refresh_start(*old(app)),
{
    if app.engine_daemon_state != DaemonState::Running {
        app.status = owned("Engine is stopped; start it to refresh");
        return None;
    }
    match app.tab {
        Tab::Containers => {
            app.status = owned("Refreshing containers...");
            Some(ListKind::Containers)
        },
        Tab::Images => {
            app.status = owned("Refreshing images...");
            Some(ListKind::Images)
        },
        Tab::Volumes => {
            app.status = owned("Refreshing volumes...");
            Some(ListKind::Volumes)
        },
        Tab::Logs => None,
    }
}

/// `label` followed by the number `n` in decimal.
fn count_message(label: &str, n: usize) -> (r: String)
    ensures
        r@ == label@ + decimal(n as nat),
{
    let digits = u64_to_string(n as u64);
    concat2(label, digits.as_str())
}

/// Takes the container list that a refresh fetched, or shows why it failed.
pub fn finish_refresh_containers(app: &mut AppState, result: Result<Vec<ContainerRow>, CallError>)
    requires
        old(app).wf(),
    ensures
        final(app).wf(),
        match result {
            Ok(list) => {
                &&& *final(app) == with_status(
                    AppState {
                        containers: list,
                        selected_container: clamped(list@.len(), old(app).selected_container),
                        ..*old(app)
                    },
                    final(app).status,
                )
                &&& final(app).status@ == "Containers: "@ + decimal(list@.len())
            },
            Err(e) => *final(app) == with_status(*old(app), final(app).status) && final(app).status@
                == call_error_text(e),
        },
{
    match result {
        Ok(list) => {
            set_containers(app, list);
            app.status = count_message("Containers: ", app.containers.len());
        },
        Err(e) => {
            app.status = call_error_message(&e);
        },
    }
}

/// Takes the image list that a refresh fetched, or shows why it failed.
pub fn finish_refresh_images(app: &mut AppState, result: Result<Vec<ImageRow>, CallError>)
    requires
        old(app).wf(),
    ensures
        final(app).wf(),
        match result {
            Ok(list) => {
                &&& *final(app) == with_status(
                    AppState {
                        images: list,
                        selected_image: clamped(list@.len(), old(app).selected_image),
                        ..*old(app)
                    },
                    final(app).status,
                )
                &&& final(app).status@ == "Images: "@ + decimal(list@.len())
            },
            Err(e) => *final(app) == with_status(*old(app), final(app).status) && final(app).status@
                == call_error_text(e),
        },
{
    match result {
        Ok(list) => {
            set_images(app, list);
            app.status = count_message("Images: ", app.images.len());
        },
        Err(e) => {
            app.status = call_error_message(&e);
        },
    }
}

/// Takes the volume list that a refresh fetched, or shows why it failed.
pub fn finish_refresh_volumes(app: &mut AppState, result: Result<Vec<VolumeRow>, CallError>)
    requires
        old(app).wf(),
    ensures
        final(app).wf(),
        match result {
            Ok(list) => {
                &&& *final(app) == with_status(
                    AppState {
                        volumes: list,
                        selected_volume: clamped(list@.len(), old(app).selected_volume),
                        ..*old(app)
                    },
                    final(app).status,
                )
                &&& final(app).status@ == "Volumes: "@ + decimal(list@.len())
            },
            Err(e) => *final(app) == with_status(*old(app), final(app).status) && final(app).status@
                == call_error_text(e),
        },
{
    match result {
        Ok(list) => {
            set_volumes(app, list);
            app.status = count_message("Volumes: ", app.volumes.len());
        },
        Err(e) => {
            app.status = call_error_message(&e);
        },
    }
}

/// The first 12 bytes of an id, as lists and titles show it.
pub open spec fn short_id(id: Seq<char>) -> Seq<char> {
    byte_prefix(id, 12)
}

/// The title of the logs view for a container.
pub open spec fn logs_title_text(row: ContainerRow) -> Seq<char> {
    "Logs: "@ + row.name@ + " ("@ + short_id(row.id@) + ")"@
}

/// The logs view right after it opened on the selected container, apart from
/// the title, the (empty) line list and the status line.
pub open spec fn logs_opened(a: AppState) -> AppState {
    AppState { tab: Tab::Logs, logs_scroll: 0, logs_follow: true, logs_running: true, ..a }
}

/// Opens the logs view on the selected container. Returns its id, whose log the
/// loop then streams (after cancelling any stream already running); `None`
/// where there is no selected container on the containers tab.
pub fn begin_open_logs(app: &mut AppState) -> (r: Option<String>)
    requires
        old(app).wf(),
    ensures
        final(app).wf(),
        old(app).tab != Tab::Containers || old(app).containers@.len() == 0 ==> {
            &&& *final(app) == *old(app)
            &&& r is None
        },
        old(app).tab == Tab::Containers && old(app).containers@.len() > 0 ==> {
            let row = old(app).containers@[old(app).selected_container as int];
            &&& *final(app) == (AppState {
                logs_title: final(app).logs_title,
                logs_lines: final(app).logs_lines,
                status: final(app).status,
                ..logs_opened(*old(app))
            })
            &&& final(app).logs_title@ == logs_title_text(row)
            &&& final(app).logs_lines@.len() == 0
            &&& final(app).status@ == "Tailing logs... (press q to exit logs)"@
            &&& r matches Some(id) && id == row.id
        },
{
    if app.tab != Tab::Containers || app.containers.len() == 0 {
        return None;
    }
    let row = app.containers[app.selected_container].duplicate();
    app.tab = Tab::Logs;
    let short = take_bytes(row.id.as_str(), 12);
    let head = concat3("Logs: ", row.name.as_str(), " (");
    app.logs_title = concat3(head.as_str(), short.as_str(), ")");
    app.logs_lines = Vec::new();
    app.logs_scroll = 0;
    app.logs_follow = true;
    app.logs_running = true;
    app.status = owned("Tailing logs... (press q to exit logs)");
    Some(row.id)
}

/// Leaves the logs view for the container list; the loop cancels the stream.
pub fn leave_logs(app: &mut AppState)
    requires
        old(app).wf(),
    ensures
        final(app).wf(),
        *final(app) == with_status(
            AppState { logs_running: false, tab: Tab::Containers, ..*old(app) },
            final(app).status,
        ),
        final(app).status@ == "Back to containers"@,
{
    app.logs_running = false;
    app.tab = Tab::Containers;
    app.status = owned("Back to containers");
}

} // verus!

verus! {

/// The title of the shell pane for a container.
pub open spec fn shell_title_text(row: ContainerRow) -> Seq<char> {
    "Shell: "@ + row.name@ + " ("@ + short_id(row.id@) + ")"@
}

/// Opens the shell pane on the selected container. Returns the container,
/// into which the loop then starts `docker exec`; `None` where there is no
/// selected container on the containers tab.
pub fn begin_shell(app: &mut AppState) -> (r: Option<ContainerRow>)
    requires
        old(app).wf(),
    ensures
        final(app).wf(),
        old(app).tab != Tab::Containers || old(app).containers@.len() == 0 ==> {
            &&& *final(app) == *old(app)
            &&& r is None
        },
        old(app).tab == Tab::Containers && old(app).containers@.len() > 0 ==> {
            let row = old(app).containers@[old(app).selected_container as int];
            &&& *final(app) == (AppState {
                shell_active: true,
                shell_title: final(app).shell_title,
                shell_lines: final(app).shell_lines,
                shell_current: final(app).shell_current,
                status: final(app).status,
                ..*old(app)
            })
            &&& final(app).shell_title@ == shell_title_text(row)
            &&& final(app).status@ == "Shell into "@ + row.name@ + "... (type exit to return)"@
            &&& final(app).shell_lines@.len() == 0
            &&& final(app).shell_current@.len() == 0
            &&& r == Some(row)
        },
{
    if app.tab != Tab::Containers || app.containers.len() == 0 {
        return None;
    }
    let row = app.containers[app.selected_container].duplicate();
    let short = take_bytes(row.id.as_str(), 12);
    app.shell_active = true;
    let head = concat3("Shell: ", row.name.as_str(), " (");
    app.shell_title = concat3(head.as_str(), short.as_str(), ")");
    app.status = concat3("Shell into ", row.name.as_str(), "... (type exit to return)");
    app.shell_lines = Vec::new();
    app.shell_current = String::new();
    Some(row)
}

/// Feeds output of the shell into the shell pane.
pub fn push_shell_output(app: &mut AppState, text: &str)
    requires
        old(app).wf(),
    ensures
        final(app).wf(),
        *final(app) == (AppState {
            shell_lines: final(app).shell_lines,
            shell_current: final(app).shell_current,
            ..*old(app)
        }),
        ({
            let s = shell_feed(
                fresh_screen(lines_view(old(app).shell_lines@), old(app).shell_current@),
                text@,
            );
            &&& lines_view(final(app).shell_lines@) == keep_last(s.lines, MAX_SHELL_LINES as nat)
            &&& final(app).shell_current@ == s.current
        }),
{
    feed_shell_output(&mut app.shell_lines, &mut app.shell_current, text);
    assert(lines_view(app.shell_lines@).len() == app.shell_lines@.len());
}

/// Closes the shell pane and goes back to the container list. Returns whether
/// a shell was open; the loop then refreshes the list and calls `shell_closed`.
pub fn end_shell(app: &mut AppState) -> (r: bool)
    requires
        old(app).wf(),
    ensures
        final(app).wf(),
        r == old(app).shell_active,
        !r ==> *final(app) == *old(app),
        r ==> *final(app) == (AppState {
            shell_active: false,
            shell_title: final(app).shell_title,
            tab: Tab::Containers,
            ..*old(app)
        }),
        r ==> final(app).shell_title@.len() == 0,
{
    if !app.shell_active {
        return false;
    }
    app.shell_active = false;
    app.shell_title = String::new();
    app.tab = Tab::Containers;
    true
}

/// The status line once back from the shell.
pub fn shell_closed(app: &mut AppState)
    requires
        old(app).wf(),
    ensures
        final(app).wf(),
        *final(app) == with_status(*old(app), final(app).status),
        final(app).status@ == "Returned from shell"@,
{
    app.status = owned("Returned from shell");
}

/// An operation on one container.
#[derive(Debug, Clone, Copy, PartialEq, Eq, Structural)]
pub enum ContainerOp {
    Start,
    Stop,
    Restart,
}

/// The status line while an operation runs on container `id`.
pub open spec fn op_progress_text(op: ContainerOp, id: Seq<char>) -> Seq<char> {
    match op {
        ContainerOp::Start => "Starting "@ + id + "..."@,
        ContainerOp::Stop => "Stopping "@ + id + "..."@,
        ContainerOp::Restart => "Restarting "@ + id + "..."@,
    }
}

/// Starts an operation on the selected container. Returns its id, which the
/// loop marks busy and acts on; `None` where there is no selected container on
/// the containers tab.
pub fn begin_container_op(app: &mut AppState, op: ContainerOp) -> (r: Option<String>)
    requires
        old(app).wf(),
    ensures
        final(app).wf(),
        old(app).tab != Tab::Containers || old(app).containers@.len() == 0 ==> {
            &&& *final(app) == *old(app)
            &&& r is None
        },
        old(app).tab == Tab::Containers && old(app).containers@.len() > 0 ==> {
            let id = old(app).containers@[old(app).selected_container as int].id;
            &&& *final(app) == with_status(*old(app), final(app).status)
            &&& final(app).status@ == op_progress_text(op, id@)
            &&& r == Some(id)
        },
{
    if app.tab != Tab::Containers || app.containers.len() == 0 {
        return None;
    }
    let id = app.containers[app.selected_container].id.clone();
    app.status = match op {
        ContainerOp::Start => concat3("Starting ", id.as_str(), "..."),
        ContainerOp::Stop => concat3("Stopping ", id.as_str(), "..."),
        ContainerOp::Restart => concat3("Restarting ", id.as_str(), "..."),
    };
    Some(id)
}

/// The message that ends an operation on one container.
pub open spec fn op_outcome_text(op: ContainerOp, result: Result<(), CallError>) -> Seq<char> {
    match result {
        Ok(_) => match op {
            ContainerOp::Start => "Started container"@,
            ContainerOp::Stop => "Stopped container"@,
            ContainerOp::Restart => "Restarted container"@,
        },
        Err(e) => call_error_text(e),
    }
}

pub fn op_outcome_message(op: ContainerOp, result: &Result<(), CallError>) -> (r: String)
    ensures
        r@ == op_outcome_text(op, *result),
{
    match result {
        Ok(_) => match op {
            ContainerOp::Start => owned("Started container"),
            ContainerOp::Stop => owned("Stopped container"),
            ContainerOp::Restart => owned("Restarted container"),
        },
        Err(e) => call_error_message(e),
    }
}

/// The status line when the list could not be fetched again after an operation.
pub fn refresh_failure_message(e: &CallError) -> (r: String)
    ensures
        r@ == crate::engine::prefixed_error_text(*e, "Refresh failed: "@, "Refresh task error: "@),
{
    crate::engine::prefixed_error(e, "Refresh failed: ", "Refresh task error: ")
}

} // verus!

verus! {

/// An operation on every container that needs it.
#[derive(Debug, Clone, Copy, PartialEq, Eq, Structural)]
pub enum BulkOp {
    /// Start every container that is not running.
    StartAll,
    /// Stop every running container.
    StopAll,
}

/// Whether a bulk operation acts on a container in state `state`.
pub open spec fn bulk_applies(op: BulkOp, state: Seq<char>) -> bool {
    match op {
        BulkOp::StartAll => state != "running"@,
        BulkOp::StopAll => state == "running"@,
    }
}

/// The ids that a bulk operation acts on, in list order.
pub open spec fn bulk_target_ids(rows: Seq<ContainerRow>, op: BulkOp) -> Seq<Seq<char>>
    decreases rows.len(),
{
    if rows.len() == 0 {
        Seq::empty()
    } else {
        let prev = bulk_target_ids(rows.drop_last(), op);
        if bulk_applies(op, rows.last().state@) {
            prev.push(rows.last().id@)
        } else {
            prev
        }
    }
}

/// The ids of the containers that a bulk operation acts on.
pub fn bulk_targets(list: &Vec<ContainerRow>, op: BulkOp) -> (r: Vec<String>)
    ensures
        strings_view(r@) == bulk_target_ids(list@, op),
{
    let mut r: Vec<String> = Vec::new();
    let mut i: usize = 0;
    while i < list.len()
        invariant
            i <= list.len(),
            strings_view(r@) == bulk_target_ids(list@.take(i as int), op),
        decreases list.len() - i,
    {
        let running = eq_str(list[i].state.as_str(), "running");
        let applies = match op {
            BulkOp::StartAll => !running,
            BulkOp::StopAll => running,
        };
        proof {
            let t = list@.take(i + 1);
            assert(t.drop_last() =~= list@.take(i as int));
            assert(t.last() == list@[i as int]);
        }
        if applies {
            r.push(list[i].id.clone());
            assert(strings_view(r@) =~= bulk_target_ids(list@.take(i as int), op).push(
                list@[i as int].id@,
            ));
        }
        i = i + 1;
    }
    assert(list@.take(i as int) =~= list@);
    r
}

/// Starts a bulk operation from the containers tab; returns whether it starts.
pub fn begin_bulk(app: &mut AppState, op: BulkOp) -> (r: bool)
    requires
        old(app).wf(),
    ensures
        final(app).wf(),
        r == (old(app).tab == Tab::Containers),
        !r ==> *final(app) == *old(app),
        r ==> *final(app) == with_status(*old(app), final(app).status),
        r ==> final(app).status@ == (match op {
            BulkOp::StartAll => "Starting all containers..."@,
            BulkOp::StopAll => "Stopping all containers..."@,
        }),
{
    if app.tab != Tab::Containers {
        return false;
    }
    app.status = match op {
        BulkOp::StartAll => owned("Starting all containers..."),
        BulkOp::StopAll => owned("Stopping all containers..."),
    };
    true
}

/// The message for one container of a bulk operation that failed.
pub open spec fn bulk_item_error_text(op: BulkOp, e: CallError) -> Seq<char> {
    match op {
        BulkOp::StartAll => crate::engine::prefixed_error_text(
            e,
            "Error starting container: "@,
            "Start container task error: "@,
        ),
        BulkOp::StopAll => crate::engine::prefixed_error_text(
            e,
            "Error stopping container: "@,
            "Stop container task error: "@,
        ),
    }
}

pub fn bulk_item_error(op: BulkOp, e: &CallError) -> (r: String)
    ensures
        r@ == bulk_item_error_text(op, *e),
{
    match op {
        BulkOp::StartAll => crate::engine::prefixed_error(
            e,
            "Error starting container: ",
            "Start container task error: ",
        ),
        BulkOp::StopAll => crate::engine::prefixed_error(
            e,
            "Error stopping container: ",
            "Stop container task error: ",
        ),
    }
}

/// The message that ends a bulk operation: how many of how many succeeded.
pub open spec fn bulk_summary_text(op: BulkOp, done: nat, total: nat) -> Seq<char> {
    let verb = match op {
        BulkOp::StartAll => "Started "@,
        BulkOp::StopAll => "Stopped "@,
    };
    verb + decimal(done) + "/"@ + decimal(total) + " containers"@
}

pub fn bulk_summary(op: BulkOp, done: usize, total: usize) -> (r: String)
    ensures
        r@ == bulk_summary_text(op, done as nat, total as nat),
{
    let d = u64_to_string(done as u64);
    let t = u64_to_string(total as u64);
    let verb = match op {
        BulkOp::StartAll => "Started ",
        BulkOp::StopAll => "Stopped ",
    };
    let head = concat3(verb, d.as_str(), "/");
    concat3(head.as_str(), t.as_str(), " containers")
}

/// What a removal acts on, and whether the engine is to remove it by force.
#[derive(Debug, Clone)]
pub enum RemoveTarget {
    Image { id: String, force: bool },
    Volume { name: String, force: bool },
}

/// Starts removing the selected image or volume. Returns what to remove, always
/// by force; `None` outside those tabs or on an empty list.
pub fn begin_remove(app: &mut AppState) -> (r: Option<RemoveTarget>)
    requires
        old(app).wf(),
    ensures
        final(app).wf(),
        *final(app) == with_status(*old(app), final(app).status),
        match old(app).tab {
            Tab::Images => if old(app).images@.len() > 0 {
                let id = old(app).images@[old(app).selected_image as int].id;
                &&& r == Some(RemoveTarget::Image { id: id, force: true })
                &&& final(app).status@ == "Removing image "@ + id@ + "..."@
            } else {
                r is None && final(app).status == old(app).status
            },
            Tab::Volumes => if old(app).volumes@.len() > 0 {
                let name = old(app).volumes@[old(app).selected_volume as int].name;
                &&& r == Some(RemoveTarget::Volume { name: name, force: true })
                &&& final(app).status@ == "Removing volume "@ + name@ + "..."@
            } else {
                r is None && final(app).status == old(app).status
            },
            _ => r is None && final(app).status == old(app).status,
        },
{
    match app.tab {
        Tab::Images => {
            if app.images.len() == 0 {
                return None;
            }
            let id = app.images[app.selected_image].id.clone();
            app.status = concat3("Removing image ", id.as_str(), "...");
            Some(RemoveTarget::Image { id, force: true })
        },
        Tab::Volumes => {
            if app.volumes.len() == 0 {
                return None;
            }
            let name = app.volumes[app.selected_volume].name.clone();
            app.status = concat3("Removing volume ", name.as_str(), "...");
            Some(RemoveTarget::Volume { name, force: true })
        },
        _ => None,
    }
}

/// Shows how a removal went. Returns whether it succeeded, in which case the
/// loop refreshes the tab.
pub fn finish_remove(app: &mut AppState, target: &RemoveTarget, result: &Result<(), CallError>) -> (r: bool)
    requires
        old(app).wf(),
    ensures
        final(app).wf(),
        *final(app) == with_status(*old(app), final(app).status),
        r == (result is Ok),
        final(app).status@ == (match result {
            Ok(_) => match target {
                RemoveTarget::Image { .. } => "Image removed"@,
                RemoveTarget::Volume { .. } => "Volume removed"@,
            },
            Err(e) => call_error_text(*e),
        }),
{
    match result {
        Ok(_) => {
            app.status = match target {
                RemoveTarget::Image { .. } => owned("Image removed"),
                RemoveTarget::Volume { .. } => owned("Volume removed"),
            };
            true
        },
        Err(e) => {
            app.status = call_error_message(e);
            false
        },
    }
}

} // verus!

verus! {

/// What the event loop must do after a command changed the state.
#[derive(Debug, Clone)]
pub enum Command {
    /// Nothing more.
    Nothing,
    /// Leave the application.
    Exit,
    /// Cancel the running log stream.
    StopLogs,
    /// Cancel any running log stream and stream the log of this container.
    OpenLogs(String),
    /// Refresh the current tab, then ask for the selected container's stats.
    Refresh,
    /// Ask for the selected container's stats.
    RequestStats,
    /// Mark this container busy and run the operation on it, then refresh.
    ContainerOp(ContainerOp, String),
    /// Run the bulk operation, then refresh.
    Bulk(BulkOp),
    /// Start an interactive shell in this container.
    OpenShell(ContainerRow),
    /// Remove this image or volume by force, then report with `finish_remove`.
    Remove(RemoveTarget),
    /// Start the engine.
    StartEngine,
    /// Stop every running container, then the engine.
    StopEngine,
    /// Restart the engine.
    RestartEngine,
}

/// Whether `b` and `c` are what opening the logs view from `a` gives.
pub open spec fn logs_open_post(a: AppState, b: AppState, id: String) -> bool {
    let row = a.containers@[a.selected_container as int];
    &&& b == (AppState {
        logs_title: b.logs_title,
        logs_lines: b.logs_lines,
        status: b.status,
        ..logs_opened(a)
    })
    &&& b.logs_title@ == logs_title_text(row)
    &&& b.logs_lines@.len() == 0
    &&& b.status@ == "Tailing logs... (press q to exit logs)"@
    &&& id == row.id
}

/// Whether `b` is what opening the shell pane from `a` gives, on container `row`.
pub open spec fn shell_open_post(a: AppState, b: AppState, row: ContainerRow) -> bool {
    &&& row == a.containers@[a.selected_container as int]
    &&& b == (AppState {
        shell_active: true,
        shell_title: b.shell_title,
        shell_lines: b.shell_lines,
        shell_current: b.shell_current,
        status: b.status,
        ..a
    })
    &&& b.shell_title@ == shell_title_text(row)
    &&& b.status@ == "Shell into "@ + row.name@ + "... (type exit to return)"@
    &&& b.shell_lines@.len() == 0
    &&& b.shell_current@.len() == 0
}

/// Whether `b` only differs from `a` by its status line, which reads `s`.
pub open spec fn status_only(a: AppState, b: AppState, s: Seq<char>) -> bool {
    b == with_status(a, b.status) && b.status@ == s
}

/// The operation on one container that an action asks for.
pub open spec fn action_op(action: Action) -> Option<ContainerOp> {
    match action {
        Action::Start => Some(ContainerOp::Start),
        Action::Stop => Some(ContainerOp::Stop),
        Action::Restart => Some(ContainerOp::Restart),
        _ => None,
    }
}

/// Whether the selected row of the current tab exists (there is a row to act on).
pub open spec fn has_container_row(a: AppState) -> bool {
    a.tab == Tab::Containers && a.containers@.len() > 0
}

/// Carries out a command on the state and tells the event loop what to do next.
/// On the logs tab, quitting leaves the logs instead of the application; logs
/// and shell need a running selected container.
pub fn on_action(app: &mut AppState, action: Action) -> (cmd: Command)
    requires
        old(app).wf(),
    ensures
        final(app).wf(),
        ({
            let a = *old(app);
            let b = *final(app);
            if a.tab == Tab::Logs && action == Action::Quit {
                &&& b == with_status(AppState { logs_running: false, tab: Tab::Containers, ..a }, b.status)
                &&& b.status@ == "Back to containers"@
                &&& cmd is StopLogs
            } else {
                match action {
                    Action::Quit => b == a && cmd is Exit,
                    Action::Logs => if selected_running(a) {
                        cmd matches Command::OpenLogs(id) && logs_open_post(a, b, id)
                    } else {
                        status_only(a, b, "Logs unavailable: container is not running"@) && cmd is Nothing
                    },
                    Action::Shell => if selected_running(a) {
                        cmd matches Command::OpenShell(row) && shell_open_post(a, b, row)
                    } else {
                        status_only(a, b, "Shell unavailable: container is not running"@) && cmd is Nothing
                    },
                    Action::NextTab => b == (AppState { tab: a.tab.next_spec(), ..a }) && cmd is Refresh,
                    Action::PrevTab => b == (AppState { tab: a.tab.prev_spec(), ..a }) && cmd is Refresh,
                    Action::Refresh => b == a && cmd is Refresh,
                    Action::Down => {
                        &&& b == with_status(moved_down(a), b.status)
                        &&& moved_status(a, b.status@)
                        &&& cmd is RequestStats
                    },
                    Action::Up => {
                        &&& b == with_status(moved_up(a), b.status)
                        &&& moved_status(a, b.status@)
                        &&& cmd is RequestStats
                    },
                    Action::Start | Action::Stop | Action::Restart => if has_container_row(a) {
                        let id = a.containers@[a.selected_container as int].id;
                        &&& status_only(a, b, op_progress_text(action_op(action).unwrap(), id@))
                        &&& cmd matches Command::ContainerOp(op, x) && op == action_op(action).unwrap()
                            && x == id
                    } else {
                        b == a && cmd is Nothing
                    },
                    Action::StartAll => if a.tab == Tab::Containers {
                        status_only(a, b, "Starting all containers..."@) && cmd matches Command::Bulk(
                            BulkOp::StartAll,
                        )
                    } else {
                        b == a && cmd is Nothing
                    },
                    Action::StopAll => if a.tab == Tab::Containers {
                        status_only(a, b, "Stopping all containers..."@) && cmd matches Command::Bulk(
                            BulkOp::StopAll,
                        )
                    } else {
                        b == a && cmd is Nothing
                    },
                    Action::Remove => {
                        &&& b == with_status(a, b.status)
                        &&& match a.tab {
                            Tab::Images => if a.images@.len() > 0 {
                                let id = a.images@[a.selected_image as int].id;
                                &&& cmd == Command::Remove(RemoveTarget::Image { id: id, force: true })
                                &&& b.status@ == "Removing image "@ + id@ + "..."@
                            } else {
                                cmd is Nothing && b.status == a.status
                            },
                            Tab::Volumes => if a.volumes@.len() > 0 {
                                let name = a.volumes@[a.selected_volume as int].name;
                                &&& cmd == Command::Remove(RemoveTarget::Volume { name: name, force: true })
                                &&& b.status@ == "Removing volume "@ + name@ + "..."@
                            } else {
                                cmd is Nothing && b.status == a.status
                            },
                            _ => cmd is Nothing && b.status == a.status,
                        }
                    },
                    Action::ToggleFollow => {
                        &&& b == with_status(follow_toggled(a), b.status)
                        &&& b.status@ == (if a.logs_follow {
                            "Logs follow: false"@
                        } else {
                            "Logs follow: true"@
                        })
                        &&& cmd is Nothing
                    },
                    Action::ToggleResourceTab => {
                        &&& cmd is Nothing
                        &&& a.tab != Tab::Containers ==> b == a
                        &&& a.tab == Tab::Containers ==> b == with_status(
                            AppState { resource_tab: other_resource_tab(a.resource_tab), ..a },
                            b.status,
                        )
                        &&& a.tab == Tab::Containers ==> b.status@ == resource_tab_status(
                            other_resource_tab(a.resource_tab),
                        )
                    },
                    Action::StartEngine => status_only(a, b, "Starting Docker Engine..."@)
                        && cmd is StartEngine,
                    Action::StopEngine => {
                        &&& b == with_status(
                            AppState { engine_daemon_state: DaemonState::Stopping, ..a },
                            b.status,
                        )
                        &&& b.status@ == "Stopping engine (draining containers)..."@
                        &&& cmd is StopEngine
                    },
                    Action::RestartEngine => status_only(a, b, "Restarting Docker Engine..."@)
                        && cmd is RestartEngine,
                }
            }
        }),
{
    if app.tab == Tab::Logs && action == Action::Quit {
        leave_logs(app);
        return Command::StopLogs;
    }
    match action {
        Action::Quit => Command::Exit,
        Action::Logs => {
            if !selected_container_is_running(app) {
                app.status = owned("Logs unavailable: container is not running");
                Command::Nothing
            } else {
                match begin_open_logs(app) {
                    Some(id) => Command::OpenLogs(id),
                    None => Command::Nothing,
                }
            }
        },
        Action::Shell => {
            if !selected_container_is_running(app) {
                app.status = owned("Shell unavailable: container is not running");
                Command::Nothing
            } else {
                match begin_shell(app) {
                    Some(row) => Command::OpenShell(row),
                    None => Command::Nothing,
                }
            }
        },
        Action::NextTab => {
            app.tab = app.tab.next();
            Command::Refresh
        },
        Action::PrevTab => {
            app.tab = app.tab.prev();
            Command::Refresh
        },
        Action::Refresh => Command::Refresh,
        Action::Down => {
            move_down(app);
            Command::RequestStats
        },
        Action::Up => {
            move_up(app);
            Command::RequestStats
        },
        Action::Start | Action::Stop | Action::Restart => {
            let op = match action {
                Action::Start => ContainerOp::Start,
                Action::Stop => ContainerOp::Stop,
                _ => ContainerOp::Restart,
            };
            match begin_container_op(app, op) {
                Some(id) => Command::ContainerOp(op, id),
                None => Command::Nothing,
            }
        },
        Action::StartAll => {
            if begin_bulk(app, BulkOp::StartAll) {
                Command::Bulk(BulkOp::StartAll)
            } else {
                Command::Nothing
            }
        },
        Action::StopAll => {
            if begin_bulk(app, BulkOp::StopAll) {
                Command::Bulk(BulkOp::StopAll)
            } else {
                Command::Nothing
            }
        },
        Action::Remove => match begin_remove(app) {
            Some(t) => Command::Remove(t),
            None => Command::Nothing,
        },
        Action::ToggleFollow => {
            toggle_follow(app);
            Command::Nothing
        },
        Action::ToggleResourceTab => {
            toggle_resource_tab(app);
            Command::Nothing
        },
        Action::StartEngine => {
            app.status = owned("Starting Docker Engine...");
            Command::StartEngine
        },
        Action::StopEngine => {
            app.status = owned("Stopping engine (draining containers)...");
            app.engine_daemon_state = DaemonState::Stopping;
            Command::StopEngine
        },
        Action::RestartEngine => {
            app.status = owned("Restarting Docker Engine...");
            Command::RestartEngine
        },
    }
}

} // verus!

verus! {

/// The spinner frame of a container with an operation under way, if it has one.
pub fn busy_frame(app: &AppState, id: &str) -> (r: Option<usize>)
    ensures
        r == (match first_key(app.stopping_containers@, id@) {
            Some(i) => Some(app.stopping_containers@[i].1),
            None => None::<usize>,
        }),
{
    match find_key(&app.stopping_containers, id) {
        Some(i) => {
            proof {
                lemma_first_key_bounds(app.stopping_containers@, id@);
            }
            Some(app.stopping_containers[i].1)
        },
        None => None,
    }
}

/// The steps of stopping the engine whose failure the status line reports.
#[derive(Debug, Clone, Copy, PartialEq, Eq, Structural)]
pub enum EngineStopStage {
    /// Listing the containers to stop.
    List,
    /// Stopping one running container.
    StopContainer,
    /// Listing the containers again afterwards.
    Refresh,
}

/// The status line when a step of stopping the engine failed.
pub open spec fn engine_stop_error_text(stage: EngineStopStage, e: CallError) -> Seq<char> {
    match stage {
        EngineStopStage::List => crate::engine::prefixed_error_text(
            e,
            "Failed to list containers: "@,
            "List containers task error: "@,
        ),
        EngineStopStage::StopContainer => crate::engine::prefixed_error_text(
            e,
            "Error stopping container: "@,
            "Stop container task error: "@,
        ),
        EngineStopStage::Refresh => crate::engine::prefixed_error_text(
            e,
            "Refresh after stop failed: "@,
            "Refresh task error: "@,
        ),
    }
}

pub fn engine_stop_error(stage: EngineStopStage, e: &CallError) -> (r: String)
    ensures
        r@ == engine_stop_error_text(stage, *e),
{
    match stage {
        EngineStopStage::List => crate::engine::prefixed_error(
            e,
            "Failed to list containers: ",
            "List containers task error: ",
        ),
        EngineStopStage::StopContainer => crate::engine::prefixed_error(
            e,
            "Error stopping container: ",
            "Stop container task error: ",
        ),
        EngineStopStage::Refresh => crate::engine::prefixed_error(
            e,
            "Refresh after stop failed: ",
            "Refresh task error: ",
        ),
    }
}

/// The status line when the engine itself could not be stopped.
pub fn engine_stop_failed(message: &str) -> (r: String)
    ensures
        r@ == "Failed to stop engine: "@ + message@,
{
    concat2("Failed to stop engine: ", message)
}

/// Where the shell pane puts the cursor: after the last shown line's text,
/// if that cell is inside the pane.
pub open spec fn shell_cursor_at(x: u16, y: u16, width: u16, height: u16, shown: nat, current: nat) -> Option<(u16, u16)> {
    let cy: int = y + 1 + (shown % 65536);
    let cx: int = x + 1 + (current % 65536);
    let cy = if cy > u16::MAX { u16::MAX as int } else { cy };
    let cx = if cx > u16::MAX { u16::MAX as int } else { cx };
    if cy < y + height && cx < x + width {
        Some((cx as u16, cy as u16))
    } else {
        None
    }
}

pub fn shell_cursor(x: u16, y: u16, width: u16, height: u16, shown: usize, current: usize) -> (r: Option<(u16, u16)>)
    ensures
        r == shell_cursor_at(x, y, width, height, shown as nat, current as nat),
{
    let cy: u64 = y as u64 + 1 + (shown % 65536) as u64;
    let cx: u64 = x as u64 + 1 + (current % 65536) as u64;
    let cy = if cy > 65535 { 65535 } else { cy };
    let cx = if cx > 65535 { 65535 } else { cx };
    if cy < y as u64 + height as u64 && cx < x as u64 + width as u64 {
        Some((cx as u16, cy as u16))
    } else {
        None
    }
}

} // verus!

verus! {

/// Stats are fetched only for a selected container that is running, on the
/// containers tab, while the engine runs, and the fetch is for that container.
pub proof fn law_fetch_only_running(a: AppState, now: u64)
    requires
        a.wf(),
        stats_request(a, now).2 is Some,
    ensures
        selected_running(a),
        a.engine_daemon_state == DaemonState::Running,
        stats_request(a, now).2 == Some(a.containers@[a.selected_container as int].id@),
{
}

/// Asking again for the same container's stats less than the refresh window
/// after a fetch started does not start another fetch.
pub proof fn law_no_refetch_within_window(a: AppState, now: u64, later: u64)
    requires
        a.wf(),
        stats_request(a, now).2 is Some,
        now <= later,
        later - now < STATS_REFRESH_WINDOW_MS,
    ensures
        ({
            let (b, err, _) = stats_request(a, now);
            let b2 = AppState { container_stats_error: None, ..b };
            stats_request(b2, later).2 is None
        }),
{
}

/// The ids that starting all and stopping all act on are, between them, every
/// container exactly once: one list holds the running ones, the other the rest.
pub proof fn law_bulk_targets_partition(rows: Seq<ContainerRow>)
    ensures
        bulk_target_ids(rows, BulkOp::StartAll).len() + bulk_target_ids(rows, BulkOp::StopAll).len()
            == rows.len(),
    decreases rows.len(),
{
    if rows.len() > 0 {
        law_bulk_targets_partition(rows.drop_last());
    }
}

/// Switching following twice restores the following setting and,
/// when following was on, leaves the view at the bottom.
pub proof fn law_follow_toggle_twice(a: AppState)
    ensures
        follow_toggled(follow_toggled(a)).logs_follow == a.logs_follow,
        a.logs_follow ==> follow_toggled(follow_toggled(a)).logs_scroll == logs_scroll_limit(
            a.logs_lines@.len(),
            a.logs_viewport_height,
        ) as usize,
{
}

/// The newest log line is always shown last, sanitized, and the view never
/// holds more than `MAX_LOG_LINES` lines.
pub proof fn law_log_line_kept(a: AppState, line: Seq<char>)
    ensures
        log_line_added(a, line).0.len() <= MAX_LOG_LINES,
        log_line_added(a, line).0.len() > 0,
        log_line_added(a, line).0.last() == sanitized(line),
{
    let all = lines_view(a.logs_lines@).push(sanitized(line));
    assert(all.last() == sanitized(line));
}

/// A new sample is always kept, as the newest of at most `MAX_STATS_HISTORY` samples.
pub proof fn law_history_keeps_newest(h: Seq<StatsPoint>, p: StatsPoint, now: u64)
    requires
        p.at == now,
    ensures
        history_after(h, p, now).len() <= MAX_STATS_HISTORY,
        history_after(h, p, now).len() > 0,
        history_after(h, p, now).last() == p,
{
    lemma_drop_stale_suffix(h.push(p), now);
}

proof fn lemma_drop_stale_suffix(h: Seq<StatsPoint>, now: u64)
    requires
        h.len() > 0,
        !is_stale(h.last().at, now),
    ensures
        drop_stale(h, now).len() > 0,
        drop_stale(h, now).last() == h.last(),
        !is_stale(drop_stale(h, now)[0].at, now),
    decreases h.len(),
{
    if is_stale(h[0].at, now) {
        assert(h.len() > 1);
        assert(h.drop_first().last() == h.last());
        lemma_drop_stale_suffix(h.drop_first(), now);
    }
}

} // verus!

verus! {

/// The id as lists and titles show it: its first 12 bytes.
pub fn short_id_text(id: &str) -> (r: String)
    ensures
        r@ == short_id(id@),
{
    take_bytes(id, 12)
}

} // verus!

verus! {

/// How often, in milliseconds, the engine state is polled.
pub const DAEMON_POLL_MS: u64 = 500;

/// How often, in milliseconds, the container list refreshes by itself.
pub const AUTO_REFRESH_MS: u64 = 1000;

/// Whether the container list is due to refresh by itself: only on the
/// containers tab, while the engine runs, and more than a second after the last time.
pub fn auto_refresh_due(app: &AppState, since_last_ms: u64) -> (r: bool)
    ensures
        r == (app.tab == Tab::Containers && app.engine_daemon_state == DaemonState::Running
            && since_last_ms > AUTO_REFRESH_MS),
{
    app.tab == Tab::Containers && app.engine_daemon_state == DaemonState::Running
        && since_last_ms > AUTO_REFRESH_MS
}

} // verus!

verus! {

/// How many of the outcomes are successes.
pub open spec fn successes(outcomes: Seq<bool>) -> nat
    decreases outcomes.len(),
{
    if outcomes.len() == 0 {
        0
    } else {
        successes(outcomes.drop_last()) + (if outcomes.last() { 1nat } else { 0nat })
    }
}

/// A bulk operation in progress: the containers it acts on, in order, and
/// whether each one done so far succeeded.
pub struct BulkRun {
    op: BulkOp,
    targets: Vec<String>,
    index: usize,
    done: usize,
    outcomes: Ghost<Seq<bool>>,
}

/// A bulk operation as a value.
pub struct BulkRunView {
    pub op: BulkOp,
    pub targets: Seq<Seq<char>>,
    pub outcomes: Seq<bool>,
}

impl BulkRun {
    pub closed spec fn view(&self) -> BulkRunView {
        BulkRunView { op: self.op, targets: strings_view(self.targets@), outcomes: self.outcomes@ }
    }

    /// The position and the count of successes agree with the outcomes.
    pub closed spec fn wf(&self) -> bool {
        &&& self.index == self.outcomes@.len()
        &&& self.index <= self.targets.len()
        &&& self.done == successes(self.outcomes@)
        &&& self.done <= self.index
    }

    /// A bulk operation on the containers of `list` that it applies to.
    pub fn new(op: BulkOp, list: &Vec<ContainerRow>) -> (r: BulkRun)
        ensures
            r.wf(),
            r.view() == (BulkRunView { op, targets: bulk_target_ids(list@, op), outcomes: Seq::empty() }),
    {
        let targets = bulk_targets(list, op);
        BulkRun { op, targets, index: 0, done: 0, outcomes: Ghost(Seq::empty()) }
    }

    /// The ids of the containers it acts on.
    pub fn targets(&self) -> (r: Vec<String>)
        ensures
            strings_view(r@) == self.view().targets,
    {
        let mut r: Vec<String> = Vec::new();
        let mut i: usize = 0;
        while i < self.targets.len()
            invariant
                i <= self.targets.len(),
                strings_view(r@) == strings_view(self.targets@).take(i as int),
            decreases self.targets.len() - i,
        {
            let ghost before = strings_view(r@);
            r.push(self.targets[i].clone());
            assert(strings_view(r@) =~= before.push(self.targets@[i as int]@));
            i = i + 1;
            assert(strings_view(self.targets@).take(i as int) =~= before.push(self.targets@[i - 1]@));
        }
        assert(strings_view(self.targets@).take(i as int) =~= strings_view(self.targets@));
        r
    }

    /// The container to act on next, if any is left.
    pub fn next_target(&self) -> (r: Option<String>)
        requires
            self.wf(),
        ensures
            self.view().outcomes.len() < self.view().targets.len() ==> (r matches Some(id) && id@
                == self.view().targets[self.view().outcomes.len() as int]),
            self.view().outcomes.len() >= self.view().targets.len() ==> r is None,
    {
        if self.index < self.targets.len() {
            Some(self.targets[self.index].clone())
        } else {
            None
        }
    }

    /// Records how the operation on the next container went; returns the
    /// message to show when it failed.
    pub fn record(&mut self, result: &Result<(), CallError>) -> (r: Option<String>)
        requires
            old(self).wf(),
            old(self).view().outcomes.len() < old(self).view().targets.len(),
        ensures
            final(self).wf(),
            final(self).view() == (BulkRunView {
                outcomes: old(self).view().outcomes.push(result is Ok),
                ..old(self).view()
            }),
            match result {
                Ok(_) => r is None,
                Err(e) => r matches Some(m) && m@ == bulk_item_error_text(old(self).view().op, *e),
            },
    {
        let ghost before = self.outcomes@;
        let ok = match result {
            Ok(_) => true,
            Err(_) => false,
        };
        proof {
            assert(before.push(ok).drop_last() =~= before);
        }
        self.outcomes = Ghost(before.push(ok));
        self.index = self.index + 1;
        match result {
            Ok(_) => {
                self.done = self.done + 1;
                None
            },
            Err(e) => Some(bulk_item_error(self.op, e)),
        }
    }

    /// The message that ends the operation: how many of the containers it
    /// acted on succeeded, of how many.
    pub fn summary(&self) -> (r: String)
        requires
            self.wf(),
        ensures
            r@ == bulk_summary_text(self.view().op, successes(self.view().outcomes), self.view().targets.len()),
    {
        bulk_summary(self.op, self.done, self.targets.len())
    }
}

} // verus!
