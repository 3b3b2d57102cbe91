//! What the screen shows, decided apart from drawing it: tabs, row markers,
//! labels, scroll positions.

use vstd::prelude::*;

verus! {

/// The four views of the main area.
#[derive(Debug, Clone, Copy, PartialEq, Eq, Structural)]
pub enum Tab {
    Containers,
    Images,
    Volumes,
    Logs,
}

/// The two views of the resource pane beside the container list.
#[derive(Debug, Clone, Copy, PartialEq, Eq, Structural)]
pub enum ResourceTab {
    Stats,
    Graphs,
}

/// The position of a tab in the tab bar.
pub open spec fn tab_position(t: Tab) -> int {
    match t {
        Tab::Containers => 0,
        Tab::Images => 1,
        Tab::Volumes => 2,
        Tab::Logs => 3,
    }
}

/// The tab at a position of the tab bar, counted modulo four.
pub open spec fn tab_at(i: int) -> Tab {
    let k = i % 4;
    if k == 0 {
        Tab::Containers
    } else if k == 1 {
        Tab::Images
    } else if k == 2 {
        Tab::Volumes
    } else {
        Tab::Logs
    }
}

impl Tab {
    pub open spec fn next_spec(self) -> Tab {
        tab_at(tab_position(self) + 1)
    }

    pub open spec fn prev_spec(self) -> Tab {
        tab_at(tab_position(self) + 3)
    }

    /// The tab to the right, wrapping from the last to the first.
    pub fn next(self) -> (r: Tab)
        ensures
            r == tab_at(tab_position(self) + 1),
    {
        match self {
            Tab::Containers => Tab::Images,
            Tab::Images => Tab::Volumes,
            Tab::Volumes => Tab::Logs,
            Tab::Logs => Tab::Containers,
        }
    }

    /// The tab to the left, wrapping from the first to the last.
    pub fn prev(self) -> (r: Tab)
        ensures
            r == tab_at(tab_position(self) + 3),
    {
        match self {
            Tab::Containers => Tab::Logs,
            Tab::Images => Tab::Containers,
            Tab::Volumes => Tab::Images,
            Tab::Logs => Tab::Volumes,
        }
    }

    /// The index of the tab in the tab bar, which the bar highlights.
    pub fn index(self) -> (r: usize)
        ensures
            r == tab_position(self),
    {
        match self {
            Tab::Containers => 0,
            Tab::Images => 1,
            Tab::Volumes => 2,
            Tab::Logs => 3,
        }
    }
}

/// Going to the next tab and back to the previous one, or the other way round,
/// returns to the tab one started from; four steps in one direction go round the bar.
pub proof fn law_tab_cycle(t: Tab)
    ensures
        tab_at(tab_position(tab_at(tab_position(t) + 1)) + 3) == t,
        tab_at(tab_position(tab_at(tab_position(t) + 3)) + 1) == t,
        tab_at(tab_position(t) + 4) == t,
        tab_at(tab_position(t)) == t,
{
}

} // verus!

verus! {

/// The colors that markers and labels use.
#[derive(Debug, Clone, Copy, PartialEq, Eq, Structural)]
pub enum Shade {
    Green,
    Cyan,
    Yellow,
    Red,
    Gray,
}

/// The spinner frames of a busy container, in order.
pub open spec fn spinner_frames() -> Seq<Seq<char>> {
    seq![
        "⠋"@, "⠙"@, "⠹"@, "⠸"@, "⠼"@, "⠴"@, "⠦"@, "⠧"@, "⠇"@, "⠏"@,
    ]
}

/// The icon and color of a container in state `state`.
pub open spec fn state_marker(state: Seq<char>) -> (Seq<char>, Shade) {
    if state == "running"@ {
        ("●"@, Shade::Green)
    } else if state == "paused"@ {
        ("⏸"@, Shade::Cyan)
    } else if state == "created"@ {
        ("●"@, Shade::Yellow)
    } else if state == "exited"@ || state == "dead"@ {
        ("●"@, Shade::Red)
    } else {
        ("●"@, Shade::Gray)
    }
}

/// How the first column of a container row looks.
pub struct RowMarker {
    /// The spinner frame (or a blank) followed by the state icon.
    pub text: String,
    pub shade: Shade,
    /// Rows of containers that are not running are dimmed.
    pub dimmed: bool,
}

/// The marker of a container row: a busy container (with spinner frame
/// `busy`) shows a spinner and a yellow dot, others a blank and their state's icon.
pub open spec fn row_marker(state: Seq<char>, busy: Option<usize>) -> (Seq<char>, Shade, bool) {
    let dimmed = state != "running"@;
    match busy {
        Some(f) => (spinner_frames()[(f % 10) as int] + "●"@, Shade::Yellow, dimmed),
        None => (" "@ + state_marker(state).0, state_marker(state).1, dimmed),
    }
}

fn spinner_frame(f: usize) -> (r: &'static str)
    ensures
        r@ == spinner_frames()[(f % 10) as int],
{
    let k = f % 10;
    if k == 0 { "⠋" }
    else if k == 1 { "⠙" }
    else if k == 2 { "⠹" }
    else if k == 3 { "⠸" }
    else if k == 4 { "⠼" }
    else if k == 5 { "⠴" }
    else if k == 6 { "⠦" }
    else if k == 7 { "⠧" }
    else if k == 8 { "⠇" }
    else { "⠏" }
}

pub fn container_marker(state: &str, busy: Option<usize>) -> (r: RowMarker)
    ensures
        (r.text@, r.shade, r.dimmed) == row_marker(state@, busy),
{
    let dimmed = !crate::text::eq_str(state, "running");
    match busy {
        Some(f) => RowMarker {
            text: crate::text::concat2(spinner_frame(f), "●"),
            shade: Shade::Yellow,
            dimmed,
        },
        None => {
            let (icon, shade) = if crate::text::eq_str(state, "running") {
                ("●", Shade::Green)
            } else if crate::text::eq_str(state, "paused") {
                ("⏸", Shade::Cyan)
            } else if crate::text::eq_str(state, "created") {
                ("●", Shade::Yellow)
            } else if crate::text::eq_str(state, "exited") || crate::text::eq_str(state, "dead") {
                ("●", Shade::Red)
            } else {
                ("●", Shade::Gray)
            };
            RowMarker { text: crate::text::concat2(" ", icon), shade, dimmed }
        },
    }
}

/// The label and color of the engine state in the status line.
pub open spec fn engine_label_of(s: crate::daemon::DaemonState) -> (Seq<char>, Shade) {
    match s {
        crate::daemon::DaemonState::Running => ("Engine: Running"@, Shade::Green),
        crate::daemon::DaemonState::Starting => ("Engine: Starting"@, Shade::Yellow),
        crate::daemon::DaemonState::Stopping => ("Engine: Stopping"@, Shade::Yellow),
        crate::daemon::DaemonState::Stopped => ("Engine: Stopped"@, Shade::Red),
        crate::daemon::DaemonState::Unknown => ("Engine: Unknown"@, Shade::Gray),
    }
}

pub fn engine_label(s: crate::daemon::DaemonState) -> (r: (&'static str, Shade))
    ensures
        (r.0@, r.1) == engine_label_of(s),
{
    match s {
        crate::daemon::DaemonState::Running => ("Engine: Running", Shade::Green),
        crate::daemon::DaemonState::Starting => ("Engine: Starting", Shade::Yellow),
        crate::daemon::DaemonState::Stopping => ("Engine: Stopping", Shade::Yellow),
        crate::daemon::DaemonState::Stopped => ("Engine: Stopped", Shade::Red),
        crate::daemon::DaemonState::Unknown => ("Engine: Unknown", Shade::Gray),
    }
}

/// The first line the logs view shows: the bottom when following, else the
/// chosen line, never past the bottom, and at most `u16::MAX`.
pub open spec fn logs_first_line(lines: nat, height: u16, follow: bool, scroll: usize) -> u16 {
    let bottom: nat = if lines > height { (lines - height) as nat } else { 0 };
    let s: nat = if follow { bottom } else if scroll < bottom { scroll as nat } else { bottom };
    if s > u16::MAX { u16::MAX } else { s as u16 }
}

pub fn logs_render_scroll(lines: usize, height: u16, follow: bool, scroll: usize) -> (r: u16)
    ensures
        r == logs_first_line(lines as nat, height, follow, scroll),
{
    let bottom = lines.saturating_sub(height as usize);
    let s = if follow {
        bottom
    } else if scroll < bottom {
        scroll
    } else {
        bottom
    };
    if s > 65535 {
        65535
    } else {
        s as u16
    }
}

/// What the shell pane shows of its lines: the finished lines and the one
/// being written (when not empty), the last ones that fit in `rows`.
pub open spec fn shell_visible(lines: Seq<Seq<char>>, current: Seq<char>, rows: nat) -> Seq<Seq<char>> {
    let all = if current.len() > 0 { lines.push(current) } else { lines };
    crate::shell_output::keep_last(all, rows)
}

/// The lines the shell pane shows, given the rows inside its border.
pub fn shell_visible_lines(lines: &Vec<String>, current: &String, rows: u16) -> (r: Vec<String>)
    ensures
        crate::text::strings_view(r@) == shell_visible(
            crate::text::strings_view(lines@),
            current@,
            rows as nat,
        ),
{
    let mut all: Vec<String> = Vec::new();
    let mut i: usize = 0;
    while i < lines.len()
        invariant
            i <= lines.len(),
            crate::text::strings_view(all@) == crate::text::strings_view(lines@).take(i as int),
        decreases lines.len() - i,
    {
        let ghost before = crate::text::strings_view(all@);
        all.push(lines[i].clone());
        assert(crate::text::strings_view(all@) =~= before.push(lines@[i as int]@));
        i = i + 1;
        assert(crate::text::strings_view(lines@).take(i as int) =~= before.push(lines@[i - 1]@));
    }
    assert(crate::text::strings_view(lines@).take(i as int) =~= crate::text::strings_view(lines@));
    if !current.as_str().is_empty() {
        let ghost before = crate::text::strings_view(all@);
        all.push(current.clone());
        assert(crate::text::strings_view(all@) =~= before.push(current@));
    }
    let ghost whole = crate::text::strings_view(all@);
    if all.len() > rows as usize {
        let extra = all.len() - rows as usize;
        let kept = all.split_off(extra);
        assert(crate::text::strings_view(kept@) =~= crate::shell_output::keep_last(whole, rows as nat));
        kept
    } else {
        all
    }
}

} // verus!
