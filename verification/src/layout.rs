//! Where the panes of the screen lie, as the terminal layout engine places
//! them, and which pane a click falls in. The layout engine keeps parts in
//! order, touching, inside the screen, and gives fixed rows their height where
//! they fit; how it shares the room where they do not is left to it.

use vstd::prelude::*;
use crate::app::AppState;
use crate::ui::{ResourceTab, Tab};
use ratatui::layout::{Constraint, Direction, Layout, Rect};

verus! {

/// A rectangle of terminal cells.
#[derive(Debug, Clone, Copy, PartialEq, Eq, Structural)]
pub struct Area {
    pub x: u16,
    pub y: u16,
    pub width: u16,
    pub height: u16,
}

/// How much room a part of a split asks for.
#[derive(Debug, Clone, Copy, PartialEq, Eq, Structural)]
pub enum Sizing {
    /// Exactly this many cells.
    Length(u16),
    /// At least this many cells.
    Min(u16),
    /// This share of the room, in percent.
    Percentage(u16),
}

/// Where an area starts along a split: its top for a vertical split, its left
/// edge for a horizontal one.
pub open spec fn lo(a: Area, vertical: bool) -> int {
    if vertical { a.y as int } else { a.x as int }
}

/// How far an area reaches along a split: its height or its width.
pub open spec fn extent(a: Area, vertical: bool) -> int {
    if vertical { a.height as int } else { a.width as int }
}

/// Where an area ends along a split; terminal coordinates stop at `u16::MAX`.
pub open spec fn far_end(a: Area, vertical: bool) -> int {
    let e = lo(a, vertical) + extent(a, vertical);
    if e > u16::MAX { u16::MAX as int } else { e }
}

/// A part keeps the area's position and size across the split.
pub open spec fn cross_kept(area: Area, vertical: bool, p: Area) -> bool {
    if vertical {
        p.x == area.x && p.width == area.width
    } else {
        p.y == area.y && p.height == area.height
    }
}

/// The parts lie one after the other along the split, starting where the
/// area starts, each touching the next, and the last ends inside the area.
pub open spec fn tiled(area: Area, vertical: bool, r: Seq<Area>) -> bool {
    &&& forall|i: int| 0 <= i < r.len() ==> cross_kept(area, vertical, #[trigger] r[i])
    &&& r.len() > 0 ==> lo(r[0], vertical) == lo(area, vertical)
    &&& forall|i: int| 0 <= i < r.len() - 1 ==> lo(#[trigger] r[i], vertical) + extent(r[i], vertical)
        == lo(r[i + 1], vertical)
    &&& r.len() > 0 ==> lo(r.last(), vertical) + extent(r.last(), vertical) <= far_end(area, vertical)
}

/// The room that a part asks for at least.
pub open spec fn need(s: Sizing) -> int {
    match s {
        Sizing::Length(n) => n as int,
        Sizing::Min(n) => n as int,
        Sizing::Percentage(_) => 0,
    }
}

/// The room that the first `n` parts ask for at least.
pub open spec fn need_upto(sizes: Seq<Sizing>, n: int) -> int
    decreases n,
{
    if n <= 0 { 0 } else { need_upto(sizes, n - 1) + need(sizes[n - 1]) }
}

/// Every part has a fixed length but the one at `k`, which asks for a minimum.
pub open spec fn one_min_at(sizes: Seq<Sizing>, k: int) -> bool {
    &&& 0 <= k < sizes.len()
    &&& sizes[k] is Min
    &&& forall|j: int| 0 <= j < sizes.len() && j != k ==> (#[trigger] sizes[j]) is Length
}

/// `ratatui::layout::Layout::split` with the given direction and constraints,
/// no margin, no spacing and the default `Flex::Start`.
/// Claimed, as its source shows it whatever the solver picks:
/// - one part per constraint;
/// - each part keeps the area's position and size across the split;
/// - the parts lie in order from where the area starts, each touching the
///   next, and the last ends inside the area (the solver's required
///   constraints keep every edge inside the area and in order, the first
///   spacer and the gaps between parts are held at zero, and rounding keeps
///   that order);
/// - where every part but one has a fixed length, the other a minimum, and
///   the area has room for all of them, each fixed part gets its length and
///   the last part ends where the area ends (the minimum part takes the rest).
/// How the room is shared where the parts do not fit, or among percentages,
/// is not claimed: the solver walks hash maps, so it can differ between runs.
/// The source's `expect("failed to split")` cannot fail for such constraints,
/// whose required parts (edges inside the area and in order) always hold together.
#[verifier::external_body]
fn split_area(area: Area, vertical: bool, sizes: &Vec<Sizing>) -> (r: Vec<Area>)
    ensures
        r@.len() == sizes@.len(),
        tiled(area, vertical, r@),
        forall|k: int| one_min_at(sizes@, k) && need_upto(sizes@, sizes@.len() as int) <= far_end(area, vertical)
            - lo(area, vertical) ==> {
            &&& forall|i: int| 0 <= i < r@.len() && (#[trigger] sizes@[i]) is Length ==> extent(r@[i], vertical)
                == need(sizes@[i])
            &&& lo(r@.last(), vertical) + extent(r@.last(), vertical) == far_end(area, vertical)
        },
{
    let constraints = sizes.iter().map(|s| match s {
        Sizing::Length(n) => Constraint::Length(*n),
        Sizing::Min(n) => Constraint::Min(*n),
        Sizing::Percentage(p) => Constraint::Percentage(*p),
    });
    let direction = if vertical { Direction::Vertical } else { Direction::Horizontal };
    let rect = Rect { x: area.x, y: area.y, width: area.width, height: area.height };
    let parts = Layout::default().direction(direction).constraints(constraints).split(rect);
    parts.iter().map(|r| Area { x: r.x, y: r.y, width: r.width, height: r.height }).collect()
}

/// The height from the top of an area to where it ends.
pub open spec fn span(area: Area) -> int {
    far_end(area, true) - area.y
}

/// The rows of a screen tall enough for all of them: logo (8), tab bar (3),
/// main pane (the rest) and status line (3).
pub open spec fn screen_rows(area: Area) -> Seq<Area> {
    let h = span(area);
    seq![
        Area { x: area.x, y: area.y, width: area.width, height: 8 },
        Area { x: area.x, y: (area.y + 8) as u16, width: area.width, height: 3 },
        Area { x: area.x, y: (area.y + 11) as u16, width: area.width, height: (h - 14) as u16 },
        Area { x: area.x, y: (area.y + h - 3) as u16, width: area.width, height: 3 },
    ]
}

/// The rows of the screen: logo (8), tab bar (3), main pane (at least 1) and
/// status line (3), top to bottom. On a screen of at least 15 rows they are
/// exactly those; on a smaller one they still lie in order inside it.
pub fn screen_layout(area: Area) -> (r: Vec<Area>)
    ensures
        r@.len() == 4,
        tiled(area, true, r@),
        span(area) >= 15 ==> r@ == screen_rows(area),
{
    let sizes = vec![Sizing::Length(8), Sizing::Length(3), Sizing::Min(1), Sizing::Length(3)];
    proof {
        reveal_with_fuel(need_upto, 5);
        assert(one_min_at(sizes@, 2));
    }
    let r = split_area(area, true, &sizes);
    proof {
        if span(area) >= 15 {
            assert(sizes@[0] is Length && sizes@[1] is Length && sizes@[3] is Length);
            assert(r@[0] == screen_rows(area)[0]);
            assert(r@[1] == screen_rows(area)[1]);
            assert(r@[3] == screen_rows(area)[3]);
            assert(r@[2] == screen_rows(area)[2]);
            assert(r@ =~= screen_rows(area));
        }
    }
    r
}

/// How many log lines fit in the logs view: the main pane less its border.
pub fn logs_viewport_height(main: Area) -> (r: u16)
    ensures
        r == (if main.height >= 2 { main.height - 2 } else { 0 }),
{
    main.height.saturating_sub(2)
}

/// Records how many log lines fit in the main pane `main`.
pub fn set_logs_viewport(app: &mut AppState, main: Area)
    requires
        old(app).wf(),
    ensures
        final(app).wf(),
        *final(app) == (AppState {
            logs_viewport_height: (if main.height >= 2 { main.height - 2 } else { 0 }) as u16,
            ..*old(app)
        }),
{
    app.logs_viewport_height = logs_viewport_height(main);
}

/// The pane that the shell uses: the middle of three rows of 3, at least 1
/// and 3 cells. It spans the screen's width and lies inside it; on a screen of
/// at least 7 rows it leaves exactly 3 rows above and below.
pub fn main_area_rect(area: Area) -> (r: Area)
    ensures
        r.x == area.x && r.width == area.width,
        area.y <= r.y && r.y + r.height <= far_end(area, true),
        span(area) >= 7 ==> r.y == area.y + 3 && r.height == span(area) - 6,
{
    let sizes = vec![Sizing::Length(3), Sizing::Min(1), Sizing::Length(3)];
    proof {
        reveal_with_fuel(need_upto, 4);
        assert(one_min_at(sizes@, 1));
    }
    let parts = split_area(area, true, &sizes);
    proof {
        assert(cross_kept(area, true, parts@[1]));
        assert(lo(parts@[0], true) + extent(parts@[0], true) == lo(parts@[1], true));
        assert(lo(parts@[1], true) + extent(parts@[1], true) == lo(parts@[2], true));
        if span(area) >= 7 {
            assert(sizes@[0] is Length && sizes@[2] is Length);
        }
    }
    parts[1]
}

pub open spec fn sat_sub(a: u16, b: u16) -> u16 {
    if a >= b { (a - b) as u16 } else { 0 }
}

pub open spec fn sat_add(a: u16, b: u16) -> u16 {
    if a + b <= u16::MAX { (a + b) as u16 } else { u16::MAX }
}

/// The inside of the resource pane `pane`, where its switch and contents go:
/// none where the pane or its inside is too small to show the switch.
pub open spec fn resource_inner_of(pane: Area) -> Option<Area> {
    if pane.width < 3 || pane.height < 3 {
        None
    } else {
        let inner = Area {
            x: sat_add(pane.x, 1),
            y: sat_add(pane.y, 1),
            width: sat_sub(pane.width, 2),
            height: sat_sub(pane.height, 2),
        };
        if inner.height < 3 { None } else { Some(inner) }
    }
}

pub fn resource_inner(pane: Area) -> (r: Option<Area>)
    ensures
        r == resource_inner_of(pane),
{
    if pane.width < 3 || pane.height < 3 {
        return None;
    }
    let inner = Area {
        x: pane.x.saturating_add(1),
        y: pane.y.saturating_add(1),
        width: pane.width.saturating_sub(2),
        height: pane.height.saturating_sub(2),
    };
    if inner.height < 3 {
        None
    } else {
        Some(inner)
    }
}

/// The right-hand pane of the main pane (68% / 32%), where the resource
/// numbers and graphs go: as high as the main pane, inside it.
pub fn resource_pane(main: Area) -> (p: Area)
    ensures
        p.y == main.y && p.height == main.height,
        main.x <= p.x && p.x + p.width <= far_end(main, false),
{
    let halves = vec![Sizing::Percentage(68), Sizing::Percentage(32)];
    let panes = split_area(main, false, &halves);
    proof {
        assert(cross_kept(main, false, panes@[1]));
        assert(lo(panes@[0], false) + extent(panes@[0], false) == lo(panes@[1], false));
    }
    panes[1]
}

/// Where the Stats/Graphs switch of the resource pane `pane` lies: the top of
/// the pane's inside, its full width, at most three rows (exactly three where
/// the inside has room for more); none where the pane has no inside.
pub open spec fn tabs_in_pane(pane: Area, r: Option<Area>) -> bool {
    match resource_inner_of(pane) {
        None => r is None,
        Some(inner) => r matches Some(t) && t.x == inner.x && t.width == inner.width && t.y == inner.y
            && t.height <= 3 && (far_end(inner, true) >= inner.y + 4 ==> t.height == 3),
    }
}

pub fn resource_tabs_in(pane: Area) -> (r: Option<Area>)
    ensures
        tabs_in_pane(pane, r),
{
    let inner = match resource_inner(pane) {
        Some(i) => i,
        None => {
            return None;
        },
    };
    let rows = vec![Sizing::Length(3), Sizing::Min(1)];
    proof {
        reveal_with_fuel(need_upto, 3);
        assert(one_min_at(rows@, 1));
    }
    let sections = split_area(inner, true, &rows);
    proof {
        assert(cross_kept(inner, true, sections@[0]));
        assert(lo(sections@[0], true) + extent(sections@[0], true) == lo(sections@[1], true));
        assert(rows@[0] is Length);
    }
    Some(sections[0])
}

/// The resource pane of a screen: inside the screen, and on a screen of at
/// least 15 rows exactly as high as the main pane.
pub open spec fn pane_on_screen(area: Area, p: Area) -> bool {
    &&& area.x <= p.x && p.x + p.width <= far_end(area, false)
    &&& area.y <= p.y && p.y + p.height <= far_end(area, true)
    &&& span(area) >= 15 ==> p.y == area.y + 11 && p.height == span(area) - 14
}

/// Where the Stats/Graphs switch of the resource pane lies on a screen of
/// size `area`, if the screen is large enough to show it: the switch of the
/// right-hand pane of the main row. A screen under 10 cells wide or high has none.
pub fn resource_tabs_rect(area: Area) -> (r: Option<Area>)
    ensures
        area.width < 10 || area.height < 10 ==> r is None,
        !(area.width < 10 || area.height < 10) ==> exists|p: Area| #[trigger] pane_on_screen(area, p)
            && tabs_in_pane(p, r),
{
    if area.width < 10 || area.height < 10 {
        return None;
    }
    let rows = screen_layout(area);
    let main = rows[2];
    let pane = resource_pane(main);
    let r = resource_tabs_in(pane);
    proof {
        let v = rows@;
        assert(cross_kept(area, true, v[2]));
        assert(lo(v[0], true) + extent(v[0], true) == lo(v[1], true));
        assert(lo(v[1], true) + extent(v[1], true) == lo(v[2], true));
        assert(lo(v[2], true) + extent(v[2], true) == lo(v[3], true));
        assert(v.last() == v[3]);
        assert(pane_on_screen(area, pane));
    }
    r
}

/// A press, release or drag of the left mouse button at a cell.
#[derive(Debug, Clone, Copy, PartialEq, Eq, Structural)]
pub struct LeftClick {
    pub column: u16,
    pub row: u16,
}

/// Whether a cell lies inside an area.
pub open spec fn inside(a: Area, column: u16, row: u16) -> bool {
    a.x <= column < a.x + a.width && a.y <= row < a.y + a.height
}

/// The resource view that a click selects, given where the switch lies: the
/// left half chooses the numbers, the right half the graphs.
pub open spec fn clicked_resource_tab(app: AppState, tabs: Option<Area>, click: LeftClick) -> Option<ResourceTab> {
    if app.shell_active || app.tab != Tab::Containers {
        None
    } else {
        match tabs {
            Some(r) => if inside(r, click.column, click.row) {
                Some(
                    if click.column < r.x + r.width / 2 {
                        ResourceTab::Stats
                    } else {
                        ResourceTab::Graphs
                    },
                )
            } else {
                None
            },
            None => None,
        }
    }
}

/// A click on the Stats/Graphs switch of the resource pane, which lies at
/// `tabs` (see `resource_tabs_rect`), selects that view.
pub fn handle_resource_tabs_click(app: &mut AppState, tabs: Option<Area>, click: LeftClick)
    requires
        old(app).wf(),
    ensures
        final(app).wf(),
        match clicked_resource_tab(*old(app), tabs, click) {
            Some(t) => *final(app) == (AppState { resource_tab: t, ..*old(app) }),
            None => *final(app) == *old(app),
        },
{
    if app.shell_active || app.tab != Tab::Containers {
        return;
    }
    let rect = match tabs {
        Some(r) => r,
        None => {
            return;
        },
    };
    let x = click.column as u32;
    let y = click.row as u32;
    let rx = rect.x as u32;
    let ry = rect.y as u32;
    if x < rx || x >= rx + rect.width as u32 || y < ry || y >= ry + rect.height as u32 {
        return;
    }
    let mid = rx + (rect.width / 2) as u32;
    app.resource_tab = if x < mid {
        ResourceTab::Stats
    } else {
        ResourceTab::Graphs
    };
}

} // verus!
