//! Where a dragged tab or pane would go: what dropping it at a point of the
//! window does, and the area that shows it.

use vstd::prelude::*;
use crate::command::Command;
use crate::geometry::{point_in_rect, Bounds, Coord, Point, RectF, Spot};
use crate::termwindow;
use crate::termwindow::TermWindow;
use crate::ui::{
    DragDropAction, DragDropPreview, DragDropSource, SplitDirection, SplitRequest, SplitSize,
    TabBarItem, UIItem, UIItemType,
};

verus! {

/// The share of a pane's extent, from an edge inwards, in which a drop splits
/// the pane: a quarter, by its rank.
pub const DROP_EDGE_RANK: i32 = 0x3E80_0000;

/// The share of the split pane that the dropped one gets.
pub const DROP_SPLIT_PERCENT: u8 = 50;

/// A width of four pixels, by its rank.
pub const TAB_BAR_DROP_MARKER_WIDTH_RANK: i32 = 0x4080_0000;

/// How large the halves of a split pane would be, in cells.
#[derive(Clone, Copy, Debug, PartialEq, Eq, Structural)]
pub struct SplitExtent {
    pub first_rows: usize,
    pub first_cols: usize,
    pub second_rows: usize,
    pub second_cols: usize,
}

/// An edge of a pane.
#[derive(Clone, Copy, Debug, PartialEq, Eq, Structural)]
pub enum Edge {
    Left,
    Right,
    Top,
    Bottom,
}

/// What is known of an edge of a pane.
#[derive(Clone, Copy, Debug, PartialEq, Eq, Structural)]
pub struct EdgeFacts {
    /// How far the spot is from the edge, as a share of the pane's extent.
    pub distance: Coord,
    /// The half of the pane at this edge.
    pub half: RectF,
    /// What splitting the pane there would give, if it can be split.
    pub split: Option<SplitExtent>,
}

/// A pane that something may be dropped on.
#[derive(Clone, Copy, Debug, PartialEq, Eq, Structural)]
pub struct DropPane {
    pub pane_id: usize,
    pub bounds: Bounds,
    pub left: EdgeFacts,
    pub right: EdgeFacts,
    pub top: EdgeFacts,
    pub bottom: EdgeFacts,
}

/// The tab bar as a place to drop at.
#[derive(Clone, Copy, Debug, PartialEq, Eq, Structural)]
pub struct DropBar {
    pub bounds: Bounds,
    /// The right edge of the bar less the width of the marker.
    pub marker_limit: Coord,
}

/// The sides of a part of the window.
#[derive(Clone, Copy, Debug, PartialEq, Eq, Structural)]
pub struct Sides {
    pub left: Coord,
    pub right: Coord,
}

/// What is known of the window when something is dragged over a spot of it.
pub struct DropScene {
    pub tab_bar: Option<DropBar>,
    /// Of each part of the window, whether the spot is in it.
    pub hits: Vec<bool>,
    /// Of each part of the window, its sides.
    pub sides: Vec<Sides>,
    /// How many tabs the window has.
    pub window_len: Option<usize>,
    /// The window that holds the dragged tab, or the tab of the dragged pane.
    pub source_window: Option<usize>,
    /// How many panes that tab has.
    pub source_panes: Option<usize>,
    /// The tab that the window shows.
    pub active_tab: Option<usize>,
    /// Whether a pane of that tab is zoomed.
    pub zoomed: bool,
    /// The panes of that tab.
    pub panes: Vec<DropPane>,
}

impl DropScene {
    /// The scene describes every part of the window, and the marker has room in
    /// the tab bar.
    pub open spec fn fits(self, window: TermWindow) -> bool {
        &&& self.hits@.len() == window.ui_items@.len()
        &&& self.sides@.len() == window.ui_items@.len()
        &&& self.tab_bar is Some ==> self.tab_bar->0.bounds.rect.x.at_most(
            self.tab_bar->0.marker_limit.larger(Coord::origin()),
        )
    }
}

/// Whether the part is a tab of the tab bar.
pub open spec fn is_tab(item: UIItem) -> bool {
    item.item_type is TabBar && item.item_type->TabBar_0 is Tab
}

/// The index of the tab that the part is.
pub open spec fn tab_index(item: UIItem) -> usize {
    item.item_type->TabBar_0->tab_idx
}

/// The index at which a tab dropped on the part would go: before the tab there
/// or behind it, by the half of it that is hit, or behind all tabs.
pub open spec fn index_at(item: UIItem, point: Point, window_len: Option<usize>) -> Option<usize> {
    match item.item_type {
        UIItemType::TabBar(TabBarItem::Tab { tab_idx, .. }) => Some(
            if point.x > item.x + item.width / 2 {
                (tab_idx + 1) as usize
            } else {
                tab_idx
            },
        ),
        UIItemType::TabBar(TabBarItem::WindowButton(_)) => None,
        UIItemType::TabBar(_) => window_len,
        _ => None,
    }
}

/// The left side of the first tab with the index, from part `i` on.
pub open spec fn left_of_tab(
    items: Seq<UIItem>,
    sides: Seq<Sides>,
    index: usize,
    i: nat,
) -> Option<Coord>
    decreases items.len() - i,
{
    if i >= items.len() {
        None
    } else if is_tab(items[i as int]) && tab_index(items[i as int]) == index {
        Some(sides[i as int].left)
    } else {
        left_of_tab(items, sides, index, i + 1)
    }
}

/// The rightmost side of the tabs among the first `n` parts.
pub open spec fn right_of_tabs(items: Seq<UIItem>, sides: Seq<Sides>, n: nat) -> Option<Coord>
    decreases n,
{
    if n == 0 {
        None
    } else {
        let rest = right_of_tabs(items, sides, (n - 1) as nat);
        if is_tab(items[n - 1]) {
            Some(
                if rest is Some {
                    rest->0.larger(sides[n - 1].right)
                } else {
                    sides[n - 1].right
                },
            )
        } else {
            rest
        }
    }
}

impl DropPane {
    /// What is known of an edge.
    pub open spec fn at(self, edge: Edge) -> EdgeFacts {
        match edge {
            Edge::Left => self.left,
            Edge::Right => self.right,
            Edge::Top => self.top,
            Edge::Bottom => self.bottom,
        }
    }

    /// The edge that is nearest. Of edges equally near, a left one counts
    /// before a right one, that before a top one, that before a bottom one.
    pub open spec fn nearest(self) -> Edge {
        let across = if self.right.distance.rank < self.left.distance.rank {
            Edge::Right
        } else {
            Edge::Left
        };
        let down = if self.bottom.distance.rank < self.top.distance.rank {
            Edge::Bottom
        } else {
            Edge::Top
        };
        if self.at(down).distance.rank < self.at(across).distance.rank {
            down
        } else {
            across
        }
    }

    /// The edge that is nearest.
    pub fn nearest_edge(&self) -> (r: Edge)
        ensures
            r == self.nearest(),
    {
        let mut edge = Edge::Left;
        let mut distance = self.left.distance.rank;
        if self.right.distance.rank < distance {
            edge = Edge::Right;
            distance = self.right.distance.rank;
        }
        if self.top.distance.rank < distance {
            edge = Edge::Top;
            distance = self.top.distance.rank;
        }
        if self.bottom.distance.rank < distance {
            edge = Edge::Bottom;
        }
        edge
    }

    /// What is known of an edge.
    pub fn edge(&self, edge: Edge) -> (r: EdgeFacts)
        ensures
            r == self.at(edge),
    {
        match edge {
            Edge::Left => self.left,
            Edge::Right => self.right,
            Edge::Top => self.top,
            Edge::Bottom => self.bottom,
        }
    }
}

/// No edge is nearer than the nearest one.
pub proof fn nearest_is_nearest(pane: DropPane, edge: Edge)
    ensures
        pane.at(pane.nearest()).distance.at_most(pane.at(edge).distance),
{
}

/// How a pane is split for what is dropped at an edge of it.
pub open spec fn split_request(edge: Edge) -> SplitRequest {
    SplitRequest {
        direction: if edge is Left || edge is Right {
            SplitDirection::Horizontal
        } else {
            SplitDirection::Vertical
        },
        target_is_second: edge is Right || edge is Bottom,
        top_level: false,
        size: SplitSize::Percent(DROP_SPLIT_PERCENT),
    }
}

/// How a pane is split for what is dropped at an edge of it.
fn request_for(edge: Edge) -> (r: SplitRequest)
    ensures
        r == split_request(edge),
{
    let (direction, target_is_second) = match edge {
        Edge::Left => (SplitDirection::Horizontal, false),
        Edge::Right => (SplitDirection::Horizontal, true),
        Edge::Top => (SplitDirection::Vertical, false),
        Edge::Bottom => (SplitDirection::Vertical, true),
    };
    SplitRequest {
        direction,
        target_is_second,
        top_level: false,
        size: SplitSize::Percent(DROP_SPLIT_PERCENT),
    }
}

/// Whether both halves of a split have cells.
pub open spec fn viable(split: Option<SplitExtent>) -> bool {
    match split {
        Some(s) => s.first_rows > 0 && s.first_cols > 0 && s.second_rows > 0 && s.second_cols > 0,
        None => false,
    }
}

/// Whether both halves of a split have cells.
fn is_viable(split: Option<SplitExtent>) -> (r: bool)
    ensures
        r == viable(split),
{
    match split {
        Some(s) => s.first_rows > 0 && s.first_cols > 0 && s.second_rows > 0 && s.second_cols > 0,
        None => false,
    }
}

/// The index of the first pane that has an area and holds the spot, from pane
/// `i` on.
pub open spec fn pane_under(panes: Seq<DropPane>, spot: Spot, i: nat) -> Option<int>
    decreases panes.len() - i,
{
    if i >= panes.len() {
        None
    } else if panes[i as int].bounds.has_area() && panes[i as int].bounds.holds(spot) {
        Some(i as int)
    } else {
        pane_under(panes, spot, i + 1)
    }
}

/// Whether the source can share the area of a pane: a pane, or a tab of one
/// pane.
pub open spec fn can_split(source: DragDropSource, source_panes: Option<usize>) -> bool {
    source is Pane || source_panes == Some(1usize)
}

impl TermWindow {
    /// The index at which a tab dropped in the tab bar would go.
    pub open spec fn drop_index(self, point: Point, scene: DropScene) -> Option<usize> {
        match termwindow::topmost(self.ui_items@, scene.hits@) {
            Some(item) => index_at(item, point, scene.window_len),
            None => None,
        }
    }

    /// The index at which a tab dropped in the tab bar would go.
    pub fn tab_drop_index(&self, point: Point, scene: &DropScene) -> (r: Option<usize>)
        requires
            self.well_formed(),
            scene.fits(*self),
        ensures
            r == self.drop_index(point, *scene),
    {
        let item = match self.resolve_ui_item(&scene.hits) {
            Some(item) => item,
            None => {
                return None;
            },
        };
        match item.item_type {
            UIItemType::TabBar(TabBarItem::Tab { tab_idx, .. }) => {
                let midpoint: isize = item.x.saturating_add(item.width / 2) as isize;
                if point.x > midpoint {
                    Some(tab_idx + 1)
                } else {
                    Some(tab_idx)
                }
            },
            UIItemType::TabBar(TabBarItem::Blank)
            | UIItemType::TabBar(TabBarItem::LeftStatus)
            | UIItemType::TabBar(TabBarItem::RightStatus)
            | UIItemType::TabBar(TabBarItem::NewTabButton) => scene.window_len,
            UIItemType::TabBar(TabBarItem::WindowButton(_))
            | UIItemType::CloseTab(_)
            | UIItemType::AboveScrollThumb
            | UIItemType::BelowScrollThumb
            | UIItemType::ScrollThumb
            | UIItemType::Split(_)
            | UIItemType::PaneDragHandle(_) => None,
        }
    }

    /// Where in the tab bar the marker for the index goes: before the tab that
    /// has the index now, else behind the last tab, and always inside the bar.
    pub open spec fn marker(self, index: usize, bar: DropBar, scene: DropScene) -> Coord {
        let before = left_of_tab(self.ui_items@, scene.sides@, index, 0);
        let behind = right_of_tabs(self.ui_items@, scene.sides@, self.ui_items@.len());
        (if before is Some {
            before->0
        } else if behind is Some {
            behind->0
        } else {
            bar.bounds.rect.x
        }).clamped(bar.bounds.rect.x, bar.marker_limit.larger(Coord::origin()))
    }

    /// Where in the tab bar the marker for the index goes.
    fn marker_x(&self, index: usize, bar: DropBar, scene: &DropScene) -> (r: Coord)
        requires
            scene.fits(*self),
            scene.tab_bar == Some(bar),
        ensures
            r == self.marker(index, bar, *scene),
    {
        let mut before: Option<Coord> = None;
        let mut behind: Option<Coord> = None;
        let ghost items = self.ui_items@;
        let ghost sides = scene.sides@;
        for i in 0..self.ui_items.len()
            invariant
                items == self.ui_items@,
                sides == scene.sides@,
                sides.len() == items.len(),
                behind == right_of_tabs(items, sides, i as nat),
                before is Some ==> left_of_tab(items, sides, index, 0) == before,
                before is None ==> left_of_tab(items, sides, index, 0) == left_of_tab(
                    items,
                    sides,
                    index,
                    i as nat,
                ),
        {
            if let UIItemType::TabBar(TabBarItem::Tab { tab_idx, .. }) = self.ui_items[i].item_type {
                if before.is_none() && tab_idx == index {
                    before = Some(scene.sides[i].left);
                }
                behind = match behind {
                    Some(right) => Some(right.max(scene.sides[i].right)),
                    None => Some(scene.sides[i].right),
                };
            }
        }
        let x = match before {
            Some(left) => left,
            None => match behind {
                Some(right) => right,
                None => bar.bounds.rect.x,
            },
        };
        x.clamp(bar.bounds.rect.x, bar.marker_limit.max(Coord { rank: 0 }))
    }

    /// What dropping in the tab bar would do: the dragged thing becomes a tab of
    /// the window.
    pub open spec fn bar_preview(self, spot: Spot, bar: DropBar, scene: DropScene) -> Option<
        DragDropPreview,
    > {
        let index = if self.drop_index(spot.point, scene) is Some {
            self.drop_index(spot.point, scene)
        } else {
            scene.window_len
        };
        match index {
            Some(destination_index) => Some(
                DragDropPreview {
                    action: DragDropAction::Merge { destination_index },
                    rect: RectF {
                        x: self.marker(destination_index, bar, scene),
                        y: bar.bounds.rect.y,
                        width: Coord { rank: TAB_BAR_DROP_MARKER_WIDTH_RANK },
                        height: bar.bounds.rect.height,
                    },
                },
            ),
            None => None,
        }
    }

    /// What dropping on a pane would do. Near an edge of it, what can split it
    /// does. Elsewhere a tab of another window becomes a tab of this one.
    pub open spec fn pane_preview(
        self,
        source: DragDropSource,
        pane: DropPane,
        scene: DropScene,
    ) -> Option<DragDropPreview> {
        let edge = pane.nearest();
        if can_split(source, scene.source_panes) && pane.at(edge).distance.rank <= DROP_EDGE_RANK
            && !scene.zoomed && viable(pane.at(edge).split) {
            Some(
                DragDropPreview {
                    action: DragDropAction::Split {
                        target_pane_id: pane.pane_id,
                        request: split_request(edge),
                    },
                    rect: pane.at(edge).half,
                },
            )
        } else if source is Tab && scene.source_window != Some(self.mux_window_id) {
            Some(
                DragDropPreview {
                    action: DragDropAction::Merge { destination_index: scene.window_len->0 },
                    rect: pane.bounds.rect,
                },
            )
        } else {
            None
        }
    }

    /// What dropping at a spot would do, if anything. The tab bar comes before
    /// the panes, and a tab takes nothing that is dragged out of it.
    pub open spec fn preview(
        self,
        source: DragDropSource,
        spot: Spot,
        scene: DropScene,
    ) -> Option<DragDropPreview> {
        if scene.tab_bar is Some && scene.tab_bar->0.bounds.holds(spot) {
            self.bar_preview(spot, scene.tab_bar->0, scene)
        } else if scene.active_tab is None || scene.active_tab == Some(source.tab())
            || scene.window_len is None {
            None
        } else {
            match pane_under(scene.panes@, spot, 0) {
                Some(i) => self.pane_preview(source, scene.panes@[i], scene),
                None => None,
            }
        }
    }

    /// What dropping at a spot would do, if anything.
    pub fn drop_preview_at(&self, source: DragDropSource, spot: Spot, scene: &DropScene) -> (r:
        Option<DragDropPreview>)
        requires
            self.well_formed(),
            scene.fits(*self),
        ensures
            r == self.preview(source, spot, *scene),
    {
        if let Some(bar) = scene.tab_bar {
            if point_in_rect(spot, bar.bounds) {
                let index = match self.tab_drop_index(spot.point, scene) {
                    Some(index) => Some(index),
                    None => scene.window_len,
                };
                return match index {
                    Some(destination_index) => Some(
                        DragDropPreview {
                            action: DragDropAction::Merge { destination_index },
                            rect: RectF {
                                x: self.marker_x(destination_index, bar, scene),
                                y: bar.bounds.rect.y,
                                width: Coord { rank: TAB_BAR_DROP_MARKER_WIDTH_RANK },
                                height: bar.bounds.rect.height,
                            },
                        },
                    ),
                    None => None,
                };
            }
        }
        let source_is_in_destination_window = match scene.source_window {
            Some(window_id) => window_id == self.mux_window_id,
            None => false,
        };
        let source_can_split = match source {
            DragDropSource::Tab(_) => match scene.source_panes {
                Some(count) => count == 1,
                None => false,
            },
            DragDropSource::Pane { .. } => true,
        };
        match scene.active_tab {
            Some(active_tab) => {
                if active_tab == source.tab_id() {
                    return None;
                }
            },
            None => {
                return None;
            },
        }
        let destination_index = match scene.window_len {
            Some(len) => len,
            None => {
                return None;
            },
        };
        let mut i: usize = 0;
        while i < scene.panes.len()
            invariant
                i <= scene.panes@.len(),
                pane_under(scene.panes@, spot, 0) == pane_under(scene.panes@, spot, i as nat),
                scene.window_len == Some(destination_index),
                source_can_split == can_split(source, scene.source_panes),
                source_is_in_destination_window == (scene.source_window == Some(
                    self.mux_window_id,
                )),
                self.preview(source, spot, *scene) == (match pane_under(scene.panes@, spot, 0) {
                    Some(k) => self.pane_preview(source, scene.panes@[k], *scene),
                    None => None,
                }),
            decreases scene.panes@.len() - i,
        {
            let pane = scene.panes[i];
            if pane.bounds.rect.width.rank <= 0 || pane.bounds.rect.height.rank <= 0
                || !point_in_rect(spot, pane.bounds) {
                i = i + 1;
                continue ;
            }
            if source_can_split {
                let edge = pane.nearest_edge();
                let facts = pane.edge(edge);
                if facts.distance.rank <= DROP_EDGE_RANK && !scene.zoomed && is_viable(
                    facts.split,
                ) {
                    return Some(
                        DragDropPreview {
                            action: DragDropAction::Split {
                                target_pane_id: pane.pane_id,
                                request: request_for(edge),
                            },
                            rect: facts.half,
                        },
                    );
                }
            }
            return match source {
                DragDropSource::Pane { .. } => None,
                DragDropSource::Tab(_) => if source_is_in_destination_window {
                    None
                } else {
                    Some(
                        DragDropPreview {
                            action: DragDropAction::Merge { destination_index },
                            rect: pane.bounds.rect,
                        },
                    )
                },
            };
        }
        None
    }

    /// The command to paint the window again, if it exists.
    pub open spec fn repaint(self) -> Seq<Command> {
        if self.has_window {
            seq![Command::InvalidateWindow]
        } else {
            seq![]
        }
    }

    /// Shows what dropping at a spot would do.
    pub fn update_drop_preview(&mut self, source: DragDropSource, spot: Spot, scene: &DropScene) -> (r:
        Vec<Command>)
        requires
            old(self).well_formed(),
            scene.fits(*old(self)),
        ensures
            final(self).well_formed(),
            ({
                let preview = old(self).preview(source, spot, *scene);
                &&& *final(self) == (TermWindow { drag_drop_preview: preview, ..*old(self) })
                &&& r@ == (if old(self).drag_drop_preview != preview {
                    old(self).repaint()
                } else {
                    seq![]
                })
            }),
    {
        let preview = self.drop_preview_at(source, spot, scene);
        let mut commands: Vec<Command> = Vec::new();
        if self.drag_drop_preview != preview {
            self.drag_drop_preview = preview;
            if self.has_window {
                commands.push(Command::InvalidateWindow);
            }
        }
        commands
    }

    /// Shows no drop any more.
    pub fn clear_drag_drop_preview(&mut self) -> (r: Vec<Command>)
        ensures
            old(self).well_formed() ==> final(self).well_formed(),
            *final(self) == (TermWindow { drag_drop_preview: None, ..*old(self) }),
            r@ == (if old(self).drag_drop_preview is Some {
                old(self).repaint()
            } else {
                seq![]
            }),
    {
        let mut commands: Vec<Command> = Vec::new();
        if self.drag_drop_preview.is_some() {
            self.drag_drop_preview = None;
            if self.has_window {
                commands.push(Command::InvalidateWindow);
            }
        }
        commands
    }
}

/// The marker is always inside the tab bar, wherever the tabs are.
pub proof fn the_marker_is_inside(
    window: TermWindow,
    index: usize,
    bar: DropBar,
    scene: DropScene,
)
    requires
        bar.bounds.rect.x.at_most(bar.marker_limit.larger(Coord::origin())),
    ensures
        bar.bounds.rect.x.at_most(window.marker(index, bar, scene)),
        window.marker(index, bar, scene).at_most(bar.marker_limit.larger(Coord::origin())),
{
}

/// The pane that takes the drop holds the spot, and no pane before it does.
pub proof fn the_first_pane_takes_it(panes: Seq<DropPane>, spot: Spot, i: nat)
    ensures
        match pane_under(panes, spot, i) {
            Some(k) => i <= k < panes.len() && panes[k].bounds.has_area() && panes[k].bounds.holds(
                spot,
            ) && forall|j: int|
                #![trigger panes[j]]
                i <= j < k ==> !(panes[j].bounds.has_area() && panes[j].bounds.holds(spot)),
            None => forall|j: int|
                #![trigger panes[j]]
                i <= j < panes.len() ==> !(panes[j].bounds.has_area() && panes[j].bounds.holds(
                    spot,
                )),
        },
    decreases panes.len() - i,
{
    if i < panes.len() && !(panes[i as int].bounds.has_area() && panes[i as int].bounds.holds(
        spot,
    )) {
        the_first_pane_takes_it(panes, spot, i + 1);
    }
}

/// A preview is a function of the window and the scene alone, whatever preview
/// was shown before: showing it again changes nothing and paints nothing.
pub proof fn previews_are_stable(
    window: TermWindow,
    shown: Option<DragDropPreview>,
    source: DragDropSource,
    spot: Spot,
    scene: DropScene,
)
    ensures
        (TermWindow { drag_drop_preview: shown, ..window }).preview(source, spot, scene)
            == window.preview(source, spot, scene),
{
}

/// Off the tab bar, nothing can be dropped into the tab that it is dragged out
/// of.
pub proof fn own_tab_takes_nothing(
    window: TermWindow,
    source: DragDropSource,
    spot: Spot,
    scene: DropScene,
)
    requires
        scene.tab_bar is None || !scene.tab_bar->0.bounds.holds(spot),
        scene.active_tab == Some(source.tab()),
    ensures
        window.preview(source, spot, scene) is None,
{
}

/// Off the tab bar, a pane can only split another pane, and so can a tab of one
/// pane that belongs to the window already.
pub proof fn panes_only_split(
    window: TermWindow,
    source: DragDropSource,
    spot: Spot,
    scene: DropScene,
)
    requires
        scene.tab_bar is None || !scene.tab_bar->0.bounds.holds(spot),
        source is Pane || scene.source_window == Some(window.mux_window_id),
        window.preview(source, spot, scene) is Some,
    ensures
        window.preview(source, spot, scene)->0.action is Split,
        can_split(source, scene.source_panes),
        !scene.zoomed,
{
}

/// On the tab bar everything becomes a tab of the window, as long as the window
/// is known.
pub proof fn the_tab_bar_merges(
    window: TermWindow,
    source: DragDropSource,
    spot: Spot,
    scene: DropScene,
)
    requires
        scene.tab_bar is Some,
        scene.tab_bar->0.bounds.holds(spot),
        scene.window_len is Some,
    ensures
        window.preview(source, spot, scene) is Some,
        window.preview(source, spot, scene)->0.action is Merge,
{
}

/// Whether the spot is in the pane or on its border, and the pane has an area.
pub open spec fn covers(pane: DropPane, spot: Spot) -> bool {
    &&& pane.bounds.rect.width.rank > 0
    &&& pane.bounds.rect.height.rank > 0
    &&& pane.bounds.rect.x.rank <= spot.x.rank <= pane.bounds.max_x.rank
    &&& pane.bounds.rect.y.rank <= spot.y.rank <= pane.bounds.max_y.rank
}

/// Whether the spot is on the tab bar or on its border.
pub open spec fn on_bar(scene: DropScene, spot: Spot) -> bool {
    &&& scene.tab_bar is Some
    &&& scene.tab_bar->0.bounds.rect.x.rank <= spot.x.rank <= scene.tab_bar->0.bounds.max_x.rank
    &&& scene.tab_bar->0.bounds.rect.y.rank <= spot.y.rank <= scene.tab_bar->0.bounds.max_y.rank
}

/// Pane `k` is the first that covers the spot.
proof fn the_first_cover(panes: Seq<DropPane>, spot: Spot, k: int, i: nat)
    requires
        i <= k < panes.len(),
        covers(panes[k], spot),
        forall|j: int| i <= j < k ==> !#[trigger] covers(panes[j], spot),
    ensures
        pane_under(panes, spot, i) == Some(k),
    decreases k - i,
{
    if i < k {
        assert(!covers(panes[i as int], spot));
        the_first_cover(panes, spot, k, i + 1);
    }
}

/// A split is shown by the half of the target pane that the dropped thing gets:
/// the left or the right half where the pane is split into columns, the upper or
/// the lower half where it is split into rows, as the request says. The target is
/// under the mouse, the mouse is within a quarter of the edge of that half and no
/// nearer to any other, and both halves have cells.
pub proof fn a_split_shows_the_half_it_takes(
    window: TermWindow,
    source: DragDropSource,
    spot: Spot,
    scene: DropScene,
)
    requires
        window.preview(source, spot, scene) is Some,
        window.preview(source, spot, scene)->0.action is Split,
    ensures
        ({
            let shown = window.preview(source, spot, scene)->0;
            let request = shown.action->request;
            &&& !request.top_level
            &&& request.size == SplitSize::Percent(50)
            &&& source is Pane || scene.source_panes == Some(1usize)
            &&& !scene.zoomed
            &&& scene.active_tab is Some
            &&& source matches DragDropSource::Tab(tab_id) ==> scene.active_tab != Some(tab_id)
            &&& source matches DragDropSource::Pane { tab_id, .. } ==> scene.active_tab != Some(
                tab_id,
            )
            &&& exists|k: int|
                {
                    let pane = #[trigger] scene.panes@[k];
                    let side = match (request.direction, request.target_is_second) {
                        (SplitDirection::Horizontal, false) => pane.left,
                        (SplitDirection::Horizontal, true) => pane.right,
                        (SplitDirection::Vertical, false) => pane.top,
                        (SplitDirection::Vertical, true) => pane.bottom,
                    };
                    &&& 0 <= k < scene.panes@.len()
                    &&& pane.pane_id == shown.action->target_pane_id
                    &&& covers(pane, spot)
                    &&& forall|j: int| 0 <= j < k ==> !#[trigger] covers(scene.panes@[j], spot)
                    &&& shown.rect == side.half
                    &&& side.distance.rank <= 0x3E80_0000
                    &&& side.distance.rank <= pane.left.distance.rank
                    &&& side.distance.rank <= pane.right.distance.rank
                    &&& side.distance.rank <= pane.top.distance.rank
                    &&& side.distance.rank <= pane.bottom.distance.rank
                    &&& side.split is Some
                    &&& side.split->0.first_rows > 0 && side.split->0.first_cols > 0
                    &&& side.split->0.second_rows > 0 && side.split->0.second_cols > 0
                }
        }),
{
    the_first_pane_takes_it(scene.panes@, spot, 0);
    let k = pane_under(scene.panes@, spot, 0)->0;
    assert(covers(scene.panes@[k], spot));
    assert forall|j: int| 0 <= j < k implies !#[trigger] covers(scene.panes@[j], spot) by {
        assert(scene.panes@[j] == scene.panes@[j]);
    }
}

/// Near an edge of the first pane under the mouse, a pane, or a tab with one pane,
/// splits that pane at that edge, off the tab bar and as long as it comes from
/// another tab, no pane is zoomed and both halves have cells. Of edges equally near
/// the left one counts first, the right one next, then the top one.
pub proof fn near_an_edge_a_pane_is_split(
    window: TermWindow,
    source: DragDropSource,
    spot: Spot,
    scene: DropScene,
    k: int,
    edge: Edge,
)
    requires
        !on_bar(scene, spot),
        scene.window_len is Some,
        scene.active_tab is Some,
        source matches DragDropSource::Tab(tab_id) ==> scene.active_tab != Some(tab_id),
        source matches DragDropSource::Pane { tab_id, .. } ==> scene.active_tab != Some(tab_id),
        source is Pane || scene.source_panes == Some(1usize),
        !scene.zoomed,
        0 <= k < scene.panes@.len(),
        covers(scene.panes@[k], spot),
        forall|j: int| 0 <= j < k ==> !#[trigger] covers(scene.panes@[j], spot),
        ({
            let pane = scene.panes@[k];
            let (left, right) = (pane.left.distance.rank, pane.right.distance.rank);
            let (top, bottom) = (pane.top.distance.rank, pane.bottom.distance.rank);
            let side = match edge {
                Edge::Left => pane.left,
                Edge::Right => pane.right,
                Edge::Top => pane.top,
                Edge::Bottom => pane.bottom,
            };
            &&& match edge {
                Edge::Left => left <= right && left <= top && left <= bottom,
                Edge::Right => right < left && right <= top && right <= bottom,
                Edge::Top => top < left && top < right && top <= bottom,
                Edge::Bottom => bottom < left && bottom < right && bottom < top,
            }
            &&& side.distance.rank <= 0x3E80_0000
            &&& side.split is Some
            &&& side.split->0.first_rows > 0 && side.split->0.first_cols > 0
            &&& side.split->0.second_rows > 0 && side.split->0.second_cols > 0
        }),
    ensures
        ({
            let pane = scene.panes@[k];
            window.preview(source, spot, scene) == Some(
                DragDropPreview {
                    action: DragDropAction::Split {
                        target_pane_id: pane.pane_id,
                        request: SplitRequest {
                            direction: match edge {
                                Edge::Left | Edge::Right => SplitDirection::Horizontal,
                                Edge::Top | Edge::Bottom => SplitDirection::Vertical,
                            },
                            target_is_second: edge is Right || edge is Bottom,
                            top_level: false,
                            size: SplitSize::Percent(50),
                        },
                    },
                    rect: match edge {
                        Edge::Left => pane.left.half,
                        Edge::Right => pane.right.half,
                        Edge::Top => pane.top.half,
                        Edge::Bottom => pane.bottom.half,
                    },
                },
            )
        }),
{
    the_first_cover(scene.panes@, spot, k, 0);
}

/// A tab of another window that does not split the pane under the mouse becomes the
/// last tab of this window, and the whole pane shows it; a pane, or a tab of this
/// window, goes nowhere then.
pub proof fn elsewhere_on_a_pane_tabs_merge(
    window: TermWindow,
    source: DragDropSource,
    spot: Spot,
    scene: DropScene,
    k: int,
)
    requires
        !on_bar(scene, spot),
        scene.window_len is Some,
        scene.active_tab is Some,
        source matches DragDropSource::Tab(tab_id) ==> scene.active_tab != Some(tab_id),
        source matches DragDropSource::Pane { tab_id, .. } ==> scene.active_tab != Some(tab_id),
        0 <= k < scene.panes@.len(),
        covers(scene.panes@[k], spot),
        forall|j: int| 0 <= j < k ==> !#[trigger] covers(scene.panes@[j], spot),
        ({
            let pane = scene.panes@[k];
            ||| source is Tab && scene.source_panes != Some(1usize)
            ||| scene.zoomed
            ||| {
                &&& pane.left.distance.rank > 0x3E80_0000
                &&& pane.right.distance.rank > 0x3E80_0000
                &&& pane.top.distance.rank > 0x3E80_0000
                &&& pane.bottom.distance.rank > 0x3E80_0000
            }
            ||| {
                &&& pane.left.split is None
                &&& pane.right.split is None
                &&& pane.top.split is None
                &&& pane.bottom.split is None
            }
        }),
    ensures
        window.preview(source, spot, scene) == (if source is Tab && scene.source_window != Some(
            window.mux_window_id,
        ) {
            Some(
                DragDropPreview {
                    action: DragDropAction::Merge { destination_index: scene.window_len->0 },
                    rect: scene.panes@[k].bounds.rect,
                },
            )
        } else {
            None
        }),
{
    the_first_cover(scene.panes@, spot, k, 0);
}

/// Off the tab bar and off every pane nothing can be dropped.
pub proof fn off_the_panes_nothing_drops(
    window: TermWindow,
    source: DragDropSource,
    spot: Spot,
    scene: DropScene,
)
    requires
        !on_bar(scene, spot),
        forall|j: int| 0 <= j < scene.panes@.len() ==> !#[trigger] covers(scene.panes@[j], spot),
    ensures
        window.preview(source, spot, scene) is None,
{
    the_first_pane_takes_it(scene.panes@, spot, 0);
    if pane_under(scene.panes@, spot, 0) is Some {
        assert(!covers(scene.panes@[pane_under(scene.panes@, spot, 0)->0], spot));
    }
}

/// Part `k` is the topmost that is hit.
proof fn the_topmost_part(items: Seq<UIItem>, hits: Seq<bool>, k: int)
    requires
        0 <= k < items.len() <= hits.len(),
        hits[k],
        forall|j: int| k < j < items.len() ==> !hits[j],
    ensures
        termwindow::topmost(items, hits) == Some(items[k]),
    decreases items.len(),
{
    if k < items.len() - 1 {
        the_topmost_part(items.drop_last(), hits, k);
    }
}

/// On a tab of the tab bar what is dropped goes before that tab, or behind it where
/// the mouse is beyond its middle.
pub proof fn on_a_tab_the_half_decides(
    window: TermWindow,
    source: DragDropSource,
    spot: Spot,
    scene: DropScene,
    k: int,
    index: usize,
    active: bool,
)
    requires
        on_bar(scene, spot),
        scene.hits@.len() == window.ui_items@.len(),
        0 <= k < window.ui_items@.len(),
        scene.hits@[k],
        forall|j: int| k < j < window.ui_items@.len() ==> !scene.hits@[j],
        window.ui_items@[k].item_type == UIItemType::TabBar(
            TabBarItem::Tab { tab_idx: index, active },
        ),
        index < usize::MAX,
    ensures
        window.preview(source, spot, scene) is Some,
        ({
            let item = window.ui_items@[k];
            let action = window.preview(source, spot, scene)->0.action;
            &&& action is Merge
            &&& spot.point.x <= item.x + item.width / 2 ==> action->destination_index == index
            &&& spot.point.x > item.x + item.width / 2 ==> action->destination_index == index + 1
        }),
{
    the_topmost_part(window.ui_items@, scene.hits@, k);
}

/// On the tab bar beside its tabs, what is dropped goes behind all tabs.
pub proof fn beside_the_tabs_it_goes_last(
    window: TermWindow,
    source: DragDropSource,
    spot: Spot,
    scene: DropScene,
)
    requires
        on_bar(scene, spot),
        scene.hits@.len() == window.ui_items@.len(),
        forall|j: int|
            0 <= j < window.ui_items@.len() && scene.hits@[j] ==> !(
            #[trigger] window.ui_items@[j].item_type matches UIItemType::TabBar(
                TabBarItem::Tab { .. },
            )),
    ensures
        match scene.window_len {
            Some(len) => window.preview(source, spot, scene) is Some && window.preview(
                source,
                spot,
                scene,
            )->0.action == (DragDropAction::Merge { destination_index: len }),
            None => window.preview(source, spot, scene) is None,
        },
{
    termwindow::topmost_is_hit(window.ui_items@, scene.hits@);
    match termwindow::topmost(window.ui_items@, scene.hits@) {
        Some(item) => {
            let k = choose|k: int|
                0 <= k < window.ui_items@.len() && #[trigger] window.ui_items@[k] == item
                    && scene.hits@[k] && forall|j: int|
                    k < j < window.ui_items@.len() ==> !scene.hits@[j];
            assert(!(window.ui_items@[k].item_type matches UIItemType::TabBar(
                TabBarItem::Tab { .. },
            )));
        },
        None => {},
    }
}

/// Whether a part is a tab of the tab bar with the index.
pub open spec fn is_tab_at(item: UIItem, index: usize) -> bool {
    item.item_type matches UIItemType::TabBar(TabBarItem::Tab { tab_idx, .. }) && tab_idx == index
}

/// The first tab with the index, looked for from part `i` on.
proof fn the_first_tab_at(items: Seq<UIItem>, sides: Seq<Sides>, index: usize, k: int, i: nat)
    requires
        i <= k < items.len(),
        is_tab_at(items[k], index),
        forall|j: int| i <= j < k ==> !#[trigger] is_tab_at(items[j], index),
    ensures
        left_of_tab(items, sides, index, i) == Some(sides[k].left),
    decreases k - i,
{
    if i < k {
        assert(!is_tab_at(items[i as int], index));
        the_first_tab_at(items, sides, index, k, i + 1);
    }
}

/// Without a tab that has the index there is none to the left of which to go.
proof fn no_tab_at(items: Seq<UIItem>, sides: Seq<Sides>, index: usize, i: nat)
    requires
        forall|j: int| i <= j < items.len() ==> !#[trigger] is_tab_at(items[j], index),
    ensures
        left_of_tab(items, sides, index, i) is None,
    decreases items.len() - i,
{
    if i < items.len() {
        assert(!is_tab_at(items[i as int], index));
        no_tab_at(items, sides, index, i + 1);
    }
}

/// The right side of the last tab bounds those of all tabs, and is one of them.
proof fn the_rightmost_tab(items: Seq<UIItem>, sides: Seq<Sides>, n: nat)
    requires
        n <= items.len(),
    ensures
        right_of_tabs(items, sides, n) is Some <==> exists|j: int|
            0 <= j < n && is_tab(#[trigger] items[j]),
        right_of_tabs(items, sides, n) is Some ==> {
            &&& forall|j: int|
                0 <= j < n && is_tab(#[trigger] items[j]) ==> sides[j].right.rank
                    <= right_of_tabs(items, sides, n)->0.rank
            &&& exists|j: int|
                0 <= j < n && is_tab(#[trigger] items[j]) && sides[j].right == right_of_tabs(
                    items,
                    sides,
                    n,
                )->0
        },
    decreases n,
{
    if n > 0 {
        the_rightmost_tab(items, sides, (n - 1) as nat);
        let rest = right_of_tabs(items, sides, (n - 1) as nat);
        if is_tab(items[n - 1]) {
            assert(is_tab(items[n - 1]));
        }
        if rest is Some {
            let j = choose|j: int|
                0 <= j < n - 1 && is_tab(#[trigger] items[j]) && sides[j].right == rest->0;
            assert(is_tab(items[j]));
        }
    }
}

/// On the tab bar a marker as tall as the bar shows where the dropped thing goes:
/// at the left side of the first tab that has its index now, else behind the
/// rightmost tab, else at the front of the bar. Where that is outside the bar the
/// marker stays at the end of the bar.
pub proof fn the_marker_is_at_its_index(
    window: TermWindow,
    source: DragDropSource,
    spot: Spot,
    scene: DropScene,
)
    requires
        on_bar(scene, spot),
        scene.tab_bar->0.bounds.rect.x.rank <= scene.tab_bar->0.marker_limit.rank,
        0 <= scene.tab_bar->0.marker_limit.rank,
        window.preview(source, spot, scene) is Some,
    ensures
        ({
            let shown = window.preview(source, spot, scene)->0;
            let index = shown.action->destination_index;
            let items = window.ui_items@;
            let bar = scene.tab_bar->0;
            let low = bar.bounds.rect.x.rank;
            let high = bar.marker_limit.rank;
            &&& shown.action is Merge
            &&& shown.rect.y == bar.bounds.rect.y
            &&& shown.rect.height == bar.bounds.rect.height
            &&& shown.rect.width.rank == 0x4080_0000
            &&& low <= shown.rect.x.rank <= high
            &&& forall|k: int|
                {
                    &&& 0 <= k < items.len()
                    &&& is_tab_at(#[trigger] items[k], index)
                    &&& forall|j: int| 0 <= j < k ==> !#[trigger] is_tab_at(items[j], index)
                } ==> {
                    let left = scene.sides@[k].left.rank;
                    &&& low <= left <= high ==> shown.rect.x.rank == left
                    &&& left < low ==> shown.rect.x.rank == low
                    &&& left > high ==> shown.rect.x.rank == high
                }
            &&& (forall|j: int| 0 <= j < items.len() ==> !#[trigger] is_tab_at(items[j], index))
                ==> {
                &&& forall|j: int|
                    0 <= j < items.len() && (#[trigger] items[j]).item_type is TabBar
                        && items[j].item_type->TabBar_0 is Tab
                        && scene.sides@[j].right.rank <= high ==> scene.sides@[j].right.rank
                        <= shown.rect.x.rank
                &&& shown.rect.x.rank == low || shown.rect.x.rank == high || exists|j: int|
                    0 <= j < items.len() && (#[trigger] items[j]).item_type is TabBar
                        && items[j].item_type->TabBar_0 is Tab
                        && scene.sides@[j].right.rank == shown.rect.x.rank
            }
        }),
{
    let shown = window.preview(source, spot, scene)->0;
    let index = shown.action->destination_index;
    let items = window.ui_items@;
    let bar = scene.tab_bar->0;
    let low = bar.bounds.rect.x.rank;
    let high = bar.marker_limit.rank;
    assert forall|k: int|
        {
            &&& 0 <= k < items.len()
            &&& is_tab_at(#[trigger] items[k], index)
            &&& forall|j: int| 0 <= j < k ==> !#[trigger] is_tab_at(items[j], index)
        } implies {
        let left = scene.sides@[k].left.rank;
        &&& low <= left <= high ==> shown.rect.x.rank == left
        &&& left < low ==> shown.rect.x.rank == low
        &&& left > high ==> shown.rect.x.rank == high
    } by {
        the_first_tab_at(items, scene.sides@, index, k, 0);
    }
    if forall|j: int| 0 <= j < items.len() ==> !#[trigger] is_tab_at(items[j], index) {
        no_tab_at(items, scene.sides@, index, 0);
        the_rightmost_tab(items, scene.sides@, items.len());
    }
}

/// A part is a tab exactly if it is one of the tab bar, and its index is the one it has
/// there.
pub proof fn tabs_have_their_index(item: UIItem, index: usize, active: bool)
    ensures
        item.item_type == UIItemType::TabBar(TabBarItem::Tab { tab_idx: index, active }) ==> is_tab(
            item,
        ) && tab_index(item) == index,
        is_tab(item) ==> item.item_type == UIItemType::TabBar(
            TabBarItem::Tab { tab_idx: tab_index(item), active: item.item_type->TabBar_0->active },
        ),
{
}

/// A tab of another window that does not split the pane under the mouse, because the edge
/// nearest to it leaves no room, becomes a tab of this window all the same.
pub proof fn a_tab_without_room_merges(
    window: TermWindow,
    tab_id: usize,
    spot: Spot,
    scene: DropScene,
    k: int,
)
    requires
        !on_bar(scene, spot),
        scene.window_len is Some,
        scene.active_tab is Some,
        scene.active_tab != Some(tab_id),
        scene.source_window != Some(window.mux_window_id),
        0 <= k < scene.panes@.len(),
        covers(scene.panes@[k], spot),
        forall|j: int| 0 <= j < k ==> !#[trigger] covers(scene.panes@[j], spot),
    ensures
        ({
            let shown = window.preview(DragDropSource::Tab(tab_id), spot, scene);
            &&& shown is Some
            &&& shown->0.action is Merge ==> shown->0.action == (DragDropAction::Merge {
                destination_index: scene.window_len->0,
            }) && shown->0.rect == scene.panes@[k].bounds.rect
        }),
{
    the_first_cover(scene.panes@, spot, k, 0);
}

} // verus!
