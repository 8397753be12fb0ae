//! The parts of the window that react to the mouse, and the drags that start on
//! them.

use vstd::prelude::*;
use crate::geometry;
use crate::geometry::{difference, Point, RectF, Size};
use crate::input::MouseEvent;

verus! {

/// A button of the window frame that is drawn in the tab bar.
#[derive(Clone, Copy, Debug, PartialEq, Eq, Structural)]
pub enum IntegratedTitleButton {
    Hide,
    Maximize,
    Close,
}

/// A part of the tab bar.
#[derive(Clone, Copy, Debug, PartialEq, Eq, Structural)]
pub enum TabBarItem {
    /// The empty part of the bar.
    Blank,
    LeftStatus,
    RightStatus,
    Tab { tab_idx: usize, active: bool },
    NewTabButton,
    WindowButton(IntegratedTitleButton),
}

/// Which way a split divides its area: side by side, or one above the other.
#[derive(Clone, Copy, Debug, PartialEq, Eq, Structural)]
pub enum SplitDirection {
    Horizontal,
    Vertical,
}

/// The line between two panes, in cells.
#[derive(Clone, Copy, Debug, PartialEq, Eq, Structural)]
pub struct PositionedSplit {
    pub index: usize,
    pub direction: SplitDirection,
    pub left: usize,
    pub top: usize,
    pub size: usize,
}

/// What a part of the window is.
#[derive(Clone, Copy, Debug, PartialEq, Eq, Structural)]
pub enum UIItemType {
    TabBar(TabBarItem),
    CloseTab(usize),
    AboveScrollThumb,
    ScrollThumb,
    BelowScrollThumb,
    Split(PositionedSplit),
    PaneDragHandle(usize),
}

/// A part of the window that reacts to the mouse.
#[derive(Clone, Copy, Debug, PartialEq, Eq, Structural)]
pub struct UIItem {
    pub x: usize,
    pub y: usize,
    pub width: usize,
    pub height: usize,
    pub item_type: UIItemType,
}

impl UIItem {
    /// The part lies where signed pixel positions reach, and so do the indices
    /// it carries.
    pub open spec fn well_formed(self) -> bool {
        &&& self.x + self.width <= isize::MAX
        &&& self.y + self.height <= isize::MAX
        &&& match self.item_type {
            UIItemType::TabBar(TabBarItem::Tab { tab_idx, .. }) => tab_idx < isize::MAX,
            UIItemType::Split(split) => split.left <= isize::MAX && split.top <= isize::MAX,
            _ => true,
        }
    }

    /// Where in the part a point lies. Far outside, the distance saturates.
    pub open spec fn offset(self, p: Point) -> Point {
        Point {
            x: geometry::clip(p.x - self.x),
            y: geometry::clip(p.y - self.y),
        }
    }

    /// Where in the part a point lies.
    pub fn offset_of(&self, p: Point) -> (r: Point)
        requires
            self.well_formed(),
        ensures
            r == self.offset(p),
    {
        Point {
            x: difference(p.x, self.x as isize),
            y: difference(p.y, self.y as isize),
        }
    }

    /// The size of the part.
    pub open spec fn extent(self) -> Size {
        Size { width: self.width as isize, height: self.height as isize }
    }

    /// The size of the part.
    pub fn size(&self) -> (r: Size)
        requires
            self.well_formed(),
        ensures
            r == self.extent(),
    {
        Size { width: self.width as isize, height: self.height as isize }
    }
}

/// Who receives the mouse until its buttons are released.
#[derive(Clone, Copy, Debug, PartialEq, Eq, Structural)]
pub enum MouseCapture {
    UI,
    TerminalPane(usize),
}

/// What is being dragged.
#[derive(Clone, Copy, Debug, PartialEq, Eq, Structural)]
pub enum DragDropSource {
    Tab(usize),
    Pane { pane_id: usize, tab_id: usize },
}

impl DragDropSource {
    /// The tab that is dragged, or that holds the pane.
    pub open spec fn tab(self) -> usize {
        match self {
            DragDropSource::Tab(tab_id) => tab_id,
            DragDropSource::Pane { tab_id, .. } => tab_id,
        }
    }

    /// The tab that is dragged, or that holds the pane.
    pub fn tab_id(self) -> (r: usize)
        ensures
            r == self.tab(),
    {
        match self {
            DragDropSource::Tab(tab_id) => tab_id,
            DragDropSource::Pane { tab_id, .. } => tab_id,
        }
    }
}

/// How much of a split pane the new pane gets.
#[derive(Clone, Copy, Debug, PartialEq, Eq, Structural)]
pub enum SplitSize {
    Cells(usize),
    Percent(u8),
}

/// How a pane is to be split.
#[derive(Clone, Copy, Debug, PartialEq, Eq, Structural)]
pub struct SplitRequest {
    pub direction: SplitDirection,
    pub target_is_second: bool,
    pub top_level: bool,
    pub size: SplitSize,
}

/// What dropping would do.
#[derive(Clone, Copy, Debug, PartialEq, Eq, Structural)]
pub enum DragDropAction {
    /// Become a tab of the window.
    Merge { destination_index: usize },
    /// Share the area of a pane.
    Split { target_pane_id: usize, request: SplitRequest },
}

/// What dropping would do, and the area that shows it.
#[derive(Clone, Copy, Debug, PartialEq, Eq, Structural)]
pub struct DragDropPreview {
    pub action: DragDropAction,
    pub rect: RectF,
}

/// A pane that is being dragged by its handle.
#[derive(Clone, Copy, Debug, PartialEq, Eq, Structural)]
pub struct PaneDragState {
    pub pane_id: usize,
    pub source_tab_id: usize,
    pub start_event: MouseEvent,
    pub grab_offset: Point,
    pub dragged_size: Size,
    pub current_coords: Point,
    /// The other window that shows where the pane would go.
    pub preview_window: Option<usize>,
    /// The tab to show instead of the one that the pane is dragged out of.
    pub same_window_target_tab_id: Option<usize>,
    pub started: bool,
}

/// A tab that is being dragged.
#[derive(Clone, Copy, Debug, PartialEq, Eq, Structural)]
pub struct TabDragState {
    pub tab_id: usize,
    pub start_event: MouseEvent,
    pub grab_offset: Point,
    pub dragged_size: Size,
    pub current_coords: Point,
    /// The other window that shows where the tab would go.
    pub preview_window: Option<usize>,
    /// The tab to show instead of the dragged one.
    pub same_window_target_tab_id: Option<usize>,
    pub started: bool,
}

/// The tabs of a window, in order.
pub struct TabStrip {
    pub tabs: Vec<usize>,
    /// The index of the tab that was active before the active one.
    pub last_active: Option<usize>,
}

/// The first tab of `tabs`, from index `i` on, that is not `tab_id`.
pub open spec fn first_other(tabs: Seq<usize>, tab_id: usize, i: nat) -> Option<usize>
    decreases tabs.len() - i,
{
    if i >= tabs.len() {
        None
    } else if tabs[i as int] != tab_id {
        Some(tabs[i as int])
    } else {
        first_other(tabs, tab_id, i + 1)
    }
}

/// The index of `tab_id` in `tabs`, from index `i` on.
pub open spec fn index_from(tabs: Seq<usize>, tab_id: usize, i: nat) -> Option<usize>
    decreases tabs.len() - i,
{
    if i >= tabs.len() {
        None
    } else if tabs[i as int] == tab_id {
        Some(i as usize)
    } else {
        index_from(tabs, tab_id, i + 1)
    }
}

impl TabStrip {
    /// The tab that was active before the active one, where there still is one.
    pub open spec fn previous(self) -> Option<usize> {
        match self.last_active {
            Some(i) => if i < self.tabs@.len() {
                Some(self.tabs@[i as int])
            } else {
                None
            },
            None => None,
        }
    }

    /// The tab to show in place of `tab_id`: the one that was active before, or
    /// the first other one.
    pub open spec fn substitute(self, tab_id: usize) -> Option<usize> {
        if self.previous() is Some && self.previous() != Some(tab_id) {
            self.previous()
        } else {
            first_other(self.tabs@, tab_id, 0)
        }
    }

    /// The tab to show in place of `tab_id`.
    pub fn substitute_for(&self, tab_id: usize) -> (r: Option<usize>)
        ensures
            r == self.substitute(tab_id),
    {
        if let Some(i) = self.last_active {
            if i < self.tabs.len() && self.tabs[i] != tab_id {
                return Some(self.tabs[i]);
            }
        }
        let mut i: usize = 0;
        while i < self.tabs.len()
            invariant
                i <= self.tabs@.len(),
                self.substitute(tab_id) == first_other(self.tabs@, tab_id, i as nat),
            decreases self.tabs@.len() - i,
        {
            if self.tabs[i] != tab_id {
                return Some(self.tabs[i]);
            }
            i = i + 1;
        }
        None
    }

    /// The index of a tab.
    pub fn index_of(&self, tab_id: usize) -> (r: Option<usize>)
        ensures
            r == index_from(self.tabs@, tab_id, 0),
    {
        let mut i: usize = 0;
        while i < self.tabs.len()
            invariant
                i <= self.tabs@.len(),
                index_from(self.tabs@, tab_id, 0) == index_from(self.tabs@, tab_id, i as nat),
            decreases self.tabs@.len() - i,
        {
            if self.tabs[i] == tab_id {
                return Some(i);
            }
            i = i + 1;
        }
        None
    }
}

/// A tab is found where it first stands, and only if it is there.
pub proof fn index_is_the_first(tabs: Seq<usize>, tab_id: usize, i: nat)
    requires
        tabs.len() <= usize::MAX,
    ensures
        match index_from(tabs, tab_id, i) {
            Some(k) => i <= k < tabs.len() && tabs[k as int] == tab_id && forall|j: int|
                i <= j < k ==> tabs[j] != tab_id,
            None => forall|j: int| i <= j < tabs.len() ==> tabs[j] != tab_id,
        },
    decreases tabs.len() - i,
{
    if i < tabs.len() && tabs[i as int] != tab_id {
        index_is_the_first(tabs, tab_id, i + 1);
    }
}

/// The first other tab is indeed another one, and stands before all others.
proof fn first_other_is_first(tabs: Seq<usize>, tab_id: usize, i: nat)
    ensures
        match first_other(tabs, tab_id, i) {
            Some(t) => t != tab_id && exists|k: int|
                i <= k < tabs.len() && #[trigger] tabs[k] == t && forall|j: int|
                    i <= j < k ==> tabs[j] == tab_id,
            None => forall|j: int| i <= j < tabs.len() ==> tabs[j] == tab_id,
        },
    decreases tabs.len() - i,
{
    if i < tabs.len() {
        if tabs[i as int] == tab_id {
            first_other_is_first(tabs, tab_id, i + 1);
            match first_other(tabs, tab_id, i + 1) {
                Some(t) => {
                    let k = choose|k: int|
                        i + 1 <= k < tabs.len() && #[trigger] tabs[k] == t && forall|j: int|
                            i + 1 <= j < k ==> tabs[j] == tab_id;
                    assert(tabs[k] == t);
                },
                None => {},
            }
        } else {
            assert(tabs[i as int] == first_other(tabs, tab_id, i)->0);
        }
    }
}

/// A tab is never shown in place of itself, the substitute is a tab of the
/// window, and only a window with no other tab has none.
pub proof fn a_substitute_is_another_tab(strip: TabStrip, tab_id: usize)
    ensures
        strip.substitute(tab_id) != Some(tab_id),
        strip.substitute(tab_id) is Some ==> strip.tabs@.contains(strip.substitute(tab_id)->0),
        strip.substitute(tab_id) is None ==> forall|t: usize|
            #[trigger] strip.tabs@.contains(t) ==> t == tab_id,
{
    first_other_is_first(strip.tabs@, tab_id, 0);
    if strip.previous() is Some {
        assert(strip.tabs@.contains(strip.tabs@[strip.last_active->0 as int]));
    }
}

/// Where in a part a point lies, told from the corner of the part: together with the
/// corner it makes up the point.
pub proof fn offsets_are_told_from_the_corner(item: UIItem, p: Point)
    requires
        item.well_formed(),
        isize::MIN <= p.x - item.x,
        isize::MIN <= p.y - item.y,
    ensures
        item.x + item.offset(p).x == p.x,
        item.y + item.offset(p).y == p.y,
        item.extent().width == item.width,
        item.extent().height == item.height,
{
}

/// The tab to show in place of another is the one that was active before, as long as it
/// is still there and is not that one; else it is the first tab that is not.
pub proof fn the_tab_before_is_shown_instead(strip: TabStrip, tab_id: usize)
    ensures
        ({
            let before = strip.last_active is Some && strip.last_active->0 < strip.tabs@.len()
                && strip.tabs@[strip.last_active->0 as int] != tab_id;
            &&& before ==> strip.substitute(tab_id) == Some(
                strip.tabs@[strip.last_active->0 as int],
            )
            &&& !before && strip.substitute(tab_id) is Some ==> exists|k: int|
                0 <= k < strip.tabs@.len() && #[trigger] strip.tabs@[k] == strip.substitute(
                    tab_id,
                )->0 && strip.tabs@[k] != tab_id && forall|j: int|
                    0 <= j < k ==> strip.tabs@[j] == tab_id
            &&& !before && strip.substitute(tab_id) is None ==> forall|j: int|
                0 <= j < strip.tabs@.len() ==> strip.tabs@[j] == tab_id
        }),
{
    first_other_is_first(strip.tabs@, tab_id, 0);
}

/// What is dragged belongs to the tab that is dragged, or that holds the pane.
pub proof fn a_source_has_its_tab(pane_id: usize, tab_id: usize)
    ensures
        DragDropSource::Tab(tab_id).tab() == tab_id,
        (DragDropSource::Pane { pane_id, tab_id }).tab() == tab_id,
{
}

} // verus!
