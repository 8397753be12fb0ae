//! What is painted, and in which order: the panes, the tab bar, and what shows
//! a drag.
//!
//! Every function returns its steps in the order in which they are to be taken.

use vstd::prelude::*;
use crate::cursor::{DeadKey, StableCursorPosition};
use crate::dropping::Edge;
use crate::geometry::{Point, RectF, Size};
use crate::termwindow::{TermWindow, WindowFrame};
use crate::ui::{UIItem, UIItemType};

verus! {

/// How wide the handle of a pane is, in pixels, where the pane has the room.
pub const PANE_DRAG_HANDLE_WIDTH_PIXELS: usize = 24;

/// How tall the handle of a pane is, in pixels, where the pane has the room.
pub const PANE_DRAG_HANDLE_HEIGHT_PIXELS: usize = 18;

/// How far the handle of a pane is from its edges, in pixels, where the pane has
/// the room.
pub const PANE_DRAG_HANDLE_INSET_PIXELS: usize = 6;

/// The settings that painting goes by.
#[derive(Clone, Copy, Debug, PartialEq, Eq, Structural)]
pub struct PaintSettings {
    pub use_box_model_render: bool,
    pub show_scroll_bar: bool,
    /// Whether the window has no background of its own.
    pub window_background_is_empty: bool,
    /// Whether the background is fully opaque.
    pub window_background_is_opaque: bool,
    pub cursor_smear_duration_ms: u64,
    pub detect_password_input: bool,
}

impl PaintSettings {
    /// Whether something behind the window shows through.
    pub open spec fn transparent(self) -> bool {
        !self.window_background_is_empty || !self.window_background_is_opaque
    }

    /// Whether something behind the window shows through.
    pub fn window_is_transparent(&self) -> (r: bool)
        ensures
            r == self.transparent(),
    {
        !self.window_background_is_empty || !self.window_background_is_opaque
    }
}

/// What is known of a pane that is painted.
#[derive(Clone, Copy, Debug, PartialEq, Eq, Structural)]
pub struct PaintedPane {
    pub is_active: bool,
    /// In cells.
    pub left: usize,
    pub top: usize,
    pub width: usize,
    pub height: usize,
    /// The row at its top while it is not scrolled back.
    pub physical_top: isize,
    /// The row at its top while it is.
    pub viewport: Option<isize>,
    /// How many rows are in view.
    pub viewport_rows: usize,
    /// Whether the bell shows in the background.
    pub bell_is_ringing: bool,
}

/// The tab bar needs a font that could not be loaded.
#[derive(Clone, Copy, Debug, PartialEq, Eq, Structural)]
pub struct NoTitleFont;

/// A line across the window: so many half pixels from the edge of the window, or
/// from the padding at that edge.
#[derive(Clone, Copy, Debug, PartialEq, Eq, Structural)]
pub struct Offset {
    pub padded: bool,
    pub half_pixels: isize,
}

/// The area of a pane: the lines at its four sides.
#[derive(Clone, Copy, Debug, PartialEq, Eq, Structural)]
pub struct PaneArea {
    pub left: Offset,
    pub top: Offset,
    pub right: Offset,
    pub bottom: Offset,
}

/// How a pane is laid out: the area of its background, and that of its cells.
#[derive(Clone, Copy, Debug, PartialEq, Eq, Structural)]
pub struct PaneLayout {
    pub background: PaneArea,
    pub content: PaneArea,
    /// Whether the background is painted in the pane's own colour.
    pub own_background: bool,
}

/// How the bell colours the background.
#[derive(Clone, Copy, Debug, PartialEq, Eq, Structural)]
pub enum BellBlend {
    /// The colour of the bell, as opaque as the bell is loud.
    Fade,
    /// A colour between that of the background and that of the bell.
    Mix,
}

/// A step of painting a pane.
#[derive(Clone, Copy, Debug, PartialEq, Eq, Structural)]
pub enum PaneStep {
    /// Paint the pane as a box, and nothing else.
    BoxModel,
    /// Drop a selection whose lines have changed.
    CheckDirtyLines,
    /// Give up: the height of the tab bar is not known.
    Fail,
    /// Note where the text cursor is.
    UpdatePrevCursor,
    FillBackground { area: PaneArea, dimmed: bool },
    FillBell { area: PaneArea, blend: BellBlend, dimmed: bool },
    /// Find the scroll thumb, then register and paint the scroll bar.
    ScrollBar { thumb_y_offset: usize, track_height: usize },
    ApplyHyperlinks { first: isize, end: isize },
    RenderLines { first: isize, end: isize },
    CursorSmear { viewport_top: isize },
}

/// The scroll thumb in its bar, in pixels.
#[derive(Clone, Copy, Debug, PartialEq, Eq, Structural)]
pub struct Thumb {
    pub top: usize,
    pub height: usize,
}

/// A step of painting the tab bar.
#[derive(Clone, Copy, Debug, PartialEq, Eq, Structural)]
pub enum TabBarStep {
    BuildFancy,
    PaintFancy,
    Fail,
    /// Register the parts of the bar.
    RegisterItems { y: usize, cell_height: usize, cell_width: usize },
    RenderLine { y: usize, cols: usize, transparent: bool },
}

/// A step of painting what shows a drag.
#[derive(Clone, Copy, Debug, PartialEq, Eq, Structural)]
pub enum DragStep {
    FillPreview(RectF),
    /// Paint a border of the preview, inside it.
    FillBorder { rect: RectF, edge: Edge },
    /// Paint what is being dragged.
    FillGhost { at: Point, size: Size },
}

/// The handle of a pane, in pixels from the top left corner of the pane.
#[derive(Clone, Copy, Debug, PartialEq, Eq, Structural)]
pub struct Handle {
    pub x: usize,
    pub y: usize,
    pub width: usize,
    pub height: usize,
}

/// What is known of a pane whose handle is painted.
#[derive(Clone, Copy, Debug, PartialEq, Eq, Structural)]
pub struct HandlePane {
    pub pane_id: usize,
    pub is_active: bool,
    /// In pixels.
    pub pane_width: usize,
    pub pane_height: usize,
    /// Where in the window the handle lies, in whole pixels.
    pub handle_x: usize,
    pub handle_y: usize,
}

/// How the handle of a pane is painted.
#[derive(Clone, Copy, Debug, PartialEq, Eq, Structural)]
pub enum HandleLook {
    /// It stands out: the mouse is on it, or it is being dragged.
    Highlighted,
    /// It is faint: the pane is active.
    Idle,
}

/// A handle to paint: the pane, by its place among the panes, and its look.
#[derive(Clone, Copy, Debug, PartialEq, Eq, Structural)]
pub struct HandleStep {
    pub pane: usize,
    pub handle: Handle,
    pub look: HandleLook,
}

/// Whether the parts lie where they can be reached.
pub open spec fn all_well_formed(items: Seq<UIItem>) -> bool {
    forall|i: int| 0 <= i < items.len() ==> (#[trigger] items[i]).well_formed()
}

/// Whether a cached line can be painted again as it is. It cannot once it has
/// expired, nor, where it shows which link is under the mouse, once that has
/// changed. Times are in nanoseconds.
pub fn cached_line_is_valid(
    expires: Option<u128>,
    now: u128,
    invalidate_on_hover_change: bool,
    same_highlight: bool,
) -> (r: bool)
    ensures
        r == ((expires is None || now < expires->0) && (!invalidate_on_hover_change
            || same_highlight)),
{
    let expired = match expires {
        Some(at) => now >= at,
        None => false,
    };
    let hover_changed = invalidate_on_hover_change && !same_highlight;
    !expired && !hover_changed
}

/// What of the state of the window a line depends on.
pub struct LineScene {
    pub is_active: bool,
    pub cols: usize,
    pub cursor: StableCursorPosition,
    pub dead_key: DeadKey,
    /// The text that is being composed, while it is.
    pub composition: String,
    pub leader_is_active: bool,
    pub detect_password_input: bool,
    /// What the program says about reading a password.
    pub password_input: Option<bool>,
}

/// How a line is painted.
pub struct LinePlan {
    pub stable_row: isize,
    /// The columns of the selection, up to the second.
    pub selection: (usize, usize),
    /// The cursor, with its row counted from the line.
    pub cursor: Option<StableCursorPosition>,
    /// Whether a dead key or the leader key is down, for the cursor.
    pub dead_key_or_leader: bool,
    /// The text that is being composed at the cursor.
    pub composing: Option<String>,
    pub password_input: bool,
}

impl LineScene {
    /// Whether the line is that of the cursor.
    pub open spec fn on_line(self, stable_row: int) -> bool {
        self.cursor.y == stable_row
    }

    /// How line `line_idx` of a block of lines that starts at row `stable_top`
    /// is painted. `selected` are the columns of the selection in it, if there
    /// is a selection.
    pub fn render_line(&self, stable_top: isize, line_idx: usize, selected: Option<(usize, usize)>) -> (r:
        LinePlan)
        requires
            line_idx <= isize::MAX,
            stable_top + line_idx <= isize::MAX,
        ensures
            r.stable_row == stable_top + line_idx,
            r.selection == (match selected {
                Some((start, end)) => (
                    start,
                    if end < self.cols {
                        end
                    } else {
                        self.cols
                    },
                ),
                None => (0, 0),
            }),
            ({
                let here = self.on_line(stable_top + line_idx);
                &&& r.cursor == (if here {
                    Some(StableCursorPosition { y: 0, ..self.cursor })
                } else {
                    None
                })
                &&& r.dead_key_or_leader == (here && (self.dead_key !is Idle
                    || self.leader_is_active))
                &&& r.composing is Some <==> here && self.is_active && self.dead_key is Composing
                &&& r.composing is Some ==> r.composing->0@ == self.composition@
                &&& r.password_input == (here && self.detect_password_input && self.password_input
                    == Some(true))
            }),
    {
        let stable_row: isize = stable_top + line_idx as isize;
        let selection: (usize, usize) = match selected {
            Some((start, end)) => if end < self.cols {
                (start, end)
            } else {
                (start, self.cols)
            },
            None => (0, 0),
        };
        if self.cursor.y == stable_row {
            let composing_now = match self.dead_key {
                DeadKey::Composing => self.is_active,
                DeadKey::Idle | DeadKey::Holding => false,
            };
            let dead_key_down = match self.dead_key {
                DeadKey::Idle => false,
                DeadKey::Holding | DeadKey::Composing => true,
            };
            let password_input = if self.detect_password_input {
                match self.password_input {
                    Some(flag) => flag,
                    None => false,
                }
            } else {
                false
            };
            let mut cursor = self.cursor;
            cursor.y = 0;
            LinePlan {
                stable_row,
                selection,
                cursor: Some(cursor),
                dead_key_or_leader: dead_key_down || self.leader_is_active,
                composing: if composing_now {
                    Some(self.composition.clone())
                } else {
                    None
                },
                password_input,
            }
        } else {
            LinePlan {
                stable_row,
                selection,
                cursor: None,
                dead_key_or_leader: false,
                composing: None,
                password_input: false,
            }
        }
    }
}

/// The handle of a pane of the given size: at the top right, inside the pane,
/// and as large as the pane has room for. None where the pane has no area.
pub open spec fn handle_of(pane_width: usize, pane_height: usize) -> Option<Handle> {
    if pane_width == 0 || pane_height == 0 {
        None
    } else {
        let width = if pane_width < PANE_DRAG_HANDLE_WIDTH_PIXELS {
            pane_width
        } else {
            PANE_DRAG_HANDLE_WIDTH_PIXELS
        };
        let height = if pane_height < PANE_DRAG_HANDLE_HEIGHT_PIXELS {
            pane_height
        } else {
            PANE_DRAG_HANDLE_HEIGHT_PIXELS
        };
        Some(
            Handle {
                x: if pane_width - width > PANE_DRAG_HANDLE_INSET_PIXELS {
                    (pane_width - width - PANE_DRAG_HANDLE_INSET_PIXELS) as usize
                } else {
                    0
                },
                y: if pane_height - height < PANE_DRAG_HANDLE_INSET_PIXELS {
                    (pane_height - height) as usize
                } else {
                    PANE_DRAG_HANDLE_INSET_PIXELS
                },
                width,
                height,
            },
        )
    }
}

/// The handle of a pane of the given size.
pub fn pane_drag_handle(pane_width: usize, pane_height: usize) -> (r: Option<Handle>)
    ensures
        r == handle_of(pane_width, pane_height),
{
    if pane_width == 0 || pane_height == 0 {
        return None;
    }
    let width: usize = if pane_width < PANE_DRAG_HANDLE_WIDTH_PIXELS {
        pane_width
    } else {
        PANE_DRAG_HANDLE_WIDTH_PIXELS
    };
    let height: usize = if pane_height < PANE_DRAG_HANDLE_HEIGHT_PIXELS {
        pane_height
    } else {
        PANE_DRAG_HANDLE_HEIGHT_PIXELS
    };
    let x: usize = (pane_width - width).saturating_sub(PANE_DRAG_HANDLE_INSET_PIXELS);
    let y: usize = if pane_height - height < PANE_DRAG_HANDLE_INSET_PIXELS {
        pane_height - height
    } else {
        PANE_DRAG_HANDLE_INSET_PIXELS
    };
    Some(Handle { x, y, width, height })
}

/// The handle lies inside the pane.
pub proof fn the_handle_is_inside(pane_width: usize, pane_height: usize)
    requires
        pane_width > 0,
        pane_height > 0,
    ensures
        handle_of(pane_width, pane_height) is Some,
        ({
            let handle = handle_of(pane_width, pane_height)->0;
            &&& handle.width > 0 && handle.height > 0
            &&& handle.x + handle.width <= pane_width
            &&& handle.y + handle.height <= pane_height
        }),
{
}

/// The part of the window that the handle of a pane is.
pub open spec fn handle_item(pane: HandlePane) -> UIItem {
    UIItem {
        x: pane.handle_x,
        y: pane.handle_y,
        width: handle_of(pane.pane_width, pane.pane_height)->0.width,
        height: handle_of(pane.pane_width, pane.pane_height)->0.height,
        item_type: UIItemType::PaneDragHandle(pane.pane_id),
    }
}

/// The handles of the first `n` panes, as parts of the window.
pub open spec fn handle_items(panes: Seq<HandlePane>, n: nat) -> Seq<UIItem>
    decreases n,
{
    if n == 0 {
        seq![]
    } else {
        let rest = handle_items(panes, (n - 1) as nat);
        let pane = panes[n - 1];
        if handle_of(pane.pane_width, pane.pane_height) is Some {
            rest.push(handle_item(pane))
        } else {
            rest
        }
    }
}

/// The line at cell `n`, in half pixels from the padding, behind a border of
/// `inset` pixels. `last` is at most one less than the last cell that fits.
fn line_at(inset: usize, cell: isize, n: usize, last: usize) -> (r: isize)
    requires
        cell > 0,
        n <= last + 1,
        last < isize::MAX,
        2 * inset <= isize::MAX,
        2 * inset + 2 * ((last + 1) * cell) <= isize::MAX,
    ensures
        r == 2 * inset - cell + 2 * (n * cell),
{
    proof {
        let rest = last + 1 - n;
        assert((last + 1) * cell == n * cell + rest * cell) by (nonlinear_arith)
            requires
                rest == last + 1 - n,
        ;
        assert(0 <= rest * cell) by (nonlinear_arith)
            requires
                0 <= rest,
                0 < cell,
        ;
        assert(0 <= n * cell) by (nonlinear_arith)
            requires
                0 < cell,
        ;
    }
    2 * inset as isize - cell + 2 * (n as isize * cell)
}

/// Adds a step, if it is to be taken.
fn add_if(steps: &mut Vec<PaneStep>, taken: bool, step: PaneStep)
    ensures
        final(steps)@ == old(steps)@ + (if taken {
            seq![step]
        } else {
            seq![]
        }),
{
    let ghost before = steps@;
    if taken {
        steps.push(step);
    }
    assert(steps@ =~= before + (if taken {
        seq![step]
    } else {
        seq![]
    }));
}

impl TermWindow {
    /// The height of the tab bar. The fancy one takes it from its font;
    /// `title_height` is what the font asks for, if it could be loaded.
    pub fn tab_bar_pixel_height_impl(
        use_fancy_tab_bar: bool,
        title_height: Option<usize>,
        cell_height: usize,
    ) -> (r: Result<usize, NoTitleFont>)
        ensures
            match r {
                Ok(height) => if use_fancy_tab_bar {
                    title_height == Some(height)
                } else {
                    height == cell_height
                },
                Err(_) => use_fancy_tab_bar && title_height is None,
            },
    {
        if use_fancy_tab_bar {
            match title_height {
                Some(height) => Ok(height),
                None => Err(NoTitleFont),
            }
        } else {
            Ok(cell_height)
        }
    }

    /// The height of the tab bar of this window.
    pub fn tab_bar_pixel_height(&self, title_height: Option<usize>) -> (r: Result<
        usize,
        NoTitleFont,
    >)
        requires
            self.well_formed(),
        ensures
            match r {
                Ok(height) => if self.config.use_fancy_tab_bar {
                    title_height == Some(height)
                } else {
                    height == self.cell_height
                },
                Err(_) => self.config.use_fancy_tab_bar && title_height is None,
            },
    {
        Self::tab_bar_pixel_height_impl(
            self.config.use_fancy_tab_bar,
            title_height,
            self.cell_height as usize,
        )
    }

    /// The pixel row that the tab bar starts at.
    pub open spec fn bar_y(self, height: int, border_top: int, border_bottom: int) -> int {
        if self.config.tab_bar_at_bottom {
            if self.pixel_height > height + border_bottom {
                self.pixel_height - (height + border_bottom)
            } else {
                0
            }
        } else {
            border_top
        }
    }

    /// The pixel row that the tab bar starts at.
    pub fn tab_bar_y(&self, height: usize, border_top: usize, border_bottom: usize) -> (r: usize)
        requires
            height + border_bottom <= usize::MAX,
        ensures
            r == self.bar_y(height as int, border_top as int, border_bottom as int),
    {
        if self.config.tab_bar_at_bottom {
            self.pixel_height.saturating_sub(height + border_bottom)
        } else {
            border_top
        }
    }

    /// Where tabs can be dropped on the tab bar: its top row, its width and its
    /// height. None where there is no bar, or its height is not known.
    pub fn tab_bar_drop_bounds(
        &self,
        height: Option<usize>,
        border_top: usize,
        border_bottom: usize,
    ) -> (r: Option<(usize, usize, usize)>)
        requires
            height is Some ==> height->0 + border_bottom <= usize::MAX,
        ensures
            r == (if self.show_tab_bar && height is Some {
                Some(
                    (
                        self.bar_y(
                            height->0 as int,
                            border_top as int,
                            border_bottom as int,
                        ) as usize,
                        self.pixel_width,
                        height->0,
                    ),
                )
            } else {
                None
            }),
    {
        if !self.show_tab_bar {
            return None;
        }
        match height {
            Some(height) => Some(
                (self.tab_bar_y(height, border_top, border_bottom), self.pixel_width, height),
            ),
            None => None,
        }
    }

    /// Adds parts of the window, above those that it has.
    pub fn register_ui_items(&mut self, items: Vec<UIItem>)
        requires
            old(self).well_formed(),
            all_well_formed(items@),
        ensures
            final(self).well_formed(),
            final(self).ui_items@ == old(self).ui_items@ + items@,
            *final(self) == (TermWindow { ui_items: final(self).ui_items, ..*old(self) }),
    {
        let mut items = items;
        self.ui_items.append(&mut items);
    }

    /// How far the first line of cells is from the top padding, in pixels.
    pub open spec fn top_inset(self, frame: WindowFrame) -> int {
        self.scroll_top(frame)
    }

    /// The line at the left of cell column `col`, in half pixels from the
    /// padding: half a cell beyond the column, where a split would be drawn.
    pub open spec fn column_line(self, frame: WindowFrame, col: int) -> int {
        2 * frame.border_left - self.cell_width + 2 * (col * self.cell_width)
    }

    /// The line at the top of cell row `row`, in half pixels from the padding.
    pub open spec fn row_line(self, frame: WindowFrame, row: int) -> int {
        2 * self.top_inset(frame) - self.cell_height + 2 * (row * self.cell_height)
    }

    /// The area of a pane's background. It goes all the way to the edges of the
    /// window that the pane lies at, and to the middle of the splits elsewhere.
    /// `cols` is the number of columns of the terminal.
    pub open spec fn background_area(
        self,
        pane: PaintedPane,
        cols: usize,
        frame: WindowFrame,
    ) -> PaneArea {
        PaneArea {
            left: if pane.left == 0 {
                Offset { padded: false, half_pixels: 0 }
            } else {
                Offset {
                    padded: true,
                    half_pixels: self.column_line(frame, pane.left as int) as isize,
                }
            },
            top: if pane.top == 0 {
                Offset { padded: false, half_pixels: (2 * self.top_inset(frame)) as isize }
            } else {
                Offset {
                    padded: true,
                    half_pixels: self.row_line(frame, pane.top as int) as isize,
                }
            },
            right: if pane.left + pane.width >= cols {
                Offset { padded: false, half_pixels: (2 * self.pixel_width) as isize }
            } else {
                Offset {
                    padded: true,
                    half_pixels: self.column_line(
                        frame,
                        pane.left + pane.width + 1,
                    ) as isize,
                }
            },
            bottom: if pane.top + pane.height >= self.rows {
                Offset { padded: false, half_pixels: (2 * self.pixel_height) as isize }
            } else {
                Offset {
                    padded: true,
                    half_pixels: self.row_line(frame, pane.top + pane.height + 1) as isize,
                }
            },
        }
    }

    /// The area of a pane's cells.
    pub open spec fn content_area(self, pane: PaintedPane, frame: WindowFrame) -> PaneArea {
        PaneArea {
            left: Offset {
                padded: true,
                half_pixels: self.column_line(frame, pane.left as int) as isize,
            },
            top: Offset {
                padded: true,
                half_pixels: self.row_line(frame, pane.top as int) as isize,
            },
            right: Offset {
                padded: true,
                half_pixels: self.column_line(frame, pane.left + pane.width) as isize,
            },
            bottom: Offset {
                padded: true,
                half_pixels: self.row_line(frame, pane.top + pane.height) as isize,
            },
        }
    }

    /// Pixel positions can hold twice every line of the pane.
    pub open spec fn layout_fits(self, pane: PaintedPane, frame: WindowFrame) -> bool {
        &&& self.well_formed()
        &&& 2 * self.pixel_width <= isize::MAX
        &&& 2 * self.pixel_height <= isize::MAX
        &&& pane.left + pane.width < isize::MAX
        &&& pane.top + pane.height < isize::MAX
        &&& 2 * frame.border_left <= isize::MAX
        &&& 2 * self.top_inset(frame) <= isize::MAX
        &&& self.column_line(frame, pane.left + pane.width + 1) + self.cell_width <= isize::MAX
        &&& self.row_line(frame, pane.top + pane.height + 1) + self.cell_height <= isize::MAX
    }

    /// How far the first line of cells is from the top padding, in pixels.
    fn inset(&self, frame: &WindowFrame) -> (r: usize)
        requires
            self.top_inset(*frame) <= usize::MAX,
        ensures
            r == self.top_inset(*frame),
    {
        if self.show_tab_bar && !self.config.tab_bar_at_bottom {
            frame.tab_bar_height + frame.border_top
        } else {
            frame.border_top
        }
    }

    /// The area of a pane's cells, on which things can be dropped.
    pub fn pane_drag_bounds(&self, pane: &PaintedPane, frame: &WindowFrame) -> (r: PaneArea)
        requires
            self.layout_fits(*pane, *frame),
        ensures
            r == self.content_area(*pane, *frame),
    {
        let end_col: usize = pane.left + pane.width;
        let end_row: usize = pane.top + pane.height;
        let inset = self.inset(frame);
        PaneArea {
            left: Offset {
                padded: true,
                half_pixels: line_at(frame.border_left, self.cell_width, pane.left, end_col),
            },
            top: Offset {
                padded: true,
                half_pixels: line_at(inset, self.cell_height, pane.top, end_row),
            },
            right: Offset {
                padded: true,
                half_pixels: line_at(frame.border_left, self.cell_width, end_col, end_col),
            },
            bottom: Offset {
                padded: true,
                half_pixels: line_at(inset, self.cell_height, end_row, end_row),
            },
        }
    }

    /// How a pane is laid out. `cols` is the number of columns of the terminal.
    pub open spec fn layout(
        self,
        pane: PaintedPane,
        cols: usize,
        settings: PaintSettings,
        frame: WindowFrame,
    ) -> PaneLayout {
        PaneLayout {
            background: self.background_area(pane, cols, frame),
            content: self.content_area(pane, frame),
            own_background: settings.window_background_is_empty,
        }
    }

    /// How a pane is laid out. `cols` is the number of columns of the terminal,
    /// `tab_bar` the height of the tab bar, if it is known. Where the tab bar
    /// shows, the layout depends on it.
    pub fn build_pane(
        &self,
        pane: &PaintedPane,
        cols: usize,
        settings: &PaintSettings,
        tab_bar: Option<usize>,
        frame: &WindowFrame,
    ) -> (r: Result<PaneLayout, NoTitleFont>)
        requires
            self.layout_fits(*pane, *frame),
            self.show_tab_bar && tab_bar is Some ==> frame.tab_bar_height == tab_bar->0,
        ensures
            match r {
                Ok(layout) => {
                    &&& self.show_tab_bar ==> tab_bar is Some
                    &&& layout == self.layout(*pane, cols, *settings, *frame)
                },
                Err(_) => self.show_tab_bar && tab_bar is None,
            },
    {
        if self.show_tab_bar && tab_bar.is_none() {
            return Err(NoTitleFont);
        }
        Ok(self.lay_out(pane, cols, settings, frame))
    }

    /// How a pane is laid out.
    fn lay_out(
        &self,
        pane: &PaintedPane,
        cols: usize,
        settings: &PaintSettings,
        frame: &WindowFrame,
    ) -> (r: PaneLayout)
        requires
            self.layout_fits(*pane, *frame),
        ensures
            r == self.layout(*pane, cols, *settings, *frame),
    {
        let end_col: usize = pane.left + pane.width;
        let end_row: usize = pane.top + pane.height;
        let inset = self.inset(frame);
        let content = self.pane_drag_bounds(pane, frame);
        let background = PaneArea {
            left: if pane.left == 0 {
                Offset { padded: false, half_pixels: 0 }
            } else {
                content.left
            },
            top: if pane.top == 0 {
                Offset { padded: false, half_pixels: 2 * inset as isize }
            } else {
                content.top
            },
            right: if end_col >= cols {
                Offset { padded: false, half_pixels: 2 * self.pixel_width as isize }
            } else {
                Offset {
                    padded: true,
                    half_pixels: line_at(frame.border_left, self.cell_width, end_col + 1, end_col),
                }
            },
            bottom: if end_row >= self.rows {
                Offset { padded: false, half_pixels: 2 * self.pixel_height as isize }
            } else {
                Offset {
                    padded: true,
                    half_pixels: line_at(inset, self.cell_height, end_row + 1, end_row),
                }
            },
        };
        PaneLayout { background, content, own_background: settings.window_background_is_empty }
    }

    /// The row at the top of a pane.
    pub open spec fn first_row(pane: PaintedPane) -> isize {
        if pane.viewport is Some {
            pane.viewport->0
        } else {
            pane.physical_top
        }
    }

    /// The rows behind those in view start here.
    pub open spec fn end_row(pane: PaintedPane) -> int {
        Self::first_row(pane) + pane.viewport_rows
    }

    /// The steps of painting a pane. `tab_bar` is the height of the tab bar, if
    /// it is known.
    pub open spec fn pane_steps(
        self,
        pane: PaintedPane,
        cols: usize,
        settings: PaintSettings,
        tab_bar: Option<usize>,
        frame: WindowFrame,
    ) -> Seq<PaneStep> {
        let area = self.background_area(pane, cols, frame);
        let dimmed = !pane.is_active;
        let first = Self::first_row(pane);
        let end = Self::end_row(pane) as isize;
        if settings.use_box_model_render {
            seq![PaneStep::BoxModel]
        } else if self.show_tab_bar && tab_bar is None {
            seq![PaneStep::CheckDirtyLines, PaneStep::Fail]
        } else {
            seq![PaneStep::CheckDirtyLines] + (if pane.is_active {
                seq![PaneStep::UpdatePrevCursor]
            } else {
                seq![]
            }) + (if settings.window_background_is_empty {
                seq![PaneStep::FillBackground { area, dimmed }]
            } else {
                seq![]
            }) + (if pane.bell_is_ringing {
                seq![
                    PaneStep::FillBell {
                        area,
                        blend: if settings.transparent() {
                            BellBlend::Fade
                        } else {
                            BellBlend::Mix
                        },
                        dimmed,
                    },
                ]
            } else {
                seq![]
            }) + (if pane.is_active && settings.show_scroll_bar {
                seq![
                    PaneStep::ScrollBar {
                        thumb_y_offset: self.scroll_top(frame) as usize,
                        track_height: self.track_height(frame) as usize,
                    },
                ]
            } else {
                seq![]
            }) + seq![
                PaneStep::ApplyHyperlinks { first, end },
                PaneStep::RenderLines { first, end },
            ] + (if pane.is_active && settings.cursor_smear_duration_ms != 0 {
                seq![PaneStep::CursorSmear { viewport_top: first }]
            } else {
                seq![]
            })
        }
    }

    /// The steps of painting a pane. `cols` is the number of columns of the
    /// terminal, `tab_bar` the height of the tab bar, if it is known.
    pub fn paint_pane(
        &self,
        pane: &PaintedPane,
        cols: usize,
        settings: &PaintSettings,
        tab_bar: Option<usize>,
        frame: &WindowFrame,
    ) -> (r: Vec<PaneStep>)
        requires
            !settings.use_box_model_render ==> {
                &&& self.layout_fits(*pane, *frame)
                &&& self.show_tab_bar && tab_bar is Some ==> frame.tab_bar_height == tab_bar->0
                &&& pane.viewport_rows <= isize::MAX
                &&& Self::end_row(*pane) <= isize::MAX
                &&& pane.is_active && settings.show_scroll_bar ==> self.scroll_top(*frame)
                    + self.scroll_bottom(*frame) <= usize::MAX
            },
        ensures
            r@ == self.pane_steps(*pane, cols, *settings, tab_bar, *frame),
    {
        let mut steps: Vec<PaneStep> = Vec::new();
        if settings.use_box_model_render {
            steps.push(PaneStep::BoxModel);
            return steps;
        }
        steps.push(PaneStep::CheckDirtyLines);
        if self.show_tab_bar && tab_bar.is_none() {
            steps.push(PaneStep::Fail);
            return steps;
        }
        assert(steps@ =~= seq![PaneStep::CheckDirtyLines]);
        add_if(&mut steps, pane.is_active, PaneStep::UpdatePrevCursor);
        let layout = self.lay_out(pane, cols, settings, frame);
        let area = layout.background;
        let dimmed = !pane.is_active;
        add_if(&mut steps, layout.own_background, PaneStep::FillBackground { area, dimmed });
        let blend = if settings.window_is_transparent() {
            BellBlend::Fade
        } else {
            BellBlend::Mix
        };
        add_if(&mut steps, pane.bell_is_ringing, PaneStep::FillBell { area, blend, dimmed });
        let has_scroll_bar = pane.is_active && settings.show_scroll_bar;
        let (thumb_y_offset, track_height): (usize, usize) = if has_scroll_bar {
            self.scroll_track(frame)
        } else {
            (0, 0)
        };
        add_if(&mut steps, has_scroll_bar, PaneStep::ScrollBar { thumb_y_offset, track_height });
        let first = match pane.viewport {
            Some(top) => top,
            None => pane.physical_top,
        };
        let end: isize = first + pane.viewport_rows as isize;
        let ghost before_lines = steps@;
        steps.push(PaneStep::ApplyHyperlinks { first, end });
        steps.push(PaneStep::RenderLines { first, end });
        assert(steps@ =~= before_lines + seq![
            PaneStep::ApplyHyperlinks { first, end },
            PaneStep::RenderLines { first, end },
        ]);
        add_if(
            &mut steps,
            pane.is_active && settings.cursor_smear_duration_ms != 0,
            PaneStep::CursorSmear { viewport_top: first },
        );
        steps
    }

    /// The three parts of the scroll bar: above the thumb, the thumb, below it.
    pub open spec fn scroll_bar_items(
        self,
        thumb_y_offset: int,
        thumb: Thumb,
        padding: int,
        border_right: int,
    ) -> Seq<UIItem> {
        let x = (self.pixel_width - padding - border_right) as usize;
        let width = padding as usize;
        let top = thumb_y_offset + thumb.top;
        seq![
            UIItem {
                x,
                y: thumb_y_offset as usize,
                width,
                height: thumb.top,
                item_type: UIItemType::AboveScrollThumb,
            },
            UIItem {
                x,
                y: top as usize,
                width,
                height: thumb.height,
                item_type: UIItemType::ScrollThumb,
            },
            UIItem {
                x,
                y: (top + thumb.height) as usize,
                width,
                height: if self.pixel_height > top + thumb.height {
                    (self.pixel_height - (top + thumb.height)) as usize
                } else {
                    0
                },
                item_type: UIItemType::BelowScrollThumb,
            },
        ]
    }

    /// Registers the scroll bar. It is as wide as the right padding. The thumb
    /// itself, the second part, is to be painted.
    pub fn paint_scroll_bar(
        &mut self,
        thumb_y_offset: usize,
        thumb: Thumb,
        padding: usize,
        border_right: usize,
    ) -> (r: UIItem)
        requires
            old(self).well_formed(),
            padding + border_right <= old(self).pixel_width,
            thumb_y_offset + thumb.top + thumb.height <= isize::MAX,
        ensures
            final(self).well_formed(),
            ({
                let items = old(self).scroll_bar_items(
                    thumb_y_offset as int,
                    thumb,
                    padding as int,
                    border_right as int,
                );
                &&& final(self).ui_items@ == old(self).ui_items@ + items
                &&& *final(self) == (TermWindow { ui_items: final(self).ui_items, ..*old(self) })
                &&& r == items[1]
            }),
    {
        let abs_thumb_top: usize = thumb_y_offset + thumb.top;
        let thumb_x: usize = self.pixel_width - padding - border_right;
        let bottom: usize = abs_thumb_top + thumb.height;
        let above = UIItem {
            x: thumb_x,
            y: thumb_y_offset,
            width: padding,
            height: thumb.top,
            item_type: UIItemType::AboveScrollThumb,
        };
        let on_thumb = UIItem {
            x: thumb_x,
            y: abs_thumb_top,
            width: padding,
            height: thumb.height,
            item_type: UIItemType::ScrollThumb,
        };
        let below = UIItem {
            x: thumb_x,
            y: bottom,
            width: padding,
            height: self.pixel_height.saturating_sub(bottom),
            item_type: UIItemType::BelowScrollThumb,
        };
        let ghost before = self.ui_items@;
        self.ui_items.push(above);
        self.ui_items.push(on_thumb);
        self.ui_items.push(below);
        assert(self.ui_items@ =~= before + old(self).scroll_bar_items(
            thumb_y_offset as int,
            thumb,
            padding as int,
            border_right as int,
        ));
        on_thumb
    }

    /// The steps of painting the tab bar. `height` is its height, if it is
    /// known.
    pub fn paint_tab_bar(
        &self,
        fancy_is_built: bool,
        settings: &PaintSettings,
        height: Option<usize>,
        border_top: usize,
        border_bottom: usize,
    ) -> (r: Vec<TabBarStep>)
        requires
            self.well_formed(),
            height is Some ==> height->0 + border_bottom <= usize::MAX,
        ensures
            r@ == (if self.config.use_fancy_tab_bar {
                if fancy_is_built {
                    seq![TabBarStep::PaintFancy]
                } else {
                    seq![TabBarStep::BuildFancy, TabBarStep::PaintFancy]
                }
            } else {
                match height {
                    Some(height) => {
                        let y = self.bar_y(
                            height as int,
                            border_top as int,
                            border_bottom as int,
                        ) as usize;
                        seq![
                            TabBarStep::RegisterItems {
                                y,
                                cell_height: self.cell_height as usize,
                                cell_width: self.cell_width as usize,
                            },
                            TabBarStep::RenderLine {
                                y,
                                cols: (self.pixel_width as int / self.cell_width as int) as usize,
                                transparent: settings.transparent(),
                            },
                        ]
                    },
                    None => seq![TabBarStep::Fail],
                }
            }),
    {
        if self.config.use_fancy_tab_bar {
            return if fancy_is_built {
                vec![TabBarStep::PaintFancy]
            } else {
                vec![TabBarStep::BuildFancy, TabBarStep::PaintFancy]
            };
        }
        match height {
            Some(height) => {
                let y = self.tab_bar_y(height, border_top, border_bottom);
                vec![
                    TabBarStep::RegisterItems {
                        y,
                        cell_height: self.cell_height as usize,
                        cell_width: self.cell_width as usize,
                    },
                    TabBarStep::RenderLine {
                        y,
                        cols: self.pixel_width / self.cell_width as usize,
                        transparent: settings.window_is_transparent(),
                    },
                ]
            },
            None => vec![TabBarStep::Fail],
        }
    }

    /// What is being dragged, how large it is, where the mouse is and where it
    /// was grabbed. A tab comes before a pane.
    pub open spec fn dragged(self) -> Option<(Size, Point, Point)> {
        if self.tab_drag is Some && self.tab_drag->0.started {
            Some(
                (
                    self.tab_drag->0.dragged_size,
                    self.tab_drag->0.current_coords,
                    self.tab_drag->0.grab_offset,
                ),
            )
        } else if self.pane_drag is Some && self.pane_drag->0.started {
            Some(
                (
                    self.pane_drag->0.dragged_size,
                    self.pane_drag->0.current_coords,
                    self.pane_drag->0.grab_offset,
                ),
            )
        } else {
            None
        }
    }

    /// Whether what is being dragged has an area to paint.
    pub open spec fn has_ghost(self) -> bool {
        self.dragged() is Some && (self.dragged()->0).0.width > 0 && (self.dragged()->0).0.height
            > 0
    }

    /// The steps of painting what shows a drag: where it would go, with a border
    /// at the top, the bottom, the left and the right, and the thing itself.
    pub open spec fn drag_steps(self) -> Seq<DragStep> {
        (match self.drag_drop_preview {
            Some(preview) => seq![
                DragStep::FillPreview(preview.rect),
                DragStep::FillBorder { rect: preview.rect, edge: Edge::Top },
                DragStep::FillBorder { rect: preview.rect, edge: Edge::Bottom },
                DragStep::FillBorder { rect: preview.rect, edge: Edge::Left },
                DragStep::FillBorder { rect: preview.rect, edge: Edge::Right },
            ],
            None => seq![],
        }) + (if self.has_ghost() {
            let (size, coords, grab) = self.dragged()->0;
            seq![
                DragStep::FillGhost {
                    at: Point {
                        x: (coords.x - grab.x) as isize,
                        y: (coords.y - grab.y) as isize,
                    },
                    size,
                },
            ]
        } else {
            seq![]
        })
    }

    /// Pixel positions can hold where the dragged thing is painted.
    pub open spec fn ghost_fits(self) -> bool {
        self.has_ghost() ==> {
            let (size, coords, grab) = self.dragged()->0;
            &&& isize::MIN <= coords.x - grab.x <= isize::MAX
            &&& isize::MIN <= coords.y - grab.y <= isize::MAX
        }
    }

    /// The steps of painting what shows a drag.
    pub fn paint_drag_effects(&self) -> (r: Vec<DragStep>)
        requires
            self.ghost_fits(),
        ensures
            r@ == self.drag_steps(),
    {
        let mut steps: Vec<DragStep> = Vec::new();
        if let Some(preview) = self.drag_drop_preview {
            let rect = preview.rect;
            steps.push(DragStep::FillPreview(rect));
            steps.push(DragStep::FillBorder { rect, edge: Edge::Top });
            steps.push(DragStep::FillBorder { rect, edge: Edge::Bottom });
            steps.push(DragStep::FillBorder { rect, edge: Edge::Left });
            steps.push(DragStep::FillBorder { rect, edge: Edge::Right });
        }
        let mut geometry: Option<(Size, Point, Point)> = None;
        if let Some(drag) = self.tab_drag {
            if drag.started {
                geometry = Some((drag.dragged_size, drag.current_coords, drag.grab_offset));
            }
        }
        if geometry.is_none() {
            if let Some(drag) = self.pane_drag {
                if drag.started {
                    geometry = Some((drag.dragged_size, drag.current_coords, drag.grab_offset));
                }
            }
        }
        if let Some((size, coords, grab)) = geometry {
            if size.width > 0 && size.height > 0 {
                let at = Point { x: coords.x - grab.x, y: coords.y - grab.y };
                steps.push(DragStep::FillGhost { at, size });
            }
        }
        assert(steps@ =~= self.drag_steps());
        steps
    }

    /// How the handle of a pane is painted, if it is. Only the handle of the
    /// active pane shows when nothing happens to it.
    pub open spec fn handle_look(self, pane: HandlePane) -> Option<HandleLook> {
        let hovered = self.last_ui_item is Some && self.last_ui_item->0.item_type
            == UIItemType::PaneDragHandle(pane.pane_id);
        let dragging = self.pane_drag is Some && self.pane_drag->0.pane_id == pane.pane_id;
        if hovered || dragging {
            Some(HandleLook::Highlighted)
        } else if pane.is_active {
            Some(HandleLook::Idle)
        } else {
            None
        }
    }

    /// The handles of the first `n` panes that are painted.
    pub open spec fn handle_steps(self, panes: Seq<HandlePane>, n: nat) -> Seq<HandleStep>
        decreases n,
    {
        if n == 0 {
            seq![]
        } else {
            let rest = self.handle_steps(panes, (n - 1) as nat);
            let pane = panes[n - 1];
            let handle = handle_of(pane.pane_width, pane.pane_height);
            if handle is Some && self.handle_look(pane) is Some {
                rest.push(
                    HandleStep {
                        pane: (n - 1) as usize,
                        handle: handle->0,
                        look: self.handle_look(pane)->0,
                    },
                )
            } else {
                rest
            }
        }
    }

    /// Registers the handles of the panes of the active tab, and says which are
    /// painted and how. While a tab is being dragged there are none.
    pub fn paint_pane_drag_handles(&mut self, panes: Option<Vec<HandlePane>>) -> (r: Vec<HandleStep>)
        requires
            old(self).well_formed(),
            panes is Some ==> forall|i: int|
                0 <= i < panes->0@.len() ==> (#[trigger] panes->0@[i]).handle_x
                    + PANE_DRAG_HANDLE_WIDTH_PIXELS <= isize::MAX && panes->0@[i].handle_y
                    + PANE_DRAG_HANDLE_HEIGHT_PIXELS <= isize::MAX,
        ensures
            final(self).well_formed(),
            *final(self) == (TermWindow { ui_items: final(self).ui_items, ..*old(self) }),
            ({
                let shown = old(self).tab_drag is None && panes is Some;
                &&& final(self).ui_items@ == (if shown {
                    old(self).ui_items@ + handle_items(panes->0@, panes->0@.len())
                } else {
                    old(self).ui_items@
                })
                &&& r@ == (if shown {
                    old(self).handle_steps(panes->0@, panes->0@.len())
                } else {
                    seq![]
                })
            }),
    {
        let mut steps: Vec<HandleStep> = Vec::new();
        if self.tab_drag.is_some() {
            return steps;
        }
        let panes = match panes {
            Some(panes) => panes,
            None => {
                return steps;
            },
        };
        let ghost before = self.ui_items@;
        let ghost start = *self;
        assert(before + handle_items(panes@, 0) =~= before);
        for i in 0..panes.len()
            invariant
                self.ui_items@ == before + handle_items(panes@, i as nat),
                *self == (TermWindow { ui_items: self.ui_items, ..start }),
                steps@ == start.handle_steps(panes@, i as nat),
                self.well_formed(),
                forall|k: int|
                    0 <= k < panes@.len() ==> (#[trigger] panes@[k]).handle_x
                        + PANE_DRAG_HANDLE_WIDTH_PIXELS <= isize::MAX && panes@[k].handle_y
                        + PANE_DRAG_HANDLE_HEIGHT_PIXELS <= isize::MAX,
        {
            let pane = panes[i];
            assert(panes@[i as int] == pane);
            if let Some(handle) = pane_drag_handle(pane.pane_width, pane.pane_height) {
                let item = UIItem {
                    x: pane.handle_x,
                    y: pane.handle_y,
                    width: handle.width,
                    height: handle.height,
                    item_type: UIItemType::PaneDragHandle(pane.pane_id),
                };
                let ghost earlier = self.ui_items@;
                self.ui_items.push(item);
                assert(self.ui_items@ =~= before + handle_items(panes@, (i + 1) as nat));
                assert(self.well_formed()) by {
                    assert forall|k: int| 0 <= k < self.ui_items@.len() implies (
                    #[trigger] self.ui_items@[k]).well_formed() by {
                        if k < earlier.len() {
                            assert(earlier[k].well_formed());
                        }
                    }
                }
                let hovered = match self.last_ui_item {
                    Some(item) => match item.item_type {
                        UIItemType::PaneDragHandle(pane_id) => pane_id == pane.pane_id,
                        _ => false,
                    },
                    None => false,
                };
                let dragging = match self.pane_drag {
                    Some(drag) => drag.pane_id == pane.pane_id,
                    None => false,
                };
                if hovered || dragging {
                    steps.push(HandleStep { pane: i, handle, look: HandleLook::Highlighted });
                } else if pane.is_active {
                    steps.push(HandleStep { pane: i, handle, look: HandleLook::Idle });
                }
            }
        }
        steps
    }
}

/// The three parts of the scroll bar lie end to end, and reach the bottom of the
/// window when the thumb is in it.
pub proof fn the_scroll_bar_has_no_gaps(
    window: TermWindow,
    thumb_y_offset: usize,
    thumb: Thumb,
    padding: usize,
    border_right: usize,
)
    requires
        padding + border_right <= window.pixel_width,
        thumb_y_offset + thumb.top + thumb.height <= window.pixel_height,
    ensures
        ({
            let items = window.scroll_bar_items(
                thumb_y_offset as int,
                thumb,
                padding as int,
                border_right as int,
            );
            &&& items[0].y + items[0].height == items[1].y
            &&& items[1].y + items[1].height == items[2].y
            &&& items[2].y + items[2].height == window.pixel_height
            &&& items[0].x == items[1].x == items[2].x
            &&& items[0].x + items[0].width + border_right == window.pixel_width
        }),
{
}

/// The cursor is drawn with a trail only in the active pane, behind the lines,
/// and never where painting gives up.
pub proof fn the_trail_is_painted_last(
    window: TermWindow,
    pane: PaintedPane,
    cols: usize,
    settings: PaintSettings,
    tab_bar: Option<usize>,
    frame: WindowFrame,
    i: int,
)
    requires
        0 <= i < window.pane_steps(pane, cols, settings, tab_bar, frame).len(),
        window.pane_steps(pane, cols, settings, tab_bar, frame)[i] is CursorSmear,
    ensures
        pane.is_active,
        settings.cursor_smear_duration_ms != 0,
        i == window.pane_steps(pane, cols, settings, tab_bar, frame).len() - 1,
{
}

/// The backgrounds of two panes side by side meet in the middle of the split
/// between them, and so do those of two panes one above the other.
pub proof fn neighbours_meet(
    window: TermWindow,
    a: PaintedPane,
    b: PaintedPane,
    cols: usize,
    frame: WindowFrame,
)
    ensures
        b.left == a.left + a.width + 1 && a.left + a.width < cols ==> window.background_area(
            a,
            cols,
            frame,
        ).right == window.background_area(b, cols, frame).left,
        b.top == a.top + a.height + 1 && a.top + a.height < window.rows ==> window.background_area(
            a,
            cols,
            frame,
        ).bottom == window.background_area(b, cols, frame).top,
{
}

/// The handle of a pane is twenty-four by eighteen pixels, six from the right and six
/// from the top edge. A narrower pane first loses the distance to the right, and the
/// handle then takes all its width; a lower one loses the distance to the top, and the
/// handle then takes all its height.
pub proof fn the_handle_is_at_the_top_right(pane_width: usize, pane_height: usize)
    requires
        pane_width > 0,
        pane_height > 0,
    ensures
        ({
            let handle = handle_of(pane_width, pane_height)->0;
            &&& pane_width >= 30 ==> handle.width == 24 && handle.x + handle.width + 6 == pane_width
            &&& 24 <= pane_width < 30 ==> handle.width == 24 && handle.x == 0
            &&& pane_width < 24 ==> handle.width == pane_width && handle.x == 0
            &&& pane_height >= 24 ==> handle.height == 18 && handle.y == 6
            &&& 18 <= pane_height < 24 ==> handle.height == 18 && handle.y + 18 == pane_height
            &&& pane_height < 18 ==> handle.height == pane_height && handle.y == 0
        }),
        handle_of(0, pane_height) is None,
        handle_of(pane_width, 0) is None,
{
}

/// Every pane with an area has its handle among the parts of the window, in the order of
/// the panes: where the pane has it, and as large as it is.
pub proof fn handles_follow_the_panes(panes: Seq<HandlePane>, n: nat)
    requires
        n < panes.len(),
    ensures
        ({
            let pane = panes[n as int];
            let before = handle_items(panes, n);
            let after = handle_items(panes, n + 1);
            &&& handle_items(panes, 0).len() == 0
            &&& pane.pane_width == 0 || pane.pane_height == 0 ==> after == before
            &&& pane.pane_width > 0 && pane.pane_height > 0 ==> {
                &&& after.len() == before.len() + 1
                &&& after.drop_last() == before
                &&& after.last().x == pane.handle_x && after.last().y == pane.handle_y
                &&& after.last().item_type == UIItemType::PaneDragHandle(pane.pane_id)
                &&& handle_of(pane.pane_width, pane.pane_height) is Some
                &&& after.last().width == handle_of(pane.pane_width, pane.pane_height)->0.width
                &&& after.last().height == handle_of(pane.pane_width, pane.pane_height)->0.height
            }
        }),
{
    let pane = panes[n as int];
    if pane.pane_width > 0 && pane.pane_height > 0 {
        assert(handle_items(panes, n + 1).drop_last() =~= handle_items(panes, n));
    }
}

/// A handle stands out while the mouse is on it or its pane is dragged; else that of the
/// active pane is faint, and the others do not show.
pub proof fn handles_show_what_happens(window: TermWindow, pane: HandlePane)
    ensures
        ({
            let look = window.handle_look(pane);
            let touched = window.last_ui_item is Some && window.last_ui_item->0.item_type
                == UIItemType::PaneDragHandle(pane.pane_id) || window.pane_drag is Some
                && window.pane_drag->0.pane_id == pane.pane_id;
            &&& look == Some(HandleLook::Highlighted) <==> touched
            &&& look == Some(HandleLook::Idle) <==> !touched && pane.is_active
            &&& look is None <==> !touched && !pane.is_active
        }),
{
}

/// The handles that are painted are those with a look, each for its own pane, in the order
/// of the panes.
pub proof fn painted_handles_follow_the_panes(
    window: TermWindow,
    panes: Seq<HandlePane>,
    n: nat,
)
    requires
        n < panes.len() <= usize::MAX,
    ensures
        ({
            let pane = panes[n as int];
            let before = window.handle_steps(panes, n);
            let after = window.handle_steps(panes, n + 1);
            let painted = pane.pane_width > 0 && pane.pane_height > 0 && window.handle_look(pane)
                is Some;
            &&& window.handle_steps(panes, 0).len() == 0
            &&& !painted ==> after == before
            &&& painted ==> {
                &&& after.len() == before.len() + 1
                &&& after.drop_last() == before
                &&& after.last().pane == n
                &&& Some(after.last().handle) == handle_of(pane.pane_width, pane.pane_height)
                &&& Some(after.last().look) == window.handle_look(pane)
            }
        }),
{
    let pane = panes[n as int];
    if pane.pane_width > 0 && pane.pane_height > 0 && window.handle_look(pane) is Some {
        assert(window.handle_steps(panes, n + 1).drop_last() =~= window.handle_steps(panes, n));
    }
}

/// A tab bar at the bottom ends where the bottom border begins, as far as the window is
/// that high; one at the top begins where the top border ends.
pub proof fn the_tab_bar_is_at_its_border(
    window: TermWindow,
    height: int,
    border_top: int,
    border_bottom: int,
)
    ensures
        ({
            let y = window.bar_y(height, border_top, border_bottom);
            &&& !window.config.tab_bar_at_bottom ==> y == border_top
            &&& window.config.tab_bar_at_bottom && height + border_bottom <= window.pixel_height
                ==> y + height + border_bottom == window.pixel_height
            &&& window.config.tab_bar_at_bottom && height + border_bottom > window.pixel_height
                ==> y == 0
        }),
{
}

/// Twice the number of pixels from the border to a column is what its line is at, but for
/// half a cell; and so for rows, below the tab bar where it is at the top. So the cells of
/// a pane have the room that its columns and rows take.
pub proof fn cells_are_where_columns_and_rows_meet(
    window: TermWindow,
    pane: PaintedPane,
    frame: WindowFrame,
    from_top: int,
)
    requires
        window.layout_fits(pane, frame),
        window.show_tab_bar && !window.config.tab_bar_at_bottom ==> from_top == frame.border_top
            + frame.tab_bar_height,
        !window.show_tab_bar || window.config.tab_bar_at_bottom ==> from_top == frame.border_top,
    ensures
        ({
            let area = window.content_area(pane, frame);
            let across = window.cell_width as int;
            let down = window.cell_height as int;
            &&& area.left.padded && area.top.padded && area.right.padded && area.bottom.padded
            &&& area.left.half_pixels + across == 2 * (frame.border_left + pane.left * across)
            &&& area.top.half_pixels + down == 2 * (from_top + pane.top * down)
            &&& area.right.half_pixels - area.left.half_pixels == 2 * (pane.width * across)
            &&& area.bottom.half_pixels - area.top.half_pixels == 2 * (pane.height * down)
        }),
{
    lines_fit(window, pane, frame);
    let across = window.cell_width as int;
    let down = window.cell_height as int;
    assert((pane.left + pane.width) * across == pane.left * across + pane.width * across)
        by (nonlinear_arith);
    assert((pane.top + pane.height) * down == pane.top * down + pane.height * down)
        by (nonlinear_arith);
}

/// Every line of a pane is one that pixel positions can hold.
proof fn lines_fit(window: TermWindow, pane: PaintedPane, frame: WindowFrame)
    requires
        window.layout_fits(pane, frame),
    ensures
        isize::MIN <= window.column_line(frame, pane.left as int) <= isize::MAX,
        isize::MIN <= window.column_line(frame, pane.left + pane.width) <= isize::MAX,
        isize::MIN <= window.column_line(frame, pane.left + pane.width + 1) <= isize::MAX,
        isize::MIN <= window.row_line(frame, pane.top as int) <= isize::MAX,
        isize::MIN <= window.row_line(frame, pane.top + pane.height) <= isize::MAX,
        isize::MIN <= window.row_line(frame, pane.top + pane.height + 1) <= isize::MAX,
{
    let across = window.cell_width as int;
    let down = window.cell_height as int;
    let l = pane.left as int;
    let w = pane.width as int;
    let t = pane.top as int;
    let h = pane.height as int;
    assert((l + w + 1) * across == l * across + w * across + across && (l + w) * across == l
        * across + w * across && 0 <= l * across && 0 <= w * across) by (nonlinear_arith)
        requires
            0 < across,
            0 <= l,
            0 <= w,
    ;
    assert((t + h + 1) * down == t * down + h * down + down && (t + h) * down == t * down + h
        * down && 0 <= t * down && 0 <= h * down) by (nonlinear_arith)
        requires
            0 < down,
            0 <= t,
            0 <= h,
    ;
}

/// A background goes to the edge of the window, below the tab bar where that is at the top,
/// on each side on which the pane has no neighbour, and elsewhere ends where the cells do,
/// or, to the right and at the bottom, one cell further, where the neighbour begins.
pub proof fn backgrounds_leave_no_gaps(
    window: TermWindow,
    pane: PaintedPane,
    cols: usize,
    frame: WindowFrame,
    from_top: int,
)
    requires
        window.layout_fits(pane, frame),
        window.show_tab_bar && !window.config.tab_bar_at_bottom ==> from_top == frame.border_top
            + frame.tab_bar_height,
        !window.show_tab_bar || window.config.tab_bar_at_bottom ==> from_top == frame.border_top,
    ensures
        ({
            let cells = window.content_area(pane, frame);
            let area = window.background_area(pane, cols, frame);
            let at_right = pane.left + pane.width >= cols;
            let at_bottom = pane.top + pane.height >= window.rows;
            &&& area.left.padded <==> pane.left > 0
            &&& area.top.padded <==> pane.top > 0
            &&& area.right.padded <==> !at_right
            &&& area.bottom.padded <==> !at_bottom
            &&& pane.left == 0 ==> area.left.half_pixels == 0
            &&& pane.left > 0 ==> area.left == cells.left
            &&& pane.top == 0 ==> area.top.half_pixels == 2 * from_top
            &&& pane.top > 0 ==> area.top == cells.top
            &&& at_right ==> area.right.half_pixels == 2 * window.pixel_width
            &&& !at_right ==> area.right.half_pixels - cells.right.half_pixels == 2
                * window.cell_width
            &&& at_bottom ==> area.bottom.half_pixels == 2 * window.pixel_height
            &&& !at_bottom ==> area.bottom.half_pixels - cells.bottom.half_pixels == 2
                * window.cell_height
        }),
{
    lines_fit(window, pane, frame);
    let across = window.cell_width as int;
    let down = window.cell_height as int;
    assert((pane.left + pane.width + 1) * across == (pane.left + pane.width) * across + across)
        by (nonlinear_arith);
    assert((pane.top + pane.height + 1) * down == (pane.top + pane.height) * down + down)
        by (nonlinear_arith);
}

/// A pane is laid out as its background and its cells are; it paints its own background
/// where the window has none.
pub proof fn a_layout_is_background_and_cells(
    window: TermWindow,
    pane: PaintedPane,
    cols: usize,
    settings: PaintSettings,
    frame: WindowFrame,
)
    ensures
        window.layout(pane, cols, settings, frame).background == window.background_area(
            pane,
            cols,
            frame,
        ),
        window.layout(pane, cols, settings, frame).content == window.content_area(pane, frame),
        window.layout(pane, cols, settings, frame).own_background
            <==> settings.window_background_is_empty,
        settings.transparent() <==> !(settings.window_background_is_empty
            && settings.window_background_is_opaque),
{
}

/// A pane is painted from the back to the front: what is noted, the background, the bell,
/// the scroll bar, the lines, and the cursor's trail. Each step is taken once, or not at
/// all: the background where the window has none of its own, the bell while it rings,
/// what is noted of the cursor, the scroll bar and the trail only in the active pane. The
/// lines are those in view, from the top of the scrolled view or else of the screen on.
#[verifier::rlimit(60)]
#[verifier::spinoff_prover]
pub proof fn panes_are_painted_from_the_back(
    window: TermWindow,
    pane: PaintedPane,
    cols: usize,
    settings: PaintSettings,
    tab_bar: Option<usize>,
    frame: WindowFrame,
    top: int,
)
    requires
        !settings.use_box_model_render,
        window.show_tab_bar ==> tab_bar is Some,
        pane.viewport is Some ==> top == pane.viewport->0,
        pane.viewport is None ==> top == pane.physical_top,
        top + pane.viewport_rows <= isize::MAX,
        window.scroll_top(frame) + window.scroll_bottom(frame) <= usize::MAX,
    ensures
        ({
            let steps = window.pane_steps(pane, cols, settings, tab_bar, frame);
            let noted = if pane.is_active {
                1int
            } else {
                0
            };
            let filled = noted + (if settings.window_background_is_empty {
                1int
            } else {
                0
            });
            let rung = filled + (if pane.bell_is_ringing {
                1int
            } else {
                0
            });
            let bar = rung + (if pane.is_active && settings.show_scroll_bar {
                1int
            } else {
                0
            });
            let trail = pane.is_active && settings.cursor_smear_duration_ms > 0;
            let area = window.background_area(pane, cols, frame);
            &&& steps.len() == bar + 3 + (if trail {
                1int
            } else {
                0
            })
            &&& steps[0] == PaneStep::CheckDirtyLines
            &&& noted == 1 ==> steps[1] == PaneStep::UpdatePrevCursor
            &&& filled > noted ==> steps[filled] == (PaneStep::FillBackground {
                area,
                dimmed: !pane.is_active,
            })
            &&& rung > filled ==> (steps[rung] matches PaneStep::FillBell {
                area: rung_over,
                blend,
                dimmed,
            } && rung_over == area && dimmed == !pane.is_active && (blend is Mix
                <==> settings.window_background_is_empty && settings.window_background_is_opaque))
            &&& bar > rung ==> (steps[bar] matches PaneStep::ScrollBar {
                thumb_y_offset,
                track_height,
            } && thumb_y_offset == window.scroll_top(frame) && track_height
                == window.track_height(frame))
            &&& steps[bar + 1] matches PaneStep::ApplyHyperlinks { first, end } && first == top
                && end == top + pane.viewport_rows
            &&& steps[bar + 2] matches PaneStep::RenderLines { first, end } && first == top && end
                == top + pane.viewport_rows
            &&& trail ==> (steps.last() matches PaneStep::CursorSmear { viewport_top }
                && viewport_top == top)
        }),
{
    let steps = window.pane_steps(pane, cols, settings, tab_bar, frame);
    let area = window.background_area(pane, cols, frame);
    let first = TermWindow::first_row(pane);
    let end = TermWindow::end_row(pane) as isize;
    let none = Seq::<PaneStep>::empty();
    let a = seq![PaneStep::CheckDirtyLines];
    let b = a + (if pane.is_active {
        seq![PaneStep::UpdatePrevCursor]
    } else {
        none
    });
    let c = b + (if settings.window_background_is_empty {
        seq![PaneStep::FillBackground { area, dimmed: !pane.is_active }]
    } else {
        none
    });
    let bell = PaneStep::FillBell {
        area,
        blend: if settings.transparent() {
            BellBlend::Fade
        } else {
            BellBlend::Mix
        },
        dimmed: !pane.is_active,
    };
    let d = c + (if pane.bell_is_ringing {
        seq![bell]
    } else {
        none
    });
    let bar = PaneStep::ScrollBar {
        thumb_y_offset: window.scroll_top(frame) as usize,
        track_height: window.track_height(frame) as usize,
    };
    let e = d + (if pane.is_active && settings.show_scroll_bar {
        seq![bar]
    } else {
        none
    });
    let f = e + seq![
        PaneStep::ApplyHyperlinks { first, end },
        PaneStep::RenderLines { first, end },
    ];
    let g = f + (if pane.is_active && settings.cursor_smear_duration_ms != 0 {
        seq![PaneStep::CursorSmear { viewport_top: first }]
    } else {
        none
    });
    assert(steps == g);
    assert(forall|i: int| 0 <= i < f.len() ==> g[i] == f[i]);
    assert(forall|i: int| 0 <= i < e.len() ==> f[i] == e[i]);
    assert(forall|i: int| 0 <= i < d.len() ==> e[i] == d[i]);
    assert(forall|i: int| 0 <= i < c.len() ==> d[i] == c[i]);
    assert(forall|i: int| 0 <= i < b.len() ==> c[i] == b[i]);
    assert(b[0] == PaneStep::CheckDirtyLines);
    assert(steps[0] == b[0]);
    if pane.is_active {
        assert(steps[1] == b[1]);
    }
    if settings.window_background_is_empty {
        assert(steps[b.len() as int] == c[b.len() as int]);
    }
    if pane.bell_is_ringing {
        assert(steps[c.len() as int] == d[c.len() as int]);
    }
    if pane.is_active && settings.show_scroll_bar {
        assert(steps[d.len() as int] == e[d.len() as int]);
    }
    assert(steps[e.len() as int] == f[e.len() as int]);
    assert(steps[e.len() as int + 1] == f[e.len() as int + 1]);
}

/// A pane that is painted as a box is painted in no other way, and where the height of a
/// tab bar that shows is not known, painting gives up before anything is painted.
pub proof fn painting_may_stop_early(
    window: TermWindow,
    pane: PaintedPane,
    cols: usize,
    settings: PaintSettings,
    tab_bar: Option<usize>,
    frame: WindowFrame,
)
    ensures
        ({
            let steps = window.pane_steps(pane, cols, settings, tab_bar, frame);
            &&& settings.use_box_model_render ==> steps == seq![PaneStep::BoxModel]
            &&& !settings.use_box_model_render && window.show_tab_bar && tab_bar is None ==> steps
                == seq![PaneStep::CheckDirtyLines, PaneStep::Fail]
        }),
{
}

/// The parts of the scroll bar are above the thumb, the thumb and below it, in this order;
/// the first starts at the top of the bar and the second is as tall as the thumb, that far
/// below as the thumb is.
pub proof fn the_thumb_is_where_it_was_found(
    window: TermWindow,
    thumb_y_offset: usize,
    thumb: Thumb,
    padding: usize,
    border_right: usize,
)
    requires
        padding + border_right <= window.pixel_width,
        thumb_y_offset + thumb.top + thumb.height <= usize::MAX,
    ensures
        ({
            let items = window.scroll_bar_items(
                thumb_y_offset as int,
                thumb,
                padding as int,
                border_right as int,
            );
            &&& items.len() == 3
            &&& items[0].item_type is AboveScrollThumb && items[0].y == thumb_y_offset
            &&& items[1].item_type is ScrollThumb && items[1].y - thumb_y_offset == thumb.top
            &&& items[1].height == thumb.height
            &&& items[2].item_type is BelowScrollThumb
            &&& forall|i: int| 0 <= i < 3 ==> (#[trigger] items[i]).width == padding
            &&& thumb_y_offset + thumb.top + thumb.height > window.pixel_height ==> items[2].height
                == 0
        }),
{
}

/// What shows where a drop would go is filled first, then bordered on all four sides; what
/// is dragged is painted above it, so that the mouse holds it where it grabbed it. It is
/// the tab, if one is dragged, and else the pane, and only once the drag has started and
/// if the thing has an area.
pub proof fn a_drag_is_shown_under_the_mouse(window: TermWindow)
    requires
        window.ghost_fits(),
    ensures
        ({
            let steps = window.drag_steps();
            let tab = window.tab_drag is Some && window.tab_drag->0.started;
            let pane = !tab && window.pane_drag is Some && window.pane_drag->0.started;
            let shown = window.drag_drop_preview is Some;
            let lead = if shown {
                5int
            } else {
                0
            };
            let tab_area = tab && window.tab_drag->0.dragged_size.width > 0
                && window.tab_drag->0.dragged_size.height > 0;
            let pane_area = pane && window.pane_drag->0.dragged_size.width > 0
                && window.pane_drag->0.dragged_size.height > 0;
            &&& steps.len() == lead + (if tab_area || pane_area {
                1int
            } else {
                0
            })
            &&& shown ==> {
                let rect = window.drag_drop_preview->0.rect;
                &&& steps[0] == DragStep::FillPreview(rect)
                &&& steps[1] == (DragStep::FillBorder { rect, edge: Edge::Top })
                &&& steps[2] == (DragStep::FillBorder { rect, edge: Edge::Bottom })
                &&& steps[3] == (DragStep::FillBorder { rect, edge: Edge::Left })
                &&& steps[4] == (DragStep::FillBorder { rect, edge: Edge::Right })
            }
            &&& tab_area ==> (steps[lead] matches DragStep::FillGhost { at, size } && size
                == window.tab_drag->0.dragged_size && at.x + window.tab_drag->0.grab_offset.x
                == window.tab_drag->0.current_coords.x && at.y + window.tab_drag->0.grab_offset.y
                == window.tab_drag->0.current_coords.y)
            &&& pane_area ==> (steps[lead] matches DragStep::FillGhost { at, size } && size
                == window.pane_drag->0.dragged_size && at.x + window.pane_drag->0.grab_offset.x
                == window.pane_drag->0.current_coords.x && at.y + window.pane_drag->0.grab_offset.y
                == window.pane_drag->0.current_coords.y)
        }),
{
}

/// The cursor is on one line, that of its row.
pub proof fn the_cursor_is_on_one_line(scene: LineScene, row: int)
    ensures
        scene.on_line(scene.cursor.y as int),
        row != scene.cursor.y ==> !scene.on_line(row),
{
}

} // verus!
