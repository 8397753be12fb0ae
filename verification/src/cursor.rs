//! The text cursor: when it last moved, whether a movement is one of the cursor
//! or of the view, and what the pass that draws it with a trail does.

use vstd::prelude::*;
use crate::geometry::Coord;

verus! {

/// The longest time that one step of the trail accounts for, in nanoseconds: a
/// tenth of a second.
pub const TRAIL_STEP_LIMIT_NS: u128 = 100_000_000;

/// The shape of the text cursor.
#[derive(Clone, Copy, Debug, PartialEq, Eq, Structural)]
pub enum CursorShape {
    Default,
    BlinkingBlock,
    SteadyBlock,
    BlinkingUnderline,
    SteadyUnderline,
    BlinkingBar,
    SteadyBar,
}

/// Where the text cursor is and what it looks like. Its row does not change
/// when the view scrolls.
#[derive(Clone, Copy, Debug, PartialEq, Eq, Structural)]
pub struct StableCursorPosition {
    pub x: usize,
    pub y: isize,
    pub shape: CursorShape,
    pub visible: bool,
}

/// The last known position of the text cursor, and when it got there.
#[derive(Clone, Copy, Debug, PartialEq, Eq, Structural)]
pub struct PrevCursorPos {
    pub pos: StableCursorPosition,
    /// A time in nanoseconds.
    pub when: u128,
}

impl PrevCursorPos {
    /// A cursor that is at `pos` since now.
    pub fn new(pos: StableCursorPosition, now: u128) -> (r: Self)
        ensures
            r == (PrevCursorPos { pos, when: now }),
    {
        PrevCursorPos { pos, when: now }
    }

    /// Makes the cursor look like it moved.
    pub fn bump(&mut self, now: u128)
        ensures
            *final(self) == (PrevCursorPos { when: now, ..*old(self) }),
    {
        self.when = now;
    }

    /// The record once the cursor is known to be at `newpos`.
    pub open spec fn updated(self, newpos: StableCursorPosition, now: u128) -> Self {
        if self.pos == newpos {
            self
        } else {
            PrevCursorPos { pos: newpos, when: now }
        }
    }

    /// Takes in where the cursor is. Only a difference counts as a movement.
    pub fn update(&mut self, newpos: StableCursorPosition, now: u128)
        ensures
            *final(self) == old(self).updated(newpos, now),
    {
        if self.pos != newpos {
            self.pos = newpos;
            self.when = now;
        }
    }

    /// When the cursor last moved.
    pub fn last_cursor_movement(&self) -> (r: u128)
        ensures
            r == self.when,
    {
        self.when
    }
}

/// Tells movements of the cursor from movements of the view.
///
/// While the view scrolls, the row of the cursor stays, but its place on the
/// screen does not. The trail would take that for a movement. So the top row of
/// the view is watched, and the trail snaps whenever it changes.
#[derive(Clone, Copy, Debug, PartialEq, Eq, Structural)]
pub struct CursorSmearState {
    pub prev_viewport_top: Option<isize>,
}

/// How a frame of the trail starts.
#[derive(Clone, Copy, Debug, PartialEq, Eq, Structural)]
pub enum SmearStart {
    /// The trail snaps, forgets when its last frame was, and is not drawn.
    StandDown,
    /// The trail snaps, then moves on and is drawn.
    Snap,
    /// The trail moves on and is drawn.
    Glide,
}

/// How a frame of the trail ends.
#[derive(Clone, Copy, Debug, PartialEq, Eq, Structural)]
pub enum SmearEnd {
    /// The next frame comes in so many milliseconds.
    NextFrameIn(u64),
    /// The trail has settled, and forgets when its last frame was.
    Settled,
}

impl CursorSmearState {
    /// No frame yet.
    pub fn new() -> (r: Self)
        ensures
            r.prev_viewport_top is None,
    {
        CursorSmearState { prev_viewport_top: None }
    }

    /// Notes the top row of the view for this frame. The trail snaps on the
    /// first frame, and when the view scrolled.
    pub fn should_snap(&mut self, viewport_top: isize) -> (r: bool)
        ensures
            r == (old(self).prev_viewport_top != Some(viewport_top)),
            final(self).prev_viewport_top == Some(viewport_top),
    {
        let snap = self.prev_viewport_top != Some(viewport_top);
        self.prev_viewport_top = Some(viewport_top);
        snap
    }

    /// How a frame starts. A hidden cursor has no trail, and neither has one
    /// that is drawn along with its line: a composition, or the lock that stands
    /// for a password.
    pub open spec fn start(self, visible: bool, defer_to_per_line: bool, viewport_top: isize) -> SmearStart {
        if !visible || defer_to_per_line {
            SmearStart::StandDown
        } else if self.prev_viewport_top != Some(viewport_top) {
            SmearStart::Snap
        } else {
            SmearStart::Glide
        }
    }

    /// Starts a frame of the trail.
    pub fn paint_cursor_smear(
        &mut self,
        visible: bool,
        defer_to_per_line: bool,
        viewport_top: isize,
    ) -> (r: SmearStart)
        ensures
            r == old(self).start(visible, defer_to_per_line, viewport_top),
            final(self).prev_viewport_top == Some(viewport_top),
    {
        if !visible || defer_to_per_line {
            self.should_snap(viewport_top);
            return SmearStart::StandDown;
        }
        if self.should_snap(viewport_top) {
            SmearStart::Snap
        } else {
            SmearStart::Glide
        }
    }
}

/// Ends a frame of the trail, which was drawn in any case.
pub fn finish_cursor_smear(animating: bool, animation_fps: u8) -> (r: SmearEnd)
    ensures
        r == (if animating {
            SmearEnd::NextFrameIn(
                if animation_fps == 0 {
                    1000
                } else {
                    (1000int / animation_fps as int) as u64
                },
            )
        } else {
            SmearEnd::Settled
        }),
{
    if animating {
        let fps: u64 = if animation_fps == 0 {
            1
        } else {
            animation_fps as u64
        };
        SmearEnd::NextFrameIn(1000 / fps)
    } else {
        SmearEnd::Settled
    }
}

/// How far the trail moves on in a frame, in nanoseconds: the time since the
/// last frame, within limits, and nothing where there was none.
pub open spec fn trail_step(last: Option<u128>, now: u128) -> u128 {
    match last {
        Some(prev) => if prev >= now {
            0
        } else if now - prev > TRAIL_STEP_LIMIT_NS {
            TRAIL_STEP_LIMIT_NS
        } else {
            (now - prev) as u128
        },
        None => 0,
    }
}

/// How far the trail moves on in a frame. The frame is noted in `last`.
pub fn cursor_trail_dt(last: &mut Option<u128>, now: u128) -> (r: u128)
    ensures
        r == trail_step(*old(last), now),
        *final(last) == Some(now),
{
    let dt: u128 = match *last {
        Some(prev) => if prev >= now {
            0
        } else if now - prev > TRAIL_STEP_LIMIT_NS {
            TRAIL_STEP_LIMIT_NS
        } else {
            now - prev
        },
        None => 0,
    };
    *last = Some(now);
    dt
}

/// What the state of the keyboard makes of the cursor.
#[derive(Clone, Copy, Debug, PartialEq, Eq, Structural)]
pub enum DeadKey {
    Idle,
    /// A dead key was pressed.
    Holding,
    /// Text is being composed.
    Composing,
}

/// Whether the cursor is drawn along with its line, by the state of the
/// keyboard, the leader key, and whether the program says that it reads a
/// password.
pub fn defers_to_per_line(
    dead_key: DeadKey,
    leader_is_active: bool,
    detect_password_input: bool,
    password_input: Option<bool>,
) -> (r: bool)
    ensures
        r == (dead_key is Composing || leader_is_active || (detect_password_input
            && password_input == Some(true))),
{
    let composing = match dead_key {
        DeadKey::Composing => true,
        DeadKey::Idle | DeadKey::Holding => false,
    };
    let password = match password_input {
        Some(flag) => detect_password_input && flag,
        None => false,
    };
    composing || leader_is_active || password
}

/// What the cell under the cursor looks like.
#[derive(Clone, Copy, Debug, PartialEq, Eq)]
pub struct CellLook<C> {
    pub foreground: C,
    pub background: C,
    /// How many cells the character takes.
    pub width: usize,
}

/// What the cell under the cursor looks like. Beyond the end of its line there
/// is no cell: it looks like plain text on the plain background then, one cell
/// wide.
pub fn cursor_cell<C>(cell: Option<CellLook<C>>, foreground: C, default_bg: C) -> (r: CellLook<C>)
    ensures
        cell is Some ==> r == cell->0,
        cell is None ==> r == (CellLook { foreground, background: default_bg, width: 1 }),
{
    match cell {
        Some(look) => look,
        None => CellLook { foreground, background: default_bg, width: 1 },
    }
}

/// Whether the cursor takes the colour of the text under it instead of its own:
/// where that is forced, the cursor's own colour is not a choice of the program,
/// and the text stands out enough.
pub open spec fn reverses(
    force_reverse_video_cursor: bool,
    cursor_is_default_color: bool,
    contrast: Coord,
    min_contrast: Coord,
) -> bool {
    force_reverse_video_cursor && cursor_is_default_color && min_contrast.at_most(contrast)
}

/// The colour of the cursor and its trail.
pub fn resolve_cursor_smear_color<C>(
    force_reverse_video_cursor: bool,
    cursor_is_default_color: bool,
    contrast: Coord,
    min_contrast: Coord,
    cursor_bg: C,
    cell_fg: C,
) -> (r: C)
    ensures
        r == (if reverses(
            force_reverse_video_cursor,
            cursor_is_default_color,
            contrast,
            min_contrast,
        ) {
            cell_fg
        } else {
            cursor_bg
        }),
{
    if force_reverse_video_cursor && cursor_is_default_color && contrast.rank
        >= min_contrast.rank {
        cell_fg
    } else {
        cursor_bg
    }
}

/// The rectangle that the cursor covers, in whole pixels from the top left
/// corner of its pane.
#[derive(Clone, Copy, Debug, PartialEq, Eq, Structural)]
pub struct CursorBox {
    pub x: isize,
    pub y: isize,
    pub width: isize,
    pub height: isize,
}

/// What the rectangle of the cursor depends on.
#[derive(Clone, Copy, Debug, PartialEq, Eq, Structural)]
pub struct CursorSmearParams {
    pub cursor: StableCursorPosition,
    pub viewport_top: isize,
    pub cell_width: isize,
    pub cell_height: isize,
    /// How thick underlines are.
    pub underline_height: isize,
    /// The shape that the cursor has after all settings.
    pub shape: CursorShape,
    /// How many cells the character under the cursor takes.
    pub cell_cols: usize,
}

impl CursorSmearParams {
    /// How thick a bar or an underline is: at least one pixel, so that it never
    /// vanishes.
    pub open spec fn thickness(self) -> int {
        if self.underline_height > 1 {
            self.underline_height as int
        } else {
            1
        }
    }

    /// The left edge of the cursor's cell.
    pub open spec fn cell_x(self) -> int {
        self.cursor.x * self.cell_width
    }

    /// The top edge of the cursor's cell.
    pub open spec fn cell_y(self) -> int {
        (self.cursor.y - self.viewport_top) * self.cell_height
    }

    /// Pixel positions can hold the rectangle, and every step to it.
    pub open spec fn fits(self) -> bool {
        &&& self.cursor.x <= isize::MAX
        &&& self.cell_cols <= isize::MAX
        &&& isize::MIN <= self.cursor.y - self.viewport_top <= isize::MAX
        &&& isize::MIN <= self.cell_x() <= isize::MAX
        &&& isize::MIN <= self.cell_y() <= isize::MAX
        &&& isize::MIN <= self.cell_y() + self.cell_height <= isize::MAX
        &&& isize::MIN <= self.cell_y() + self.cell_height - self.thickness() <= isize::MAX
        &&& isize::MIN <= self.cell_width * self.cell_cols <= isize::MAX
    }

    /// The rectangle of the cursor: a thin column at the left of its cell, a thin
    /// row at the bottom, or all of it. But for the column it is as wide as the
    /// character under it.
    pub open spec fn target(self) -> CursorBox {
        match self.shape {
            CursorShape::BlinkingBar | CursorShape::SteadyBar => CursorBox {
                x: self.cell_x() as isize,
                y: self.cell_y() as isize,
                width: self.thickness() as isize,
                height: self.cell_height,
            },
            CursorShape::BlinkingUnderline | CursorShape::SteadyUnderline => CursorBox {
                x: self.cell_x() as isize,
                y: (self.cell_y() + self.cell_height - self.thickness()) as isize,
                width: (self.cell_width * self.cell_cols) as isize,
                height: self.thickness() as isize,
            },
            _ => CursorBox {
                x: self.cell_x() as isize,
                y: self.cell_y() as isize,
                width: (self.cell_width * self.cell_cols) as isize,
                height: self.cell_height,
            },
        }
    }

    /// The rectangle of the cursor.
    pub fn cursor_target_rect(&self) -> (r: CursorBox)
        requires
            self.fits(),
        ensures
            r == self.target(),
    {
        let row_offset: isize = self.cursor.y - self.viewport_top;
        let cols: isize = self.cell_cols as isize;
        let x: isize = self.cursor.x as isize * self.cell_width;
        let y: isize = row_offset * self.cell_height;
        let thickness: isize = if self.underline_height > 1 {
            self.underline_height
        } else {
            1
        };
        match self.shape {
            CursorShape::BlinkingBar | CursorShape::SteadyBar => CursorBox {
                x,
                y,
                width: thickness,
                height: self.cell_height,
            },
            CursorShape::BlinkingUnderline | CursorShape::SteadyUnderline => CursorBox {
                x,
                y: y + self.cell_height - thickness,
                width: self.cell_width * cols,
                height: thickness,
            },
            CursorShape::Default | CursorShape::BlinkingBlock | CursorShape::SteadyBlock => {
                CursorBox { x, y, width: self.cell_width * cols, height: self.cell_height }
            },
        }
    }
}

/// A cursor that stays where it is does not count as moved, however often its
/// position is taken in.
pub proof fn staying_is_no_movement(
    prev: PrevCursorPos,
    pos: StableCursorPosition,
    now: u128,
    later: u128,
)
    ensures
        prev.updated(pos, now).updated(pos, later) == prev.updated(pos, now),
        prev.pos == pos ==> prev.updated(pos, now).when == prev.when,
        prev.pos != pos ==> prev.updated(pos, now).when == now,
{
}

/// The trail snaps at most once for a scroll: with the view where it was in the
/// frame before, it glides, whatever that frame did.
pub proof fn a_scroll_snaps_once(state: CursorSmearState, viewport_top: isize)
    ensures
        (CursorSmearState { prev_viewport_top: Some(viewport_top) }).start(
            true,
            false,
            viewport_top,
        ) is Glide,
        state.prev_viewport_top is None ==> state.start(true, false, viewport_top) is Snap,
        state.prev_viewport_top is Some && state.prev_viewport_top->0 != viewport_top
            ==> state.start(true, false, viewport_top) is Snap,
{
}

/// A cursor that is hidden, or that is drawn along with its line, is not drawn a
/// second time; any other is drawn, whether it moves or not.
pub proof fn a_cursor_is_drawn_once(
    state: CursorSmearState,
    visible: bool,
    defer_to_per_line: bool,
    viewport_top: isize,
)
    ensures
        state.start(visible, defer_to_per_line, viewport_top) is StandDown <==> !visible
            || defer_to_per_line,
{
}

/// A cursor on a wide character is as wide as the character, but for a bar,
/// which never is.
pub proof fn wide_characters_are_covered(params: CursorSmearParams)
    requires
        params.fits(),
        params.cell_cols == 2,
    ensures
        params.shape is BlinkingBar || params.shape is SteadyBar ==> params.target().width
            == params.thickness(),
        !(params.shape is BlinkingBar || params.shape is SteadyBar) ==> params.target().width == 2
            * params.cell_width,
{
}

/// The rectangle stays inside the cells that the cursor covers, as long as
/// underlines are thinner than a cell.
pub proof fn the_cursor_stays_in_its_cells(params: CursorSmearParams)
    requires
        params.fits(),
        params.thickness() <= params.cell_width,
        params.thickness() <= params.cell_height,
        params.cell_cols >= 1,
    ensures
        params.cell_x() == params.target().x,
        params.target().width <= params.cell_width * params.cell_cols,
        params.cell_y() <= params.target().y,
        params.target().y + params.target().height <= params.cell_y() + params.cell_height,
{
    let cols = params.cell_cols;
    let width = params.cell_width;
    assert(width <= width * cols) by (nonlinear_arith)
        requires
            cols >= 1,
            width >= 1,
    ;
}

/// The time that a frame of the trail accounts for, added to that of the frame before,
/// is now, unless that would be more than a tenth of a second; it is nothing without a
/// frame before, or where time did not go on.
pub proof fn trail_steps_cover_the_time(prev: u128, now: u128)
    ensures
        prev <= now && now - prev <= 100_000_000 ==> prev + trail_step(Some(prev), now) == now,
        now - prev >= 100_000_000 ==> trail_step(Some(prev), now) == 100_000_000,
        prev >= now ==> trail_step(Some(prev), now) == 0,
        trail_step(None, now) == 0,
{
}

/// The record of the cursor always has its latest position, and keeps the time for as
/// long as that is the same.
pub proof fn the_latest_position_is_kept(
    prev: PrevCursorPos,
    pos: StableCursorPosition,
    now: u128,
)
    ensures
        prev.updated(pos, now).pos == pos,
        prev.updated(pos, now).when == prev.when || prev.updated(pos, now).when == now,
        prev.pos == pos ==> prev.updated(pos, now) == prev,
        prev.pos != pos ==> prev.updated(pos, now).when == now,
{
}

/// A cursor takes the colour of the text where that is forced, the colour of the cursor
/// is the default, and the contrast is not less than asked for; else it does not.
pub proof fn faint_text_is_not_taken(forced: bool, is_default: bool, contrast: Coord, least: Coord)
    ensures
        contrast.rank < least.rank ==> !reverses(forced, is_default, contrast, least),
        contrast.rank >= least.rank ==> (reverses(forced, is_default, contrast, least) <==> forced
            && is_default),
{
}

/// The cursor starts at the left of its column, as many cells from the left as the
/// column says, and in the row that is as far below the top of the view as its own is. A
/// bar is as thick as an underline, and at least a pixel, and as tall as a cell; an
/// underline is as thick, ends where the cell ends, and is as wide as the character; any
/// other cursor fills the cell, and the character's width.
pub proof fn the_cursor_covers_its_cell(params: CursorSmearParams, thick: int)
    requires
        params.fits(),
        params.cell_width > 0,
        params.underline_height >= 1 ==> thick == params.underline_height,
        params.underline_height < 1 ==> thick == 1,
        thick <= isize::MAX,
    ensures
        ({
            let target = params.target();
            let bar = params.shape is BlinkingBar || params.shape is SteadyBar;
            let line = params.shape is BlinkingUnderline || params.shape is SteadyUnderline;
            let top = (params.cursor.y - params.viewport_top) * params.cell_height;
            &&& target.x == params.cursor.x * params.cell_width
            &&& bar ==> target.width == thick
            &&& !bar ==> target.width == params.cell_width * params.cell_cols
            &&& line ==> target.height == thick && target.y + thick == top + params.cell_height
            &&& !line ==> target.height == params.cell_height && target.y == top
        }),
{
}

} // verus!
