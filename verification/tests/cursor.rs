use wezterm_core::cursor::{
    cursor_cell, cursor_trail_dt, defers_to_per_line, finish_cursor_smear,
    resolve_cursor_smear_color, CellLook, CursorBox, CursorShape, CursorSmearParams, CursorSmearState, DeadKey, PrevCursorPos, SmearEnd,
    SmearStart, StableCursorPosition,
};
use wezterm_core::geometry::Coord;

fn at(x: usize, y: isize) -> StableCursorPosition {
    StableCursorPosition {
        x,
        y,
        shape: CursorShape::SteadyBlock,
        visible: true,
    }
}

fn params(shape: CursorShape, cell_cols: usize) -> CursorSmearParams {
    CursorSmearParams {
        cursor: at(5, 103),
        viewport_top: 100,
        cell_width: 8,
        cell_height: 16,
        underline_height: 2,
        shape,
        cell_cols,
    }
}

#[test]
fn a_cursor_that_stays_did_not_move() {
    let mut prev = PrevCursorPos::new(at(0, 0), 10);
    assert_eq!(prev.last_cursor_movement(), 10);
    prev.update(at(0, 0), 20);
    assert_eq!(prev.last_cursor_movement(), 10);
    prev.update(at(1, 0), 30);
    assert_eq!(prev.last_cursor_movement(), 30);
    prev.update(at(1, 0), 40);
    assert_eq!(prev.last_cursor_movement(), 30);
    prev.bump(50);
    assert_eq!(prev.last_cursor_movement(), 50);
    assert_eq!(prev.pos, at(1, 0));
}

#[test]
fn a_change_of_looks_counts_as_a_movement() {
    let mut prev = PrevCursorPos::new(at(0, 0), 10);
    let mut hidden = at(0, 0);
    hidden.visible = false;
    prev.update(hidden, 20);
    assert_eq!(prev.last_cursor_movement(), 20);
}

#[test]
fn scrolling_snaps_the_trail_once() {
    let mut state = CursorSmearState::new();
    assert!(state.should_snap(7));
    assert!(!state.should_snap(7));
    assert!(state.should_snap(8));
    assert!(!state.should_snap(8));
}

#[test]
fn frames_of_the_trail_start_as_they_should() {
    let mut state = CursorSmearState::new();
    assert_eq!(state.paint_cursor_smear(true, false, 3), SmearStart::Snap);
    assert_eq!(state.paint_cursor_smear(true, false, 3), SmearStart::Glide);
    assert_eq!(state.paint_cursor_smear(true, false, 4), SmearStart::Snap);
    assert_eq!(state.paint_cursor_smear(false, false, 5), SmearStart::StandDown);
    // The scroll was seen while the cursor was hidden.
    assert_eq!(state.paint_cursor_smear(true, false, 5), SmearStart::Glide);
    assert_eq!(state.paint_cursor_smear(true, true, 5), SmearStart::StandDown);
}

#[test]
fn frames_of_the_trail_end_as_they_should() {
    assert_eq!(finish_cursor_smear(false, 60), SmearEnd::Settled);
    assert_eq!(finish_cursor_smear(true, 60), SmearEnd::NextFrameIn(16));
    assert_eq!(finish_cursor_smear(true, 1), SmearEnd::NextFrameIn(1000));
    assert_eq!(finish_cursor_smear(true, 0), SmearEnd::NextFrameIn(1000));
    assert_eq!(finish_cursor_smear(true, 255), SmearEnd::NextFrameIn(3));
}

#[test]
fn long_pauses_are_cut_short() {
    let mut last = None;
    assert_eq!(cursor_trail_dt(&mut last, 1_000), 0);
    assert_eq!(cursor_trail_dt(&mut last, 16_001_000), 16_000_000);
    assert_eq!(cursor_trail_dt(&mut last, 9_016_001_000), 100_000_000);
    assert_eq!(cursor_trail_dt(&mut last, 9_016_001_000), 0);
    assert_eq!(last, Some(9_016_001_000));
}

#[test]
fn special_cursors_are_drawn_with_their_line() {
    assert!(!defers_to_per_line(DeadKey::Idle, false, true, None));
    assert!(!defers_to_per_line(DeadKey::Holding, false, true, Some(false)));
    assert!(defers_to_per_line(DeadKey::Composing, false, false, None));
    assert!(defers_to_per_line(DeadKey::Idle, true, false, None));
    assert!(defers_to_per_line(DeadKey::Idle, false, true, Some(true)));
    assert!(!defers_to_per_line(DeadKey::Idle, false, false, Some(true)));
}

#[test]
fn the_colour_is_reversed_only_with_contrast() {
    let low = Coord { rank: 10 };
    let high = Coord { rank: 20 };
    let pick = |force, default, contrast, min| {
        resolve_cursor_smear_color(force, default, contrast, min, "cursor", "text")
    };
    assert_eq!(pick(true, true, high, low), "text");
    assert_eq!(pick(true, true, low, low), "text");
    assert_eq!(pick(true, true, low, high), "cursor");
    assert_eq!(pick(false, true, high, low), "cursor");
    assert_eq!(pick(true, false, high, low), "cursor");
}

#[test]
fn the_cursor_has_the_shape_it_should() {
    assert_eq!(
        params(CursorShape::SteadyBlock, 1).cursor_target_rect(),
        CursorBox { x: 40, y: 48, width: 8, height: 16 }
    );
    assert_eq!(
        params(CursorShape::SteadyBar, 1).cursor_target_rect(),
        CursorBox { x: 40, y: 48, width: 2, height: 16 }
    );
    assert_eq!(
        params(CursorShape::BlinkingUnderline, 1).cursor_target_rect(),
        CursorBox { x: 40, y: 62, width: 8, height: 2 }
    );
    assert_eq!(
        params(CursorShape::Default, 1).cursor_target_rect(),
        CursorBox { x: 40, y: 48, width: 8, height: 16 }
    );
}

#[test]
fn wide_characters_are_covered_whole() {
    assert_eq!(
        params(CursorShape::BlinkingBlock, 2).cursor_target_rect().width,
        16
    );
    assert_eq!(
        params(CursorShape::SteadyUnderline, 2).cursor_target_rect(),
        CursorBox { x: 40, y: 62, width: 16, height: 2 }
    );
    assert_eq!(
        params(CursorShape::BlinkingBar, 2).cursor_target_rect().width,
        2
    );
}

#[test]
fn a_thin_cursor_never_vanishes() {
    let mut thin = params(CursorShape::SteadyBar, 1);
    thin.underline_height = 0;
    assert_eq!(thin.cursor_target_rect().width, 1);
    thin.shape = CursorShape::SteadyUnderline;
    assert_eq!(thin.cursor_target_rect().height, 1);
}

#[test]
fn beyond_the_line_the_cursor_is_on_plain_text() {
    let wide = CellLook { foreground: "red", background: "blue", width: 2 };
    assert_eq!(cursor_cell(Some(wide), "fg", "bg"), wide);
    assert_eq!(
        cursor_cell(None, "fg", "bg"),
        CellLook { foreground: "fg", background: "bg", width: 1 }
    );
}
