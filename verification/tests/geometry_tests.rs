use nvim_winpick::geometry::{
    get_overlay_centered_position, LayoutError, Positions, WindowDimensions,
};

#[test]
fn centered_overlay_halves_the_free_space() {
    let p = get_overlay_centered_position(
        WindowDimensions {
            width: 10,
            height: 10,
        },
        4,
        4,
    );
    assert_eq!((p.x, p.y), (3, 3));
}

#[test]
fn centered_overlay_saturates_when_overlay_is_larger() {
    let p = get_overlay_centered_position(WindowDimensions { width: 3, height: 3 }, 4, 4);
    assert_eq!((p.x, p.y), (0, 0));
}

#[test]
fn relative_positions_fail_when_overlay_is_wider_than_container() {
    let r = Positions::calculate_indicator_positions(
        WindowDimensions { width: 2, height: 5 },
        WindowDimensions { width: 3, height: 1 },
    );
    assert_eq!(r.unwrap_err(), LayoutError::InsufficientSpace);
}

#[test]
fn relative_positions_match_the_documented_formulas() {
    // Container 40x20 cells, overlay 3x1; coordinates are in quarter cells.
    let pts = Positions::calculate_indicator_positions(
        WindowDimensions {
            width: 40,
            height: 20,
        },
        WindowDimensions { width: 3, height: 1 },
    )
    .unwrap();
    let got: Vec<(i64, i64)> = pts.iter().map(|p| (p.x_quarters, p.y_quarters)).collect();
    let center_left_x = 2 * 40 - 2 * 3; // 74
    let center_y = 2 * 20 - 4; // 36
    assert_eq!(
        got,
        vec![
            (center_left_x, 0),          // top, full horizontal
            (4 * 40 - 8 * 3, center_y),  // right, full vertical
            (center_left_x, 4 * 20 - 12), // bottom, full horizontal
            (0, center_y),               // left, full vertical
            (center_left_x, 20 - 2),     // split top
            (3 * 40 - 2 * 3, center_y),  // split right
            (center_left_x, 3 * 20 - 6), // split bottom
            (40 - 2 * 3, center_y),      // split left
            (center_left_x, center_y),   // center
        ]
    );
}

#[test]
fn positions_enumerate_in_the_fixed_order() {
    assert_eq!(
        Positions::iter(),
        [
            Positions::TopFullHor,
            Positions::RightFullVer,
            Positions::BotFullHor,
            Positions::LeftFullVer,
            Positions::SplitTop,
            Positions::SplitRight,
            Positions::SplitBot,
            Positions::SplitLeft,
            Positions::Center,
        ]
    );
}
