//! Pure numeric layout: centered-overlay placement and the nine-position
//! relative layout used for directional picks.
//!
//! Coordinates for the nine indicator positions are produced in quarter-cell
//! units so that the half- and quarter-cell formulas stay exact over the
//! integers; the host layer divides by four when it places a surface.

use vstd::prelude::*;

verus! {

/// Width and height of a pane or an overlay, in screen cells.
#[derive(Clone, Copy, Debug, PartialEq, Eq, Structural)]
pub struct WindowDimensions {
    pub width: u32,
    pub height: u32,
}

/// A placement for a centered overlay, in whole screen cells.
#[derive(Clone, Copy, Debug, PartialEq, Eq, Structural)]
pub struct ScreenPoint {
    pub x: u32,
    pub y: u32,
}

/// A placement for a directional indicator, in quarter-cell units.
#[derive(Clone, Copy, Debug, PartialEq, Eq, Structural)]
pub struct IndicatorPoint {
    pub x_quarters: i64,
    pub y_quarters: i64,
}

/// The draw step fails when the container cannot hold even one overlay.
#[derive(Clone, Copy, Debug, PartialEq, Eq, Structural)]
pub enum LayoutError {
    InsufficientSpace,
}

/// The nine named placements for opening a pane relative to a chosen pane:
/// four full-edge placements, four quarter ("split") placements, and the
/// center.
#[derive(Clone, Copy, Debug, PartialEq, Eq, Structural)]
pub enum Positions {
    TopFullHor,
    RightFullVer,
    BotFullHor,
    LeftFullVer,
    SplitTop,
    SplitRight,
    SplitBot,
    SplitLeft,
    Center,
}

/// The fixed enumeration order of the nine positions. Keystroke resolution
/// zips this order against the hint characters positionally.
pub open spec fn spec_positions_order() -> Seq<Positions> {
    seq![
        Positions::TopFullHor,
        Positions::RightFullVer,
        Positions::BotFullHor,
        Positions::LeftFullVer,
        Positions::SplitTop,
        Positions::SplitRight,
        Positions::SplitBot,
        Positions::SplitLeft,
        Positions::Center,
    ]
}

impl Positions {
    /// All nine positions, in the fixed enumeration order.
    pub fn iter() -> (r: [Positions; 9])
        ensures
            r@ == spec_positions_order(),
    {
        let r = [
            Positions::TopFullHor,
            Positions::RightFullVer,
            Positions::BotFullHor,
            Positions::LeftFullVer,
            Positions::SplitTop,
            Positions::SplitRight,
            Positions::SplitBot,
            Positions::SplitLeft,
            Positions::Center,
        ];
        proof {
            assert(r@ =~= spec_positions_order());
        }
        r
    }
}

/// Centered placement along one axis: half the free space, never negative.
pub open spec fn spec_centered(container: int, overlay: int) -> int {
    if container >= overlay {
        (container - overlay) / 2
    } else {
        0
    }
}

/// Where to place an overlay of the given size so that it sits centered in a
/// container of the given dimensions; saturates at the container's origin
/// when the overlay is larger than the container.
pub fn get_overlay_centered_position(
    win: WindowDimensions,
    overlay_width: u32,
    overlay_height: u32,
) -> (r: ScreenPoint)
    ensures
        r.x == spec_centered(win.width as int, overlay_width as int),
        r.y == spec_centered(win.height as int, overlay_height as int),
{
    let x: u32 = if win.width >= overlay_width {
        (win.width - overlay_width) / 2
    } else {
        0
    };
    let y: u32 = if win.height >= overlay_height {
        (win.height - overlay_height) / 2
    } else {
        0
    };
    ScreenPoint { x, y }
}

/// The horizontal offset that centers the overlay, in quarter cells.
pub open spec fn spec_center_left_x(win: WindowDimensions, overlay: WindowDimensions) -> int {
    2 * win.width - 2 * overlay.width
}

/// The vertical offset of the centered indicator, in quarter cells: the
/// container's middle, one overlay height up.
pub open spec fn spec_center_overlay_y(win: WindowDimensions, overlay: WindowDimensions) -> int {
    2 * win.height - 4 * overlay.height
}

/// The nine indicator placements in quarter cells, as pairs `(x, y)`, in the
/// enumeration order of [`spec_positions_order`].
pub open spec fn spec_indicator_points(win: WindowDimensions, overlay: WindowDimensions) -> Seq<
    (int, int),
> {
    let clx = spec_center_left_x(win, overlay);
    let cy = spec_center_overlay_y(win, overlay);
    seq![
        (clx, 0),
        (4 * win.width - 8 * overlay.width, cy),
        (clx, 4 * win.height - 12 * overlay.height),
        (0, cy),
        (clx, 1 * win.height - 2 * overlay.height),
        (3 * win.width - 2 * overlay.width, cy),
        (clx, 3 * win.height - 6 * overlay.height),
        (1 * win.width - 2 * overlay.width, cy),
        (clx, cy),
    ]
}

impl Positions {
    /// Screen coordinates, in quarter cells, for all nine indicator
    /// placements inside a container of dimensions `win`, for an overlay of
    /// dimensions `overlay`. Fails when the overlay is wider than the
    /// container; the points are otherwise exactly those of
    /// [`spec_indicator_points`], in enumeration order.
    pub fn calculate_indicator_positions(
        win: WindowDimensions,
        overlay: WindowDimensions,
    ) -> (r: Result<[IndicatorPoint; 9], LayoutError>)
        ensures
            r.is_ok() <==> overlay.width <= win.width,
            r matches Ok(pts) ==> {
                &&& pts@.len() == spec_indicator_points(win, overlay).len()
                &&& forall|i: int|
                    0 <= i < pts@.len() ==> (#[trigger] pts@[i]).x_quarters
                        == spec_indicator_points(win, overlay)[i].0 && pts@[i].y_quarters
                        == spec_indicator_points(win, overlay)[i].1
            },
    {
        if overlay.width > win.width {
            return Err(LayoutError::InsufficientSpace);
        }
        let w: i64 = win.width as i64;
        let h: i64 = win.height as i64;
        let ow: i64 = overlay.width as i64;
        let oh: i64 = overlay.height as i64;
        let clx: i64 = 2 * w - 2 * ow;
        let cy: i64 = 2 * h - 4 * oh;
        let pts = [
            IndicatorPoint { x_quarters: clx, y_quarters: 0 },
            IndicatorPoint { x_quarters: 4 * w - 8 * ow, y_quarters: cy },
            IndicatorPoint { x_quarters: clx, y_quarters: 4 * h - 12 * oh },
            IndicatorPoint { x_quarters: 0, y_quarters: cy },
            IndicatorPoint { x_quarters: clx, y_quarters: h - 2 * oh },
            IndicatorPoint { x_quarters: 3 * w - 2 * ow, y_quarters: cy },
            IndicatorPoint { x_quarters: clx, y_quarters: 3 * h - 6 * oh },
            IndicatorPoint { x_quarters: w - 2 * ow, y_quarters: cy },
            IndicatorPoint { x_quarters: clx, y_quarters: cy },
        ];
        Ok(pts)
    }
}

} // verus!
