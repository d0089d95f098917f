use vstd::prelude::*;

verus! {

/// The circle drawn in the client area, in device units. The underlying
/// drawing API takes an ellipse; the demo always uses equal radii.
#[derive(Clone, Copy, PartialEq, Eq, Structural, Debug)]
pub struct Ellipse {
    pub center_x: u32,
    pub center_y: u32,
    pub radius: u32,
}

/// The smaller of two device lengths.
pub open spec fn min_u32(a: u32, b: u32) -> u32 {
    if a < b {
        a
    } else {
        b
    }
}

/// The circle inscribed in a client area of the given size: centered, with
/// radius the smaller half-dimension, so it never overflows the area and
/// degrades to a point when either dimension is zero.
pub open spec fn ellipse_for(width: u32, height: u32) -> Ellipse {
    Ellipse {
        center_x: width / 2,
        center_y: height / 2,
        radius: min_u32(width / 2, height / 2),
    }
}

/// Computes the layout of the circle for a client area of the given size:
/// center at the middle of the area, radius the smaller of the two
/// half-dimensions.
pub fn compute_layout(width: u32, height: u32) -> (e: Ellipse)
    ensures
        e == ellipse_for(width, height),
        e.center_x == width / 2,
        e.center_y == height / 2,
        e.radius == min_u32(width / 2, height / 2),
{
    let x = width / 2;
    let y = height / 2;
    let radius = if x < y {
        x
    } else {
        y
    };
    Ellipse { center_x: x, center_y: y, radius }
}

/// The computed circle always fits the client area: its bounding square
/// stays inside the rectangle on every side.
pub proof fn lemma_layout_inscribed(width: u32, height: u32)
    ensures
        ellipse_for(width, height).center_x + ellipse_for(width, height).radius <= width,
        ellipse_for(width, height).center_y + ellipse_for(width, height).radius <= height,
        ellipse_for(width, height).radius <= ellipse_for(width, height).center_x,
        ellipse_for(width, height).radius <= ellipse_for(width, height).center_y,
{
}

} // verus!
