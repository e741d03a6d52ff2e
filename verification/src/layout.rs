//! Layout-size variants and the viewport lookup.
//!
//! The background texture is rendered at one of a closed set of grid sizes
//! chosen purely from the viewport width: a tall mobile grid under 700
//! pixels, the wide grid otherwise; layouts under 1120 pixels also switch
//! the falloff heuristic to the vertical band.

use vstd::prelude::*;

verus! {

/// A layout-size variant: the grid dimensions a background is rendered at.
pub trait Background {
    /// The variant's grid width.
    spec fn spec_width(&self) -> u32;

    /// The variant's grid height.
    spec fn spec_height(&self) -> u32;

    /// Grid width in pixels.
    fn width(&self) -> (r: u32)
        ensures
            r == self.spec_width(),
    ;

    /// Grid height in pixels.
    fn height(&self) -> (r: u32)
        ensures
            r == self.spec_height(),
    ;
}

/// The tall 9:20 grid for narrow viewports.
pub struct Mobile;

impl Background for Mobile {
    open spec fn spec_width(&self) -> u32 {
        270
    }

    open spec fn spec_height(&self) -> u32 {
        600
    }

    fn width(&self) -> u32 {
        9 * 30
    }

    fn height(&self) -> u32 {
        20 * 30
    }
}

/// The wide 16:9 grid for mid-size viewports.
pub struct Tablet;

impl Background for Tablet {
    open spec fn spec_width(&self) -> u32 {
        640
    }

    open spec fn spec_height(&self) -> u32 {
        360
    }

    fn width(&self) -> u32 {
        16 * 40
    }

    fn height(&self) -> u32 {
        9 * 40
    }
}

/// The wide 16:9 grid for large viewports.
pub struct Desktop;

impl Background for Desktop {
    open spec fn spec_width(&self) -> u32 {
        640
    }

    open spec fn spec_height(&self) -> u32 {
        360
    }

    fn width(&self) -> u32 {
        16 * 40
    }

    fn height(&self) -> u32 {
        9 * 40
    }
}

/// The grid size for a viewport width: the mobile grid under 700 pixels,
/// the wide grid otherwise.
pub open spec fn spec_background_size(window_width: int) -> (u32, u32) {
    if window_width < 700 {
        (270u32, 600u32)
    } else {
        (640u32, 360u32)
    }
}

/// Pure lookup from viewport width to grid dimensions.
pub fn background_size(window_width: u32) -> (r: (u32, u32))
    ensures
        r == spec_background_size(window_width as int),
{
    if window_width < 700 {
        let m = Mobile;
        (m.width(), m.height())
    } else if window_width < 1120 {
        let t = Tablet;
        (t.width(), t.height())
    } else {
        let d = Desktop;
        (d.width(), d.height())
    }
}

/// Whether a viewport width selects the narrow (vertical-band) layout.
pub fn is_mobile(window_width: u32) -> (r: bool)
    ensures
        r == (window_width < 1120),
{
    window_width < 1120
}

} // verus!
