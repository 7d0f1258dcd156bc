//! The view state: which rectangle of the complex plane is visible. It holds
//! the center point and the horizontal scale (the plane width spanned by the
//! full buffer width), both in fixed point; only the pan and zoom controllers
//! mutate it.

use vstd::prelude::*;

verus! {

/// Largest scale the view may take (plane width 256).
pub const SCALE_MAX: i64 = 1099511627776;

/// Smallest scale: one fixed-point unit above zero. Zooming that would push
/// the scale below the precision floor is skipped rather than collapsing the
/// view to zero or negative width.
pub const SCALE_MIN: i64 = 1;

/// Largest magnitude either center coordinate may take (plane value 256).
pub const CENTER_MAX: i64 = 1099511627776;

/// Real part of the default center, -0.75 in fixed point.
pub const DEFAULT_CENTER_RE: i64 = -3221225472;

/// Imaginary part of the default center.
pub const DEFAULT_CENTER_IM: i64 = 0;

/// Default scale, 3.5 plane units in fixed point.
pub const DEFAULT_SCALE: i64 = 15032385536;

/// The pannable, zoomable window onto the complex plane.
#[derive(Clone, Copy, PartialEq, Eq, Structural, Debug)]
pub struct ViewState {
    /// Real part of the center point, fixed point.
    pub center_re: i64,
    /// Imaginary part of the center point, fixed point.
    pub center_im: i64,
    /// Plane width spanned by the full buffer width, fixed point; positive.
    pub scale: i64,
}

impl ViewState {
    /// The view is usable: positive scale and a center within the
    /// representable region. Every public update keeps this.
    pub open spec fn well_formed(self) -> bool {
        &&& SCALE_MIN <= self.scale <= SCALE_MAX
        &&& -CENTER_MAX <= self.center_re <= CENTER_MAX
        &&& -CENTER_MAX <= self.center_im <= CENTER_MAX
    }
}

impl Default for ViewState {
    /// A session starts centered on (-0.75, 0) with 3.5 plane units across.
    fn default() -> (v: ViewState)
        ensures
            v.center_re == DEFAULT_CENTER_RE,
            v.center_im == DEFAULT_CENTER_IM,
            v.scale == DEFAULT_SCALE,
            v.well_formed(),
    {
        ViewState {
            center_re: DEFAULT_CENTER_RE,
            center_im: DEFAULT_CENTER_IM,
            scale: DEFAULT_SCALE,
        }
    }
}

} // verus!
