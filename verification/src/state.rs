//! Presentation toggles consumed by the rendering collaborator.

use vstd::prelude::*;

verus! {

/// Which optional overlays the presentation layer should draw.
#[derive(Clone, Copy, Debug, PartialEq, Eq, Structural)]
pub struct WhatToDraw {
    pub camera_rectangles: bool,
}

impl Default for WhatToDraw {
    /// By default the camera viewport rectangles are drawn.
    fn default() -> (r: WhatToDraw)
        ensures
            r.camera_rectangles,
    {
        WhatToDraw { camera_rectangles: true }
    }
}

} // verus!
