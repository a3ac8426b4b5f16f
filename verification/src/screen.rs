//! Plain-value snapshot of the target screen and the protocol identifiers the
//! backend allocates for its window, offscreen buffer and graphics context.

use vstd::prelude::*;

verus! {

/// Immutable snapshot of the target screen's geometry and default pixel
/// attributes, captured once when the display connection is opened.
#[derive(Clone, Copy, PartialEq, Eq, Structural, Debug)]
pub struct ScreenDescriptor {
    /// Screen width in pixels.
    pub width: u16,
    /// Screen height in pixels.
    pub height: u16,
    /// Identifier of the root window of this screen.
    pub root: u32,
    /// Color depth of the root window.
    pub root_depth: u8,
    /// Default foreground (white) pixel value of the screen.
    pub white_pixel: u32,
}

impl ScreenDescriptor {
    /// A usable screen covers a non-empty pixel area.
    pub open spec fn wf(self) -> bool {
        self.width > 0 && self.height > 0
    }
}

/// Protocol identifiers allocated for the wallpaper window, its offscreen
/// buffer (pixmap) and its graphics context.
#[derive(Clone, Copy, PartialEq, Eq, Structural, Debug)]
pub struct ResourceIds {
    /// Identifier of the wallpaper window.
    pub window: u32,
    /// Identifier of the offscreen buffer.
    pub pixmap: u32,
    /// Identifier of the graphics context.
    pub gc: u32,
}

impl ResourceIds {
    /// Identifiers are usable when they are non-zero, pairwise distinct, and
    /// distinct from the screen's root window.
    pub open spec fn wf(self, screen: ScreenDescriptor) -> bool {
        &&& self.window != 0
        &&& self.pixmap != 0
        &&& self.gc != 0
        &&& self.window != self.pixmap
        &&& self.window != self.gc
        &&& self.pixmap != self.gc
        &&& self.window != screen.root
        &&& self.pixmap != screen.root
        &&& self.gc != screen.root
    }
}

} // verus!
