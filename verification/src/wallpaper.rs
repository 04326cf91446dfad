//! What a wallpaper plugin receives when it draws.
use vstd::prelude::*;

verus! {

/// Per-frame context handed to a wallpaper's `draw` method.
#[derive(Clone, Copy, Debug, PartialEq, Eq, Structural)]
pub struct DrawWallpaperContext {
    /// Number of frames drawn before this one.
    pub frame_count: u64,
}

} // verus!
