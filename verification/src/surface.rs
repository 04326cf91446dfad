//! Decisions about presentation surfaces: which format, present mode and
//! alpha mode to configure, what to do with the outcome of acquiring a
//! frame, and how a surface follows the size of its window.
use vstd::prelude::*;

verus! {

/// How the engine tells apart the texture formats a surface supports.
#[derive(Clone, Copy, Debug, PartialEq, Eq, Structural)]
pub enum SurfaceFormatKind {
    Rgba8Unorm,
    Bgra8Unorm,
    /// Any other format.
    Other,
}

/// Presentation modes of a surface.
#[derive(Clone, Copy, Debug, PartialEq, Eq, Structural)]
pub enum PresentMode {
    AutoVsync,
    AutoNoVsync,
    Fifo,
    FifoRelaxed,
    Immediate,
    Mailbox,
}

/// Alpha compositing modes of a surface.
#[derive(Clone, Copy, Debug, PartialEq, Eq, Structural)]
pub enum CompositeAlphaMode {
    Auto,
    Opaque,
    PreMultiplied,
    PostMultiplied,
    Inherit,
}

/// Formats the engine can render to directly: 8-bit RGBA or BGRA.
pub open spec fn is_eight_bit_color(format: SurfaceFormatKind) -> bool {
    format == SurfaceFormatKind::Rgba8Unorm || format == SurfaceFormatKind::Bgra8Unorm
}

/// The first format the engine can render to directly, if the surface offers one.
pub fn find_eight_bit_format(formats: &[SurfaceFormatKind]) -> (r: Option<usize>)
    ensures
        match r {
            Some(i) => i < formats@.len() && is_eight_bit_color(formats@[i as int]) && forall|j: int|
                0 <= j < i ==> !is_eight_bit_color(#[trigger] formats@[j]),
            None => forall|j: int| 0 <= j < formats@.len() ==> !is_eight_bit_color(#[trigger] formats@[j]),
        },
{
    let mut i: usize = 0;
    while i < formats.len()
        invariant
            i <= formats@.len(),
            forall|j: int| 0 <= j < i ==> !is_eight_bit_color(#[trigger] formats@[j]),
        decreases formats@.len() - i,
    {
        let f = formats[i];
        if f == SurfaceFormatKind::Rgba8Unorm || f == SurfaceFormatKind::Bgra8Unorm {
            return Some(i);
        }
        i += 1;
    }
    None
}

/// The format a window surface is configured with: the first 8-bit RGBA or
/// BGRA format, or else the surface's first format.
pub fn window_surface_format(formats: &[SurfaceFormatKind]) -> (r: usize)
    requires
        formats@.len() > 0,
    ensures
        r < formats@.len(),
        ({
            ||| is_eight_bit_color(formats@[r as int]) && (forall|j: int|
                0 <= j < r ==> !is_eight_bit_color(#[trigger] formats@[j]))
            ||| r == 0 && (forall|j: int|
                0 <= j < formats@.len() ==> !is_eight_bit_color(#[trigger] formats@[j]))
        }),
{
    match find_eight_bit_format(formats) {
        Some(i) => i,
        None => 0,
    }
}

/// The format a renderer surface is configured with: the first
/// `Rgba8Unorm` format, or else the surface's first format.
pub fn renderer_surface_format(formats: &[SurfaceFormatKind]) -> (r: usize)
    requires
        formats@.len() > 0,
    ensures
        r < formats@.len(),
        ({
            ||| formats@[r as int] == SurfaceFormatKind::Rgba8Unorm && (forall|j: int|
                0 <= j < r ==> #[trigger] formats@[j] != SurfaceFormatKind::Rgba8Unorm)
            ||| r == 0 && (forall|j: int|
                0 <= j < formats@.len() ==> #[trigger] formats@[j] != SurfaceFormatKind::Rgba8Unorm)
        }),
{
    let mut i: usize = 0;
    while i < formats.len()
        invariant
            i <= formats@.len(),
            forall|j: int| 0 <= j < i ==> #[trigger] formats@[j] != SurfaceFormatKind::Rgba8Unorm,
        decreases formats@.len() - i,
    {
        if formats[i] == SurfaceFormatKind::Rgba8Unorm {
            return i;
        }
        i += 1;
    }
    0
}

fn contains_present_mode(modes: &[PresentMode], mode: PresentMode) -> (r: bool)
    ensures
        r == modes@.contains(mode),
{
    let mut i: usize = 0;
    while i < modes.len()
        invariant
            i <= modes@.len(),
            forall|j: int| 0 <= j < i ==> #[trigger] modes@[j] != mode,
        decreases modes@.len() - i,
    {
        if modes[i] == mode {
            return true;
        }
        i += 1;
    }
    false
}

/// The present mode a window surface is configured with: `Mailbox` when
/// supported, else `Immediate` when supported, else `Fifo`.
pub fn select_present_mode(modes: &[PresentMode]) -> (r: PresentMode)
    ensures
        r == if modes@.contains(PresentMode::Mailbox) {
            PresentMode::Mailbox
        } else if modes@.contains(PresentMode::Immediate) {
            PresentMode::Immediate
        } else {
            PresentMode::Fifo
        },
{
    if contains_present_mode(modes, PresentMode::Mailbox) {
        PresentMode::Mailbox
    } else if contains_present_mode(modes, PresentMode::Immediate) {
        PresentMode::Immediate
    } else {
        PresentMode::Fifo
    }
}

/// The alpha mode a window surface is configured with: `Opaque` when
/// supported, else the surface's first alpha mode.
pub fn select_alpha_mode(modes: &[CompositeAlphaMode]) -> (r: CompositeAlphaMode)
    requires
        modes@.len() > 0,
    ensures
        r == if modes@.contains(CompositeAlphaMode::Opaque) {
            CompositeAlphaMode::Opaque
        } else {
            modes@[0]
        },
{
    let mut i: usize = 0;
    while i < modes.len()
        invariant
            i <= modes@.len(),
            forall|j: int| 0 <= j < i ==> #[trigger] modes@[j] != CompositeAlphaMode::Opaque,
        decreases modes@.len() - i,
    {
        if modes[i] == CompositeAlphaMode::Opaque {
            assert(modes@.contains(CompositeAlphaMode::Opaque));
            return CompositeAlphaMode::Opaque;
        }
        i += 1;
    }
    modes[0]
}

// ---------------------------------------------------------------------------
// Acquiring frames
// ---------------------------------------------------------------------------

/// Outcome of asking a surface for its next texture.
#[derive(Clone, Copy, Debug, PartialEq, Eq, Structural)]
pub enum SurfaceStatus {
    Success,
    Suboptimal,
    Timeout,
    Occluded,
    Outdated,
    Lost,
    Validation,
}

/// What a renderer does with the outcome of acquiring a frame.
#[derive(Clone, Copy, Debug, PartialEq, Eq, Structural)]
pub enum FrameAction {
    /// Render into the acquired texture.
    Render,
    /// Reconfigure the surface, then render into the acquired texture.
    ReconfigureAndRender,
    /// Skip this frame.
    Skip,
    /// Reconfigure the surface and skip this frame.
    ReconfigureAndSkip,
}

/// What a renderer does when a frame begins. A lost surface is a fatal
/// error and is left out.
pub fn begin_frame_action(status: SurfaceStatus) -> (r: FrameAction)
    requires
        status != SurfaceStatus::Lost,
    ensures
        r == match status {
            SurfaceStatus::Success => FrameAction::Render,
            SurfaceStatus::Suboptimal => FrameAction::ReconfigureAndRender,
            SurfaceStatus::Outdated => FrameAction::ReconfigureAndSkip,
            _ => FrameAction::Skip,
        },
{
    match status {
        SurfaceStatus::Success => FrameAction::Render,
        SurfaceStatus::Suboptimal => FrameAction::ReconfigureAndRender,
        SurfaceStatus::Outdated => FrameAction::ReconfigureAndSkip,
        _ => FrameAction::Skip,
    }
}

/// What a window surface does with the outcome of an acquisition.
#[derive(Clone, Copy, Debug, PartialEq, Eq, Structural)]
pub enum AcquireAction {
    /// Use the acquired texture.
    Use,
    /// Reconfigure the surface and try once more.
    ReconfigureAndRetry,
    /// Give up on this frame.
    GiveUp,
}

/// What a window surface does with the outcome of its first (`retried` is
/// false) or second acquisition attempt. A usable texture is used; a
/// timed-out, outdated or lost surface is reconfigured and asked once more;
/// everything else gives up.
pub fn acquire_action(status: SurfaceStatus, retried: bool) -> (r: AcquireAction)
    ensures
        r == acquire_action_spec(status, retried),
        (status == SurfaceStatus::Success || status == SurfaceStatus::Suboptimal) ==> r
            == AcquireAction::Use,
        r == AcquireAction::Use ==> (status == SurfaceStatus::Success || status
            == SurfaceStatus::Suboptimal),
        r == AcquireAction::ReconfigureAndRetry <==> (!retried && (status == SurfaceStatus::Timeout
            || status == SurfaceStatus::Outdated || status == SurfaceStatus::Lost)),
{
    match status {
        SurfaceStatus::Success | SurfaceStatus::Suboptimal => AcquireAction::Use,
        SurfaceStatus::Timeout | SurfaceStatus::Outdated | SurfaceStatus::Lost => {
            if retried {
                AcquireAction::GiveUp
            } else {
                AcquireAction::ReconfigureAndRetry
            }
        },
        _ => AcquireAction::GiveUp,
    }
}

/// Law: a window surface asks for a texture at most twice per frame: after
/// a retry it never retries again.
pub proof fn lemma_acquire_retries_once(status: SurfaceStatus)
    ensures
        acquire_action_spec(status, true) != AcquireAction::ReconfigureAndRetry,
{
}

/// Law: a texture that was acquired is used. Whether the surface handed
/// one out at the first attempt or after a reconfiguration, a successful or
/// suboptimal acquisition yields the texture, and nothing else does.
pub proof fn lemma_acquired_textures_are_used(status: SurfaceStatus, retried: bool)
    ensures
        acquire_action_spec(SurfaceStatus::Success, retried) == AcquireAction::Use,
        acquire_action_spec(SurfaceStatus::Suboptimal, retried) == AcquireAction::Use,
        acquire_action_spec(status, retried) == AcquireAction::Use <==> (status
            == SurfaceStatus::Success || status == SurfaceStatus::Suboptimal),
{
}

/// Law: a surface that timed out, is outdated or was lost is reconfigured
/// and asked again exactly once; an occluded surface or a validation error
/// gives up on the frame at once.
pub proof fn lemma_failed_acquisitions(retried: bool)
    ensures
        acquire_action_spec(SurfaceStatus::Timeout, false) == AcquireAction::ReconfigureAndRetry,
        acquire_action_spec(SurfaceStatus::Outdated, false) == AcquireAction::ReconfigureAndRetry,
        acquire_action_spec(SurfaceStatus::Lost, false) == AcquireAction::ReconfigureAndRetry,
        acquire_action_spec(SurfaceStatus::Timeout, true) == AcquireAction::GiveUp,
        acquire_action_spec(SurfaceStatus::Outdated, true) == AcquireAction::GiveUp,
        acquire_action_spec(SurfaceStatus::Lost, true) == AcquireAction::GiveUp,
        acquire_action_spec(SurfaceStatus::Occluded, retried) == AcquireAction::GiveUp,
        acquire_action_spec(SurfaceStatus::Validation, retried) == AcquireAction::GiveUp,
{
}

/// The decision of `acquire_action`.
pub open spec fn acquire_action_spec(status: SurfaceStatus, retried: bool) -> AcquireAction {
    match status {
        SurfaceStatus::Success | SurfaceStatus::Suboptimal => AcquireAction::Use,
        SurfaceStatus::Timeout | SurfaceStatus::Outdated | SurfaceStatus::Lost => if retried {
            AcquireAction::GiveUp
        } else {
            AcquireAction::ReconfigureAndRetry
        },
        _ => AcquireAction::GiveUp,
    }
}

// ---------------------------------------------------------------------------
// Surface size
// ---------------------------------------------------------------------------

/// The size a surface is configured with.
#[derive(Clone, Copy, Debug, PartialEq, Eq, Structural)]
pub struct SurfaceExtent {
    pub width: u32,
    pub height: u32,
}

impl SurfaceExtent {
    /// Follows a window resize. A resize to a zero width or height (a
    /// minimized window) is ignored. Returns whether the surface must be
    /// reconfigured.
    pub fn resize(&mut self, width: u32, height: u32) -> (reconfigure: bool)
        ensures
            reconfigure == (width != 0 && height != 0),
            *final(self) == if reconfigure {
                SurfaceExtent { width, height }
            } else {
                *old(self)
            },
    {
        if width == 0 || height == 0 {
            return false;
        }
        self.width = width;
        self.height = height;
        true
    }

    /// Configured width.
    pub fn width(&self) -> (r: u32)
        ensures
            r == self.width,
    {
        self.width
    }

    /// Configured height.
    pub fn height(&self) -> (r: u32)
        ensures
            r == self.height,
    {
        self.height
    }
}

/// The extent of a window's client area, as handed to the graphics context:
/// each side at least one pixel, then kept to its low 16 bits.
pub open spec fn client_side(low: i32, high: i32) -> int {
    let side = if high - low >= 1 { high - low } else { 1 };
    side % 0x10000
}

/// The client-area size of a window from its client rectangle. The side
/// lengths must fit an `i32`, and after truncation to 16 bits they must not
/// be zero (the size is used as a non-zero value).
pub fn client_extent(left: i32, top: i32, right: i32, bottom: i32) -> (r: (u16, u16))
    requires
        i32::MIN <= right - left <= i32::MAX,
        i32::MIN <= bottom - top <= i32::MAX,
        client_side(left, right) != 0,
        client_side(top, bottom) != 0,
    ensures
        r.0 as int == client_side(left, right),
        r.1 as int == client_side(top, bottom),
        r.0 != 0,
        r.1 != 0,
{
    let w = right - left;
    let h = bottom - top;
    let w = if w >= 1 { w } else { 1 };
    let h = if h >= 1 { h } else { 1 };
    let wu = w as u32;
    let hu = h as u32;
    let wr = (wu % 0x10000) as u16;
    let hr = (hu % 0x10000) as u16;
    (wr, hr)
}

} // verus!
