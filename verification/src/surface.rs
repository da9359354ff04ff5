//! The decisions around the drawing surface: its size, how each attempt to
//! get a frame to draw into is answered, and which format and alpha mode
//! are picked from what the adapter offers.

use vstd::prelude::*;

verus! {

/// A size in physical pixels.
#[derive(Clone, Copy, PartialEq, Eq, Debug, Structural)]
pub struct PixelSize {
    pub width: u32,
    pub height: u32,
}

/// Whether a surface of this size can be drawn into: both sides positive.
pub open spec fn drawable(size: PixelSize) -> bool {
    size.width > 0 && size.height > 0
}

/// The two sizes the renderer keeps: the last size the window reported, and
/// the size the drawing surface is configured with. The surface keeps its
/// last drawable size while the window has a zero side (minimised).
#[derive(Clone, Copy, PartialEq, Eq, Debug, Structural)]
pub struct SurfaceSizes {
    pub window: PixelSize,
    pub surface: PixelSize,
}

impl SurfaceSizes {
    /// The sizes right after start-up, when window and surface agree.
    pub fn new(size: PixelSize) -> (s: Self)
        ensures
            s.window == size,
            s.surface == size,
    {
        SurfaceSizes { window: size, surface: size }
    }

    /// Takes a new window size. The window size is always recorded; the
    /// surface follows only when the new size is drawable. Returns whether
    /// it did, in which case the surface must be configured again and the
    /// shaders told the new size.
    pub fn resize(&mut self, size: PixelSize) -> (reconfigure: bool)
        ensures
            *final(self) == resized(*old(self), size),
            reconfigure == drawable(size),
    {
        self.window = size;
        if size.width > 0 && size.height > 0 {
            self.surface = size;
            true
        } else {
            false
        }
    }
}

/// Resizing to a size with a zero side leaves the surface as it was; two
/// resizes to the same size leave the same sizes as one; a surface that
/// was drawable stays drawable whatever the window does.
pub proof fn lemma_resize_laws(before: SurfaceSizes, size: PixelSize)
    ensures
        !drawable(size) ==> resized(before, size).surface == before.surface,
        drawable(before.surface) ==> drawable(resized(before, size).surface),
        resized(resized(before, size), size) == resized(before, size),
        drawable(size) ==> resized(before, size).surface == size,
        resized(before, size).window == size,
        resized(before, size).surface == if size.width > 0 && size.height > 0 {
            size
        } else {
            before.surface
        },
{
}

/// The sizes after a resize to `size`, as `SurfaceSizes::resize` leaves them.
pub open spec fn resized(before: SurfaceSizes, size: PixelSize) -> SurfaceSizes {
    SurfaceSizes {
        window: size,
        surface: if drawable(size) {
            size
        } else {
            before.surface
        },
    }
}

/// How a request for the next frame to draw into was answered.
#[derive(Clone, Copy, PartialEq, Eq, Debug, Structural)]
pub enum FrameOutcome {
    Success,
    Suboptimal,
    Timeout,
    Occluded,
    Outdated,
    Lost,
    Validation,
}

/// What the renderer does with that answer.
#[derive(Clone, Copy, PartialEq, Eq, Debug, Structural)]
pub enum FrameAction {
    /// Clear the frame, draw with the pipeline if there is one, present it.
    Draw { with_pipeline: bool },
    /// Configure the surface again at the current window size.
    Reconfigure,
    /// Report that the surface timed out.
    ReportTimeout,
    /// Skip this frame.
    Skip,
}

/// The action for each answer: a frame that was handed out cleanly is
/// drawn; an outdated or lost surface is configured again; a timeout is
/// reported; anything else skips the frame.
pub open spec fn frame_action_spec(outcome: FrameOutcome, has_pipeline: bool) -> FrameAction {
    match outcome {
        FrameOutcome::Success => FrameAction::Draw { with_pipeline: has_pipeline },
        FrameOutcome::Outdated | FrameOutcome::Lost => FrameAction::Reconfigure,
        FrameOutcome::Timeout => FrameAction::ReportTimeout,
        _ => FrameAction::Skip,
    }
}

/// The renderer's answers, one by one: a frame handed out cleanly is drawn
/// (with the pipeline exactly when there is one), an outdated or lost
/// surface is configured again, a timeout is reported, and a suboptimal,
/// occluded or invalid answer skips the frame; none of this depends on
/// whether there is a pipeline except the drawing itself.
pub proof fn lemma_frame_actions(has_pipeline: bool)
    ensures
        frame_action_spec(FrameOutcome::Success, has_pipeline) == (FrameAction::Draw {
            with_pipeline: has_pipeline,
        }),
        frame_action_spec(FrameOutcome::Outdated, has_pipeline) == FrameAction::Reconfigure,
        frame_action_spec(FrameOutcome::Lost, has_pipeline) == FrameAction::Reconfigure,
        frame_action_spec(FrameOutcome::Timeout, has_pipeline) == FrameAction::ReportTimeout,
        frame_action_spec(FrameOutcome::Suboptimal, has_pipeline) == FrameAction::Skip,
        frame_action_spec(FrameOutcome::Occluded, has_pipeline) == FrameAction::Skip,
        frame_action_spec(FrameOutcome::Validation, has_pipeline) == FrameAction::Skip,
{
}

/// The action for an answer to a frame request.
pub fn frame_action(outcome: FrameOutcome, has_pipeline: bool) -> (action: FrameAction)
    ensures
        action == frame_action_spec(outcome, has_pipeline),
{
    match outcome {
        FrameOutcome::Success => FrameAction::Draw { with_pipeline: has_pipeline },
        FrameOutcome::Outdated | FrameOutcome::Lost => FrameAction::Reconfigure,
        FrameOutcome::Timeout => FrameAction::ReportTimeout,
        _ => FrameAction::Skip,
    }
}

/// The index of the surface format to use, given for each offered format
/// whether it is an sRGB format: the first sRGB one, or else the first one.
pub fn preferred_format_index(is_srgb: &Vec<bool>) -> (i: usize)
    requires
        is_srgb@.len() > 0,
    ensures
        i < is_srgb@.len(),
        (exists|k: int| 0 <= k < is_srgb@.len() && is_srgb@[k]) ==> {
            &&& is_srgb@[i as int]
            &&& forall|k: int| 0 <= k < i ==> !is_srgb@[k]
        },
        (forall|k: int| 0 <= k < is_srgb@.len() ==> !is_srgb@[k]) ==> i == 0,
{
    let mut i: usize = 0;
    while i < is_srgb.len()
        invariant
            i <= is_srgb@.len(),
            forall|k: int| 0 <= k < i ==> !is_srgb@[k],
        decreases is_srgb@.len() - i,
    {
        if is_srgb[i] {
            return i;
        }
        i = i + 1;
    }
    0
}

/// How the surface's alpha is composited with the desktop.
#[derive(Clone, Copy, PartialEq, Eq, Debug, Structural)]
pub enum AlphaMode {
    Auto,
    Opaque,
    PreMultiplied,
    PostMultiplied,
    Inherit,
}

/// Whether a mode lets the desktop show through the picture.
pub open spec fn is_translucent(mode: AlphaMode) -> bool {
    mode == AlphaMode::PostMultiplied || mode == AlphaMode::PreMultiplied
}

/// The alpha mode to use among those offered: the first one that lets the
/// desktop show through, or else the first one offered.
pub fn choose_alpha_mode(modes: &Vec<AlphaMode>) -> (mode: AlphaMode)
    requires
        modes@.len() > 0,
    ensures
        (exists|k: int| 0 <= k < modes@.len() && is_translucent(modes@[k])) ==> exists|i: int|
            {
                &&& 0 <= i < modes@.len()
                &&& mode == modes@[i]
                &&& is_translucent(modes@[i])
                &&& forall|k: int| 0 <= k < i ==> !is_translucent(#[trigger] modes@[k])
            },
        (forall|k: int| 0 <= k < modes@.len() ==> !is_translucent(modes@[k])) ==> mode == modes@[0],
{
    let mut i: usize = 0;
    while i < modes.len()
        invariant
            i <= modes@.len(),
            forall|k: int| 0 <= k < i ==> !is_translucent(#[trigger] modes@[k]),
        decreases modes@.len() - i,
    {
        let m = modes[i];
        if m == AlphaMode::PostMultiplied || m == AlphaMode::PreMultiplied {
            assert(is_translucent(modes@[i as int]));
            return m;
        }
        i = i + 1;
    }
    modes[0]
}

} // verus!
