use vstd::prelude::*;

verus! {

/// How acquiring and presenting the frame's surface image ended.
#[derive(Clone, Copy, Debug, PartialEq, Eq, Structural)]
pub enum SurfaceStatus {
    /// The frame was presented.
    Presented,
    /// No image became available in time.
    Timeout,
    /// The surface no longer matches the window.
    Outdated,
    /// The surface was lost.
    Lost,
    /// The GPU is out of memory.
    OutOfMemory,
}

/// What the frame loop does after a frame.
#[derive(Clone, Copy, Debug, PartialEq, Eq, Structural)]
pub enum FrameAction {
    /// Go on with the next frame.
    Continue,
    /// Configure the surface anew for the window's current size, then go on.
    Reconfigure,
    /// End the frame loop.
    Shutdown,
}

impl SurfaceStatus {
    /// A lost or outdated surface is configured anew and the frame skipped;
    /// without memory the loop ends; anything else goes on.
    pub open spec fn spec_action(self) -> FrameAction {
        match self {
            SurfaceStatus::Lost | SurfaceStatus::Outdated => FrameAction::Reconfigure,
            SurfaceStatus::OutOfMemory => FrameAction::Shutdown,
            SurfaceStatus::Presented | SurfaceStatus::Timeout => FrameAction::Continue,
        }
    }

    #[verifier::when_used_as_spec(spec_action)]
    pub fn action(self) -> (action: FrameAction)
        ensures
            action == self.spec_action(),
    {
        match self {
            SurfaceStatus::Lost | SurfaceStatus::Outdated => FrameAction::Reconfigure,
            SurfaceStatus::OutOfMemory => FrameAction::Shutdown,
            SurfaceStatus::Presented | SurfaceStatus::Timeout => FrameAction::Continue,
        }
    }
}

/// `index` is the first format of `srgb` that is an sRGB format.
pub open spec fn is_first_srgb(srgb: Seq<bool>, index: int) -> bool {
    &&& 0 <= index < srgb.len()
    &&& srgb[index]
    &&& forall|j: int| 0 <= j < index ==> !srgb[j]
}

/// Picks the surface's format among those it supports, given in the
/// surface's order of preference by whether each is an sRGB format: the
/// first sRGB format, or the first format where none is sRGB. A surface
/// without formats has none to pick.
pub fn choose_surface_format(srgb: &Vec<bool>) -> (chosen: Option<usize>)
    ensures
        srgb@.len() == 0 <==> chosen is None,
        chosen matches Some(i) ==> {
            ||| is_first_srgb(srgb@, i as int)
            ||| i == 0 && forall|j: int| 0 <= j < srgb@.len() ==> !srgb@[j]
        },
{
    if srgb.len() == 0 {
        return None;
    }
    let mut i: usize = 0;
    while i < srgb.len()
        invariant
            i <= srgb@.len(),
            forall|j: int| 0 <= j < i ==> !srgb@[j],
        decreases srgb@.len() - i,
    {
        if srgb[i] {
            return Some(i);
        }
        i += 1;
    }
    Some(0)
}

/// The size the surface is configured with, in pixels.
#[derive(Clone, Copy, Debug, PartialEq, Eq, Structural)]
pub struct SurfaceSize {
    pub width: u32,
    pub height: u32,
}

impl SurfaceSize {
    /// A surface can be configured for a size that is not empty.
    pub open spec fn spec_is_drawable(width: u32, height: u32) -> bool {
        width > 0 && height > 0
    }

    #[verifier::when_used_as_spec(spec_is_drawable)]
    pub fn is_drawable(width: u32, height: u32) -> (drawable: bool)
        ensures
            drawable == Self::spec_is_drawable(width, height),
    {
        width > 0 && height > 0
    }

    /// The size after the window has taken the size `width` by `height`: the
    /// new size, or the old one where the new size is empty.
    pub open spec fn spec_resized(self, width: u32, height: u32) -> SurfaceSize {
        if Self::spec_is_drawable(width, height) {
            SurfaceSize { width, height }
        } else {
            self
        }
    }

    /// Takes over the window's new size unless it is empty. Returns whether
    /// the surface is to be configured anew.
    pub fn resize(&mut self, width: u32, height: u32) -> (reconfigure: bool)
        ensures
            *final(self) == old(self).spec_resized(width, height),
            reconfigure == Self::spec_is_drawable(width, height),
    {
        if width > 0 && height > 0 {
            self.width = width;
            self.height = height;
            true
        } else {
            false
        }
    }
}

} // verus!
