//! The render target: which format to draw in, and what to do when no frame can be had.

use vstd::prelude::*;

verus! {

/// Why the surface handed out no frame.
#[derive(Debug, Clone, Copy, PartialEq, Eq, Structural)]
pub enum SurfaceError {
    /// The next frame did not arrive in time.
    Timeout,
    /// The surface has changed and has to be configured again.
    Outdated,
    /// The surface is lost.
    Lost,
    /// No memory is left for a frame.
    OutOfMemory,
}

/// What the host does about a frame it could not get.
#[derive(Debug, Clone, Copy, PartialEq, Eq, Structural)]
pub enum Recovery {
    /// Skip the frame and ask for another redraw.
    Redraw,
    /// Stop: rendering cannot continue.
    Shutdown,
}

impl SurfaceError {
    /// Whether rendering cannot continue after this error. The other errors pass: the
    /// target is unavailable for a moment only.
    pub open spec fn is_fatal(self) -> bool {
        self is Lost || self is OutOfMemory
    }

    /// Decides between skipping the frame and shutting down.
    pub fn recovery(&self) -> (recovery: Recovery)
        ensures
            recovery == if self.is_fatal() {
                Recovery::Shutdown
            } else {
                Recovery::Redraw
            },
    {
        match self {
            SurfaceError::Timeout => Recovery::Redraw,
            SurfaceError::Outdated => Recovery::Redraw,
            SurfaceError::Lost => Recovery::Shutdown,
            SurfaceError::OutOfMemory => Recovery::Shutdown,
        }
    }
}

/// Picks the format of the render target among those the surface supports.
///
/// `srgb[i]` tells whether format `i` is sRGB-encoded. The choice is the first sRGB
/// format, or the first format where none is sRGB-encoded, or `None` where the surface
/// supports no format at all.
pub fn preferred_format(srgb: &[bool]) -> (choice: Option<usize>)
    ensures
        match choice {
            Some(index) => {
                &&& index < srgb@.len()
                &&& forall|i: int| 0 <= i < index ==> !srgb@[i]
                &&& srgb@[index as int] || (index == 0 && forall|i: int|
                    0 <= i < srgb@.len() ==> !srgb@[i])
            },
            None => srgb@.len() == 0,
        },
{
    let mut index: usize = 0;
    while index < srgb.len()
        invariant
            index <= srgb@.len(),
            forall|i: int| 0 <= i < index ==> !srgb@[i],
        decreases srgb@.len() - index,
    {
        if srgb[index] {
            return Some(index);
        }
        index += 1;
    }
    if srgb.len() > 0 {
        Some(0)
    } else {
        None
    }
}

} // verus!
