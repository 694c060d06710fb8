use vstd::prelude::*;
use crate::frame::{BindingTarget, PassCommand};

verus! {

/// An orthographic camera over a viewport of `width` x `height` pixels. Its
/// projection uniform exists once `setup` has run.
#[derive(Clone, Copy, Debug, PartialEq, Eq, Structural)]
pub struct OrthoCamera {
    pub width: u32,
    pub height: u32,
    pub is_setup: bool,
}

/// Whether resizing `c` to `width` x `height` uploads a new projection: only a
/// camera with a uniform, and only when a dimension changes.
pub open spec fn resize_uploads(c: OrthoCamera, width: u32, height: u32) -> bool {
    c.is_setup && (c.width != width || c.height != height)
}

/// The camera after resizing `c` to `width` x `height`.
pub open spec fn resized(c: OrthoCamera, width: u32, height: u32) -> OrthoCamera {
    OrthoCamera { width, height, is_setup: c.is_setup }
}

impl OrthoCamera {
    /// A camera over the given viewport, not yet set up.
    pub fn new(width: u32, height: u32) -> (r: OrthoCamera)
        ensures
            r.width == width,
            r.height == height,
            !r.is_setup,
    {
        OrthoCamera { width, height, is_setup: false }
    }

    /// Creates the projection uniform; running it again rebuilds it.
    pub fn setup(&mut self)
        ensures
            final(self).is_setup,
            final(self).width == old(self).width,
            final(self).height == old(self).height,
    {
        self.is_setup = true;
    }

    /// Half extents of the orthographic volume, `(width / 2, height / 2)` in
    /// whole pixels: the volume spans `[-w, w] x [-h, h]`.
    pub fn half_extents(&self) -> (r: (u32, u32))
        ensures
            r.0 == self.width / 2,
            r.1 == self.height / 2,
    {
        (self.width / 2, self.height / 2)
    }

    /// Stores new viewport dimensions. Returns whether the projection uniform
    /// must be recomputed and uploaded.
    pub fn resize(&mut self, width: u32, height: u32) -> (upload: bool)
        ensures
            *final(self) == resized(*old(self), width, height),
            upload == resize_uploads(*old(self), width, height),
    {
        if self.width != width || self.height != height {
            self.width = width;
            self.height = height;
            self.is_setup
        } else {
            false
        }
    }

    /// The command that binds the projection at slot 0, or none before setup.
    pub fn bind_group(&self) -> (r: Option<PassCommand>)
        ensures
            r == (if self.is_setup {
                Some(PassCommand::SetBindGroup { index: 0, target: BindingTarget::Camera })
            } else {
                None
            }),
    {
        if self.is_setup {
            Some(PassCommand::SetBindGroup { index: 0, target: BindingTarget::Camera })
        } else {
            None
        }
    }
}

/// Resizing twice to the same dimensions uploads the projection at most once:
/// the second call changes nothing and uploads nothing.
pub proof fn lemma_resize_twice_uploads_once(c: OrthoCamera, width: u32, height: u32)
    ensures
        resized(resized(c, width, height), width, height) == resized(c, width, height),
        !resize_uploads(resized(c, width, height), width, height),
        resize_uploads(c, width, height) <==> c.is_setup && (c.width != width || c.height != height),
{
}

} // verus!
