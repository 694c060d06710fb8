use vstd::prelude::*;

verus! {

/// A uniform resource that a bind group slot can refer to: the camera's
/// projection, or the model matrix of the mesh with the given index.
#[derive(Clone, Copy, Debug, PartialEq, Eq, Structural)]
pub enum BindingTarget {
    Camera,
    Model(u32),
}

/// One command recorded into a render pass.
#[derive(Clone, Copy, Debug, PartialEq, Eq, Structural)]
pub enum PassCommand {
    /// Bind the one render pipeline.
    SetPipeline,
    /// Attach the bind group of `target` at bind group slot `index`.
    SetBindGroup { index: u32, target: BindingTarget },
    /// Use the vertex buffer of mesh `mesh` at vertex buffer slot `slot`.
    SetVertexBuffer { slot: u32, mesh: u32 },
    /// Draw vertices `vertex_start..vertex_end` for instances
    /// `instance_start..instance_end`.
    Draw { vertex_start: u32, vertex_end: u32, instance_start: u32, instance_end: u32 },
}

/// Why a presentable frame could not be acquired.
#[derive(Clone, Copy, Debug, PartialEq, Eq, Structural)]
pub enum FrameError {
    Lost,
    Outdated,
    OutOfMemory,
    Timeout,
}

/// What the frame loop does after a failed acquisition.
#[derive(Clone, Copy, Debug, PartialEq, Eq, Structural)]
pub enum FrameAction {
    /// Reconfigure the surface at its current size and try again next frame.
    Reconfigure,
    /// Stop the run loop.
    Exit,
    /// Drop this frame and carry on.
    Skip,
}

pub open spec fn frame_action_spec(e: FrameError) -> FrameAction {
    match e {
        FrameError::Lost | FrameError::Outdated => FrameAction::Reconfigure,
        FrameError::OutOfMemory => FrameAction::Exit,
        FrameError::Timeout => FrameAction::Skip,
    }
}

/// Recovery policy for frame acquisition errors: a lost or outdated surface is
/// reconfigured, running out of memory is fatal, a timeout skips the frame.
pub fn frame_error_action(e: FrameError) -> (r: FrameAction)
    ensures
        r == frame_action_spec(e),
{
    match e {
        FrameError::Lost | FrameError::Outdated => FrameAction::Reconfigure,
        FrameError::OutOfMemory => FrameAction::Exit,
        FrameError::Timeout => FrameAction::Skip,
    }
}

/// Index of the surface format to configure, given for each supported format
/// (in the order the surface reports them) whether it is sRGB: the first sRGB
/// format, or else the first format.
pub fn preferred_format_index(is_srgb: &Vec<bool>) -> (r: usize)
    requires
        is_srgb@.len() > 0,
    ensures
        r < is_srgb@.len(),
        forall|j: int| 0 <= j < r ==> !#[trigger] is_srgb@[j],
        is_srgb@[r as int] || (r == 0 && forall|j: int| 0 <= j < is_srgb@.len() ==> !#[trigger] is_srgb@[j]),
{
    let mut i: usize = 0;
    while i < is_srgb.len()
        invariant
            0 <= i <= is_srgb@.len(),
            forall|j: int| 0 <= j < i ==> !#[trigger] is_srgb@[j],
        decreases is_srgb@.len() - i,
    {
        if is_srgb[i] {
            return i;
        }
        i += 1;
    }
    0
}

} // verus!
