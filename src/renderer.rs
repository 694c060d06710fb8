use vstd::prelude::*;
use crate::camera::{OrthoCamera, resize_uploads, resized};
use crate::frame::{BindingTarget, PassCommand};
use crate::mesh::{Mesh, mesh_commands};

verus! {

/// What a resize request asks of the presentation surface.
#[derive(Clone, Copy, Debug, PartialEq, Eq, Structural)]
pub enum ResizeAction {
    /// A zero dimension (a minimised window): nothing changes.
    Ignore,
    /// Reconfigure the surface to `width` x `height`, and upload a new camera
    /// projection when `upload_projection` holds.
    Reconfigure { width: u32, height: u32, upload_projection: bool },
}

/// The render commands of a sequence of created meshes, in order, each drawn
/// for the single instance `0..1`.
pub open spec fn meshes_commands<V, M>(s: Seq<Mesh<V, M>>) -> Seq<PassCommand>
    decreases s.len(),
{
    if s.len() == 0 {
        Seq::empty()
    } else {
        meshes_commands(s.drop_last()) + mesh_commands(
            s.last().index.unwrap(),
            s.last().data@.len() as u32,
            0..1u32,
        )
    }
}

/// The commands of one frame's render pass: the pipeline, the camera at slot 0,
/// then every mesh.
pub open spec fn frame_commands<V, M>(meshes: Seq<Mesh<V, M>>) -> Seq<PassCommand> {
    seq![
        PassCommand::SetPipeline,
        PassCommand::SetBindGroup { index: 0, target: BindingTarget::Camera },
    ] + meshes_commands(meshes)
}

/// What resizing `r` to `width` x `height` asks of the surface.
pub open spec fn resize_action_of<V, M>(r: Renderer<V, M>, width: u32, height: u32) -> ResizeAction {
    if width > 0 && height > 0 {
        ResizeAction::Reconfigure {
            width,
            height,
            upload_projection: resize_uploads(r.camera, width, height),
        }
    } else {
        ResizeAction::Ignore
    }
}

/// The frame driver's state: surface size, camera, and the meshes it draws, the
/// mesh at position `i` created under index `i`.
pub struct Renderer<V, M> {
    pub width: u32,
    pub height: u32,
    pub camera: OrthoCamera,
    pub meshes: Vec<Mesh<V, M>>,
}

impl<V, M> Renderer<V, M> {
    pub open spec fn wf(&self) -> bool {
        &&& self.camera.is_setup
        &&& self.meshes@.len() <= u32::MAX
        &&& forall|i: int|
            0 <= i < self.meshes@.len() ==> (#[trigger] self.meshes@[i]).wf()
                && self.meshes@[i].index == Some(i as u32)
    }

    /// Same surface size and camera as `other`.
    pub open spec fn same_frame(&self, other: Renderer<V, M>) -> bool {
        &&& self.width == other.width
        &&& self.height == other.height
        &&& self.camera == other.camera
    }

    /// A renderer for a surface of `width` x `height` pixels, with its camera set
    /// up and no meshes.
    pub fn new(width: u32, height: u32) -> (r: Renderer<V, M>)
        ensures
            r.wf(),
            r.width == width,
            r.height == height,
            r.camera.width == width,
            r.camera.height == height,
            r.meshes@.len() == 0,
    {
        let mut camera = OrthoCamera::new(width, height);
        camera.setup();
        Renderer { width, height, camera, meshes: Vec::new() }
    }

    /// Current surface size.
    pub fn get_size(&self) -> (r: (u32, u32))
        ensures
            r == (self.width, self.height),
    {
        (self.width, self.height)
    }

    /// Adds a mesh over `data`, created under the next free index with its
    /// model uniform holding `identity`. Returns that index.
    pub fn add_mesh(&mut self, data: Vec<V>, identity: M) -> (r: u32)
        requires
            old(self).wf(),
            old(self).meshes@.len() < u32::MAX,
            data@.len() <= u32::MAX,
        ensures
            final(self).wf(),
            r == old(self).meshes@.len(),
            final(self).meshes@.len() == old(self).meshes@.len() + 1,
            forall|i: int| 0 <= i < old(self).meshes@.len() ==> final(self).meshes@[i] == old(self).meshes@[i],
            final(self).meshes@[r as int].data@ == data@,
            final(self).meshes@[r as int].model_uniform.unwrap().data == identity,
            final(self).camera == old(self).camera,
            final(self).width == old(self).width,
            final(self).height == old(self).height,
    {
        let index = self.meshes.len() as u32;
        let mut mesh = Mesh::new(data);
        mesh.setup(index, identity);
        self.meshes.push(mesh);
        index
    }

    /// Applies a resize of the surface: ignored when a dimension is zero,
    /// otherwise the surface and the camera take the new size.
    pub fn resize(&mut self, width: u32, height: u32) -> (r: ResizeAction)
        requires
            old(self).wf(),
        ensures
            final(self).wf(),
            final(self).meshes@ == old(self).meshes@,
            r == resize_action_of(*old(self), width, height),
            width == 0 || height == 0 ==> r == ResizeAction::Ignore && final(self).width
                == old(self).width && final(self).height == old(self).height
                && final(self).camera == old(self).camera,
            width > 0 && height > 0 ==> r == (ResizeAction::Reconfigure {
                width,
                height,
                upload_projection: resize_uploads(old(self).camera, width, height),
            }) && final(self).width == width && final(self).height == height
                && final(self).camera == resized(old(self).camera, width, height),
    {
        if width > 0 && height > 0 {
            self.width = width;
            self.height = height;
            let upload_projection = self.camera.resize(width, height);
            ResizeAction::Reconfigure { width, height, upload_projection }
        } else {
            ResizeAction::Ignore
        }
    }

    /// Writes `model` into the model uniform of every mesh (one transform for
    /// the whole scene). Returns the uniforms written, in mesh order.
    pub fn update(&mut self, model: M) -> (r: Vec<BindingTarget>)
        where
            M: Copy,
        requires
            old(self).wf(),
        ensures
            final(self).wf(),
            final(self).camera == old(self).camera,
            final(self).width == old(self).width,
            final(self).height == old(self).height,
            final(self).meshes@.len() == old(self).meshes@.len(),
            r@.len() == old(self).meshes@.len(),
            forall|i: int|
                0 <= i < r@.len() ==> #[trigger] r@[i] == BindingTarget::Model(i as u32),
            forall|i: int|
                0 <= i < old(self).meshes@.len() ==> #[trigger] final(self).meshes@[i].data@
                    == old(self).meshes@[i].data@
                    && final(self).meshes@[i].model_uniform.unwrap().data == model,
    {
        let mut written: Vec<BindingTarget> = Vec::new();
        let mut i: usize = 0;
        while i < self.meshes.len()
            invariant
                self.wf(),
                self.camera == old(self).camera,
                self.width == old(self).width,
                self.height == old(self).height,
                self.meshes@.len() == old(self).meshes@.len(),
                0 <= i <= self.meshes@.len(),
                written@.len() == i,
                forall|j: int| 0 <= j < i ==> #[trigger] written@[j] == BindingTarget::Model(j as u32),
                forall|j: int|
                    0 <= j < self.meshes@.len() ==> #[trigger] self.meshes@[j].data@
                        == old(self).meshes@[j].data@,
                forall|j: int|
                    0 <= j < i ==> #[trigger] self.meshes@[j].model_uniform.unwrap().data == model,
            decreases self.meshes@.len() - i,
        {
            let ghost prev = self.meshes@;
            assert(prev[i as int].wf() && prev[i as int].index == Some(i as u32));
            let target = self.meshes[i].update_buffer(model);
            assert(forall|j: int| 0 <= j < prev.len() && j != i ==> self.meshes@[j] == prev[j]);
            assert forall|j: int| 0 <= j < self.meshes@.len() implies #[trigger] self.meshes@[j].data@
                == old(self).meshes@[j].data@ by {
                assert(prev[j].data@ == old(self).meshes@[j].data@);
            }
            match target {
                Some(t) => written.push(t),
                None => {},
            }
            i += 1;
        }
        written
    }

    /// The commands of this frame's render pass: the pipeline, the camera's
    /// projection at slot 0, then for each mesh its model uniform at slot 1, its
    /// vertex buffer and a draw of all its vertices for one instance.
    pub fn render(&self) -> (r: Vec<PassCommand>)
        requires
            self.wf(),
        ensures
            r@ == frame_commands(self.meshes@),
    {
        let mut cmds: Vec<PassCommand> = Vec::new();
        cmds.push(PassCommand::SetPipeline);
        match self.camera.bind_group() {
            Some(c) => cmds.push(c),
            None => {},
        }
        let ghost header = seq![
            PassCommand::SetPipeline,
            PassCommand::SetBindGroup { index: 0, target: BindingTarget::Camera },
        ];
        assert(cmds@ =~= header + meshes_commands(self.meshes@.take(0)));
        let mut i: usize = 0;
        while i < self.meshes.len()
            invariant
                self.wf(),
                0 <= i <= self.meshes@.len(),
                cmds@ == header + meshes_commands(self.meshes@.take(i as int)),
            decreases self.meshes@.len() - i,
        {
            let mesh = &self.meshes[i];
            assert(mesh.wf() && mesh.index == Some(i as u32));
            proof {
                let s = self.meshes@.take(i as int + 1);
                assert(s.drop_last() =~= self.meshes@.take(i as int));
                assert(s.last() == self.meshes@[i as int]);
            }
            let mut c = mesh.render(0..1);
            cmds.append(&mut c);
            assert(cmds@ =~= header + meshes_commands(self.meshes@.take(i as int + 1)));
            i += 1;
        }
        assert(self.meshes@.take(self.meshes@.len() as int) =~= self.meshes@);
        cmds
    }
}

} // verus!
