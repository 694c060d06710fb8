use vstd::prelude::*;
use std::ops::Range;
use crate::frame::{BindingTarget, PassCommand};
use crate::uniform::UniformBuffer;

verus! {

/// A mesh: its vertex list `data`, and once created, the index its vertex
/// buffer was made under and its model-matrix uniform.
pub struct Mesh<V, M> {
    pub data: Vec<V>,
    pub index: Option<u32>,
    pub model_uniform: Option<UniformBuffer<M>>,
}

/// Commands that draw `count` vertices of the mesh with index `index` for
/// `instances`: model uniform at slot 1, vertex buffer at slot 0, then the draw.
pub open spec fn mesh_commands(index: u32, count: u32, instances: Range<u32>) -> Seq<PassCommand> {
    seq![
        PassCommand::SetBindGroup { index: 1, target: BindingTarget::Model(index) },
        PassCommand::SetVertexBuffer { slot: 0, mesh: index },
        PassCommand::Draw {
            vertex_start: 0,
            vertex_end: count,
            instance_start: instances.start,
            instance_end: instances.end,
        },
    ]
}

impl<V, M> Mesh<V, M> {
    pub open spec fn wf(&self) -> bool {
        &&& self.data@.len() <= u32::MAX
        &&& self.index.is_some() == self.model_uniform.is_some()
        &&& self.index.is_some() ==> self.model_uniform.unwrap().target
            == BindingTarget::Model(self.index.unwrap())
    }

    pub open spec fn is_created(&self) -> bool {
        self.index.is_some()
    }

    /// A mesh over `data`, with no GPU resources yet.
    pub fn new(data: Vec<V>) -> (r: Mesh<V, M>)
        requires
            data@.len() <= u32::MAX,
        ensures
            r.wf(),
            !r.is_created(),
            r.data@ == data@,
    {
        Mesh { data, index: None, model_uniform: None }
    }

    /// Creates the vertex buffer under `mesh_index` and a model uniform holding
    /// `identity`.
    pub fn setup(&mut self, mesh_index: u32, identity: M)
        requires
            old(self).wf(),
        ensures
            final(self).wf(),
            final(self).data@ == old(self).data@,
            final(self).index == Some(mesh_index),
            final(self).model_uniform.unwrap().data == identity,
    {
        self.index = Some(mesh_index);
        self.model_uniform = Some(UniformBuffer::new(identity, BindingTarget::Model(mesh_index)));
    }

    /// Number of vertices every draw of this mesh covers.
    pub fn vertex_count(&self) -> (r: u32)
        requires
            self.wf(),
        ensures
            r == self.data@.len(),
    {
        self.data.len() as u32
    }

    /// Writes `model_matrix` into the model uniform and returns its target; a
    /// mesh that was never created is left as it is.
    pub fn update_buffer(&mut self, model_matrix: M) -> (r: Option<BindingTarget>)
        requires
            old(self).wf(),
        ensures
            final(self).wf(),
            final(self).data@ == old(self).data@,
            final(self).index == old(self).index,
            old(self).is_created() ==> final(self).model_uniform.unwrap().data == model_matrix
                && r == Some(BindingTarget::Model(old(self).index.unwrap())),
            !old(self).is_created() ==> r.is_none() && final(self).model_uniform.is_none(),
    {
        match &mut self.model_uniform {
            Some(u) => {
                u.update_buffer(model_matrix);
                Some(u.target)
            },
            None => None,
        }
    }

    /// The commands that draw this mesh for `instances`. Drawing a mesh whose
    /// GPU resources were never created is a construction-order error, ruled out
    /// by the precondition.
    pub fn render(&self, instances: Range<u32>) -> (r: Vec<PassCommand>)
        requires
            self.wf(),
            self.is_created(),
        ensures
            r@ == mesh_commands(self.index.unwrap(), self.data@.len() as u32, instances),
    {
        let index = self.index.unwrap();
        let uniform = self.model_uniform.as_ref().unwrap();
        let mut cmds: Vec<PassCommand> = Vec::new();
        cmds.push(uniform.bind(1));
        cmds.push(PassCommand::SetVertexBuffer { slot: 0, mesh: index });
        cmds.push(
            PassCommand::Draw {
                vertex_start: 0,
                vertex_end: self.vertex_count(),
                instance_start: instances.start,
                instance_end: instances.end,
            },
        );
        assert(cmds@ =~= mesh_commands(index, self.data@.len() as u32, instances));
        cmds
    }
}

} // verus!
