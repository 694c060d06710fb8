use vstd::prelude::*;
use crate::frame::{BindingTarget, PassCommand};

verus! {

/// A uniform resource: the value last written to its buffer, and the bind group
/// slot target under which the buffer is bound. The layout binding never
/// changes after creation; `update_buffer` replaces the contents only.
pub struct UniformBuffer<T> {
    pub target: BindingTarget,
    pub data: T,
}

impl<T> UniformBuffer<T> {
    /// Creates the resource holding `data`.
    pub fn new(data: T, target: BindingTarget) -> (r: UniformBuffer<T>)
        ensures
            r.data == data,
            r.target == target,
    {
        UniformBuffer { target, data }
    }

    /// Replaces the whole contents with `data`.
    pub fn update_buffer(&mut self, data: T)
        ensures
            final(self).data == data,
            final(self).target == old(self).target,
    {
        self.data = data;
    }

    /// The command that attaches this resource at bind group slot `group_index`.
    pub fn bind(&self, group_index: u32) -> (r: PassCommand)
        ensures
            r == (PassCommand::SetBindGroup { index: group_index, target: self.target }),
    {
        PassCommand::SetBindGroup { index: group_index, target: self.target }
    }
}

} // verus!
