use vstd::prelude::*;
use crate::uniform::UniformBuffer;

verus! {

/// Element format of one vertex attribute.
#[derive(Clone, Copy, Debug, PartialEq, Eq, Structural)]
pub enum AttributeFormat {
    Float32,
    Float32x2,
    Float32x3,
    Float32x4,
    Uint32,
    Uint32x2,
    Uint32x3,
}

/// Size in bytes of one attribute of format `f`.
pub open spec fn format_size(f: AttributeFormat) -> nat {
    match f {
        AttributeFormat::Float32 | AttributeFormat::Uint32 => 4,
        AttributeFormat::Float32x2 | AttributeFormat::Uint32x2 => 8,
        AttributeFormat::Float32x3 | AttributeFormat::Uint32x3 => 12,
        AttributeFormat::Float32x4 => 16,
    }
}

/// Total size in bytes of a sequence of attributes laid out back to back.
pub open spec fn fields_size(s: Seq<AttributeFormat>) -> nat
    decreases s.len(),
{
    if s.len() == 0 {
        0
    } else {
        fields_size(s.drop_last()) + format_size(s.last())
    }
}

impl AttributeFormat {
    /// Size in bytes of one attribute of this format.
    pub fn size(&self) -> (r: u64)
        ensures
            r == format_size(*self),
    {
        match self {
            AttributeFormat::Float32 | AttributeFormat::Uint32 => 4,
            AttributeFormat::Float32x2 | AttributeFormat::Uint32x2 => 8,
            AttributeFormat::Float32x3 | AttributeFormat::Uint32x3 => 12,
            AttributeFormat::Float32x4 => 16,
        }
    }
}

/// One attribute of a vertex: its format, its byte offset in the vertex and the
/// shader location it feeds.
#[derive(Clone, Copy, Debug, PartialEq, Eq, Structural)]
pub struct VertexAttribute {
    pub format: AttributeFormat,
    pub offset: u64,
    pub shader_location: u32,
}

/// Layout of a per-vertex buffer: the stride between vertices and the
/// attributes of each.
pub struct VertexBufferLayout {
    pub array_stride: u64,
    pub attributes: Vec<VertexAttribute>,
}

/// The attribute for field `i` of `fields`: location `i`, placed after all the
/// fields before it.
pub open spec fn attribute_at(fields: Seq<AttributeFormat>, i: int) -> VertexAttribute {
    VertexAttribute {
        format: fields[i],
        offset: fields_size(fields.take(i)) as u64,
        shader_location: i as u32,
    }
}

proof fn lemma_fields_size_bound(s: Seq<AttributeFormat>)
    ensures
        fields_size(s) <= 16 * s.len(),
    decreases s.len(),
{
    if s.len() > 0 {
        lemma_fields_size_bound(s.drop_last());
    }
}

/// Lays out `fields` back to back in one vertex, in order, the first at offset
/// 0 and at shader location 0.
pub fn vertex_layout(fields: &Vec<AttributeFormat>) -> (r: VertexBufferLayout)
    requires
        fields@.len() <= u32::MAX,
    ensures
        r.array_stride == fields_size(fields@),
        r.attributes@.len() == fields@.len(),
        forall|i: int| 0 <= i < fields@.len() ==> #[trigger] r.attributes@[i] == attribute_at(fields@, i),
{
    let mut attributes: Vec<VertexAttribute> = Vec::new();
    let mut offset: u64 = 0;
    let mut i: usize = 0;
    while i < fields.len()
        invariant
            fields@.len() <= u32::MAX,
            0 <= i <= fields@.len(),
            offset == fields_size(fields@.take(i as int)),
            attributes@.len() == i,
            forall|j: int| 0 <= j < i ==> #[trigger] attributes@[j] == attribute_at(fields@, j),
        decreases fields@.len() - i,
    {
        proof {
            let s = fields@.take(i as int + 1);
            assert(s.drop_last() =~= fields@.take(i as int));
            lemma_fields_size_bound(s);
        }
        attributes.push(VertexAttribute { format: fields[i], offset, shader_location: i as u32 });
        offset = offset + fields[i].size();
        i += 1;
    }
    assert(fields@.take(fields@.len() as int) =~= fields@);
    VertexBufferLayout { array_stride: offset, attributes }
}

/// Layout of the game's vertex: a 2D position (`Float32x2`, location 0) then an
/// RGB colour (`Float32x3`, location 1), 20 bytes per vertex.
pub fn position_color_layout() -> (r: VertexBufferLayout)
    ensures
        r.array_stride == 20,
        r.attributes@ == seq![
            VertexAttribute { format: AttributeFormat::Float32x2, offset: 0, shader_location: 0 },
            VertexAttribute { format: AttributeFormat::Float32x3, offset: 8, shader_location: 1 },
        ],
{
    let fields = vec![AttributeFormat::Float32x2, AttributeFormat::Float32x3];
    let r = vertex_layout(&fields);
    proof {
        let s = fields@;
        reveal_with_fuel(fields_size, 3);
        assert(s.take(0).len() == 0);
        assert(s.take(1).drop_last() =~= s.take(0));
        assert(s.take(2) =~= s);
        assert(s.drop_last() =~= s.take(1));
        assert(r.attributes@[0] == attribute_at(s, 0));
        assert(r.attributes@[1] == attribute_at(s, 1));
    }
    assert(r.attributes@ =~= seq![
        VertexAttribute { format: AttributeFormat::Float32x2, offset: 0, shader_location: 0 },
        VertexAttribute { format: AttributeFormat::Float32x3, offset: 8, shader_location: 1 },
    ]);
    r
}

impl VertexBufferLayout {
    /// Byte length of a vertex buffer holding `vertex_count` vertices of this
    /// layout.
    pub fn buffer_size(&self, vertex_count: u32) -> (r: u64)
        requires
            vertex_count * self.array_stride <= u64::MAX,
        ensures
            r == vertex_count * self.array_stride,
    {
        vertex_count as u64 * self.array_stride
    }
}

/// Kind of resource a binding slot holds.
#[derive(Clone, Copy, Debug, PartialEq, Eq, Structural)]
pub enum BindType {
    Uniform,
}

/// A type whose values are always bound as one kind of resource.
pub trait ConstBindingType {
    spec fn bind_type_spec() -> BindType;

    fn bind_type() -> (r: BindType)
        ensures
            r == Self::bind_type_spec(),
    ;
}

impl<T> ConstBindingType for UniformBuffer<T> {
    open spec fn bind_type_spec() -> BindType {
        BindType::Uniform
    }

    fn bind_type() -> (r: BindType) {
        BindType::Uniform
    }
}

/// The binding kind of `T`.
pub fn binding_type_of<T: ConstBindingType>() -> (r: BindType)
    ensures
        r == T::bind_type_spec(),
{
    T::bind_type()
}

/// Shader stages a binding is visible to.
#[derive(Clone, Copy, Debug, PartialEq, Eq, Structural)]
pub enum ShaderStages {
    Vertex,
    VertexFragment,
}

/// One entry of a bind group layout.
#[derive(Clone, Copy, Debug, PartialEq, Eq, Structural)]
pub struct BindingLayoutEntry {
    pub binding: u32,
    pub visibility: ShaderStages,
    pub ty: BindType,
    pub has_dynamic_offset: bool,
}

/// Size in bytes of a uniform holding one 4x4 matrix of 32-bit floats.
pub const MAT4_UNIFORM_SIZE: u64 = 64;

/// The single entry of the camera and model-matrix layouts: a uniform buffer at
/// binding 0, seen by the vertex stage, without dynamic offset.
pub fn uniform_layout_descriptor() -> (r: BindingLayoutEntry)
    ensures
        r == (BindingLayoutEntry {
            binding: 0,
            visibility: ShaderStages::Vertex,
            ty: BindType::Uniform,
            has_dynamic_offset: false,
        }),
{
    BindingLayoutEntry {
        binding: 0,
        visibility: ShaderStages::Vertex,
        ty: binding_type_of::<UniformBuffer<()>>(),
        has_dynamic_offset: false,
    }
}

} // verus!
