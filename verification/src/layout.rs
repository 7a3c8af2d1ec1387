//! How a vertex lies in the vertex buffer.

use vstd::prelude::*;
use crate::mesh::Vertex;

verus! {

/// Bytes that one 32-bit float takes.
pub const FLOAT_BYTES: u64 = 4;

/// Floats of a position, and of a colour.
pub const FLOATS_PER_ATTRIBUTE: u32 = 3;

/// Whether the buffer advances once per vertex or once per instance.
#[derive(Clone, Copy, Debug, PartialEq, Eq, Structural)]
pub enum StepMode {
    Vertex,
    Instance,
}

/// One input of the vertex stage: `floats` consecutive 32-bit floats that
/// start `offset` bytes into the vertex and go to `shader_location`.
#[derive(Clone, Copy, Debug, PartialEq, Eq, Structural)]
pub struct VertexAttribute {
    pub offset: u64,
    pub shader_location: u32,
    pub floats: u32,
}

impl VertexAttribute {
    /// The byte after the last one of the attribute.
    pub open spec fn end(self) -> int {
        self.offset + FLOAT_BYTES * self.floats
    }
}

/// The layout of the vertex buffer.
#[derive(Debug)]
pub struct VertexBufferLayout {
    pub array_stride: u64,
    pub step_mode: StepMode,
    pub attributes: Vec<VertexAttribute>,
}

impl VertexBufferLayout {
    /// The attributes follow each other without gap or overlap, from the
    /// first byte of the vertex to its last.
    pub open spec fn packed(self) -> bool {
        &&& self.attributes@.len() > 0
        &&& self.attributes@[0].offset == 0
        &&& forall|i: int|
            0 <= i < self.attributes@.len() - 1 ==> (#[trigger] self.attributes@[i]).end()
                == self.attributes@[i + 1].offset
        &&& self.attributes@.last().end() == self.array_stride
    }

    /// No two attributes go to the same shader location.
    pub open spec fn distinct_locations(self) -> bool {
        forall|i: int, j: int|
            0 <= i < j < self.attributes@.len() ==> (#[trigger] self.attributes@[i]).shader_location
                != (#[trigger] self.attributes@[j]).shader_location
    }
}

/// The attribute that holds the position.
pub open spec fn position_attribute() -> VertexAttribute {
    VertexAttribute { offset: 0, shader_location: 0, floats: FLOATS_PER_ATTRIBUTE }
}

/// The attribute that holds the colour.
pub open spec fn color_attribute() -> VertexAttribute {
    VertexAttribute { offset: 12, shader_location: 1, floats: FLOATS_PER_ATTRIBUTE }
}

impl Vertex {
    /// The layout of a vertex in the buffer: three floats of position, then
    /// three floats of colour, twenty-four bytes in all, one vertex after
    /// the other.
    pub fn desc() -> (layout: VertexBufferLayout)
        ensures
            layout.array_stride == 24,
            layout.step_mode == StepMode::Vertex,
            layout.attributes@ == seq![position_attribute(), color_attribute()],
            layout.packed(),
            layout.distinct_locations(),
    {
        let attribute_bytes: u64 = FLOAT_BYTES * 3;
        let position = VertexAttribute {
            offset: 0,
            shader_location: 0,
            floats: FLOATS_PER_ATTRIBUTE,
        };
        let color = VertexAttribute {
            offset: attribute_bytes,
            shader_location: 1,
            floats: FLOATS_PER_ATTRIBUTE,
        };
        let mut attributes: Vec<VertexAttribute> = Vec::new();
        attributes.push(position);
        attributes.push(color);
        let layout = VertexBufferLayout {
            array_stride: 2 * attribute_bytes,
            step_mode: StepMode::Vertex,
            attributes,
        };
        assert(layout.attributes@ =~= seq![position_attribute(), color_attribute()]);
        layout
    }
}

} // verus!
