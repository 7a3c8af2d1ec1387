use ngon::layout::{StepMode, VertexAttribute, FLOATS_PER_ATTRIBUTE, FLOAT_BYTES};
use ngon::mesh::Vertex;

#[test]
fn vertex_takes_twenty_four_bytes() {
    let layout = Vertex::desc();
    assert_eq!(layout.array_stride, 24);
    assert_eq!(layout.array_stride, 6 * std::mem::size_of::<f32>() as u64);
    assert_eq!(layout.step_mode, StepMode::Vertex);
}

#[test]
fn position_then_color() {
    let layout = Vertex::desc();
    assert_eq!(
        layout.attributes,
        vec![
            VertexAttribute { offset: 0, shader_location: 0, floats: 3 },
            VertexAttribute { offset: 12, shader_location: 1, floats: 3 },
        ]
    );
}

#[test]
fn attributes_fill_the_vertex() {
    let layout = Vertex::desc();
    assert_eq!((FLOAT_BYTES, FLOATS_PER_ATTRIBUTE), (4, 3));
    let mut at = 0u64;
    for attribute in layout.attributes.iter() {
        assert_eq!(attribute.offset, at);
        at += FLOAT_BYTES * attribute.floats as u64;
    }
    assert_eq!(at, layout.array_stride);
}
