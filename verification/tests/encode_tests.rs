use mesh_batch::encode::{encode_indices, encode_uniforms, encode_vertices};
use mesh_batch::mesh::Vertex2D;
use mesh_batch::transform::{Transformation, Uniforms};

#[test]
fn one_vertex_is_twenty_four_wire_bytes() {
    let v = Vertex2D {
        position: [1.0f32.to_bits(), 2.0f32.to_bits()],
        color: [0.25f32.to_bits(), 0.5f32.to_bits(), 0.75f32.to_bits(), 1.0f32.to_bits()],
    };
    let bytes = encode_vertices(&vec![v]);
    assert_eq!(bytes.len(), 24);
    assert_eq!(&bytes[0..4], &1.0f32.to_le_bytes());
    assert_eq!(&bytes[4..8], &2.0f32.to_le_bytes());
    assert_eq!(&bytes[8..12], &0.25f32.to_le_bytes());
    assert_eq!(&bytes[12..16], &0.5f32.to_le_bytes());
    assert_eq!(&bytes[16..20], &0.75f32.to_le_bytes());
    assert_eq!(&bytes[20..24], &1.0f32.to_le_bytes());
}

#[test]
fn vertices_are_staged_back_to_back() {
    let v = Vertex2D { position: [0, 0], color: [0, 0, 0, 0] };
    let w = Vertex2D { position: [u32::MAX, 1], color: [2, 3, 4, 5] };
    let bytes = encode_vertices(&vec![v, w]);
    assert_eq!(bytes.len(), 48);
    assert_eq!(&bytes[0..24], &[0u8; 24]);
    assert_eq!(&bytes[24..28], &[0xFF, 0xFF, 0xFF, 0xFF]);
    assert_eq!(&bytes[28..32], &[1, 0, 0, 0]);
}

#[test]
fn indices_are_little_endian_words() {
    let bytes = encode_indices(&vec![0, 1, 0x01020304]);
    assert_eq!(bytes, vec![0, 0, 0, 0, 1, 0, 0, 0, 0x04, 0x03, 0x02, 0x01]);
}

#[test]
fn empty_lists_stage_no_bytes() {
    assert_eq!(encode_vertices(&Vec::new()).len(), 0);
    assert_eq!(encode_indices(&Vec::new()).len(), 0);
    assert_eq!(encode_uniforms(&Vec::new()).len(), 0);
}

#[test]
fn one_uniform_is_sixty_four_wire_bytes() {
    let t = Transformation::translate(3.0f32.to_bits(), 4.0f32.to_bits());
    let bytes = encode_uniforms(&vec![Uniforms { transform: t.matrix }]);
    assert_eq!(bytes.len(), 64);
    assert_eq!(&bytes[0..4], &1.0f32.to_le_bytes());
    assert_eq!(&bytes[48..52], &3.0f32.to_le_bytes());
    assert_eq!(&bytes[52..56], &4.0f32.to_le_bytes());
    assert_eq!(&bytes[60..64], &1.0f32.to_le_bytes());
}

#[test]
fn uniforms_are_staged_back_to_back() {
    let a = Uniforms { transform: Transformation::identity().matrix };
    let b = Uniforms { transform: [7u32; 16] };
    let bytes = encode_uniforms(&vec![a, b]);
    assert_eq!(bytes.len(), 128);
    assert_eq!(&bytes[64..68], &[7, 0, 0, 0]);
}
