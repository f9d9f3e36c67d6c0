use mesh_batch::pipeline::{
    Antialiasing, BlendFactor, BlendOperation, CreationError, Pipeline, PrimitiveTopology,
    TextureFormat,
};
use mesh_batch::shader::ShaderError;

fn shader() -> Vec<u8> {
    vec![0x03, 0x02, 0x23, 0x07]
}

#[test]
fn construction_fixes_the_draw_state() {
    let p = Pipeline::new(TextureFormat::Bgra8UnormSrgb, None, &shader(), &shader()).unwrap();
    let c = &p.config;
    assert_eq!(c.format, TextureFormat::Bgra8UnormSrgb);
    assert_eq!(c.topology, PrimitiveTopology::TriangleList);
    assert!(c.front_face_clockwise);
    assert!(!c.culling_enabled);
    assert_eq!(c.color_blend.src_factor, BlendFactor::SrcAlpha);
    assert_eq!(c.color_blend.dst_factor, BlendFactor::OneMinusSrcAlpha);
    assert_eq!(c.color_blend.operation, BlendOperation::Add);
    assert_eq!(c.alpha_blend.src_factor, BlendFactor::One);
    assert_eq!(c.alpha_blend.dst_factor, BlendFactor::OneMinusSrcAlpha);
    assert_eq!(c.alpha_blend.operation, BlendOperation::Add);
    assert!(!c.depth_stencil_enabled);
    assert_eq!(c.vertex_stride, 24);
    assert_eq!(c.position_attribute.shader_location, 0);
    assert_eq!(c.position_attribute.components, 2);
    assert_eq!(c.position_attribute.offset, 0);
    assert_eq!(c.color_attribute.shader_location, 1);
    assert_eq!(c.color_attribute.components, 4);
    assert_eq!(c.color_attribute.offset, 8);
    assert_eq!(c.uniform_binding_bytes, 64);
    assert_eq!(c.vertex_shader, vec![0x0723_0203]);
    assert_eq!(c.fragment_shader, vec![0x0723_0203]);
}

#[test]
fn construction_creates_the_three_buffers() {
    let p = Pipeline::new(TextureFormat::Rgba8Unorm, None, &shader(), &shader()).unwrap();
    assert_eq!(p.uniforms_buffer.element_size, 64);
    assert_eq!(p.uniforms_buffer.size, 100);
    assert_eq!(p.vertex_buffer.element_size, 24);
    assert_eq!(p.vertex_buffer.size, 100_000);
    assert_eq!(p.index_buffer.element_size, 4);
    assert_eq!(p.index_buffer.size, 100_000);
}

#[test]
fn no_antialiasing_means_one_sample_and_no_blit() {
    let p = Pipeline::new(TextureFormat::Bgra8Unorm, None, &shader(), &shader()).unwrap();
    assert_eq!(p.config.sample_count, 1);
    assert_eq!(p.blit, None);
}

#[test]
fn antialiasing_sets_the_sample_count() {
    let p = Pipeline::new(
        TextureFormat::Bgra8Unorm,
        Some(Antialiasing::MSAAx4),
        &shader(),
        &shader(),
    )
    .unwrap();
    assert_eq!(p.config.sample_count, 4);
    assert_eq!(p.blit, Some(Antialiasing::MSAAx4));
    assert_eq!(Antialiasing::MSAAx2.sample_count(), 2);
    assert_eq!(Antialiasing::MSAAx8.sample_count(), 8);
    assert_eq!(Antialiasing::MSAAx16.sample_count(), 16);
}

#[test]
fn invalid_vertex_shader_names_the_vertex_stage() {
    let bad = vec![0x00, 0x01, 0x02];
    let r = Pipeline::new(TextureFormat::Bgra8Unorm, None, &bad, &shader());
    assert_eq!(r.unwrap_err(), CreationError::VertexShader(ShaderError::UnalignedLength));
}

#[test]
fn invalid_fragment_shader_names_the_fragment_stage() {
    let bad = vec![0x00, 0x01, 0x02, 0x03];
    let r = Pipeline::new(TextureFormat::Bgra8Unorm, None, &shader(), &bad);
    assert_eq!(r.unwrap_err(), CreationError::FragmentShader(ShaderError::MissingMagicNumber));
}

#[test]
fn vertex_stage_is_checked_first() {
    let bad = vec![0x00];
    let r = Pipeline::new(TextureFormat::Bgra8Unorm, None, &bad, &bad);
    assert_eq!(r.unwrap_err(), CreationError::VertexShader(ShaderError::UnalignedLength));
}
