use mesh_batch::transform::{matrix_is_bounded, Transformation, Uniforms, ONE_BITS};

#[test]
fn one_bits_is_the_float_one() {
    assert_eq!(ONE_BITS, 1.0f32.to_bits());
    assert_eq!(0u32, 0.0f32.to_bits());
}

#[test]
fn translate_places_the_offsets_in_the_last_column() {
    let x = 10.0f32.to_bits();
    let y = 20.0f32.to_bits();
    let t = Transformation::translate(x, y);
    let mut expected = [0u32; 16];
    expected[0] = ONE_BITS;
    expected[5] = ONE_BITS;
    expected[10] = ONE_BITS;
    expected[12] = x;
    expected[13] = y;
    expected[15] = ONE_BITS;
    assert_eq!(t.matrix, expected);
}

#[test]
fn identity_is_translation_by_nothing() {
    let id = Transformation::identity();
    let zero = Transformation::translate(0.0f32.to_bits(), 0.0f32.to_bits());
    assert_eq!(id.matrix, zero.matrix);
    let as_floats: Vec<f32> = id.matrix.iter().map(|b| f32::from_bits(*b)).collect();
    let diagonal = glam::Mat4::from_cols_array(&as_floats.try_into().unwrap());
    assert_eq!(diagonal, glam::Mat4::IDENTITY);
}

#[test]
fn ordinary_matrices_are_bounded() {
    assert!(matrix_is_bounded(&Transformation::identity()));
    let t = Transformation::translate(1024.0f32.to_bits(), (-768.0f32).to_bits());
    assert!(matrix_is_bounded(&t));
    // The largest admissible magnitudes lie just below 2^62.
    let edge = Transformation::translate((2.0f32).powi(61).to_bits(), 0.0f32.to_bits());
    assert!(matrix_is_bounded(&edge));
}

#[test]
fn unbounded_entries_are_rejected() {
    let nan = Transformation::translate(f32::NAN.to_bits(), 0.0f32.to_bits());
    assert!(!matrix_is_bounded(&nan));
    let inf = Transformation::translate(f32::INFINITY.to_bits(), 0.0f32.to_bits());
    assert!(!matrix_is_bounded(&inf));
    let huge = Transformation::translate((2.0f32).powi(62).to_bits(), 0.0f32.to_bits());
    assert!(!matrix_is_bounded(&huge));
    let negative_inf = Transformation::translate(f32::NEG_INFINITY.to_bits(), 0.0f32.to_bits());
    assert!(!matrix_is_bounded(&negative_inf));
}

#[test]
fn default_uniforms_hold_the_identity() {
    let u = Uniforms::default();
    assert_eq!(u.transform, Transformation::identity().matrix);
}
