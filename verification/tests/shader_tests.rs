use mesh_batch::shader::{read_spirv, ShaderError, SPIRV_MAGIC};

fn magic_le() -> Vec<u8> {
    vec![0x03, 0x02, 0x23, 0x07]
}

#[test]
fn little_endian_blob_is_read() {
    let blob = vec![0x03, 0x02, 0x23, 0x07, 0xAA, 0xBB, 0xCC, 0xDD];
    let words = read_spirv(&blob).unwrap();
    assert_eq!(words, vec![SPIRV_MAGIC, 0xDDCCBBAA]);
}

#[test]
fn byte_swapped_blob_is_swapped_whole() {
    let blob = vec![0x07, 0x23, 0x02, 0x03, 0xAA, 0xBB, 0xCC, 0xDD];
    let words = read_spirv(&blob).unwrap();
    assert_eq!(words, vec![SPIRV_MAGIC, 0xAABBCCDD]);
}

#[test]
fn unaligned_length_is_rejected() {
    let blob = vec![0x03, 0x02, 0x23];
    assert_eq!(read_spirv(&blob), Err(ShaderError::UnalignedLength));
}

#[test]
fn empty_blob_is_rejected() {
    let blob: Vec<u8> = Vec::new();
    assert_eq!(read_spirv(&blob), Err(ShaderError::MissingMagicNumber));
}

#[test]
fn wrong_magic_is_rejected() {
    let blob = vec![0x01, 0x02, 0x03, 0x04];
    assert_eq!(read_spirv(&blob), Err(ShaderError::MissingMagicNumber));
}

#[test]
fn magic_alone_is_enough() {
    let words = read_spirv(&magic_le()).unwrap();
    assert_eq!(words, vec![SPIRV_MAGIC]);
}
