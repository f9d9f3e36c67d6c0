use mesh_batch::buffer::{Buffer, BufferUsage};

#[test]
fn new_buffer_keeps_its_fields() {
    let b = Buffer::new(24, 100, BufferUsage::Vertex);
    assert_eq!(b.element_size, 24);
    assert_eq!(b.size, 100);
    assert_eq!(b.usage, BufferUsage::Vertex);
    assert_eq!(b.byte_size(), 2400);
}

#[test]
fn ensure_capacity_grows_to_request() {
    let mut b = Buffer::new(4, 10, BufferUsage::Index);
    let grew = b.ensure_capacity(25);
    assert!(grew);
    assert_eq!(b.size, 25);
    assert_eq!(b.element_size, 4);
    assert_eq!(b.usage, BufferUsage::Index);
}

#[test]
fn ensure_capacity_never_shrinks() {
    let mut b = Buffer::new(64, 100, BufferUsage::Uniform);
    let grew = b.ensure_capacity(250);
    assert!(grew);
    assert_eq!(b.size, 250);
    let grew_again = b.ensure_capacity(30);
    assert!(!grew_again);
    assert_eq!(b.size, 250);
}

#[test]
fn ensure_capacity_equal_request_is_a_no_op() {
    let mut b = Buffer::new(24, 100, BufferUsage::Vertex);
    let grew = b.ensure_capacity(100);
    assert!(!grew);
    assert_eq!(b.size, 100);
}
