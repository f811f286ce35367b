use cuda_graph::handle::CUfunction;
use cuda_graph::params::KernelNodeParams;

fn params() -> KernelNodeParams {
    KernelNodeParams::new(CUfunction(0x40), (1, 2, 3), (4, 5, 6), 7)
}

#[derive(Clone, Copy)]
#[allow(dead_code)]
struct Tag(u8, u8, u8);

#[test]
fn new_params_keep_the_geometry_and_hold_nothing() {
    let p = params();
    assert_eq!(p.func, CUfunction(0x40));
    assert_eq!(p.grid_dim, (1, 2, 3));
    assert_eq!(p.block_dim, (4, 5, 6));
    assert_eq!(p.shared_mem_bytes, 7);
    assert_eq!(p.to_raw(), (vec![], vec![]));
}

#[test]
fn arguments_are_padded_to_their_alignment() {
    let mut p = params();
    p.push_param::<u8>(&[0xaa]);
    p.push_param::<u32>(&[1, 2, 3, 4]);
    p.push_param::<u16>(&[5, 6]);
    p.push_param::<u64>(&[7, 8, 9, 10, 11, 12, 13, 14]);
    let (offsets, bytes) = p.to_raw();
    assert_eq!(offsets, vec![0, 4, 8, 16]);
    assert_eq!(
        bytes,
        vec![0xaa, 0, 0, 0, 1, 2, 3, 4, 5, 6, 0, 0, 0, 0, 0, 0, 7, 8, 9, 10, 11, 12, 13, 14]
    );
}

#[test]
fn an_aligned_end_needs_no_padding() {
    let mut p = params();
    p.push_param::<u32>(&[1, 2, 3, 4]);
    p.push_param::<u32>(&[5, 6, 7, 8]);
    assert_eq!(p.to_raw(), (vec![0, 4], vec![1, 2, 3, 4, 5, 6, 7, 8]));
}

#[test]
fn zero_sized_arguments_take_an_offset_and_no_bytes() {
    let mut p = params();
    p.push_param::<()>(&[]);
    p.push_param::<u8>(&[9]);
    p.push_param::<()>(&[]);
    p.push_param::<[u32; 0]>(&[]);
    assert_eq!(p.to_raw(), (vec![0, 0, 1, 4], vec![9, 0, 0, 0]));
}

#[test]
fn every_argument_reads_back_where_it_was_put() {
    let mut p = params();
    let a: u16 = 0xbeef;
    let b: u64 = 0x0123_4567_89ab_cdef;
    let c: f32 = 1.5;
    p.push_param::<Tag>(&[1, 2, 3]);
    p.push_param::<u16>(&a.to_ne_bytes());
    p.push_param::<u64>(&b.to_ne_bytes());
    p.push_param::<f32>(&c.to_ne_bytes());
    let (offsets, bytes) = p.to_raw();
    assert_eq!(offsets.len(), 4);
    assert_eq!(&bytes[offsets[0]..offsets[0] + 3], &[1, 2, 3]);
    assert_eq!(&bytes[offsets[1]..offsets[1] + 2], &a.to_ne_bytes());
    assert_eq!(&bytes[offsets[2]..offsets[2] + 8], &b.to_ne_bytes());
    assert_eq!(&bytes[offsets[3]..offsets[3] + 4], &c.to_ne_bytes());
    assert_eq!(offsets[1] % std::mem::align_of::<u16>(), 0);
    assert_eq!(offsets[2] % std::mem::align_of::<u64>(), 0);
    assert_eq!(offsets[3] % std::mem::align_of::<f32>(), 0);
    assert!(offsets[0] + 3 <= offsets[1]);
    assert!(offsets[1] + 2 <= offsets[2]);
    assert!(offsets[2] + 8 <= offsets[3]);
    assert_eq!(bytes.len(), offsets[3] + 4);
}

#[test]
fn reading_out_changes_nothing() {
    let mut p = params();
    p.push_param::<u8>(&[1]);
    let first = p.to_raw();
    assert_eq!(first, p.to_raw());
    p.push_param::<u8>(&[2]);
    assert_eq!(first, (vec![0], vec![1]));
    assert_eq!(p.to_raw(), (vec![0, 1], vec![1, 2]));
}

#[test]
fn there_is_room_below_what_a_buffer_can_hold() {
    let mut p = params();
    assert!(p.has_room_for::<()>());
    assert!(p.has_room_for::<u64>());
    p.push_param::<u8>(&[1]);
    assert!(p.has_room_for::<[u64; 0x1000]>());
}
