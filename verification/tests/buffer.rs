//! Instance-buffer bookkeeping: capacity growth, replacement, plans.

use shape_layers::circle::Circle;
use shape_layers::color::Color;
use shape_layers::gpu_data::{gpu_serialize, GpuBuffer, GpuSerializable};

fn circle(x: f32, y: f32, r: f32, color: u32) -> Circle {
    Circle {
        position: [f32::to_bits(x), f32::to_bits(y)],
        color: Color(color),
        radius: f32::to_bits(r),
    }
}

fn circles(n: usize) -> Vec<Circle> {
    (0..n).map(|i| circle(i as f32, 2.0 * i as f32, 0.5, 0xff00ff00 + i as u32)).collect()
}

#[test]
fn create_sizes_buffer_exactly() {
    let data = circles(4);
    let (buf, bytes) = GpuBuffer::new(&data);
    assert_eq!(buf.len(), 4);
    assert_eq!(buf.capacity(), 4);
    assert_eq!(bytes, gpu_serialize(&data));
    assert_eq!(bytes.len(), 4 * Circle::record_size() as usize);
}

#[test]
fn create_with_capacity_is_empty() {
    let (buf, alloc) = GpuBuffer::<Circle>::new_with_capacity(7);
    assert_eq!(buf.len(), 0);
    assert_eq!(buf.capacity(), 7);
    assert_eq!(alloc.size_bytes, 7 * Circle::record_size() as u64);
}

#[test]
fn replace_within_capacity_keeps_capacity() {
    let (mut buf, _alloc) = GpuBuffer::<Circle>::new_with_capacity(5);
    let data = circles(3);
    let plan = buf.update(&data);
    assert_eq!(buf.capacity(), 5);
    assert_eq!(buf.len(), 3);
    assert!(plan.reallocate.is_none());
    assert_eq!(plan.staging, gpu_serialize(&data));
    assert_eq!(plan.copy_bytes, 3 * Circle::record_size() as u64);
}

#[test]
fn replace_beyond_capacity_grows_exactly() {
    let (mut buf, _alloc) = GpuBuffer::<Circle>::new_with_capacity(5);
    let data = circles(7);
    let plan = buf.update(&data);
    assert_eq!(buf.capacity(), 7);
    assert_eq!(buf.len(), 7);
    let realloc = plan.reallocate.expect("growth must reallocate");
    assert_eq!(realloc.size_bytes, 7 * Circle::record_size() as u64);
    assert_eq!(plan.copy_bytes, 7 * Circle::record_size() as u64);
}

#[test]
fn replace_never_shrinks_capacity() {
    let data = circles(6);
    let (mut buf, _bytes) = GpuBuffer::new(&data);
    let smaller = circles(2);
    let plan = buf.update(&smaller);
    assert_eq!(buf.capacity(), 6);
    assert_eq!(buf.len(), 2);
    assert!(plan.reallocate.is_none());
}

#[test]
fn replace_twice_is_idempotent() {
    let (mut buf, _alloc) = GpuBuffer::<Circle>::new_with_capacity(2);
    let data = circles(5);
    let plan1 = buf.update(&data);
    let cap1 = buf.capacity();
    let len1 = buf.len();
    let plan2 = buf.update(&data);
    assert_eq!(buf.capacity(), cap1);
    assert_eq!(buf.len(), len1);
    assert_eq!(plan1.staging, plan2.staging);
    assert_eq!(plan1.copy_bytes, plan2.copy_bytes);
    assert!(plan2.reallocate.is_none());
}

#[test]
fn serialize_empty_batch() {
    let data: Vec<Circle> = Vec::new();
    assert_eq!(gpu_serialize(&data), Vec::<u8>::new());
}
