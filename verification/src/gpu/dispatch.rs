use vstd::prelude::*;

verus! {

/// Invocations per compute workgroup in the simulator's WGSL kernels.
pub const WORKGROUP_SIZE: u32 = 64;

/// Real components stored per lattice point.
pub const COMPONENTS_PER_POINT: u64 = 4;

/// Bytes per stored component (one `f32`).
pub const BYTES_PER_COMPONENT: u64 = 4;

/// Bytes of one uniform parameter block read by the kernels.
pub const PARAMETER_BLOCK_SIZE: u64 = 16;

/// Workgroups needed so that every one of `point_count` points gets an
/// invocation: `ceil(point_count / WORKGROUP_SIZE)`.
pub fn workgroup_count(point_count: u32) -> (count: u32)
    ensures
        count * WORKGROUP_SIZE >= point_count,
        count == 0 || (count - 1) * WORKGROUP_SIZE < point_count,
        count as int == (point_count as int + WORKGROUP_SIZE - 1) / (WORKGROUP_SIZE as int),
{
    let full = point_count / WORKGROUP_SIZE;
    if point_count % WORKGROUP_SIZE == 0 {
        full
    } else {
        full + 1
    }
}

/// Bytes of a field buffer holding one four-component `f32` spinor per point
/// (16 bytes per site).
pub fn field_buffer_size(point_count: u32) -> (size: u64)
    ensures
        size == point_count * COMPONENTS_PER_POINT * BYTES_PER_COMPONENT,
        size == 16 * point_count,
{
    point_count as u64 * COMPONENTS_PER_POINT * BYTES_PER_COMPONENT
}

/// Bytes of a mass-profile buffer holding one `f32` mass per point.
pub fn mass_profile_buffer_size(point_count: u32) -> (size: u64)
    ensures
        size == 4 * point_count,
{
    point_count as u64 * BYTES_PER_COMPONENT
}

/// Points of `line_count` x-lines of `line_length` points each, stored line
/// after line; `None` when the total does not fit a `u32` point index.
pub fn batched_point_count(line_length: u32, line_count: u32) -> (total: Option<u32>)
    ensures
        total is Some <==> line_length * line_count <= u32::MAX,
        total matches Some(t) ==> t == line_length * line_count,
{
    line_length.checked_mul(line_count)
}

/// Stride between per-order parameter blocks in the recurrence's uniform
/// buffer: the device's dynamic-offset alignment, but never less than one
/// parameter block.
pub fn parameter_stride(min_uniform_buffer_offset_alignment: u32) -> (stride: u32)
    ensures
        stride >= PARAMETER_BLOCK_SIZE,
        stride >= min_uniform_buffer_offset_alignment,
        stride == min_uniform_buffer_offset_alignment || stride == PARAMETER_BLOCK_SIZE,
{
    if min_uniform_buffer_offset_alignment > PARAMETER_BLOCK_SIZE as u32 {
        min_uniform_buffer_offset_alignment
    } else {
        PARAMETER_BLOCK_SIZE as u32
    }
}

} // verus!
