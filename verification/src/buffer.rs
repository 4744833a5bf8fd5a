use vstd::prelude::*;

verus! {

/// Size in bytes of a vertex buffer holding `count` vertices of `stride`
/// bytes each. `Some` exactly when the product is positive and fits in
/// `u64`: the device refuses a zero-sized buffer, so an empty request is
/// an error here rather than a panic later.
pub fn vertex_buffer_size(count: u64, stride: u64) -> (r: Option<u64>)
    ensures
        match r {
            Some(len) => len == count * stride && len > 0,
            None => count * stride == 0 || count * stride > u64::MAX,
        },
{
    match count.checked_mul(stride) {
        Some(len) => {
            if len > 0 {
                Some(len)
            } else {
                None
            }
        }
        None => None,
    }
}

} // verus!
