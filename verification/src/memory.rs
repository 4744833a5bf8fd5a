use vstd::prelude::*;

verus! {

/// One memory type reported by a physical device, reduced to the single
/// property that the upload path reads: whether the host can map and
/// write it.
#[derive(Clone, Copy, PartialEq, Eq, Structural, Debug)]
pub struct MemoryType {
    pub cpu_visible: bool,
}

/// Bit `i` of the requirement mask is set: the device allows memory type
/// `i` to back the buffer.
pub open spec fn mask_allows(mask: u64, i: u64) -> bool {
    mask & (1u64 << i) != 0
}

/// Memory type `i` can hold the vertex data: the buffer's requirement
/// mask allows it and the host can write it.
pub open spec fn upload_suitable(mask: u64, types: Seq<MemoryType>, i: int) -> bool {
    &&& 0 <= i < types.len()
    &&& mask_allows(mask, i as u64)
    &&& types[i].cpu_visible
}

/// The memory type picked for the vertex-buffer upload: the first one
/// that the requirement mask allows and that the host can write, or
/// `None` when no type qualifies. A device reports at most 64 types,
/// one per bit of the mask.
pub fn find_upload_type(mask: u64, types: &Vec<MemoryType>) -> (r: Option<usize>)
    requires
        types@.len() <= 64,
    ensures
        match r {
            Some(i) => upload_suitable(mask, types@, i as int)
                && (forall|j: int| 0 <= j < i ==> !upload_suitable(mask, types@, j)),
            None => forall|j: int| !upload_suitable(mask, types@, j),
        },
{
    let n = types.len();
    let mut i: usize = 0;
    while i < n
        invariant
            n == types@.len(),
            n <= 64,
            i <= n,
            forall|j: int| 0 <= j < i ==> !upload_suitable(mask, types@, j),
        decreases n - i,
    {
        if (mask & (1u64 << (i as u64))) != 0 && types[i].cpu_visible {
            return Some(i);
        }
        i = i + 1;
    }
    None
}

} // verus!
