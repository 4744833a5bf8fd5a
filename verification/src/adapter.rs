use vstd::prelude::*;

verus! {

/// One physical device offered by the instance, reduced to what
/// selection reads: whether it is a discrete card, and whether it
/// supports geometry shading.
#[derive(Clone, Copy, PartialEq, Eq, Structural, Debug)]
pub struct AdapterInfo {
    pub discrete_gpu: bool,
    pub supports_geometry_shading: bool,
}

/// Adapter `i` qualifies: a discrete card with geometry shading.
pub open spec fn adapter_suitable(adapters: Seq<AdapterInfo>, i: int) -> bool {
    &&& 0 <= i < adapters.len()
    &&& adapters[i].discrete_gpu
    &&& adapters[i].supports_geometry_shading
}

/// The adapter to initialise the device from: the first discrete card
/// that supports geometry shading, or `None` when none qualifies.
pub fn select_adapter(adapters: &Vec<AdapterInfo>) -> (r: Option<usize>)
    ensures
        match r {
            Some(i) => adapter_suitable(adapters@, i as int)
                && (forall|j: int| 0 <= j < i ==> !adapter_suitable(adapters@, j)),
            None => forall|j: int| !adapter_suitable(adapters@, j),
        },
{
    let n = adapters.len();
    let mut i: usize = 0;
    while i < n
        invariant
            n == adapters@.len(),
            i <= n,
            forall|j: int| 0 <= j < i ==> !adapter_suitable(adapters@, j),
        decreases n - i,
    {
        if adapters[i].discrete_gpu && adapters[i].supports_geometry_shading {
            return Some(i);
        }
        i = i + 1;
    }
    None
}

} // verus!
