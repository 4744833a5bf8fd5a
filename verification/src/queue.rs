use vstd::prelude::*;

verus! {

/// One queue family of a device, reduced to what selection reads:
/// whether its queues take graphics commands, and whether the window's
/// surface accepts presentation from it.
#[derive(Clone, Copy, PartialEq, Eq, Structural, Debug)]
pub struct QueueFamily {
    pub supports_graphics: bool,
    pub supports_surface: bool,
}

/// Family `i` can drive the application: it takes graphics commands and
/// the surface accepts it.
pub open spec fn family_suitable(families: Seq<QueueFamily>, i: int) -> bool {
    &&& 0 <= i < families.len()
    &&& families[i].supports_graphics
    &&& families[i].supports_surface
}

/// The queue family to request from the device: the first one that takes
/// graphics commands and that the surface accepts, or `None` when the
/// device offers no such family.
pub fn select_queue_family(families: &Vec<QueueFamily>) -> (r: Option<usize>)
    ensures
        match r {
            Some(i) => family_suitable(families@, i as int)
                && (forall|j: int| 0 <= j < i ==> !family_suitable(families@, j)),
            None => forall|j: int| !family_suitable(families@, j),
        },
{
    let n = families.len();
    let mut i: usize = 0;
    while i < n
        invariant
            n == families@.len(),
            i <= n,
            forall|j: int| 0 <= j < i ==> !family_suitable(families@, j),
        decreases n - i,
    {
        if families[i].supports_graphics && families[i].supports_surface {
            return Some(i);
        }
        i = i + 1;
    }
    None
}

} // verus!
