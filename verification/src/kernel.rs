use vstd::prelude::*;

use crate::scalar::{lerp_fma, lerp_fma_spec};

verus! {

/// How many elements one wide step of the kernel advances at once.
pub const LANES: usize = 4;

/// Advances `out[lo..hi]` toward `target[lo..hi]` by fraction `t`, leaving
/// every element outside `[lo, hi)` untouched. Each element moves by one
/// fused interpolation step `out[i] + (target[i] - out[i]) * t`, so the
/// result at an index depends on that index's own pair of values alone.
///
/// The body walks the range in wide blocks of `LANES` elements and finishes
/// with a scalar tail; both phases apply the same fused step, so the split
/// never changes the value any element receives.
pub fn simd_subs_range(target: &Vec<u64>, t: u64, out: &mut Vec<u64>, lo: usize, hi: usize)
    requires
        old(out)@.len() == target@.len(),
        lo <= hi <= target@.len(),
    ensures
        final(out)@.len() == target@.len(),
        forall|i: int|
            lo <= i < hi ==> final(out)@[i] == lerp_fma_spec(old(out)@[i], target@[i], t),
        forall|i: int|
            0 <= i < target@.len() && !(lo <= i < hi) ==> final(out)@[i] == old(out)@[i],
{
    let mut i: usize = lo;

    while hi - i >= LANES
        invariant
            lo <= i <= hi <= target@.len(),
            out@.len() == target@.len(),
            forall|j: int| lo <= j < i ==> out@[j] == lerp_fma_spec(old(out)@[j], target@[j], t),
            forall|j: int| 0 <= j < target@.len() && !(lo <= j < i) ==> out@[j] == old(out)@[j],
        decreases hi - i,
    {
        let r0 = lerp_fma(out[i], target[i], t);
        let r1 = lerp_fma(out[i + 1], target[i + 1], t);
        let r2 = lerp_fma(out[i + 2], target[i + 2], t);
        let r3 = lerp_fma(out[i + 3], target[i + 3], t);
        out.set(i, r0);
        out.set(i + 1, r1);
        out.set(i + 2, r2);
        out.set(i + 3, r3);
        i = i + LANES;
    }

    while i < hi
        invariant
            lo <= i <= hi <= target@.len(),
            out@.len() == target@.len(),
            forall|j: int| lo <= j < i ==> out@[j] == lerp_fma_spec(old(out)@[j], target@[j], t),
            forall|j: int| 0 <= j < target@.len() && !(lo <= j < i) ==> out@[j] == old(out)@[j],
        decreases hi - i,
    {
        let r = lerp_fma(out[i], target[i], t);
        out.set(i, r);
        i = i + 1;
    }
}

/// The kernel over the whole range: advances every element of `out` toward
/// the matching element of `target` by one fused interpolation step.
/// Calling this once, or covering `[0, N)` with any partition of disjoint
/// `simd_subs_range` calls, writes the same value at every index.
pub fn simd_subs(target: &Vec<u64>, t: u64, out: &mut Vec<u64>)
    requires
        old(out)@.len() == target@.len(),
    ensures
        final(out)@.len() == target@.len(),
        forall|i: int|
            0 <= i < target@.len() ==> final(out)@[i] == lerp_fma_spec(old(out)@[i], target@[i], t),
{
    let n = target.len();
    simd_subs_range(target, t, out, 0, n);
}

} // verus!
