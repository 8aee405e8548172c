use vstd::prelude::*;

use crate::aos::lerp_point_spec;
use crate::scalar::lerp_fma_spec;
use crate::{Line, Point};

verus! {

// The scheduling laws. Every orchestrator's contract pins each output
// element to a pure function of that element's own inputs, so any two
// schedules of the same work — serial against parallel, batched against
// whole-range — deliver bit-identical buffers. The proof functions below
// state that directly over the contracts' own spec functions.

/// Parallel and serial array-of-structs computation are bit-identical:
/// any two output buffers that both satisfy the elementwise contract of
/// `serial_subs_all_axis` and `parallel_subs_all_axis` over the same
/// lines and fraction are equal.
pub proof fn lemma_aos_parallel_matches_serial(
    lines: Seq<Line>,
    t: u64,
    serial_out: Seq<Point>,
    parallel_out: Seq<Point>,
)
    requires
        serial_out.len() == lines.len(),
        parallel_out.len() == lines.len(),
        forall|i: int| 0 <= i < lines.len() ==> serial_out[i] == lerp_point_spec(lines[i], t),
        forall|i: int| 0 <= i < lines.len() ==> parallel_out[i] == lerp_point_spec(lines[i], t),
    ensures
        serial_out == parallel_out,
{
    assert(serial_out =~= parallel_out);
}

/// Any two schedules of one axis are bit-identical: two output buffers
/// that both satisfy the kernel's elementwise contract over the same
/// seeded values, target array and fraction are equal. Serial, parallel
/// and streaming structure-of-arrays computation all ensure exactly that
/// contract per axis, so each pair of them agrees bit for bit on every
/// axis — whatever the batch size, and whether or not it divides the
/// array length.
pub proof fn lemma_axis_schedules_identical(
    seeded: Seq<u64>,
    target: Seq<u64>,
    t: u64,
    one_out: Seq<u64>,
    other_out: Seq<u64>,
)
    requires
        seeded.len() == target.len(),
        one_out.len() == target.len(),
        other_out.len() == target.len(),
        forall|i: int| 0 <= i < target.len() ==> one_out[i] == lerp_fma_spec(seeded[i], target[i], t),
        forall|i: int|
            0 <= i < target.len() ==> other_out[i] == lerp_fma_spec(seeded[i], target[i], t),
    ensures
        one_out == other_out,
{
    assert(one_out =~= other_out);
}

} // verus!
