use vstd::prelude::*;

use crate::kernel::{simd_subs, simd_subs_range};
use crate::scalar::lerp_fma_spec;
use crate::Lines;

verus! {

/// How many segments one streaming batch covers.
pub const BATCH_SIZE: usize = 30000;

/// Serial structure-of-arrays interpolation: advances each per-axis output
/// buffer toward the matching target array by one fused interpolation step
/// per element, one whole-range kernel call per axis.
pub fn serial_prep_subs_all_axis(
    lines: &Lines,
    t: u64,
    rx: &mut Vec<u64>,
    ry: &mut Vec<u64>,
    rz: &mut Vec<u64>,
)
    requires
        lines.wf(),
        old(rx)@.len() == lines.tx@.len(),
        old(ry)@.len() == lines.tx@.len(),
        old(rz)@.len() == lines.tx@.len(),
    ensures
        final(rx)@.len() == lines.tx@.len(),
        final(ry)@.len() == lines.tx@.len(),
        final(rz)@.len() == lines.tx@.len(),
        forall|i: int|
            0 <= i < lines.tx@.len() ==> final(rx)@[i] == lerp_fma_spec(
                old(rx)@[i],
                lines.tx@[i],
                t,
            ),
        forall|i: int|
            0 <= i < lines.tx@.len() ==> final(ry)@[i] == lerp_fma_spec(
                old(ry)@[i],
                lines.ty@[i],
                t,
            ),
        forall|i: int|
            0 <= i < lines.tx@.len() ==> final(rz)@[i] == lerp_fma_spec(
                old(rz)@[i],
                lines.tz@[i],
                t,
            ),
{
    simd_subs(&lines.tx, t, rx);
    simd_subs(&lines.ty, t, ry);
    simd_subs(&lines.tz, t, rz);
}

/// Parallel structure-of-arrays interpolation: the same per-axis result as
/// `serial_prep_subs_all_axis`, with two axes spawned onto worker threads
/// while the calling thread computes the third.
///
/// Relies on rayon's `scope`: the two spawned closures and the body have
/// all run to completion when `scope` returns, and the three closures own
/// disjoint output buffers. Each closure calls the verified `simd_subs`,
/// so each buffer holds that kernel's result for its axis.
#[verifier::external_body]
pub fn parallel_prep_subs_all_axis(
    lines: &Lines,
    t: u64,
    rx: &mut Vec<u64>,
    ry: &mut Vec<u64>,
    rz: &mut Vec<u64>,
)
    requires
        lines.wf(),
        old(rx)@.len() == lines.tx@.len(),
        old(ry)@.len() == lines.tx@.len(),
        old(rz)@.len() == lines.tx@.len(),
    ensures
        final(rx)@.len() == lines.tx@.len(),
        final(ry)@.len() == lines.tx@.len(),
        final(rz)@.len() == lines.tx@.len(),
        forall|i: int|
            0 <= i < lines.tx@.len() ==> final(rx)@[i] == lerp_fma_spec(
                old(rx)@[i],
                lines.tx@[i],
                t,
            ),
        forall|i: int|
            0 <= i < lines.tx@.len() ==> final(ry)@[i] == lerp_fma_spec(
                old(ry)@[i],
                lines.ty@[i],
                t,
            ),
        forall|i: int|
            0 <= i < lines.tx@.len() ==> final(rz)@[i] == lerp_fma_spec(
                old(rz)@[i],
                lines.tz@[i],
                t,
            ),
{
    rayon::scope(|s| {
        s.spawn(|_| simd_subs(&lines.tx, t, rx));
        s.spawn(|_| simd_subs(&lines.ty, t, ry));
        simd_subs(&lines.tz, t, rz);
    });
}

/// Serial two-axis structure-of-arrays interpolation: one whole-range
/// kernel call per axis over pre-separated target arrays.
pub fn serial_prep_subs_xy(
    tx: &Vec<u64>,
    ty: &Vec<u64>,
    t: u64,
    rx: &mut Vec<u64>,
    ry: &mut Vec<u64>,
)
    requires
        old(rx)@.len() == tx@.len(),
        old(ry)@.len() == ty@.len(),
    ensures
        final(rx)@.len() == tx@.len(),
        final(ry)@.len() == ty@.len(),
        forall|i: int|
            0 <= i < tx@.len() ==> final(rx)@[i] == lerp_fma_spec(old(rx)@[i], tx@[i], t),
        forall|i: int|
            0 <= i < ty@.len() ==> final(ry)@[i] == lerp_fma_spec(old(ry)@[i], ty@[i], t),
{
    simd_subs(tx, t, rx);
    simd_subs(ty, t, ry);
}

/// Parallel two-axis structure-of-arrays interpolation: the same per-axis
/// result as `serial_prep_subs_xy`, one axis per side of a fork-join pair.
///
/// Relies on rayon's `join`: both closures have run to completion when
/// `join` returns, and they own disjoint output buffers. Each closure
/// calls the verified `simd_subs`, so each buffer holds that kernel's
/// result for its axis.
#[verifier::external_body]
pub fn parallel_prep_subs_xy(
    tx: &Vec<u64>,
    ty: &Vec<u64>,
    t: u64,
    rx: &mut Vec<u64>,
    ry: &mut Vec<u64>,
)
    requires
        old(rx)@.len() == tx@.len(),
        old(ry)@.len() == ty@.len(),
    ensures
        final(rx)@.len() == tx@.len(),
        final(ry)@.len() == ty@.len(),
        forall|i: int|
            0 <= i < tx@.len() ==> final(rx)@[i] == lerp_fma_spec(old(rx)@[i], tx@[i], t),
        forall|i: int|
            0 <= i < ty@.len() ==> final(ry)@[i] == lerp_fma_spec(old(ry)@[i], ty@[i], t),
{
    rayon::join(|| simd_subs(tx, t, rx), || simd_subs(ty, t, ry));
}

/// Streaming three-axis interpolation with a caller-chosen batch size:
/// walks `[0, N)` in contiguous batches of `batch` segments (the final
/// batch may be shorter) and runs the kernel once per axis over each
/// batch. The result at every index equals what one whole-range kernel
/// call per axis would write there, whatever the batch size.
pub fn stream_subs_all_axis(
    lines: &Lines,
    t: u64,
    rx: &mut Vec<u64>,
    ry: &mut Vec<u64>,
    rz: &mut Vec<u64>,
    batch: usize,
)
    requires
        lines.wf(),
        batch >= 1,
        old(rx)@.len() == lines.tx@.len(),
        old(ry)@.len() == lines.tx@.len(),
        old(rz)@.len() == lines.tx@.len(),
    ensures
        final(rx)@.len() == lines.tx@.len(),
        final(ry)@.len() == lines.tx@.len(),
        final(rz)@.len() == lines.tx@.len(),
        forall|i: int|
            0 <= i < lines.tx@.len() ==> final(rx)@[i] == lerp_fma_spec(
                old(rx)@[i],
                lines.tx@[i],
                t,
            ),
        forall|i: int|
            0 <= i < lines.tx@.len() ==> final(ry)@[i] == lerp_fma_spec(
                old(ry)@[i],
                lines.ty@[i],
                t,
            ),
        forall|i: int|
            0 <= i < lines.tx@.len() ==> final(rz)@[i] == lerp_fma_spec(
                old(rz)@[i],
                lines.tz@[i],
                t,
            ),
{
    let n = lines.tx.len();
    let mut i: usize = 0;
    while i < n
        invariant
            i <= n,
            n == lines.tx@.len(),
            lines.wf(),
            rx@.len() == n,
            ry@.len() == n,
            rz@.len() == n,
            forall|j: int| 0 <= j < i ==> rx@[j] == lerp_fma_spec(old(rx)@[j], lines.tx@[j], t),
            forall|j: int| 0 <= j < i ==> ry@[j] == lerp_fma_spec(old(ry)@[j], lines.ty@[j], t),
            forall|j: int| 0 <= j < i ==> rz@[j] == lerp_fma_spec(old(rz)@[j], lines.tz@[j], t),
            forall|j: int| i <= j < n ==> rx@[j] == old(rx)@[j],
            forall|j: int| i <= j < n ==> ry@[j] == old(ry)@[j],
            forall|j: int| i <= j < n ==> rz@[j] == old(rz)@[j],
            batch >= 1,
        decreases n - i,
    {
        let end = if n - i > batch {
            i + batch
        } else {
            n
        };
        simd_subs_range(&lines.tx, t, rx, i, end);
        simd_subs_range(&lines.ty, t, ry, i, end);
        simd_subs_range(&lines.tz, t, rz, i, end);
        i = end;
    }
}

/// Streaming two-axis interpolation with a caller-chosen batch size, as
/// `stream_subs_all_axis` but over the x and y axes only.
pub fn stream_subs_xy(lines: &Lines, t: u64, rx: &mut Vec<u64>, ry: &mut Vec<u64>, batch: usize)
    requires
        lines.wf(),
        batch >= 1,
        old(rx)@.len() == lines.tx@.len(),
        old(ry)@.len() == lines.tx@.len(),
    ensures
        final(rx)@.len() == lines.tx@.len(),
        final(ry)@.len() == lines.tx@.len(),
        forall|i: int|
            0 <= i < lines.tx@.len() ==> final(rx)@[i] == lerp_fma_spec(
                old(rx)@[i],
                lines.tx@[i],
                t,
            ),
        forall|i: int|
            0 <= i < lines.tx@.len() ==> final(ry)@[i] == lerp_fma_spec(
                old(ry)@[i],
                lines.ty@[i],
                t,
            ),
{
    let n = lines.tx.len();
    let mut i: usize = 0;
    while i < n
        invariant
            i <= n,
            n == lines.tx@.len(),
            lines.wf(),
            rx@.len() == n,
            ry@.len() == n,
            forall|j: int| 0 <= j < i ==> rx@[j] == lerp_fma_spec(old(rx)@[j], lines.tx@[j], t),
            forall|j: int| 0 <= j < i ==> ry@[j] == lerp_fma_spec(old(ry)@[j], lines.ty@[j], t),
            forall|j: int| i <= j < n ==> rx@[j] == old(rx)@[j],
            forall|j: int| i <= j < n ==> ry@[j] == old(ry)@[j],
            batch >= 1,
        decreases n - i,
    {
        let end = if n - i > batch {
            i + batch
        } else {
            n
        };
        simd_subs_range(&lines.tx, t, rx, i, end);
        simd_subs_range(&lines.ty, t, ry, i, end);
        i = end;
    }
}

/// Streaming three-axis interpolation in fixed `BATCH_SIZE` batches.
pub fn serial_stream_subs_all_axis(
    lines: &Lines,
    t: u64,
    rx: &mut Vec<u64>,
    ry: &mut Vec<u64>,
    rz: &mut Vec<u64>,
)
    requires
        lines.wf(),
        old(rx)@.len() == lines.tx@.len(),
        old(ry)@.len() == lines.tx@.len(),
        old(rz)@.len() == lines.tx@.len(),
    ensures
        final(rx)@.len() == lines.tx@.len(),
        final(ry)@.len() == lines.tx@.len(),
        final(rz)@.len() == lines.tx@.len(),
        forall|i: int|
            0 <= i < lines.tx@.len() ==> final(rx)@[i] == lerp_fma_spec(
                old(rx)@[i],
                lines.tx@[i],
                t,
            ),
        forall|i: int|
            0 <= i < lines.tx@.len() ==> final(ry)@[i] == lerp_fma_spec(
                old(ry)@[i],
                lines.ty@[i],
                t,
            ),
        forall|i: int|
            0 <= i < lines.tx@.len() ==> final(rz)@[i] == lerp_fma_spec(
                old(rz)@[i],
                lines.tz@[i],
                t,
            ),
{
    stream_subs_all_axis(lines, t, rx, ry, rz, BATCH_SIZE);
}

/// Streaming two-axis interpolation in fixed `BATCH_SIZE` batches.
pub fn serial_stream_subs_xy(lines: &Lines, t: u64, rx: &mut Vec<u64>, ry: &mut Vec<u64>)
    requires
        lines.wf(),
        old(rx)@.len() == lines.tx@.len(),
        old(ry)@.len() == lines.tx@.len(),
    ensures
        final(rx)@.len() == lines.tx@.len(),
        final(ry)@.len() == lines.tx@.len(),
        forall|i: int|
            0 <= i < lines.tx@.len() ==> final(rx)@[i] == lerp_fma_spec(
                old(rx)@[i],
                lines.tx@[i],
                t,
            ),
        forall|i: int|
            0 <= i < lines.tx@.len() ==> final(ry)@[i] == lerp_fma_spec(
                old(ry)@[i],
                lines.ty@[i],
                t,
            ),
{
    stream_subs_xy(lines, t, rx, ry, BATCH_SIZE);
}

} // verus!
