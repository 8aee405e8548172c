use vstd::prelude::*;

use rayon::iter::IndexedParallelIterator;
use rayon::iter::IntoParallelRefIterator;
use rayon::iter::IntoParallelRefMutIterator;
use rayon::iter::ParallelIterator;

use crate::scalar::{lerp_plain, lerp_plain_spec};
use crate::{Line, Point};

verus! {

/// The point that one plain (separately rounded) interpolation step
/// produces from a line at fraction `t`, axis by axis.
pub open spec fn lerp_point_spec(l: Line, t: u64) -> Point {
    Point {
        x: lerp_plain_spec(l.0.x, l.1.x, t),
        y: lerp_plain_spec(l.0.y, l.1.y, t),
        z: lerp_plain_spec(l.0.z, l.1.z, t),
    }
}

/// One plain interpolation step over all three axes of one line.
pub fn lerp_point(l: &Line, t: u64) -> (p: Point)
    ensures
        p == lerp_point_spec(*l, t),
{
    Point {
        x: lerp_plain(l.0.x, l.1.x, t),
        y: lerp_plain(l.0.y, l.1.y, t),
        z: lerp_plain(l.0.z, l.1.z, t),
    }
}

/// One plain interpolation step over the x and y axes of one line.
pub fn lerp_line_xy(l: &Line, t: u64) -> (r: (u64, u64))
    ensures
        r.0 == lerp_plain_spec(l.0.x, l.1.x, t),
        r.1 == lerp_plain_spec(l.0.y, l.1.y, t),
{
    (lerp_plain(l.0.x, l.1.x, t), lerp_plain(l.0.y, l.1.y, t))
}

/// Serial array-of-structs interpolation: writes into `out[i]` the point
/// reached at fraction `t` along `lines[i]`, for every line, with the
/// plain (separately rounded) formula on each axis.
pub fn serial_subs_all_axis(lines: &Vec<Line>, t: u64, out: &mut Vec<Point>)
    requires
        old(out)@.len() == lines@.len(),
    ensures
        final(out)@.len() == lines@.len(),
        forall|i: int| 0 <= i < lines@.len() ==> final(out)@[i] == lerp_point_spec(lines@[i], t),
{
    let n = lines.len();
    let mut i: usize = 0;
    while i < n
        invariant
            i <= n,
            n == lines@.len(),
            out@.len() == lines@.len(),
            forall|j: int| 0 <= j < i ==> out@[j] == lerp_point_spec(lines@[j], t),
        decreases n - i,
    {
        let p = lerp_point(&lines[i], t);
        out.set(i, p);
        i = i + 1;
    }
}

/// Parallel array-of-structs interpolation: the same elementwise result as
/// `serial_subs_all_axis`, with the lines fanned out across worker threads.
///
/// Relies on rayon's `zip` and `for_each`: the closure runs exactly once
/// per index pair, each run owns its own output slot, and every run has
/// completed when the call returns. Each run calls the verified
/// `lerp_point`, so every slot holds that function's result.
#[verifier::external_body]
pub fn parallel_subs_all_axis(lines: &Vec<Line>, t: u64, out: &mut Vec<Point>)
    requires
        old(out)@.len() == lines@.len(),
    ensures
        final(out)@.len() == lines@.len(),
        forall|i: int| 0 <= i < lines@.len() ==> final(out)@[i] == lerp_point_spec(lines@[i], t),
{
    lines.par_iter().zip(out.par_iter_mut()).for_each(|(line, p)| {
        *p = lerp_point(line, t);
    });
}

/// Serial two-axis array-of-structs interpolation: writes the x result of
/// each line into `rx[i]` and the y result into `ry[i]`, with the plain
/// (separately rounded) formula.
pub fn serial_subs_xy(lines: &Vec<Line>, t: u64, rx: &mut Vec<u64>, ry: &mut Vec<u64>)
    requires
        old(rx)@.len() == lines@.len(),
        old(ry)@.len() == lines@.len(),
    ensures
        final(rx)@.len() == lines@.len(),
        final(ry)@.len() == lines@.len(),
        forall|i: int|
            0 <= i < lines@.len() ==> final(rx)@[i] == lerp_plain_spec(
                lines@[i].0.x,
                lines@[i].1.x,
                t,
            ),
        forall|i: int|
            0 <= i < lines@.len() ==> final(ry)@[i] == lerp_plain_spec(
                lines@[i].0.y,
                lines@[i].1.y,
                t,
            ),
{
    let n = lines.len();
    let mut i: usize = 0;
    while i < n
        invariant
            i <= n,
            n == lines@.len(),
            rx@.len() == lines@.len(),
            ry@.len() == lines@.len(),
            forall|j: int|
                0 <= j < i ==> rx@[j] == lerp_plain_spec(lines@[j].0.x, lines@[j].1.x, t),
            forall|j: int|
                0 <= j < i ==> ry@[j] == lerp_plain_spec(lines@[j].0.y, lines@[j].1.y, t),
        decreases n - i,
    {
        let v = lerp_line_xy(&lines[i], t);
        rx.set(i, v.0);
        ry.set(i, v.1);
        i = i + 1;
    }
}

/// Parallel two-axis array-of-structs interpolation: the same elementwise
/// result as `serial_subs_xy`, with the lines fanned out across workers.
///
/// Relies on rayon's `zip` and `for_each`: the closure runs exactly once
/// per index triple, each run owns its own two output slots, and every run
/// has completed when the call returns. Each run calls the verified
/// `lerp_line_xy`, so every slot holds that function's result.
#[verifier::external_body]
pub fn parallel_subs_xy(lines: &Vec<Line>, t: u64, rx: &mut Vec<u64>, ry: &mut Vec<u64>)
    requires
        old(rx)@.len() == lines@.len(),
        old(ry)@.len() == lines@.len(),
    ensures
        final(rx)@.len() == lines@.len(),
        final(ry)@.len() == lines@.len(),
        forall|i: int|
            0 <= i < lines@.len() ==> final(rx)@[i] == lerp_plain_spec(
                lines@[i].0.x,
                lines@[i].1.x,
                t,
            ),
        forall|i: int|
            0 <= i < lines@.len() ==> final(ry)@[i] == lerp_plain_spec(
                lines@[i].0.y,
                lines@[i].1.y,
                t,
            ),
{
    lines.par_iter().zip(rx.par_iter_mut()).zip(ry.par_iter_mut()).for_each(|((line, ox), oy)| {
        let v = lerp_line_xy(line, t);
        *ox = v.0;
        *oy = v.1;
    });
}

} // verus!
