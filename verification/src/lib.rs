use vstd::prelude::*;

mod aos;
mod kernel;
mod laws;
mod scalar;
mod soa;

pub use crate::aos::{
    lerp_line_xy, lerp_point, lerp_point_spec, parallel_subs_all_axis, parallel_subs_xy,
    serial_subs_all_axis, serial_subs_xy,
};
pub use crate::kernel::{simd_subs, simd_subs_range, LANES};
pub use crate::laws::{lemma_aos_parallel_matches_serial, lemma_axis_schedules_identical};
pub use crate::scalar::{
    add_of, fma_of, lerp_fma, lerp_fma_spec, lerp_plain, lerp_plain_spec, mul_of, sub_of,
};
pub use crate::soa::{
    parallel_prep_subs_all_axis, parallel_prep_subs_xy, serial_prep_subs_all_axis,
    serial_prep_subs_xy, serial_stream_subs_all_axis, serial_stream_subs_xy, stream_subs_all_axis,
    stream_subs_xy, BATCH_SIZE,
};

verus! {

/// One point in 3D space. Each coordinate holds the bit pattern of an
/// IEEE 754 binary64 value; all arithmetic on coordinates goes through
/// the operations in `scalar`, so every orchestration layer above them
/// can be verified over plain `u64` values.
#[derive(Clone, Copy, PartialEq, Eq, Structural, Debug)]
pub struct Point {
    pub x: u64,
    pub y: u64,
    pub z: u64,
}

/// One line segment in array-of-structs layout: an (origin, target) pair.
#[derive(Clone, Copy, PartialEq, Eq, Structural, Debug)]
pub struct Line(pub Point, pub Point);

/// Target coordinates in structure-of-arrays layout: one array per axis,
/// all of equal length. The origins are not stored here; the caller seeds
/// the per-axis output buffers with them and each call advances those
/// buffers in place toward these targets.
pub struct Lines {
    pub tx: Vec<u64>,
    pub ty: Vec<u64>,
    pub tz: Vec<u64>,
}

impl Lines {
    /// All three axis arrays hold one entry per segment.
    pub open spec fn wf(&self) -> bool {
        self.ty@.len() == self.tx@.len() && self.tz@.len() == self.tx@.len()
    }
}

} // verus!
