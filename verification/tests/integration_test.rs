use lerp_lines::{
    parallel_prep_subs_all_axis, parallel_subs_all_axis, parallel_subs_xy,
    serial_prep_subs_all_axis, serial_prep_subs_xy, serial_stream_subs_all_axis,
    serial_stream_subs_xy, serial_subs_all_axis, serial_subs_xy, simd_subs, stream_subs_all_axis,
    Line, Lines, Point, BATCH_SIZE,
};

fn bits_of(values: &[f64]) -> Vec<u64> {
    values.iter().map(|v| v.to_bits()).collect()
}

fn floats_of(values: &[u64]) -> Vec<f64> {
    values.iter().map(|v| f64::from_bits(*v)).collect()
}

fn point_bits(x: f64, y: f64, z: f64) -> Point {
    Point {
        x: x.to_bits(),
        y: y.to_bits(),
        z: z.to_bits(),
    }
}

/// Deterministic per-index origin and target coordinates, small dyadic
/// values so every path stays well inside the test tolerances.
fn sample_coords(i: usize) -> ([f64; 3], [f64; 3]) {
    let origin = [
        (i % 8) as f64 * 0.25,
        (i % 5) as f64 * 0.5 - 1.0,
        (i % 3) as f64 * 0.125,
    ];
    let target = [
        (i % 7) as f64 * 0.5 - 1.5,
        (i % 9) as f64 * 0.25 + 0.5,
        (i % 11) as f64 * 0.125 - 0.75,
    ];
    (origin, target)
}

fn sample_soa(n: usize) -> (Lines, Vec<u64>, Vec<u64>, Vec<u64>) {
    let mut tx = Vec::new();
    let mut ty = Vec::new();
    let mut tz = Vec::new();
    let mut ox = Vec::new();
    let mut oy = Vec::new();
    let mut oz = Vec::new();
    for i in 0..n {
        let (o, t) = sample_coords(i);
        ox.push(o[0]);
        oy.push(o[1]);
        oz.push(o[2]);
        tx.push(t[0]);
        ty.push(t[1]);
        tz.push(t[2]);
    }
    let lines = Lines {
        tx: bits_of(&tx),
        ty: bits_of(&ty),
        tz: bits_of(&tz),
    };
    (lines, bits_of(&ox), bits_of(&oy), bits_of(&oz))
}

fn plain_reference(origin: f64, target: f64, t: f64) -> f64 {
    origin + (target - origin) * t
}

#[test]
fn test_math_consistency_all_sizes() {
    let t = 0.3f64;
    let tb = t.to_bits();
    for &n in &[1usize, 2, 3, 4, 5, 7, 8, 9, 15, 16, 31, 33, 127] {
        let (lines, ox, oy, oz) = sample_soa(n);
        let mut rx = ox.clone();
        let mut ry = oy.clone();
        let mut rz = oz.clone();
        simd_subs(&lines.tx, tb, &mut rx);
        simd_subs(&lines.ty, tb, &mut ry);
        simd_subs(&lines.tz, tb, &mut rz);
        let (fx, fy, fz) = (floats_of(&rx), floats_of(&ry), floats_of(&rz));
        for i in 0..n {
            let (o, tg) = sample_coords(i);
            assert!(
                (fx[i] - plain_reference(o[0], tg[0], t)).abs() < 2e-15,
                "X fail at size {}, idx {}",
                n,
                i
            );
            assert!(
                (fy[i] - plain_reference(o[1], tg[1], t)).abs() < 2e-15,
                "Y fail at size {}, idx {}",
                n,
                i
            );
            assert!(
                (fz[i] - plain_reference(o[2], tg[2], t)).abs() < 2e-15,
                "Z fail at size {}, idx {}",
                n,
                i
            );
        }
    }
}

#[test]
fn test_fma_precision_drift() {
    let n = 100usize;
    let t = 1.0f64 / 3.0f64;
    let tb = t.to_bits();
    let tx: Vec<f64> = (0..n).map(|i| (i + 10) as f64).collect();
    let ty: Vec<f64> = (0..n).map(|i| (2 * i + 10) as f64).collect();
    let tz: Vec<f64> = (0..n).map(|i| (3 * i + 10) as f64).collect();
    let mut rx = bits_of(&(0..n).map(|i| i as f64).collect::<Vec<f64>>());
    let mut ry = bits_of(&(0..n).map(|i| (2 * i) as f64).collect::<Vec<f64>>());
    let mut rz = bits_of(&(0..n).map(|i| (3 * i) as f64).collect::<Vec<f64>>());
    simd_subs(&bits_of(&tx), tb, &mut rx);
    simd_subs(&bits_of(&ty), tb, &mut ry);
    simd_subs(&bits_of(&tz), tb, &mut rz);
    let results = [floats_of(&rx), floats_of(&ry), floats_of(&rz)];
    for i in 0..n {
        let refs = [
            plain_reference(i as f64, (i + 10) as f64, t),
            plain_reference((2 * i) as f64, (2 * i + 10) as f64, t),
            plain_reference((3 * i) as f64, (3 * i + 10) as f64, t),
        ];
        for axis in 0..3 {
            let drift = (results[axis][i] - refs[axis]).abs();
            assert!(drift < 2e-15, "FMA drift too high at idx {}: {}", i, drift);
        }
    }
}

#[test]
fn test_parallel_correctness() {
    let n = 1000usize;
    let tb = 0.5f64.to_bits();
    let (lines, ox, oy, oz) = sample_soa(n);
    let mut sx = ox.clone();
    let mut sy = oy.clone();
    let mut sz = oz.clone();
    serial_prep_subs_all_axis(&lines, tb, &mut sx, &mut sy, &mut sz);
    let mut px = ox.clone();
    let mut py = oy.clone();
    let mut pz = oz.clone();
    let pool = rayon::ThreadPoolBuilder::new()
        .num_threads(2)
        .build()
        .unwrap();
    pool.install(|| parallel_prep_subs_all_axis(&lines, tb, &mut px, &mut py, &mut pz));
    for i in 0..n {
        assert!(sx[i] == px[i], "Parallel X mismatch at idx {}", i);
        assert!(sy[i] == py[i], "Parallel Y mismatch at idx {}", i);
        assert!(sz[i] == pz[i], "Parallel Z mismatch at idx {}", i);
    }
}

#[test]
fn test_batch_boundary_consistency() {
    let n = 60005usize;
    assert_eq!(BATCH_SIZE, 30000);
    let tb = 0.7f64.to_bits();
    let (lines, ox, oy, oz) = sample_soa(n);
    let mut sx = ox.clone();
    let mut sy = oy.clone();
    let mut sz = oz.clone();
    serial_prep_subs_all_axis(&lines, tb, &mut sx, &mut sy, &mut sz);
    let mut bx = ox;
    let mut by = oy;
    let mut bz = oz;
    serial_stream_subs_all_axis(&lines, tb, &mut bx, &mut by, &mut bz);
    for i in 0..n {
        assert!(
            sx[i] == bx[i] && sy[i] == by[i] && sz[i] == bz[i],
            "Stream boundary error at idx {}",
            i
        );
    }
}

#[test]
fn aos_and_soa_paths_agree() {
    let n = 200usize;
    let t = 0.25f64;
    let tb = t.to_bits();
    let mut aos_lines = Vec::new();
    for i in 0..n {
        let (o, tg) = sample_coords(i);
        aos_lines.push(Line(
            point_bits(o[0], o[1], o[2]),
            point_bits(tg[0], tg[1], tg[2]),
        ));
    }
    let mut out = vec![point_bits(0.0, 0.0, 0.0); n];
    serial_subs_all_axis(&aos_lines, tb, &mut out);
    let (lines, ox, oy, oz) = sample_soa(n);
    let mut rx = ox;
    let mut ry = oy;
    let mut rz = oz;
    serial_prep_subs_all_axis(&lines, tb, &mut rx, &mut ry, &mut rz);
    for i in 0..n {
        let a = f64::from_bits(out[i].x) - f64::from_bits(rx[i]);
        let b = f64::from_bits(out[i].y) - f64::from_bits(ry[i]);
        let c = f64::from_bits(out[i].z) - f64::from_bits(rz[i]);
        assert!(a.abs() < 1e-15 && b.abs() < 1e-15 && c.abs() < 1e-15);
    }
}

#[test]
fn aos_parallel_matches_serial_exactly() {
    let n = 517usize;
    let tb = 0.375f64.to_bits();
    let mut aos_lines = Vec::new();
    for i in 0..n {
        let (o, tg) = sample_coords(i);
        aos_lines.push(Line(
            point_bits(o[0], o[1], o[2]),
            point_bits(tg[0], tg[1], tg[2]),
        ));
    }
    let mut serial_out = vec![point_bits(0.0, 0.0, 0.0); n];
    serial_subs_all_axis(&aos_lines, tb, &mut serial_out);
    let mut parallel_out = vec![point_bits(0.0, 0.0, 0.0); n];
    parallel_subs_all_axis(&aos_lines, tb, &mut parallel_out);
    assert_eq!(serial_out, parallel_out);

    let mut srx = vec![0u64; n];
    let mut sry = vec![0u64; n];
    serial_subs_xy(&aos_lines, tb, &mut srx, &mut sry);
    let mut prx = vec![0u64; n];
    let mut pry = vec![0u64; n];
    parallel_subs_xy(&aos_lines, tb, &mut prx, &mut pry);
    assert_eq!(srx, prx);
    assert_eq!(sry, pry);
}

#[test]
fn soa_xy_parallel_matches_serial_exactly() {
    let n = 777usize;
    let tb = 0.9f64.to_bits();
    let (lines, ox, oy, _) = sample_soa(n);
    let mut srx = ox.clone();
    let mut sry = oy.clone();
    serial_prep_subs_xy(&lines.tx, &lines.ty, tb, &mut srx, &mut sry);
    let mut prx = ox;
    let mut pry = oy;
    lerp_lines::parallel_prep_subs_xy(&lines.tx, &lines.ty, tb, &mut prx, &mut pry);
    assert_eq!(srx, prx);
    assert_eq!(sry, pry);
}

#[test]
fn streaming_matches_whole_range_for_short_batches() {
    let n = 33usize;
    let tb = 0.6f64.to_bits();
    let (lines, ox, oy, oz) = sample_soa(n);
    let mut sx = ox.clone();
    let mut sy = oy.clone();
    let mut sz = oz.clone();
    serial_prep_subs_all_axis(&lines, tb, &mut sx, &mut sy, &mut sz);
    for &batch in &[1usize, 2, 4, 7, 32, 33, 100] {
        let mut bx = ox.clone();
        let mut by = oy.clone();
        let mut bz = oz.clone();
        stream_subs_all_axis(&lines, tb, &mut bx, &mut by, &mut bz, batch);
        assert_eq!(sx, bx);
        assert_eq!(sy, by);
        assert_eq!(sz, bz);
    }
}

#[test]
fn streaming_xy_matches_whole_range() {
    let n = 31000usize;
    let tb = 0.7f64.to_bits();
    let (lines, ox, oy, _) = sample_soa(n);
    let mut sx = ox.clone();
    let mut sy = oy.clone();
    serial_prep_subs_xy(&lines.tx, &lines.ty, tb, &mut sx, &mut sy);
    let mut bx = ox;
    let mut by = oy;
    serial_stream_subs_xy(&lines, tb, &mut bx, &mut by);
    assert_eq!(sx, bx);
    assert_eq!(sy, by);
}

#[test]
fn zero_fraction_leaves_output_unchanged() {
    let n = 17usize;
    let tb = 0.0f64.to_bits();
    let (lines, ox, oy, oz) = sample_soa(n);
    let mut rx = ox.clone();
    let mut ry = oy.clone();
    let mut rz = oz.clone();
    serial_prep_subs_all_axis(&lines, tb, &mut rx, &mut ry, &mut rz);
    assert_eq!(rx, ox);
    assert_eq!(ry, oy);
    assert_eq!(rz, oz);
}

#[test]
fn unit_fraction_reaches_target() {
    // Small integer coordinates: the difference, its product with one and
    // the final sum are all exact, so at t = 1 the kernel lands on the
    // target bits exactly — and visibly moves away from the seeded origin.
    let n = 23usize;
    let tb = 1.0f64.to_bits();
    let tx: Vec<f64> = (0..n).map(|i| (i + 10) as f64).collect();
    let mut rx = bits_of(&(0..n).map(|i| i as f64).collect::<Vec<f64>>());
    let seeded = rx.clone();
    simd_subs(&bits_of(&tx), tb, &mut rx);
    assert_eq!(rx, bits_of(&tx));
    assert_ne!(rx, seeded);
}

#[test]
fn exact_midpoint_value() {
    // origin 1.0, target 3.0, t = 0.5: both rounding strategies give
    // exactly 2.0.
    let tb = 0.5f64.to_bits();
    let lines = vec![Line(point_bits(1.0, -1.0, 0.0), point_bits(3.0, 1.0, 8.0))];
    let mut out = vec![point_bits(0.0, 0.0, 0.0); 1];
    serial_subs_all_axis(&lines, tb, &mut out);
    assert_eq!(out[0], point_bits(2.0, 0.0, 4.0));

    let mut rx = bits_of(&[1.0]);
    simd_subs(&bits_of(&[3.0]), tb, &mut rx);
    assert_eq!(rx, bits_of(&[2.0]));
}

#[test]
fn empty_range_is_a_no_op() {
    let tb = 0.5f64.to_bits();
    let lines = Lines {
        tx: Vec::new(),
        ty: Vec::new(),
        tz: Vec::new(),
    };
    let mut rx: Vec<u64> = Vec::new();
    let mut ry: Vec<u64> = Vec::new();
    let mut rz: Vec<u64> = Vec::new();
    serial_prep_subs_all_axis(&lines, tb, &mut rx, &mut ry, &mut rz);
    serial_stream_subs_all_axis(&lines, tb, &mut rx, &mut ry, &mut rz);
    assert!(rx.is_empty() && ry.is_empty() && rz.is_empty());

    let aos_lines: Vec<Line> = Vec::new();
    let mut out: Vec<Point> = Vec::new();
    serial_subs_all_axis(&aos_lines, tb, &mut out);
    assert!(out.is_empty());
}
