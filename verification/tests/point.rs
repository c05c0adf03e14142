use voronoi_noise::point::{int_to_float, mix_digest, point_for_cell, FeaturePoint};

fn step(state: &mut u64) -> u32 {
    *state = state.wrapping_mul(6364136223846793005).wrapping_add(1442695040888963407);
    (*state >> 32) as u32
}

fn correlation(a: &[f64], b: &[f64]) -> f64 {
    let n = a.len() as f64;
    let mean_a = a.iter().sum::<f64>() / n;
    let mean_b = b.iter().sum::<f64>() / n;
    let mut cov = 0.0;
    let mut var_a = 0.0;
    let mut var_b = 0.0;
    for (x, y) in a.iter().zip(b.iter()) {
        cov += (x - mean_a) * (y - mean_b);
        var_a += (x - mean_a) * (x - mean_a);
        var_b += (y - mean_b) * (y - mean_b);
    }
    cov / (var_a * var_b).sqrt()
}

#[test]
fn mix_digest_splits_and_xors() {
    assert_eq!(mix_digest(0), (0, 0));
    assert_eq!(mix_digest(0x0000_0001_0000_0003), (3, 2));
    assert_eq!(mix_digest(0x1efa_c709_0aef_4a21), (0x0aef_4a21, 0x1415_8d28));
    assert_eq!(mix_digest(0xffff_ffff_0000_0000), (0, 0xffff_ffff));
    assert_eq!(mix_digest(0x0000_0000_ffff_ffff), (0xffff_ffff, 0xffff_ffff));
    assert_eq!(mix_digest(u64::MAX), (0xffff_ffff, 0));
}

#[test]
fn mix_digest_can_be_undone() {
    let mut state: u64 = 5;
    for _ in 0..2000 {
        let digest = (u64::from(step(&mut state)) << 32) | u64::from(step(&mut state));
        let (low, mixed) = mix_digest(digest);
        assert_eq!((u64::from(mixed ^ low) << 32) | u64::from(low), digest);
    }
}

#[test]
fn int_to_float_keeps_the_top_bits_as_the_fraction() {
    assert_eq!(int_to_float(0), 0x3f80_0000);
    assert_eq!(int_to_float(511), 0x3f80_0000);
    assert_eq!(int_to_float(512), 0x3f80_0001);
    assert_eq!(int_to_float(0x8000_0000), 0x3fc0_0000);
    assert_eq!(int_to_float(u32::MAX), 0x3fff_ffff);
    assert_eq!(f32::from_bits(int_to_float(0)) - 1.0, 0.0);
    assert_eq!(f32::from_bits(int_to_float(0x8000_0000)) - 1.0, 0.5);
    assert_eq!(f32::from_bits(int_to_float(0x4000_0000)) - 1.0, 0.25);
    assert_eq!(f32::from_bits(int_to_float(u32::MAX)) - 1.0, 1.0 - 1.0 / 8388608.0);
}

#[test]
fn int_to_float_is_the_fraction_of_the_word() {
    let mut state: u64 = 31;
    for _ in 0..2000 {
        let word = step(&mut state);
        let offset = f32::from_bits(int_to_float(word)) - 1.0;
        assert_eq!(offset, (word >> 9) as f32 / 8388608.0);
    }
}

#[test]
fn points_of_known_cells() {
    assert_eq!(point_for_cell(0, 0, 0), FeaturePoint { x: 0x3f80_0000, y: 0x3f80_0000 });
    assert_eq!(point_for_cell(1, 0, 0), FeaturePoint { x: 0x3f85_77a5, y: 0x3f8a_0ac6 });
    assert_eq!(
        point_for_cell(0, 0x3f80_0000, 0x4000_0000),
        FeaturePoint { x: 0x3fe7_b75b, y: 0x3fd2_a97b }
    );
    assert_eq!(
        point_for_cell(7, 0xc120_0000, 0x4120_0000),
        FeaturePoint { x: 0x3fc4_b013, y: 0x3fb5_f7e9 }
    );
    assert_eq!(
        point_for_cell(u32::MAX, u32::MAX, u32::MAX),
        FeaturePoint { x: 0x3f9f_f2e8, y: 0x3fd1_b5f8 }
    );
}

#[test]
fn point_is_the_same_on_every_call() {
    let mut state: u64 = 77;
    for _ in 0..4096 {
        let seed = step(&mut state);
        let x = step(&mut state);
        let y = step(&mut state);
        let first = point_for_cell(seed, x, y);
        for _ in 0..3 {
            assert_eq!(point_for_cell(seed, x, y), first);
        }
    }
}

#[test]
fn point_lies_inside_its_cell() {
    let mut state: u64 = 2024;
    for _ in 0..100_000 {
        let seed = step(&mut state);
        let x = step(&mut state);
        let y = step(&mut state);
        let point = point_for_cell(seed, x, y);
        for bits in [point.x, point.y] {
            assert!((0x3f80_0000..0x4000_0000).contains(&bits));
            let offset = f32::from_bits(bits) - 1.0;
            assert!(offset >= 0.0 && offset < 1.0, "{offset}");
        }
    }
}

#[test]
fn point_lies_inside_its_cell_for_cells_that_are_not_numbers() {
    for x in [f32::NAN, f32::INFINITY, f32::NEG_INFINITY, -0.0] {
        for y in [f32::NAN, f32::INFINITY, 1.0e30] {
            let point = point_for_cell(3, x.to_bits(), y.to_bits());
            for bits in [point.x, point.y] {
                let offset = f32::from_bits(bits) - 1.0;
                assert!(offset >= 0.0 && offset < 1.0);
            }
        }
    }
}

#[test]
fn points_of_adjacent_cells_are_not_correlated() {
    for seed in [0u32, 1, 12345] {
        let mut state: u64 = 99 + u64::from(seed);
        let mut here_x = Vec::new();
        let mut here_y = Vec::new();
        let mut next_x = Vec::new();
        let mut next_y = Vec::new();
        for _ in 0..8192 {
            let cx = (step(&mut state) % 20001) as f32 - 10000.0;
            let cy = (step(&mut state) % 20001) as f32 - 10000.0;
            let here = point_for_cell(seed, cx.to_bits(), cy.to_bits());
            let next = point_for_cell(seed, (cx + 1.0).to_bits(), cy.to_bits());
            here_x.push(f64::from(f32::from_bits(here.x) - 1.0));
            here_y.push(f64::from(f32::from_bits(here.y) - 1.0));
            next_x.push(f64::from(f32::from_bits(next.x) - 1.0));
            next_y.push(f64::from(f32::from_bits(next.y) - 1.0));
        }
        assert!(correlation(&here_x, &next_x).abs() < 0.1);
        assert!(correlation(&here_y, &next_y).abs() < 0.1);
        assert!(correlation(&here_x, &here_y).abs() < 0.1);
    }
}

#[test]
fn point_changes_with_the_seed() {
    let mut state: u64 = 4242;
    let mut changed = 0;
    let total = 4096;
    for _ in 0..total {
        let seed = step(&mut state);
        let x = ((step(&mut state) % 20001) as f32 - 10000.0).to_bits();
        let y = ((step(&mut state) % 20001) as f32 - 10000.0).to_bits();
        if point_for_cell(seed, x, y) != point_for_cell(seed.wrapping_add(1), x, y) {
            changed += 1;
        }
    }
    assert!(changed * 100 >= total * 99, "{changed} of {total}");
}
