use ray_tracer::perlin::{PerlinPerms, PERLIN_POINT_COUNT};

fn table(p: &PerlinPerms, axis: usize) -> Vec<u8> {
    (0..PERLIN_POINT_COUNT)
        .map(|i| match axis {
            0 => p.x_at(i),
            1 => p.y_at(i),
            _ => p.z_at(i),
        })
        .collect()
}

#[test]
fn each_table_is_a_permutation_of_the_index_range() {
    let p = PerlinPerms::new();
    for axis in 0..3 {
        let mut t = table(&p, axis);
        t.sort_unstable();
        let identity: Vec<u8> = (0..PERLIN_POINT_COUNT).map(|i| i as u8).collect();
        assert_eq!(t, identity);
    }
}

#[test]
fn tables_are_shuffled_away_from_the_identity() {
    // The shuffle swaps every index with a strictly smaller one, so each
    // table is a single cycle over all entries and can never be the identity.
    // This would fail if the random draw behind the shuffle handed its bound
    // back unchanged, which would leave every swap in place.
    let p = PerlinPerms::new();
    for axis in 0..3 {
        let t = table(&p, axis);
        assert!((0..PERLIN_POINT_COUNT).any(|i| t[i] != i as u8));
    }
}

#[test]
fn independent_tables_differ_from_each_other() {
    // Three independent 256-entry shuffles colliding is vanishingly unlikely.
    let p = PerlinPerms::new();
    let x = table(&p, 0);
    let y = table(&p, 1);
    let z = table(&p, 2);
    assert!(x != y || y != z);
}

#[test]
fn gradient_index_stays_inside_the_gradient_table() {
    let p = PerlinPerms::new();
    let coords = [0usize, 1, 2, 127, 254, 255, 256, 257, 1000, usize::MAX - 1];
    for &i in &coords {
        for &j in &coords {
            for di in 0..2 {
                for dj in 0..2 {
                    let r = p.gradient_index(i, j, i.wrapping_add(j), di, dj, 1);
                    assert!(r < PERLIN_POINT_COUNT);
                }
            }
        }
    }
}

#[test]
fn gradient_index_is_the_xor_of_the_three_table_entries() {
    let p = PerlinPerms::new();
    let cases = [
        (0usize, 0usize, 0usize, 0usize, 0usize, 0usize),
        (1, 2, 3, 1, 0, 1),
        (255, 255, 255, 1, 1, 1),
        (300, 517, 12, 0, 1, 0),
        (usize::MAX - 1, 42, 256, 1, 0, 1),
    ];
    for &(i, j, k, di, dj, dk) in &cases {
        let xi = (i % PERLIN_POINT_COUNT + di) % PERLIN_POINT_COUNT;
        let yj = (j % PERLIN_POINT_COUNT + dj) % PERLIN_POINT_COUNT;
        let zk = (k % PERLIN_POINT_COUNT + dk) % PERLIN_POINT_COUNT;
        let expected = (p.x_at(xi) ^ p.y_at(yj) ^ p.z_at(zk)) as usize;
        assert_eq!(p.gradient_index(i, j, k, di, dj, dk), expected);
    }
}

#[test]
fn gradient_index_is_stable_across_calls() {
    let p = PerlinPerms::new();
    let first = p.gradient_index(12, 34, 56, 1, 0, 1);
    let second = p.gradient_index(12, 34, 56, 1, 0, 1);
    assert_eq!(first, second);
}

#[test]
fn gradient_index_repeats_with_the_table_period() {
    let p = PerlinPerms::new();
    for &(i, j, k) in &[(0usize, 5usize, 10usize), (100, 200, 300)] {
        let a = p.gradient_index(i, j, k, 1, 0, 1);
        let b = p.gradient_index(i + 256, j + 256, k + 256, 1, 0, 1);
        assert_eq!(a, b);
    }
}
