use raytracer::perlin::{generate_perm, is_permutation_table, Perlin, POINT_COUNT};

#[test]
fn generated_table_is_a_permutation() {
    let mut rng = rand::thread_rng();
    let table = generate_perm(&mut rng);
    assert!(is_permutation_table(&table));
    let mut sorted = table.clone();
    sorted.sort();
    let expected: Vec<usize> = (0..POINT_COUNT).collect();
    assert_eq!(sorted, expected);
}

#[test]
fn permutation_checker_rejects_bad_tables() {
    let identity: Vec<usize> = (0..POINT_COUNT).collect();
    assert!(is_permutation_table(&identity));

    let too_short: Vec<usize> = (0..POINT_COUNT - 1).collect();
    assert!(!is_permutation_table(&too_short));

    let mut repeated = identity.clone();
    repeated[7] = 9;
    assert!(!is_permutation_table(&repeated));

    let mut out_of_range = identity.clone();
    out_of_range[0] = POINT_COUNT;
    assert!(!is_permutation_table(&out_of_range));
}

#[test]
fn from_tables_checks_each_table() {
    let identity: Vec<usize> = (0..POINT_COUNT).collect();
    let reversed: Vec<usize> = (0..POINT_COUNT).rev().collect();
    assert!(Perlin::from_tables(identity.clone(), reversed.clone(), identity.clone()).is_some());
    let constant = vec![0usize; POINT_COUNT];
    assert!(Perlin::from_tables(identity.clone(), constant, reversed).is_none());
}

#[test]
fn gradient_index_xor_combines_the_three_lookups() {
    let identity: Vec<usize> = (0..POINT_COUNT).collect();
    let reversed: Vec<usize> = (0..POINT_COUNT).rev().collect();
    let perlin =
        Perlin::from_tables(identity.clone(), identity.clone(), reversed).unwrap();
    // identity[5] ^ identity[3] ^ reversed[0]
    assert_eq!(perlin.gradient_index(5, 3, 0, 0, 0, 0), (5 ^ 3) ^ 255);
    // corner offsets move the lookup by one slot
    assert_eq!(perlin.gradient_index(5, 3, 0, 1, 0, 0), (6 ^ 3) ^ 255);
    assert_eq!(perlin.gradient_index(5, 3, 0, 0, 0, 1), (5 ^ 3) ^ 254);
}

#[test]
fn gradient_index_wraps_at_the_table_edges() {
    let identity: Vec<usize> = (0..POINT_COUNT).collect();
    let perlin =
        Perlin::from_tables(identity.clone(), identity.clone(), identity.clone()).unwrap();
    assert_eq!(perlin.gradient_index(-1, 0, 0, 0, 0, 0), 255);
    assert_eq!(perlin.gradient_index(255, 0, 0, 1, 0, 0), 0);
    assert_eq!(perlin.gradient_index(i32::MIN, 0, 0, 0, 0, 0), 0);
    assert_eq!(perlin.gradient_index(i32::MAX, 0, 0, 0, 0, 0), 255);
}

#[test]
fn gradient_index_stays_in_the_gradient_table() {
    let mut rng = rand::thread_rng();
    let perlin = Perlin::new(&mut rng);
    let corners = [
        (0, 0, 0),
        (-7, 123, -900),
        (i32::MIN, i32::MAX, 42),
        (255, 256, -256),
    ];
    for &(i, j, k) in &corners {
        for di in 0..2 {
            for dj in 0..2 {
                for dk in 0..2 {
                    assert!(perlin.gradient_index(i, j, k, di, dj, dk) < POINT_COUNT);
                }
            }
        }
    }
}

#[test]
fn gradient_index_is_a_function_of_the_tables() {
    let mut rng = rand::thread_rng();
    let first = Perlin::new(&mut rng);
    let second = Perlin::from_tables(
        first.perm_x.clone(),
        first.perm_y.clone(),
        first.perm_z.clone(),
    )
    .unwrap();
    for i in -3..4 {
        for j in -3..4 {
            assert_eq!(
                first.gradient_index(i, j, i ^ j, 1, 0, 1),
                second.gradient_index(i, j, i ^ j, 1, 0, 1)
            );
        }
    }
}
