use conway::cell::{Cell, SimpleCell};
use conway::generation::Generation;
use conway::ruleset::{alive_neighbors, apply_conway_ruleset, fix_coord};

#[test]
fn test_fix_coord() {
    let values: Vec<(i64, u64, u64, u64)> = vec![
        (1, 0, 2, 1),
        (0, 0, 2, 0),
        (2, 0, 2, 2),
        (-1, 0, 2, 2),
        (3, 0, 2, 0),
    ];

    for (c, l, u, e) in &values {
        assert_eq!(fix_coord(*c, *l, *u), *e);
    }
}

#[test]
fn fix_coord_far_values() {
    assert_eq!(fix_coord(i64::MIN, 0, 9), 9);
    assert_eq!(fix_coord(i64::MAX, 0, 9), 0);
    assert_eq!(fix_coord(5, 4, 6), 5);
    assert_eq!(fix_coord(3, 4, 6), 6);
    assert_eq!(fix_coord(7, 4, 6), 4);
}

#[test]
fn test_alive_neighbors() {
    let mut gen: Generation<SimpleCell> = Generation::new(3, 3).unwrap();

    gen.cell_mut(1, 1).unwrap().spawn();
    gen.cell_mut(1, 2).unwrap().spawn();
    gen.cell_mut(2, 2).unwrap().spawn();

    assert_eq!(alive_neighbors(1, 1, &gen), 2);
    assert_eq!(alive_neighbors(0, 0, &gen), 3);

    gen.cell_mut(1, 2).unwrap().kill();
    gen.cell_mut(2, 2).unwrap().kill();

    assert_eq!(alive_neighbors(1, 1, &gen), 0);
    assert_eq!(alive_neighbors(2, 2, &gen), 1);
}

#[test]
fn test_apply_conway_ruleset() {
    let mut gen: Generation<SimpleCell> = Generation::new(5, 5).unwrap();

    gen.cell_mut(1, 1).unwrap().spawn();
    gen.cell_mut(1, 2).unwrap().spawn();
    gen.cell_mut(2, 2).unwrap().spawn();

    assert_eq!(apply_conway_ruleset(0, 0, &gen), false);
    assert_eq!(apply_conway_ruleset(2, 2, &gen), true);
    assert_eq!(apply_conway_ruleset(1, 2, &gen), true);
}

#[test]
fn conway_ruleset_outside_grid_is_dead() {
    let mut gen: Generation<SimpleCell> = Generation::new(3, 3).unwrap();
    for y in 0..3 {
        for x in 0..3 {
            gen.cell_mut(x, y).unwrap().spawn();
        }
    }
    assert_eq!(apply_conway_ruleset(3, 0, &gen), false);
    assert_eq!(apply_conway_ruleset(0, 3, &gen), false);
    assert_eq!(apply_conway_ruleset(u64::MAX, u64::MAX, &gen), false);
}

#[test]
fn conway_ruleset_blinker_wraps() {
    // A vertical blinker across the top and bottom edges of a 5x5 torus.
    let mut gen: Generation<SimpleCell> = Generation::new(5, 5).unwrap();
    gen.cell_mut(2, 4).unwrap().spawn();
    gen.cell_mut(2, 0).unwrap().spawn();
    gen.cell_mut(2, 1).unwrap().spawn();

    assert_eq!(alive_neighbors(2, 0, &gen), 2);
    assert_eq!(alive_neighbors(1, 0, &gen), 3);
    assert_eq!(alive_neighbors(3, 0, &gen), 3);
    assert_eq!(alive_neighbors(2, 4, &gen), 1);

    let mut next: Generation<SimpleCell> = Generation::new(5, 5).unwrap();
    for y in 0..5 {
        for x in 0..5 {
            if apply_conway_ruleset(x, y, &gen) {
                next.cell_mut(x, y).unwrap().spawn();
            }
        }
    }
    for y in 0..5 {
        for x in 0..5 {
            let expected = y == 0 && (x == 1 || x == 2 || x == 3);
            assert_eq!(next.cell(x, y).unwrap().is_alive(), expected);
        }
    }
}

#[test]
fn conway_ruleset_lonely_and_crowded_cells_die() {
    let mut gen: Generation<SimpleCell> = Generation::new(4, 4).unwrap();
    gen.cell_mut(1, 1).unwrap().spawn();
    assert_eq!(apply_conway_ruleset(1, 1, &gen), false);

    for (x, y) in [(0u64, 0u64), (1, 0), (2, 0), (0, 1), (2, 1)] {
        gen.cell_mut(x, y).unwrap().spawn();
    }
    assert_eq!(alive_neighbors(1, 1, &gen), 5);
    assert_eq!(apply_conway_ruleset(1, 1, &gen), false);
}
