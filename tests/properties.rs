use lifegame::world::{World, WorldBound, CELL_ALIVE, CELL_DEAD};

#[test]
fn valid_input_is_read_back_everywhere() {
    let cells: Vec<bool> = (0..35).map(|i| i % 3 == 0 || i % 7 == 1).collect();
    let world = World::new(7, 5, &cells).unwrap();
    for iy in 0..5 {
        for ix in 0..7 {
            assert_eq!(world.get_cell(ix, iy), Ok(cells[iy * 7 + ix]));
        }
    }
}

#[test]
fn dead_grid_stays_dead_under_both_bounds() {
    for bound in [WorldBound::Plane, WorldBound::Torus] {
        let mut world = World::new(4, 3, &[CELL_DEAD; 12]).unwrap();
        world.set_bound(bound);
        world.next();
        assert_eq!(world.cells(), vec![CELL_DEAD; 12]);
    }
}

#[test]
fn two_worlds_from_same_input_agree_after_two_steps() {
    let cells: Vec<bool> = (0..30).map(|i| (i * 7) % 5 < 2).collect();
    for bound in [WorldBound::Plane, WorldBound::Torus] {
        let mut a = World::new(6, 5, &cells).unwrap();
        let mut b = World::new(6, 5, &cells).unwrap();
        a.set_bound(bound);
        b.set_bound(bound);
        a.next();
        a.next();
        b.next();
        b.next();
        assert_eq!(a.cells(), b.cells());
    }
}

#[test]
fn corner_cell_has_fewer_neighbours_on_plane_than_on_torus() {
    let mut cells = vec![CELL_DEAD; 16];
    cells[0] = CELL_ALIVE;
    let mut world = World::new(4, 4, &cells).unwrap();
    let plane = world.count_alive_neighbours(3, 3);
    world.set_bound(WorldBound::Torus);
    let torus = world.count_alive_neighbours(3, 3);
    assert_eq!(plane, 0);
    assert_eq!(torus, 1);
    assert!(plane < torus);
}

#[test]
fn torus_two_by_two_counts_diagonal_wrap() {
    let mut world = World::new(2, 2, &[CELL_ALIVE, CELL_DEAD, CELL_DEAD, CELL_ALIVE]).unwrap();
    assert_eq!(world.count_alive_neighbours(0, 0), 1);
    world.set_bound(WorldBound::Torus);
    assert_eq!(world.get_neighbour_cell(-1, -1), CELL_ALIVE);
    // (1, 1) is reached through four of the eight wrapped offsets.
    assert_eq!(world.count_alive_neighbours(0, 0), 4);
}

#[test]
fn torus_step_differs_from_plane_step() {
    let row = [CELL_ALIVE, CELL_ALIVE, CELL_ALIVE, CELL_DEAD, CELL_DEAD];
    let mut cells = vec![CELL_DEAD; 25];
    cells[..5].copy_from_slice(&row);
    let mut plane = World::new(5, 5, &cells).unwrap();
    let mut torus = World::new(5, 5, &cells).unwrap();
    torus.set_bound(WorldBound::Torus);
    plane.next();
    torus.next();
    // On the plane the row turns into a vertical pair; on the torus it
    // turns into a column of three wrapping over the top edge.
    assert_eq!(plane.get_present_cell(1, 1), CELL_ALIVE);
    assert_eq!(plane.get_present_cell(1, 4), CELL_DEAD);
    assert_eq!(torus.get_present_cell(1, 1), CELL_ALIVE);
    assert_eq!(torus.get_present_cell(1, 4), CELL_ALIVE);
}
