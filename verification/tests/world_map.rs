use gorb_transporter::world::{random_target_tile, WorldMap, WORLD_HEIGHT, WORLD_SIZE, WORLD_WIDTH};

fn blank_map() -> WorldMap {
    WorldMap { vals: [0; 10000] }
}

#[test]
fn world_size_is_width_times_height() {
    assert_eq!(WORLD_SIZE, WORLD_WIDTH * WORLD_HEIGHT);
}

#[test]
fn get_after_set_reads_the_written_value() {
    let mut map = blank_map();
    map.set_val_at_coord(3, 7, 12);
    assert_eq!(map.get_val_at_coord(3, 7), Some(12));
    assert_eq!(map.vals[3 + 7 * WORLD_WIDTH], 12);
    assert_eq!(map.get_val_at_coord(7, 3), Some(0));
    map.set_val_at_coord(3, 7, 4);
    assert_eq!(map.get_val_at_coord(3, 7), Some(4));
}

#[test]
fn corners_of_the_map() {
    let mut map = blank_map();
    map.set_val_at_coord(0, 0, 1);
    map.set_val_at_coord(99, 99, 2);
    assert_eq!(map.get_val_at_coord(0, 0), Some(1));
    assert_eq!(map.get_val_at_coord(99, 99), Some(2));
}

#[test]
fn lookups_outside_the_map_find_nothing() {
    let map = blank_map();
    assert_eq!(map.get_val_at_coord(0, 100), None);
    assert_eq!(map.get_val_at_coord(100, 99), None);
    assert_eq!(map.get_val_at_coord(-1, 0), None);
    assert_eq!(map.get_val_at_coord(0, -1), None);
    assert_eq!(map.get_val_at_coord(-5, -5), None);
}

#[test]
fn x_past_the_row_end_reads_the_next_row() {
    let mut map = blank_map();
    map.set_val_at_coord(20, 1, 9);
    assert_eq!(map.get_val_at_coord(120, 0), Some(9));
    assert_eq!(map.get_val_at_coord(-80, 2), Some(9));
}

#[test]
fn terrain_factor_adds_one() {
    let mut map = blank_map();
    map.set_val_at_coord(50, 50, 7);
    assert_eq!(map.terrain_factor(50, 50), 8);
    assert_eq!(map.terrain_factor(10, 10), 1);
    assert_eq!(map.terrain_factor(-3, 0), 1);
    assert_eq!(map.terrain_factor(0, 1000), 1);
}

#[test]
fn random_target_lies_inside_the_world() {
    for _ in 0..1000 {
        let (x, y) = random_target_tile();
        assert!(x < WORLD_WIDTH);
        assert!(y < WORLD_HEIGHT);
    }
}
