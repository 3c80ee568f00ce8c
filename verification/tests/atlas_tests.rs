use sprite_scene::atlas::{Atlas, AtlasError, AtlasRegistry};

#[test]
fn from_grid_zero_columns_fails() {
    let r = Atlas::from_grid(48, 48, 0, 1);
    assert_eq!(r, Err(AtlasError::EmptyGrid));
}

#[test]
fn from_grid_zero_rows_fails() {
    let r = Atlas::from_grid(48, 48, 4, 0);
    assert_eq!(r, Err(AtlasError::EmptyGrid));
}

#[test]
fn from_grid_zero_both_fails() {
    let r = Atlas::from_grid(16, 16, 0, 0);
    assert_eq!(r, Err(AtlasError::EmptyGrid));
}

#[test]
fn from_grid_overflowing_tile_count_fails() {
    let r = Atlas::from_grid(1, 1, usize::MAX, 2);
    assert_eq!(r, Err(AtlasError::TooManyTiles));
}

#[test]
fn from_grid_valid_builds_atlas() {
    let a = Atlas::from_grid(48, 48, 4, 1).unwrap();
    assert_eq!(a.tile_width, 48);
    assert_eq!(a.tile_height, 48);
    assert_eq!(a.columns, 4);
    assert_eq!(a.rows, 1);
    assert_eq!(a.total_tiles(), 4);
}

#[test]
fn total_tiles_multiplies_grid() {
    let a = Atlas::from_grid(8, 8, 3, 5).unwrap();
    assert_eq!(a.total_tiles(), 15);
}

#[test]
fn registry_hands_out_sequential_handles() {
    let mut reg = AtlasRegistry::new();
    let a = Atlas::from_grid(48, 48, 4, 1).unwrap();
    let b = Atlas::from_grid(32, 32, 2, 2).unwrap();
    assert_eq!(reg.add(a), 0);
    assert_eq!(reg.add(b), 1);
    assert_eq!(reg.get(0), Some(&a));
    assert_eq!(reg.get(1), Some(&b));
}

#[test]
fn registry_unknown_handle_resolves_to_none() {
    let reg = AtlasRegistry::new();
    assert_eq!(reg.get(0), None);
}
