use sprite_scene::animation::{advance_animations, advance_index};
use sprite_scene::assets::AssetStore;
use sprite_scene::atlas::AtlasRegistry;
use sprite_scene::scene::{assemble_scene, Entity, Transform, Visual, World};
use sprite_scene::timer::RepeatingTimer;

const TENTH_SECOND: u64 = 100_000_000;

fn assembled() -> (World, AtlasRegistry) {
    let mut world = World::new();
    let mut assets = AssetStore::new();
    let mut atlases = AtlasRegistry::new();
    assemble_scene(&mut world, &mut assets, &mut atlases);
    (world, atlases)
}

fn body_index(world: &World) -> usize {
    match world.entities[1].visual {
        Some(Visual::Sheet { index, .. }) => index,
        other => panic!("the body should keep its sheet visual, found {:?}", other),
    }
}

#[test]
fn one_full_interval_advances_one_tile() {
    let (mut world, atlases) = assembled();
    advance_animations(&mut world, &atlases, TENTH_SECOND);
    assert_eq!(body_index(&world), 1);
    assert_eq!(world.entities[1].timer.unwrap().elapsed_ns, 0);
}

#[test]
fn partial_interval_leaves_the_tile() {
    let (mut world, atlases) = assembled();
    advance_animations(&mut world, &atlases, TENTH_SECOND / 2);
    assert_eq!(body_index(&world), 0);
    assert_eq!(world.entities[1].timer.unwrap().elapsed_ns, TENTH_SECOND / 2);
}

#[test]
fn four_boundaries_wrap_back_to_zero() {
    // Deltas summing to 0.4s against the 0.1s interval: four wraps on a
    // 4-tile sheet land back on tile 0.
    let (mut world, atlases) = assembled();
    let expected = [1usize, 2, 3, 0];
    for step in 0..4 {
        advance_animations(&mut world, &atlases, TENTH_SECOND);
        assert_eq!(body_index(&world), expected[step]);
    }
}

#[test]
fn single_delta_of_three_and_a_half_intervals_advances_three() {
    let (mut world, atlases) = assembled();
    advance_animations(&mut world, &atlases, 350_000_000);
    assert_eq!(body_index(&world), 3);
    assert_eq!(world.entities[1].timer.unwrap().elapsed_ns, 50_000_000);
}

#[test]
fn split_deltas_advance_once_per_boundary_crossed() {
    let (mut world, atlases) = assembled();
    for delta in [30_000_000u64, 30_000_000, 40_000_000] {
        advance_animations(&mut world, &atlases, delta);
    }
    assert_eq!(body_index(&world), 1);
}

#[test]
fn index_never_exceeds_boundaries_crossed() {
    let (mut world, atlases) = assembled();
    let mut total: u64 = 0;
    let mut steps: u64 = 0;
    for _ in 0..7 {
        advance_animations(&mut world, &atlases, 99_000_000);
        total += 99_000_000;
        steps = total / TENTH_SECOND;
        assert_eq!(body_index(&world) as u64, steps % 4);
    }
    assert_eq!(steps, 6);
}

#[test]
fn index_stays_in_range_over_many_frames() {
    let (mut world, atlases) = assembled();
    for _ in 0..1000 {
        advance_animations(&mut world, &atlases, 70_000_000);
        assert!(body_index(&world) < 4);
    }
}

#[test]
fn other_entities_are_untouched_by_the_tick() {
    let (mut world, atlases) = assembled();
    let camera_before = world.entities[0];
    let hand_before = world.entities[2];
    let weapon_before = world.entities[3];
    advance_animations(&mut world, &atlases, TENTH_SECOND);
    assert_eq!(world.entities[0], camera_before);
    assert_eq!(world.entities[2], hand_before);
    assert_eq!(world.entities[3], weapon_before);
}

#[test]
fn unresolved_atlas_skips_the_tile_but_time_passes() {
    let mut world = World::new();
    world.spawn(Entity {
        parent: None,
        local: Transform { x: 0, y: 0, depth_tenths: 0 },
        camera: None,
        visual: Some(Visual::Sheet { atlas: 5, index: 2 }),
        timer: Some(RepeatingTimer::new(100)),
    });
    let atlases = AtlasRegistry::new();
    advance_animations(&mut world, &atlases, 250);
    match world.entities[0].visual {
        Some(Visual::Sheet { index, .. }) => assert_eq!(index, 2),
        other => panic!("sheet visual expected, found {:?}", other),
    }
    assert_eq!(world.entities[0].timer.unwrap().elapsed_ns, 50);
}

#[test]
fn a_timer_without_a_sheet_is_not_ticked() {
    let mut world = World::new();
    world.spawn(Entity {
        parent: None,
        local: Transform { x: 0, y: 0, depth_tenths: 0 },
        camera: None,
        visual: Some(Visual::Image { image: 0 }),
        timer: Some(RepeatingTimer::new(100)),
    });
    let atlases = AtlasRegistry::new();
    advance_animations(&mut world, &atlases, 250);
    assert_eq!(world.entities[0].timer.unwrap().elapsed_ns, 0);
}

#[test]
fn advance_index_wraps_modulo_total() {
    assert_eq!(advance_index(3, 1, 4), 0);
    assert_eq!(advance_index(0, 7, 4), 3);
    assert_eq!(advance_index(2, 0, 4), 2);
    assert_eq!(advance_index(0, 8, 4), 0);
}

#[test]
fn advance_index_handles_huge_completion_counts() {
    assert_eq!(advance_index(1, u64::MAX, 2), if u64::MAX % 2 == 1 { 0 } else { 1 });
    assert_eq!(advance_index(usize::MAX - 1, 1, usize::MAX), 0);
}
