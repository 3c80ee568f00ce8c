//! The scene tree: entities with local transforms, optional visuals, optional
//! animation timers, and parent links, stored in an arena indexed by spawn
//! order. Includes the assembly routine that builds the demo scene: a camera
//! and an animated character with a hand child and a weapon grandchild.
//!
//! Render depth composes cumulatively along the parent chain, exactly like
//! the positional offsets: a child's depth is its parent's world depth plus
//! its own offset. Depth is kept in tenths of a unit so that it stays in
//! integers (a depth of 1.0 is stored as 10).

use vstd::prelude::*;

use crate::assets::{AssetStore, HandleState};
use crate::atlas::{Atlas, AtlasError, AtlasRegistry};
use crate::timer::RepeatingTimer;

verus! {

/// Interval of the character's animation timer: a tenth of a second.
pub const ANIMATION_INTERVAL_NS: u64 = 100_000_000;

/// A local offset relative to the parent entity (or to the world origin for
/// a root): a position in pixels and a render-depth offset in tenths.
#[derive(Clone, Copy, PartialEq, Eq, Debug)]
pub struct Transform {
    /// Horizontal offset, in pixels.
    pub x: i32,
    /// Vertical offset, in pixels.
    pub y: i32,
    /// Render-depth offset, in tenths of a depth unit.
    pub depth_tenths: i32,
}

/// A 2-D camera projection. The scale is a percentage of the default zoom:
/// 100 renders at the default scale, 50 at half scale (zoomed in twice).
#[derive(Clone, Copy, PartialEq, Eq, Debug)]
pub struct Camera2d {
    /// Projection scale as a percentage of the default.
    pub scale_percent: u32,
}

/// What an entity draws: a standalone image, or one tile of a sprite sheet.
#[derive(Clone, Copy, PartialEq, Eq, Debug)]
pub enum Visual {
    /// A single image, by asset-store handle.
    Image {
        /// Handle of the image in the asset store.
        image: usize,
    },
    /// One tile of a sprite-sheet atlas, by registry handle.
    Sheet {
        /// Handle of the atlas in the registry.
        atlas: usize,
        /// The tile currently displayed; kept below the atlas's tile count.
        index: usize,
    },
}

/// A node of the scene tree: a parent link (an index into the arena), a
/// local transform, and optional camera, visual and animation-timer parts.
#[derive(Clone, Copy, PartialEq, Eq, Debug)]
pub struct Entity {
    /// The arena index of the parent, if any; always below this entity's own
    /// index, since parents are spawned before their children.
    pub parent: Option<usize>,
    /// Offset relative to the parent (or to the world origin).
    pub local: Transform,
    /// Camera projection, for camera entities.
    pub camera: Option<Camera2d>,
    /// What the entity draws, if anything.
    pub visual: Option<Visual>,
    /// The repeating timer driving this entity's sprite animation, if any.
    pub timer: Option<RepeatingTimer>,
}

/// Structural soundness of one arena slot: the parent was spawned earlier,
/// and any timer is well formed.
pub open spec fn entity_wf_at(entities: Seq<Entity>, i: int) -> bool {
    &&& (entities[i].parent matches Some(p) ==> p < i)
    &&& (entities[i].timer matches Some(t) ==> t.wf())
}

/// The cumulative world offset of entity `i`: the sum of its own local
/// transform and those of all its ancestors, as `(x, y, depth_tenths)`.
pub open spec fn world_offset(entities: Seq<Entity>, i: int) -> (int, int, int)
    decreases i,
{
    if 0 <= i < entities.len() {
        let local = entities[i].local;
        match entities[i].parent {
            Some(p) => if p < i {
                let base = world_offset(entities, p as int);
                (base.0 + local.x, base.1 + local.y, base.2 + local.depth_tenths)
            } else {
                (local.x as int, local.y as int, local.depth_tenths as int)
            },
            None => (local.x as int, local.y as int, local.depth_tenths as int),
        }
    } else {
        (0, 0, 0)
    }
}

/// Each component of a world offset is bounded by the chain length times the
/// magnitude of one local offset, so summing ancestors can never overflow a
/// wide accumulator.
pub proof fn lemma_world_offset_bounded(entities: Seq<Entity>, i: int)
    requires
        0 <= i < entities.len(),
    ensures
        -((i + 1) * 0x8000_0000) <= world_offset(entities, i).0 <= (i + 1) * 0x8000_0000,
        -((i + 1) * 0x8000_0000) <= world_offset(entities, i).1 <= (i + 1) * 0x8000_0000,
        -((i + 1) * 0x8000_0000) <= world_offset(entities, i).2 <= (i + 1) * 0x8000_0000,
    decreases i,
{
    match entities[i].parent {
        Some(p) => {
            if p < i {
                lemma_world_offset_bounded(entities, p as int);
            }
        },
        None => {},
    }
}

/// The world position and render depth of an entity once every ancestor
/// offset is applied. Components are wide integers: a chain of pixel-sized
/// offsets can outgrow the pixel type itself.
#[derive(Clone, Copy, PartialEq, Eq, Debug)]
pub struct Placement {
    /// World horizontal position, in pixels.
    pub x: i128,
    /// World vertical position, in pixels.
    pub y: i128,
    /// World render depth, in tenths of a depth unit.
    pub depth_tenths: i128,
}

/// The arena of entities. Slot indices are entity ids: an entity's parent
/// always sits at a lower index, so the parent relation forms a forest.
pub struct World {
    /// All spawned entities, in spawn order.
    pub entities: Vec<Entity>,
}

impl World {
    /// Every slot is structurally sound.
    pub open spec fn wf(self) -> bool {
        forall|i: int|
            0 <= i < self.entities@.len() ==> #[trigger] entity_wf_at(self.entities@, i)
    }

    /// A world with no entities.
    pub fn new() -> (w: World)
        ensures
            w.wf(),
            w.entities@.len() == 0,
    {
        World { entities: Vec::new() }
    }

    /// Spawn an entity and return its id. The parent, if any, must already
    /// exist, and an attached timer must be well formed; existing entities
    /// are untouched.
    pub fn spawn(&mut self, entity: Entity) -> (id: usize)
        requires
            old(self).wf(),
            entity.parent matches Some(p) ==> p < old(self).entities@.len(),
            entity.timer matches Some(t) ==> t.wf(),
        ensures
            final(self).wf(),
            id == old(self).entities@.len(),
            final(self).entities@ == old(self).entities@.push(entity),
    {
        let id = self.entities.len();
        self.entities.push(entity);
        proof {
            assert forall|i: int| 0 <= i < self.entities@.len() implies #[trigger] entity_wf_at(
                self.entities@,
                i,
            ) by {
                if i < old(self).entities@.len() {
                    assert(entity_wf_at(old(self).entities@, i));
                }
            }
        }
        id
    }

    /// The world placement of an entity: the sum of the local offsets along
    /// its ancestor chain, including its own.
    pub fn world_transform(&self, id: usize) -> (p: Placement)
        requires
            self.wf(),
            id < self.entities@.len(),
        ensures
            (p.x as int, p.y as int, p.depth_tenths as int) == world_offset(
                self.entities@,
                id as int,
            ),
        decreases id,
    {
        let entity = self.entities[id];
        proof {
            assert(entity_wf_at(self.entities@, id as int));
        }
        match entity.parent {
            None => Placement {
                x: entity.local.x as i128,
                y: entity.local.y as i128,
                depth_tenths: entity.local.depth_tenths as i128,
            },
            Some(par) => {
                let base = self.world_transform(par);
                proof {
                    lemma_world_offset_bounded(self.entities@, par as int);
                }
                Placement {
                    x: base.x + entity.local.x as i128,
                    y: base.y + entity.local.y as i128,
                    depth_tenths: base.depth_tenths + entity.local.depth_tenths as i128,
                }
            },
        }
    }
}

/// The camera entity of the demo scene: no parent, world origin, default
/// depth, half-scale zoom.
pub open spec fn camera_entity() -> Entity {
    Entity {
        parent: None,
        local: Transform { x: 0, y: 0, depth_tenths: 0 },
        camera: Some(Camera2d { scale_percent: 50 }),
        visual: None,
        timer: None,
    }
}

/// The animated character body: a sprite-sheet visual starting on tile 0 at
/// depth 1.0, with a repeating tenth-of-a-second animation timer.
pub open spec fn body_entity(atlas_handle: usize) -> Entity {
    Entity {
        parent: None,
        local: Transform { x: 0, y: 0, depth_tenths: 10 },
        camera: None,
        visual: Some(Visual::Sheet { atlas: atlas_handle, index: 0 }),
        timer: Some(RepeatingTimer { interval_ns: ANIMATION_INTERVAL_NS, elapsed_ns: 0 }),
    }
}

/// The hand, a child of the body: a standalone image offset left of the body
/// and a tenth of a depth unit behind it.
pub open spec fn hand_entity(body_id: usize, image: usize) -> Entity {
    Entity {
        parent: Some(body_id),
        local: Transform { x: -6i32, y: 0, depth_tenths: -1i32 },
        camera: None,
        visual: Some(Visual::Image { image }),
        timer: None,
    }
}

/// The weapon, a child of the hand: a standalone image offset to the right
/// and a tenth of a depth unit in front of the hand.
pub open spec fn weapon_entity(hand_id: usize, image: usize) -> Entity {
    Entity {
        parent: Some(hand_id),
        local: Transform { x: 10, y: 1, depth_tenths: 1 },
        camera: None,
        visual: Some(Visual::Image { image }),
        timer: None,
    }
}

/// Request the grid image at `path` from the asset store, slice it into a
/// `columns x rows` atlas of `tile_width x tile_height` tiles, and register
/// the atlas. Returns the registry handle, or the construction error for an
/// empty or oversized grid; the image request is recorded either way.
pub fn load_texture_atlas(
    assets: &mut AssetStore,
    atlases: &mut AtlasRegistry,
    path: String,
    tile_width: u32,
    tile_height: u32,
    columns: usize,
    rows: usize,
) -> (r: Result<usize, AtlasError>)
    requires
        old(assets).wf(),
        old(atlases).wf(),
    ensures
        final(assets).wf(),
        final(atlases).wf(),
        final(assets).paths@ == old(assets).paths@.push(path),
        final(assets).states@ == old(assets).states@.push(HandleState::Pending),
        r is Ok <==> (0 < columns && 0 < rows && columns * rows <= usize::MAX),
        r == Err::<usize, AtlasError>(AtlasError::EmptyGrid) <==> (columns == 0 || rows == 0),
        r matches Ok(handle) ==> handle == old(atlases).atlases@.len() && final(atlases).atlases@ == old(atlases).atlases@.push(
            (Atlas { tile_width, tile_height, columns, rows }),
        ),
        r is Err ==> final(atlases).atlases@ == old(atlases).atlases@,
{
    let _texture = assets.load(path);
    match Atlas::from_grid(tile_width, tile_height, columns, rows) {
        Ok(atlas) => Ok(atlases.add(atlas)),
        Err(e) => Err(e),
    }
}

/// Build the demo scene: request the three image assets, register the
/// character's 4-column sprite-sheet atlas, and spawn four entities — a
/// camera, the animated body, the hand as the body's child, and the weapon
/// as the hand's child. Existing entities, assets and atlases are untouched.
///
/// Cumulative render depth comes out as 1.0 for the body, 0.9 for the hand
/// (drawn behind the body) and 1.0 for the weapon (in front of the hand).
pub fn assemble_scene(world: &mut World, assets: &mut AssetStore, atlases: &mut AtlasRegistry)
    requires
        old(world).wf(),
        old(assets).wf(),
        old(atlases).wf(),
    ensures
        final(world).wf(),
        final(assets).wf(),
        final(atlases).wf(),
        final(world).entities@.len() == old(world).entities@.len() + 4,
        forall|i: int|
            0 <= i < old(world).entities@.len() ==> final(world).entities@[i] == old(world).entities@[i],
        final(world).entities@[old(world).entities@.len() as int] == camera_entity(),
        final(world).entities@[old(world).entities@.len() as int + 1] == body_entity(
            old(atlases).atlases@.len() as usize,
        ),
        final(world).entities@[old(world).entities@.len() as int + 2] == hand_entity(
            (old(world).entities@.len() as int + 1) as usize,
            (old(assets).paths@.len() as int + 1) as usize,
        ),
        final(world).entities@[old(world).entities@.len() as int + 3] == weapon_entity(
            (old(world).entities@.len() as int + 2) as usize,
            (old(assets).paths@.len() as int + 2) as usize,
        ),
        final(atlases).atlases@ == old(atlases).atlases@.push(
            (Atlas { tile_width: 48, tile_height: 48, columns: 4, rows: 1 }),
        ),
        final(assets).paths@.len() == old(assets).paths@.len() as int + 3,
        forall|i: int|
            0 <= i < old(assets).paths@.len() ==> final(assets).paths@[i] == old(assets).paths@[i],
        final(assets).paths@[old(assets).paths@.len() as int]@ == "cyborg/Idle1.png"@,
        final(assets).paths@[old(assets).paths@.len() as int + 1]@ == "cyborg/hands/3.png"@,
        final(assets).paths@[old(assets).paths@.len() as int + 2]@ == "guns/10_1.png"@,
        final(assets).states@ == old(assets).states@.push(HandleState::Pending).push(
            HandleState::Pending,
        ).push(HandleState::Pending),
        world_offset(final(world).entities@, old(world).entities@.len() as int).2 == 0,
        world_offset(final(world).entities@, old(world).entities@.len() as int + 1).2 == 10,
        world_offset(final(world).entities@, old(world).entities@.len() as int + 2).2 == 9,
        world_offset(final(world).entities@, old(world).entities@.len() as int + 3).2 == 10,
{
    let atlas_result = load_texture_atlas(
        assets,
        atlases,
        "cyborg/Idle1.png".to_owned(),
        48,
        48,
        4,
        1,
    );
    let atlas_handle: usize = match atlas_result {
        Ok(handle) => handle,
        // A 4x1 grid always builds, so this arm is provably dead.
        Err(_) => vstd::pervasive::unreached(),
    };
    let hand_image = assets.load("cyborg/hands/3.png".to_owned());
    let gun_image = assets.load("guns/10_1.png".to_owned());

    let _camera_id = world.spawn(
        Entity {
            parent: None,
            local: Transform { x: 0, y: 0, depth_tenths: 0 },
            camera: Some(Camera2d { scale_percent: 50 }),
            visual: None,
            timer: None,
        },
    );
    let body_id = world.spawn(
        Entity {
            parent: None,
            local: Transform { x: 0, y: 0, depth_tenths: 10 },
            camera: None,
            visual: Some(Visual::Sheet { atlas: atlas_handle, index: 0 }),
            timer: Some(RepeatingTimer::new(ANIMATION_INTERVAL_NS)),
        },
    );
    let hand_id = world.spawn(
        Entity {
            parent: Some(body_id),
            local: Transform { x: -6, y: 0, depth_tenths: -1 },
            camera: None,
            visual: Some(Visual::Image { image: hand_image }),
            timer: None,
        },
    );
    let _weapon_id = world.spawn(
        Entity {
            parent: Some(hand_id),
            local: Transform { x: 10, y: 1, depth_tenths: 1 },
            camera: None,
            visual: Some(Visual::Image { image: gun_image }),
            timer: None,
        },
    );
    proof {
        let s = world.entities@;
        let n = old(world).entities@.len() as int;
        assert(world_offset(s, n).2 == 0);
        assert(world_offset(s, n + 1).2 == 10);
        assert(world_offset(s, n + 2).2 == 9);
        assert(world_offset(s, n + 3).2 == 10);
    }
}

} // verus!
