//! The per-frame animation tick: every entity that carries both a repeating
//! timer and a sprite-sheet visual advances its timer by the frame delta and
//! moves its displayed tile forward by one step per completed cycle, modulo
//! the atlas's tile count.
//!
//! An entity whose atlas handle does not resolve in the registry keeps its
//! tile index for the frame (time still passes on its timer) instead of
//! failing; the atlas may simply not have been registered yet.

use vstd::prelude::*;

use crate::atlas::{Atlas, AtlasRegistry};
use crate::scene::{Entity, Visual, World};
use crate::timer::{cycles_in_run, sum_ns, RepeatingTimer};

verus! {

/// The tile shown after `completions` more cycles from tile `index` of a
/// sheet with `total` tiles: each completed cycle moves one tile forward,
/// wrapping at the end of the sheet.
pub open spec fn wrapped_index(index: int, completions: int, total: int) -> int {
    (index + completions) % total
}

/// The timer of an animated entity can absorb `delta_ns` without its
/// accumulator outgrowing the clock type.
pub open spec fn tick_fits(e: Entity, delta_ns: u64) -> bool {
    match (e.timer, e.visual) {
        (Some(t), Some(Visual::Sheet { .. })) => t.elapsed_ns + delta_ns <= u64::MAX,
        _ => true,
    }
}

/// One entity after one animation tick of `delta_ns` against the given
/// atlases: the timer always advances; the tile index advances by the number
/// of completed cycles only when the atlas handle resolves. Entities without
/// a timer or without a sheet visual are untouched.
pub open spec fn ticked_entity(e: Entity, atlases: Seq<Atlas>, delta_ns: u64) -> Entity {
    match (e.timer, e.visual) {
        (Some(t), Some(Visual::Sheet { atlas, index })) => {
            let new_index = if atlas < atlases.len() && 0 < atlases[atlas as int].total_tiles_spec() {
                wrapped_index(
                    index as int,
                    t.cycles_after(delta_ns),
                    atlases[atlas as int].total_tiles_spec(),
                ) as usize
            } else {
                index
            };
            Entity {
                timer: Some(t.ticked(delta_ns)),
                visual: Some(Visual::Sheet { atlas, index: new_index }),
                ..e
            }
        },
        _ => e,
    }
}

/// The next tile to display: `index` moved forward one tile per completed
/// cycle, wrapping modulo `total`. The result is always a valid tile index,
/// whatever tile the sheet was on before.
pub fn advance_index(index: usize, completions: u64, total: usize) -> (r: usize)
    requires
        0 < total,
    ensures
        r == wrapped_index(index as int, completions as int, total as int),
        r < total,
{
    let wide: u128 = index as u128 + completions as u128;
    let r: u128 = wide % (total as u128);
    r as usize
}

/// Advance every animated entity of the world by one frame of `delta_ns`
/// nanoseconds, as `ticked_entity` describes, leaving all other entities
/// untouched.
pub fn advance_animations(world: &mut World, atlases: &AtlasRegistry, delta_ns: u64)
    requires
        old(world).wf(),
        atlases.wf(),
        forall|i: int|
            0 <= i < old(world).entities@.len() ==> tick_fits(
                #[trigger] old(world).entities@[i],
                delta_ns,
            ),
    ensures
        final(world).wf(),
        final(world).entities@.len() == old(world).entities@.len(),
        forall|i: int|
            0 <= i < old(world).entities@.len() ==> final(world).entities@[i] == ticked_entity(
                #[trigger] old(world).entities@[i],
                atlases.atlases@,
                delta_ns,
            ),
{
    let n = world.entities.len();
    let mut k: usize = 0;
    while k < n
        invariant
            world.entities@.len() == n,
            n == old(world).entities@.len(),
            k <= n,
            atlases.wf(),
            forall|i: int|
                0 <= i < n ==> tick_fits(#[trigger] old(world).entities@[i], delta_ns),
            forall|i: int|
                0 <= i < k ==> world.entities@[i] == ticked_entity(
                    #[trigger] old(world).entities@[i],
                    atlases.atlases@,
                    delta_ns,
                ),
            forall|i: int| k <= i < n ==> world.entities@[i] == old(world).entities@[i],
            old(world).wf(),
        decreases n - k,
    {
        let entity = world.entities[k];
        proof {
            assert(crate::scene::entity_wf_at(old(world).entities@, k as int));
        }
        match (entity.timer, entity.visual) {
            (Some(mut t), Some(Visual::Sheet { atlas, index })) => {
                let completions = t.tick(delta_ns);
                let new_index = match atlases.get(atlas) {
                    Some(a) => advance_index(index, completions, a.total_tiles()),
                    None => index,
                };
                world.entities[k] = Entity {
                    timer: Some(t),
                    visual: Some(Visual::Sheet { atlas, index: new_index }),
                    ..entity
                };
            },
            _ => {},
        }
        proof {
            assert(world.entities@[k as int] == ticked_entity(
                old(world).entities@[k as int],
                atlases.atlases@,
                delta_ns,
            ));
        }
        k = k + 1;
    }
    proof {
        assert forall|i: int| 0 <= i < world.entities@.len() implies #[trigger] crate::scene::entity_wf_at(
            world.entities@,
            i,
        ) by {
            assert(crate::scene::entity_wf_at(old(world).entities@, i));
        }
    }
}

/// The tile index after ticking once per delta, in order, on a sheet with
/// `total` tiles: each tick moves the index forward one tile per completed
/// cycle, wrapping at the end of the sheet.
pub open spec fn index_after_run(index: int, total: int, t: RepeatingTimer, deltas: Seq<u64>) -> int
    decreases deltas.len(),
{
    if deltas.len() == 0 {
        index
    } else {
        index_after_run(
            wrapped_index(index, t.cycles_after(deltas[0]), total),
            total,
            t.ticked(deltas[0]),
            deltas.drop_first(),
        )
    }
}

/// Law: over any run of frame deltas the tile index advances exactly one
/// step per completed cycle — the final index is the starting index plus the
/// run's total completion count, modulo the tile count. With the completion
/// count of a fresh timer being `floor(sum / interval)`, the index advances
/// exactly once per interval boundary crossed and never more.
pub proof fn lemma_run_advances_index(index: int, total: int, t: RepeatingTimer, deltas: Seq<u64>)
    requires
        t.wf(),
        0 < total,
        0 <= index < total,
    ensures
        index_after_run(index, total, t, deltas) == (index + cycles_in_run(t, deltas)) % total,
    decreases deltas.len(),
{
    if deltas.len() == 0 {
        vstd::arithmetic::div_mod::lemma_small_mod(index as nat, total as nat);
    } else {
        let d0 = deltas[0];
        let c1 = t.cycles_after(d0);
        let j1 = wrapped_index(index, c1, total);
        vstd::arithmetic::div_mod::lemma_mod_bound(index + c1, total);
        vstd::arithmetic::div_mod::lemma_mod_bound(t.elapsed_ns + d0, t.interval_ns as int);
        assert(t.ticked(d0).wf());
        lemma_run_advances_index(j1, total, t.ticked(d0), deltas.drop_first());
        let c_rest = cycles_in_run(t.ticked(d0), deltas.drop_first());
        vstd::arithmetic::div_mod::lemma_add_mod_noop(index + c1, c_rest, total);
        vstd::arithmetic::div_mod::lemma_add_mod_noop_right(j1, c_rest, total);
    }
}

/// Law: the tile index stays within `[0, total)` over any run of frame
/// deltas, however many cycles complete.
pub proof fn lemma_index_stays_in_range(index: int, total: int, t: RepeatingTimer, deltas: Seq<
    u64,
>)
    requires
        t.wf(),
        0 < total,
        0 <= index < total,
    ensures
        0 <= index_after_run(index, total, t, deltas) < total,
{
    lemma_run_advances_index(index, total, t, deltas);
    vstd::arithmetic::div_mod::lemma_mod_bound(index + cycles_in_run(t, deltas), total);
}

/// Law: from a fresh timer, a run whose deltas sum to exactly `k` whole
/// intervals moves the index exactly `k` steps, modulo the tile count; with
/// `k == total` and a starting index of 0 it wraps back to 0.
pub proof fn lemma_whole_intervals_advance_index(
    index: int,
    total: int,
    t: RepeatingTimer,
    deltas: Seq<u64>,
    k: int,
)
    requires
        t.wf(),
        t.elapsed_ns == 0,
        0 < total,
        0 <= index < total,
        0 <= k,
        sum_ns(deltas) == k * t.interval_ns,
    ensures
        index_after_run(index, total, t, deltas) == (index + k) % total,
{
    lemma_run_advances_index(index, total, t, deltas);
    crate::timer::lemma_whole_intervals_complete_exactly(t, deltas, k);
}

/// A displayed tile that resolves against the atlases actually exists on its
/// sheet; entities without a resolved sheet visual are unconstrained.
pub open spec fn tile_in_range(e: Entity, atlases: Seq<Atlas>) -> bool {
    match e.visual {
        Some(Visual::Sheet { atlas, index }) => atlas < atlases.len() ==> index < atlases[
            atlas as int
        ].total_tiles_spec(),
        _ => true,
    }
}

/// Law: one animation tick keeps every displayed tile on its sheet. A
/// resolved animated sheet lands in range because the new tile is taken
/// modulo the tile count, and an entity the tick leaves alone keeps the
/// in-range tile it had.
pub proof fn lemma_tick_keeps_tiles_in_range(e: Entity, atlases: Seq<Atlas>, delta_ns: u64)
    requires
        tile_in_range(e, atlases),
        forall|j: int| 0 <= j < atlases.len() ==> (#[trigger] atlases[j]).wf(),
    ensures
        tile_in_range(ticked_entity(e, atlases, delta_ns), atlases),
{
    match (e.timer, e.visual) {
        (Some(t), Some(Visual::Sheet { atlas, index })) => {
            if atlas < atlases.len() && 0 < atlases[atlas as int].total_tiles_spec() {
                vstd::arithmetic::div_mod::lemma_mod_bound(
                    index + t.cycles_after(delta_ns),
                    atlases[atlas as int].total_tiles_spec(),
                );
            }
        },
        _ => {},
    }
}

/// A run of per-frame entity ticks, one delta per frame.
pub open spec fn entity_after_run(e: Entity, atlases: Seq<Atlas>, deltas: Seq<u64>) -> Entity
    decreases deltas.len(),
{
    if deltas.len() == 0 {
        e
    } else {
        entity_after_run(ticked_entity(e, atlases, deltas[0]), atlases, deltas.drop_first())
    }
}

/// Law: for an animated entity whose atlas resolves, repeated per-frame
/// ticks agree with the run semantics — the timer ends as `timer_after_run`
/// says, and the tile index ends as `index_after_run` says.
pub proof fn lemma_entity_run(e: Entity, atlases: Seq<Atlas>, deltas: Seq<u64>)
    requires
        e.timer matches Some(t) && t.wf(),
        e.visual matches Some(Visual::Sheet { atlas, index })
            && atlas < atlases.len()
            && atlases[atlas as int].wf()
            && index < atlases[atlas as int].total_tiles_spec(),
    ensures
        entity_after_run(e, atlases, deltas).timer == Some(
            crate::timer::timer_after_run(e.timer->0, deltas),
        ),
        entity_after_run(e, atlases, deltas).visual == Some(
            Visual::Sheet {
                atlas: e.visual->0->Sheet_atlas,
                index: index_after_run(
                    e.visual->0->Sheet_index as int,
                    atlases[e.visual->0->Sheet_atlas as int].total_tiles_spec(),
                    e.timer->0,
                    deltas,
                ) as usize,
            },
        ),
        entity_after_run(e, atlases, deltas).parent == e.parent,
        entity_after_run(e, atlases, deltas).local == e.local,
        entity_after_run(e, atlases, deltas).camera == e.camera,
    decreases deltas.len(),
{
    let sheet = atlases[e.visual->0->Sheet_atlas as int];
    let total = sheet.total_tiles_spec();
    assert(0 < total) by (nonlinear_arith)
        requires
            0 < sheet.columns,
            0 < sheet.rows,
            total == sheet.columns * sheet.rows,
    ;
    if deltas.len() > 0 {
        let d0 = deltas[0];
        let t = e.timer->0;
        let e1 = ticked_entity(e, atlases, d0);
        vstd::arithmetic::div_mod::lemma_mod_bound(t.elapsed_ns + d0, t.interval_ns as int);
        vstd::arithmetic::div_mod::lemma_mod_bound(
            e.visual->0->Sheet_index + t.cycles_after(d0),
            total,
        );
        lemma_entity_run(e1, atlases, deltas.drop_first());
    }
}

} // verus!
