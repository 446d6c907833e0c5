//! What holds of the simulation across several of its operations, proved of the
//! mathematical state.

use vstd::prelude::*;
use crate::gravity_well::GravityWell;
use crate::particle::{Motion, Particle};
use crate::purge::{
    gathered, gathered_segments, law_purge_permutes, law_purge_permutes_segments, purge_order,
};
use crate::renderer::{
    lemma_packed_colors_push, lemma_packed_colors_skip, packed_colors, packed_segments, retrailed,
};
use crate::selection::{flagged, lemma_first_flagged};
use crate::simulation::AppView;

verus! {

/// The state after the particles of `particles` were spawned one after the other,
/// the one at index `i` drawn as `segments[i]`.
pub open spec fn spawned_all<S, V, T>(
    state: AppView<S, V, T>,
    particles: Seq<Particle<S>>,
    segments: Seq<[V; 4]>,
) -> AppView<S, V, T>
    decreases particles.len(),
{
    if particles.len() == 0 {
        state
    } else {
        spawned_all(state, particles.drop_last(), segments.drop_last()).spawned(
            particles.last(),
            segments.last(),
        )
    }
}

/// Spawning keeps the renderer's arrays in step with the particles.
pub proof fn law_spawn_keeps_arrays_in_step<S, V, T>(
    state: AppView<S, V, T>,
    particle: Particle<S>,
    segment: [V; 4],
)
    requires
        state.wf(),
    ensures
        state.spawned(particle, segment).wf(),
{
    lemma_packed_colors_push(state.particles, particle);
}

/// Spawning `n` particles raises the particle count by `n`: on a simulation that
/// held none, the count is then `n`.
pub proof fn law_spawning_counts<S, V, T>(
    state: AppView<S, V, T>,
    particles: Seq<Particle<S>>,
    segments: Seq<[V; 4]>,
)
    requires
        state.wf(),
    ensures
        spawned_all(state, particles, segments).wf(),
        spawned_all(state, particles, segments).particles == state.particles + particles,
        spawned_all(state, particles, segments).particles.len() == state.particles.len()
            + particles.len(),
    decreases particles.len(),
{
    if particles.len() > 0 {
        law_spawning_counts(state, particles.drop_last(), segments.drop_last());
        law_spawn_keeps_arrays_in_step(
            spawned_all(state, particles.drop_last(), segments.drop_last()),
            particles.last(),
            segments.last(),
        );
        assert(spawned_all(state, particles, segments).particles =~= state.particles + particles);
    } else {
        assert(state.particles + particles =~= state.particles);
    }
}

/// Removing `count` particles from `n` leaves `n - count`, and none where `count`
/// exceeds `n`; those that stay are the youngest, in their order, and the arrays
/// stay in step.
pub proof fn law_trimming_counts<S, V, T>(state: AppView<S, V, T>, count: nat)
    requires
        state.wf(),
    ensures
        state.trimmed(count).wf(),
        count <= state.particles.len() ==> state.trimmed(count).particles.len()
            == state.particles.len() - count,
        count > state.particles.len() ==> state.trimmed(count).particles.len() == 0,
        forall|i: int|
            0 <= i < state.trimmed(count).particles.len() ==> #[trigger] state.trimmed(
                count,
            ).particles[i] == state.particles[i + count],
{
    let dropped = if count <= state.particles.len() {
        count as int
    } else {
        state.particles.len() as int
    };
    lemma_packed_colors_skip(state.particles, dropped);
}

/// Clearing leaves no particle and empties both arrays of the renderer, whatever
/// the simulation held.
pub proof fn law_clearing_empties<S, V, T>(state: AppView<S, V, T>)
    ensures
        state.cleared().particles.len() == 0,
        state.cleared().renderer.vertices.len() == 0,
        state.cleared().renderer.colors.len() == 0,
        state.renderer.wf() ==> state.cleared().wf(),
{
    assert(state.cleared().renderer.colors =~= packed_colors(state.cleared().particles));
}

/// Turning the borders on moves the particles that stay and their segments alike,
/// and changes none of them: what is at index `k` afterwards is the particle that
/// was at entry `k` of the purge order, with the segment and the colours that it
/// had.
pub proof fn law_purge_keeps_arrays_in_step<S, V, T>(state: AppView<S, V, T>, outside: Seq<bool>)
    requires
        state.wf(),
    ensures
        state.purged(outside).wf(),
        state.purged(outside).particles == gathered(
            state.particles,
            purge_order(state.particles.len(), outside),
        ),
        state.purged(outside).renderer.vertices == gathered_segments(
            state.renderer.vertices,
            purge_order(state.particles.len(), outside),
        ),
{
    law_purge_permutes(state.particles, outside);
    law_purge_permutes_segments(state.renderer.vertices, state.particles.len(), outside);
}

/// A frame that is prepared with one segment for each particle leaves nothing of
/// an earlier frame in the vertex array: the array holds the given segments and
/// nothing else.
pub proof fn law_render_leaves_nothing_stale<S, V, T>(
    state: AppView<S, V, T>,
    segments: Seq<[V; 4]>,
)
    requires
        state.wf(),
        state.renderer.ready,
        segments.len() == state.particles.len(),
    ensures
        state.rendered(segments).wf(),
        state.rendered(segments).renderer.vertices == packed_segments(segments),
        state.rendered(segments).renderer.colors == packed_colors(state.particles),
{
    assert(retrailed(state.renderer.vertices, segments) =~= packed_segments(segments));
}

/// A renderer that is ready stays ready, and keeps its placeholder texture: no
/// operation of the simulation takes either away.
pub proof fn law_renderer_stays_ready<S, V, T>(
    state: AppView<S, V, T>,
    particle: Particle<S>,
    segment: [V; 4],
    count: nat,
    flags: Seq<bool>,
    moved: Seq<Motion<S>>,
    segments: Seq<[V; 4]>,
    targets: Seq<[S; 2]>,
    name: Seq<char>,
    texture: T,
    x: S,
    y: S,
)
    requires
        state.wf(),
        state.renderer.ready,
    ensures
        ready_with_placeholder(state.spawned(particle, segment)),
        ready_with_placeholder(state.trimmed(count)),
        ready_with_placeholder(state.cleared()),
        ready_with_placeholder(state.purged(flags)),
        ready_with_placeholder(state.updated(moved)),
        ready_with_placeholder(state.rendered(segments)),
        ready_with_placeholder(state.with_texture(name, texture)),
        ready_with_placeholder(state.with_well(x, y)),
        ready_with_placeholder(state.selecting(flags)),
        ready_with_placeholder(state.released()),
        ready_with_placeholder(state.selection_moved_to(x, y)),
        ready_with_placeholder(state.selection_dragged(targets)),
        ready_with_placeholder(state.removing(flags)),
{
}

/// The renderer of the state is ready and has a texture for every name.
pub open spec fn ready_with_placeholder<S, V, T>(state: AppView<S, V, T>) -> bool {
    &&& state.renderer.ready
    &&& forall|name: Seq<char>| (#[trigger] state.renderer.texture_for(name)) is Some
}

/// A new well comes last, at the place it was asked for, not turned, not selected,
/// and with the default mass of a new well, whatever the mass is with which the
/// wells pull. The wells that were there and the particles stay as they are.
pub proof fn law_new_well_has_default_mass<S, V, T>(
    state: AppView<S, V, T>,
    pull: S,
    x: S,
    y: S,
)
    ensures
        ({
            let before = AppView { gravity_well_mass: pull, ..state };
            let after = before.with_well(x, y);
            &&& after.gravity_wells.len() == state.gravity_wells.len() + 1
            &&& after.gravity_wells.last() == (GravityWell {
                pos: [x, y],
                rotation_deg: 0,
                mass: state.default_well_mass,
                is_selected: false,
            })
            &&& after.gravity_wells.drop_last() == state.gravity_wells
            &&& after.particles == state.particles
            &&& after.default_well_mass == state.default_well_mass
            &&& after.gravity_well_mass == pull
        }),
{
    let before = AppView { gravity_well_mass: pull, ..state };
    assert(before.with_well(x, y).gravity_wells.drop_last() =~= state.gravity_wells);
}

/// A click selects the first well that it hits, and no other: where it hits none,
/// nothing is selected by it.
pub proof fn law_click_selects_first_hit<S, V, T>(state: AppView<S, V, T>, hits: Seq<bool>)
    ensures
        match state.picked(hits) {
            Some(i) => {
                &&& 0 <= i < state.gravity_wells.len()
                &&& flagged(hits, i)
                &&& forall|j: int| 0 <= j < i ==> !flagged(hits, j)
                &&& state.selecting(hits).gravity_wells[i].is_selected
                &&& forall|j: int|
                    0 <= j < state.gravity_wells.len() && j != i ==> state.selecting(
                        hits,
                    ).gravity_wells[j] == state.gravity_wells[j]
            },
            None => {
                &&& forall|j: int| 0 <= j < state.gravity_wells.len() ==> !flagged(hits, j)
                &&& state.selecting(hits) == state
            },
        },
{
    lemma_first_flagged(hits, state.gravity_wells.len() as int);
}

/// After a click that selected a well, moving the selection to `(x, y)` puts that
/// well at `(x, y)`. Every well that was selected is there, and the others stay
/// where they were.
pub proof fn law_selected_well_follows<S, V, T>(
    state: AppView<S, V, T>,
    hits: Seq<bool>,
    x: S,
    y: S,
)
    requires
        state.picked(hits) is Some,
    ensures
        ({
            let moved = state.selecting(hits).selection_moved_to(x, y);
            let i = state.picked(hits).unwrap();
            &&& moved.gravity_wells.len() == state.gravity_wells.len()
            &&& moved.gravity_wells[i].pos == [x, y]
            &&& forall|j: int|
                0 <= j < state.gravity_wells.len() && state.gravity_wells[j].is_selected
                    ==> moved.gravity_wells[j].pos == [x, y]
            &&& forall|j: int|
                0 <= j < state.gravity_wells.len() && j != i
                    && !state.gravity_wells[j].is_selected ==> moved.gravity_wells[j]
                    == state.gravity_wells[j]
        }),
{
    lemma_first_flagged(hits, state.gravity_wells.len() as int);
}

/// After the selection was released, moving the selection moves nothing.
pub proof fn law_released_wells_stay<S, V, T>(state: AppView<S, V, T>, x: S, y: S)
    ensures
        state.released().selection_moved_to(x, y) == state.released(),
        forall|j: int|
            0 <= j < state.gravity_wells.len() ==> (#[trigger] state.released().gravity_wells[j])
                == (GravityWell { is_selected: false, ..state.gravity_wells[j] }),
{
    assert(state.released().selection_moved_to(x, y).gravity_wells
        =~= state.released().gravity_wells);
}

} // verus!
