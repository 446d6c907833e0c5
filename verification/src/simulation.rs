//! The simulation: its state, the operations on it, and what each of them changes.

use vstd::prelude::*;
use std::collections::VecDeque;
use rand::rngs::ThreadRng;
use crate::color::Color;
use crate::gravity_well::GravityWell;
use crate::particle::{Motion, Particle};
use crate::renderer::{
    draw_of, endpoint_colors, lemma_packed_colors_push, lemma_packed_colors_skip,
    lemma_packed_colors_swap_remove, packed_colors, packed_segments, retrailed, well_quad,
    Renderer, RendererView, WellPass, PLACEHOLDER_TEXTURE, WELL_TEXTURE,
};
use crate::rng::{random_byte, thread_generator};
use crate::purge::{purged, purged_from, purged_segments_from, swap_remove_back};
use crate::selection::{first_flagged, first_hit, lemma_first_flagged};
use crate::texture::{sampling_for, texture_sampling, TextureSampling};

verus! {

/// Where a new particle starts: its position, its velocity, and the segment that is
/// drawn for it until the next frame.
#[derive(Debug, PartialEq)]
pub struct Start<S, V> {
    pub motion: Motion<S>,
    pub segment: [V; 4],
}

/// The state of the simulation, as mathematical values.
#[verifier::ext_equal]
pub ghost struct AppView<S, V, T> {
    pub width: u32,
    pub height: u32,
    pub particles: Seq<Particle<S>>,
    pub particle_trail_scale: S,
    pub gravity_wells: Seq<GravityWell<S>>,
    pub gravity_well_mass: S,
    pub default_well_mass: S,
    pub borders_are_active: bool,
    pub should_clear_screen: bool,
    pub renderer: RendererView<V, T>,
}

impl<S, V, T> AppView<S, V, T> {
    /// The arrays of the renderer track the particles one to one: a segment for each
    /// particle, and the colour bytes of each particle.
    pub open spec fn wf(self) -> bool {
        &&& self.renderer.wf()
        &&& self.renderer.vertices.len() == 4 * self.particles.len()
        &&& self.renderer.colors == packed_colors(self.particles)
    }

    /// The state with one more particle, which is last and is drawn as `segment`.
    pub open spec fn spawned(self, particle: Particle<S>, segment: [V; 4]) -> Self {
        AppView {
            particles: self.particles.push(particle),
            renderer: RendererView {
                vertices: self.renderer.vertices + segment@,
                colors: self.renderer.colors + endpoint_colors(particle.color),
                ..self.renderer
            },
            ..self
        }
    }

    /// The state without its `count` oldest particles, or without any where it has
    /// no more than `count`.
    pub open spec fn trimmed(self, count: nat) -> Self {
        let dropped = if count <= self.particles.len() {
            count as int
        } else {
            self.particles.len() as int
        };
        AppView {
            particles: self.particles.skip(dropped),
            renderer: RendererView {
                vertices: self.renderer.vertices.skip(4 * dropped),
                colors: self.renderer.colors.skip(8 * dropped),
                ..self.renderer
            },
            ..self
        }
    }

    /// The state without particles.
    pub open spec fn cleared(self) -> Self {
        AppView {
            particles: Seq::empty(),
            renderer: RendererView {
                vertices: Seq::empty(),
                colors: Seq::empty(),
                ..self.renderer
            },
            ..self
        }
    }

    /// The state without the particles that `outside` marks, each removed by moving
    /// the last particle into its place, from the last index down to the first.
    pub open spec fn purged(self, outside: Seq<bool>) -> Self {
        AppView {
            particles: purged(self.particles, outside),
            renderer: RendererView {
                vertices: purged_segments_from(
                    self.renderer.vertices,
                    outside,
                    self.particles.len() as int,
                ),
                colors: packed_colors(purged(self.particles, outside)),
                ..self.renderer
            },
            ..self
        }
    }

    /// The state with one more gravity well, which is last: at `(x, y)`, with the
    /// default mass of a new well, not turned and not selected. The mass with which
    /// the wells pull has no part in it.
    pub open spec fn with_well(self, x: S, y: S) -> Self {
        AppView {
            gravity_wells: self.gravity_wells.push(
                GravityWell {
                    pos: [x, y],
                    rotation_deg: 0,
                    mass: self.default_well_mass,
                    is_selected: false,
                },
            ),
            ..self
        }
    }

    /// The well that a click picks: the first, in the order in which the wells were
    /// added, that `hits` marks.
    pub open spec fn picked(self, hits: Seq<bool>) -> Option<int> {
        first_flagged(hits, self.gravity_wells.len() as int)
    }

    /// The state after a click with the given hits selected a well: the picked well
    /// is selected, and nothing else has changed.
    pub open spec fn selecting(self, hits: Seq<bool>) -> Self {
        match self.picked(hits) {
            Some(i) => AppView {
                gravity_wells: self.gravity_wells.update(
                    i,
                    GravityWell { is_selected: true, ..self.gravity_wells[i] },
                ),
                ..self
            },
            None => self,
        }
    }

    /// The state in which no well is selected.
    pub open spec fn released(self) -> Self {
        AppView {
            gravity_wells: self.gravity_wells.map_values(
                |well: GravityWell<S>| GravityWell { is_selected: false, ..well },
            ),
            ..self
        }
    }

    /// The state in which every selected well is at `(x, y)`.
    pub open spec fn selection_moved_to(self, x: S, y: S) -> Self {
        AppView {
            gravity_wells: self.gravity_wells.map_values(
                |well: GravityWell<S>|
                    if well.is_selected {
                        well.moved_to(x, y)
                    } else {
                        well
                    },
            ),
            ..self
        }
    }

    /// The state in which every selected well is at the place that `targets` holds
    /// at its index. A selected well for which `targets` holds none stays.
    pub open spec fn selection_dragged(self, targets: Seq<[S; 2]>) -> Self {
        AppView {
            gravity_wells: Seq::new(
                self.gravity_wells.len(),
                |i: int|
                    if self.gravity_wells[i].is_selected && i < targets.len() {
                        GravityWell { pos: targets[i], ..self.gravity_wells[i] }
                    } else {
                        self.gravity_wells[i]
                    },
            ),
            ..self
        }
    }

    /// The state without the well that a click with the given hits picks.
    pub open spec fn removing(self, hits: Seq<bool>) -> Self {
        match self.picked(hits) {
            Some(i) => AppView { gravity_wells: self.gravity_wells.remove(i), ..self },
            None => self,
        }
    }

    /// The state one step later: every well has turned, and each particle for which
    /// `moved` holds a motion has taken it.
    pub open spec fn updated(self, moved: Seq<Motion<S>>) -> Self {
        AppView {
            gravity_wells: self.gravity_wells.map_values(|well: GravityWell<S>| well.rotated()),
            particles: Seq::new(
                self.particles.len(),
                |i: int|
                    if i < moved.len() {
                        self.particles[i].moved(moved[i])
                    } else {
                        self.particles[i]
                    },
            ),
            ..self
        }
    }

    /// The state after a frame was prepared with the given trail segments.
    pub open spec fn rendered(self, segments: Seq<[V; 4]>) -> Self {
        if self.renderer.ready {
            AppView {
                renderer: RendererView {
                    vertices: retrailed(self.renderer.vertices, segments),
                    ..self.renderer
                },
                ..self
            }
        } else {
            self
        }
    }

    /// The state after a texture was offered under `name`: a renderer that is ready
    /// stores it, in place of the one that had the name before.
    pub open spec fn with_texture(self, name: Seq<char>, texture: T) -> Self {
        if self.renderer.ready {
            AppView {
                renderer: RendererView {
                    textures: self.renderer.textures.insert(name, texture),
                    ..self.renderer
                },
                ..self
            }
        } else {
            self
        }
    }
}

/// The simulation: the particles and the gravity wells, the parameters of the
/// simulation, the generator of the particle colours, and the renderer's arrays,
/// which follow every change of the particles.
///
/// A simulation is well formed when its view is ([`AppView::wf`]). [`WasmApp::new`]
/// returns a well-formed one and every method keeps it so; the fields are private,
/// so code outside this crate never holds a simulation that is not well formed.
#[verifier::reject_recursive_types(T)]
pub struct WasmApp<S, V, T> {
    width: u32,
    height: u32,
    renderer: Renderer<V, T>,
    particles: VecDeque<Particle<S>>,
    particle_trail_scale: S,
    gravity_wells: Vec<GravityWell<S>>,
    gravity_well_mass: S,
    default_well_mass: S,
    borders_are_active: bool,
    should_clear_screen: bool,
    rng: ThreadRng,
}

impl<S, V, T> View for WasmApp<S, V, T> {
    type V = AppView<S, V, T>;

    closed spec fn view(&self) -> AppView<S, V, T> {
        AppView {
            width: self.width,
            height: self.height,
            particles: self.particles@,
            particle_trail_scale: self.particle_trail_scale,
            gravity_wells: self.gravity_wells@,
            gravity_well_mass: self.gravity_well_mass,
            default_well_mass: self.default_well_mass,
            borders_are_active: self.borders_are_active,
            should_clear_screen: self.should_clear_screen,
            renderer: self.renderer@,
        }
    }
}

impl<S: Copy, V: Copy, T> WasmApp<S, V, T> {
    /// A simulation without particles and wells, on a canvas of no size, with an
    /// uninitialized renderer, borders off and the screen cleared for each frame.
    ///
    /// `gravity_well_mass` is the mass with which the wells pull, which
    /// [`WasmApp::set_gravity_well_mass`] changes. `default_well_mass` is the mass
    /// that every new well is given, and stays as it is.
    pub fn new(particle_trail_scale: S, gravity_well_mass: S, default_well_mass: S) -> (app:
        WasmApp<S, V, T>)
        ensures
            app@ == (AppView::<S, V, T> {
                width: 0,
                height: 0,
                particles: Seq::empty(),
                particle_trail_scale,
                gravity_wells: Seq::empty(),
                gravity_well_mass,
                default_well_mass,
                borders_are_active: false,
                should_clear_screen: true,
                renderer: RendererView {
                    textures: Map::empty(),
                    vertices: Seq::empty(),
                    colors: Seq::empty(),
                    ready: false,
                },
            }),
            app@.wf(),
    {
        let app = WasmApp {
            width: 0,
            height: 0,
            renderer: Renderer::new(),
            particles: VecDeque::new(),
            particle_trail_scale,
            gravity_wells: Vec::new(),
            gravity_well_mass,
            default_well_mass,
            borders_are_active: false,
            should_clear_screen: true,
            rng: thread_generator(),
        };
        assert(app@.renderer.colors =~= packed_colors(app@.particles));
        app
    }

    /// Takes the size of the canvas and makes the renderer ready, with `not_found`
    /// as the texture that stands in for a missing one.
    pub fn initialize(&mut self, width: u32, height: u32, not_found: T)
        requires
            old(self)@.wf(),
        ensures
            final(self)@ == (AppView {
                width,
                height,
                renderer: RendererView {
                    textures: old(self)@.renderer.textures.insert(
                        PLACEHOLDER_TEXTURE@,
                        not_found,
                    ),
                    ready: true,
                    ..old(self)@.renderer
                },
                ..old(self)@
            }),
            final(self)@.wf(),
    {
        self.width = width;
        self.height = height;
        self.renderer.initialize(not_found);
    }

    /// Adds a particle of the given colour, and its blocks to the renderer's arrays.
    pub fn spawn_colored_particle(
        &mut self,
        x: S,
        y: S,
        vel_x: S,
        vel_y: S,
        color: Color,
        segment: [V; 4],
    )
        requires
            old(self)@.wf(),
        ensures
            final(self)@ == old(self)@.spawned(
                Particle { pos: [x, y], vel: [vel_x, vel_y], color },
                segment,
            ),
            final(self)@.wf(),
    {
        proof {
            lemma_packed_colors_push(
                self.particles@,
                Particle { pos: [x, y], vel: [vel_x, vel_y], color },
            );
        }
        self.particles.push_back(Particle::new(x, y, vel_x, vel_y, color));
        self.renderer.push_particle(segment, color);
    }

    /// Adds a particle of a random, opaque colour, and its blocks to the renderer's
    /// arrays.
    pub fn spawn_particle(&mut self, x: S, y: S, vel_x: S, vel_y: S, segment: [V; 4])
        requires
            old(self)@.wf(),
        ensures
            final(self)@.particles.len() == old(self)@.particles.len() + 1,
            final(self)@.particles.last().pos == [x, y],
            final(self)@.particles.last().vel == [vel_x, vel_y],
            final(self)@.particles.last().color.a == 255,
            final(self)@ == old(self)@.spawned(final(self)@.particles.last(), segment),
            final(self)@.wf(),
    {
        let r = random_byte(&mut self.rng);
        let g = random_byte(&mut self.rng);
        let b = random_byte(&mut self.rng);
        self.spawn_colored_particle(x, y, vel_x, vel_y, Color { r, g, b, a: 255 }, segment);
    }

    /// Adds one particle of a random, opaque colour for each start, in order.
    pub fn initialize_particles(&mut self, starts: &Vec<Start<S, V>>)
        requires
            old(self)@.wf(),
        ensures
            final(self)@.particles.len() == old(self)@.particles.len() + starts@.len(),
            final(self)@.particles.take(old(self)@.particles.len() as int) == old(
                self,
            )@.particles,
            forall|i: int|
                0 <= i < starts@.len() ==> {
                    let particle = #[trigger] final(self)@.particles[old(self)@.particles.len() + i];
                    &&& particle.pos == starts@[i].motion.pos
                    &&& particle.vel == starts@[i].motion.vel
                    &&& particle.color.a == 255
                },
            final(self)@.renderer.vertices == old(self)@.renderer.vertices + packed_segments(
                starts@.map_values(|start: Start<S, V>| start.segment),
            ),
            final(self)@ == (AppView {
                particles: final(self)@.particles,
                renderer: RendererView {
                    vertices: final(self)@.renderer.vertices,
                    colors: packed_colors(final(self)@.particles),
                    ..old(self)@.renderer
                },
                ..old(self)@
            }),
            final(self)@.wf(),
    {
        let ghost before = self@;
        let mut i: usize = 0;
        while i < starts.len()
            invariant
                i <= starts.len(),
                self@.wf(),
                self@.particles.len() == before.particles.len() + i,
                self@.particles.take(before.particles.len() as int) == before.particles,
                forall|j: int|
                    0 <= j < i ==> {
                        let particle = #[trigger] self@.particles[before.particles.len() + j];
                        &&& particle.pos == starts@[j].motion.pos
                        &&& particle.vel == starts@[j].motion.vel
                        &&& particle.color.a == 255
                    },
                self@.renderer.vertices == before.renderer.vertices + packed_segments(
                    starts@.take(i as int).map_values(|start: Start<S, V>| start.segment),
                ),
                self@ == (AppView {
                    particles: self@.particles,
                    renderer: RendererView {
                        vertices: self@.renderer.vertices,
                        colors: self@.renderer.colors,
                        ..before.renderer
                    },
                    ..before
                }),
            decreases starts.len() - i,
        {
            let start = &starts[i];
            let ghost earlier = self@;
            self.spawn_particle(
                start.motion.pos[0],
                start.motion.pos[1],
                start.motion.vel[0],
                start.motion.vel[1],
                start.segment,
            );
            proof {
                let last = self@.particles.last();
                assert(last.pos =~= start.motion.pos);
                assert(last.vel =~= start.motion.vel);
                assert(self@.particles.take(before.particles.len() as int)
                    =~= earlier.particles.take(before.particles.len() as int));
                let segments = starts@.take(i + 1).map_values(
                    |start: Start<S, V>| start.segment,
                );
                let fewer = starts@.take(i as int).map_values(
                    |start: Start<S, V>| start.segment,
                );
                assert(packed_segments(segments) =~= packed_segments(fewer) + start.segment@);
                assert(self@.renderer.vertices =~= before.renderer.vertices + packed_segments(
                    segments,
                ));
            }
            i += 1;
        }
        assert(starts@.take(i as int) == starts@);
    }

    /// Adds a gravity well at `(x, y)`, with the default mass of a new well.
    pub fn spawn_gravity_well(&mut self, x: S, y: S)
        requires
            old(self)@.wf(),
        ensures
            final(self)@ == old(self)@.with_well(x, y),
            final(self)@.wf(),
    {
        self.gravity_wells.push(GravityWell::new([x, y], self.default_well_mass));
    }

    /// Advances the simulation by one step: every well turns by its rotation speed,
    /// and the particle at each index takes the motion that `moved` holds for it.
    pub fn update(&mut self, moved: &Vec<Motion<S>>)
        requires
            old(self)@.wf(),
        ensures
            final(self)@ == old(self)@.updated(moved@),
            final(self)@.wf(),
    {
        let wells = self.gravity_wells.len();
        let mut w: usize = 0;
        while w < wells
            invariant
                w <= wells,
                wells == self.gravity_wells@.len(),
                wells == old(self).gravity_wells@.len(),
                forall|k: int|
                    0 <= k < w ==> #[trigger] self.gravity_wells@[k] == old(
                        self,
                    ).gravity_wells@[k].rotated(),
                forall|k: int|
                    w <= k < wells ==> #[trigger] self.gravity_wells@[k] == old(
                        self,
                    ).gravity_wells@[k],
                self@ == (AppView { gravity_wells: self@.gravity_wells, ..old(self)@ }),
            decreases wells - w,
        {
            self.gravity_wells[w].rotate();
            w += 1;
        }
        let count = self.particles.len();
        let mut i: usize = 0;
        while i < count
            invariant
                i <= count,
                count == old(self).particles@.len(),
                self.particles@.len() == count,
                forall|k: int|
                    0 <= k < count - i ==> #[trigger] self.particles@[k] == old(
                        self,
                    ).particles@[k + i],
                forall|k: int|
                    count - i <= k < count ==> #[trigger] self.particles@[k] == old(
                        self,
                    )@.updated(moved@).particles[k - (count - i)],
                self@ == (AppView {
                    gravity_wells: self@.gravity_wells,
                    particles: self@.particles,
                    ..old(self)@
                }),
                self@.gravity_wells =~= old(self)@.updated(moved@).gravity_wells,
            decreases count - i,
        {
            let mut particle = self.particles.pop_front().unwrap();
            if i < moved.len() {
                particle.advance(&moved[i]);
            }
            self.particles.push_back(particle);
            i += 1;
        }
        assert(self@.particles =~= old(self)@.updated(moved@).particles);
        assert(packed_colors(self@.particles) =~= packed_colors(old(self)@.particles));
    }

    /// Prepares the particles for a frame, with `segments[i]` as the trail of the
    /// particle at index `i`, and returns the number of vertices to draw as lines.
    /// Returns `None`, and changes nothing, where the renderer is not initialized.
    pub fn render(&mut self, segments: &Vec<[V; 4]>) -> (vertex_count: Option<usize>)
        requires
            old(self)@.wf(),
        ensures
            final(self)@ == old(self)@.rendered(segments@),
            final(self)@.wf(),
            match vertex_count {
                Some(count) => old(self)@.renderer.ready && count == 2 * old(self)@.particles.len(),
                None => !old(self)@.renderer.ready,
            },
    {
        let count = self.particles.len();
        let total = self.renderer.particle_color_array().len();
        assert(total == 8 * count);
        if !self.renderer.is_ready() {
            return None;
        }
        let vertex_count = self.renderer.render_particles(&self.particles, segments);
        Some(vertex_count)
    }

    /// Plans the pass that draws the gravity wells. Returns `None` where the
    /// renderer is not initialized.
    pub fn render_gravity_wells(&self) -> (pass: Option<WellPass<'_, S, T>>)
        requires
            self@.wf(),
        ensures
            self@.renderer.ready <==> pass is Some,
            pass matches Some(planned) ==> {
                &&& planned.texture matches Some(found)
                &&& self@.renderer.texture_for(WELL_TEXTURE@) == Some(*found)
                &&& planned.quad@ == well_quad()
                &&& planned.draws@ == self@.gravity_wells.map_values(
                    |well: GravityWell<S>| draw_of(well),
                )
            },
    {
        if self.renderer.is_ready() {
            Some(self.renderer.render_gravity_wells(&self.gravity_wells))
        } else {
            None
        }
    }

    /// Selects the first well, in the order in which the wells were added, that
    /// `hits` marks, and tells whether there was one.
    pub fn try_selecting(&mut self, hits: &Vec<bool>) -> (selected: bool)
        requires
            old(self)@.wf(),
        ensures
            selected == old(self)@.picked(hits@).is_some(),
            final(self)@ == old(self)@.selecting(hits@),
            final(self)@.wf(),
    {
        match first_hit(hits, self.gravity_wells.len()) {
            Some(i) => {
                proof {
                    lemma_first_flagged(hits@, self.gravity_wells@.len() as int);
                }
                self.gravity_wells[i].is_selected = true;
                true
            },
            None => false,
        }
    }

    /// Deselects every well.
    pub fn release_selection(&mut self)
        requires
            old(self)@.wf(),
        ensures
            final(self)@ == old(self)@.released(),
            final(self)@.wf(),
    {
        let wells = self.gravity_wells.len();
        let mut i: usize = 0;
        while i < wells
            invariant
                i <= wells,
                wells == self.gravity_wells@.len(),
                wells == old(self).gravity_wells@.len(),
                forall|k: int|
                    0 <= k < i ==> #[trigger] self.gravity_wells@[k] == (GravityWell {
                        is_selected: false,
                        ..old(self).gravity_wells@[k]
                    }),
                forall|k: int|
                    i <= k < wells ==> #[trigger] self.gravity_wells@[k] == old(
                        self,
                    ).gravity_wells@[k],
                self@ == (AppView { gravity_wells: self@.gravity_wells, ..old(self)@ }),
            decreases wells - i,
        {
            self.gravity_wells[i].is_selected = false;
            i += 1;
        }
        assert(self@.gravity_wells =~= old(self)@.released().gravity_wells);
    }

    /// Puts every selected well at `(new_x, new_y)`.
    pub fn move_selection_to(&mut self, new_x: S, new_y: S)
        requires
            old(self)@.wf(),
        ensures
            final(self)@ == old(self)@.selection_moved_to(new_x, new_y),
            final(self)@.wf(),
    {
        let wells = self.gravity_wells.len();
        let mut i: usize = 0;
        while i < wells
            invariant
                i <= wells,
                wells == self.gravity_wells@.len(),
                wells == old(self).gravity_wells@.len(),
                forall|k: int|
                    0 <= k < i ==> #[trigger] self.gravity_wells@[k] == old(
                        self,
                    )@.selection_moved_to(new_x, new_y).gravity_wells[k],
                forall|k: int|
                    i <= k < wells ==> #[trigger] self.gravity_wells@[k] == old(
                        self,
                    ).gravity_wells@[k],
                self@ == (AppView { gravity_wells: self@.gravity_wells, ..old(self)@ }),
            decreases wells - i,
        {
            if self.gravity_wells[i].is_selected {
                self.gravity_wells[i].move_to(new_x, new_y);
            }
            i += 1;
        }
        assert(self@.gravity_wells =~= old(self)@.selection_moved_to(new_x, new_y).gravity_wells);
    }

    /// Puts every selected well at the place that `targets` holds at its index.
    pub fn drag_selection(&mut self, targets: &Vec<[S; 2]>)
        requires
            old(self)@.wf(),
        ensures
            final(self)@ == old(self)@.selection_dragged(targets@),
            final(self)@.wf(),
    {
        let wells = self.gravity_wells.len();
        let mut i: usize = 0;
        while i < wells
            invariant
                i <= wells,
                wells == self.gravity_wells@.len(),
                wells == old(self).gravity_wells@.len(),
                forall|k: int|
                    0 <= k < i ==> #[trigger] self.gravity_wells@[k] == old(
                        self,
                    )@.selection_dragged(targets@).gravity_wells[k],
                forall|k: int|
                    i <= k < wells ==> #[trigger] self.gravity_wells@[k] == old(
                        self,
                    ).gravity_wells@[k],
                self@ == (AppView { gravity_wells: self@.gravity_wells, ..old(self)@ }),
            decreases wells - i,
        {
            if self.gravity_wells[i].is_selected && i < targets.len() {
                self.gravity_wells[i].pos = targets[i];
            }
            i += 1;
        }
        assert(self@.gravity_wells =~= old(self)@.selection_dragged(targets@).gravity_wells);
    }

    /// Removes the first well, in the order in which the wells were added, that
    /// `hits` marks. Where there is none, nothing changes.
    pub fn try_removing(&mut self, hits: &Vec<bool>)
        requires
            old(self)@.wf(),
        ensures
            final(self)@ == old(self)@.removing(hits@),
            final(self)@.wf(),
    {
        match first_hit(hits, self.gravity_wells.len()) {
            Some(i) => {
                proof {
                    lemma_first_flagged(hits@, self.gravity_wells@.len() as int);
                }
                self.gravity_wells.remove(i);
            },
            None => {},
        }
    }

    /// Removes every particle and empties the renderer's arrays.
    pub fn clear_particles(&mut self)
        requires
            old(self)@.wf(),
        ensures
            final(self)@ == old(self)@.cleared(),
            final(self)@.particles.len() == 0,
            final(self)@.renderer.vertices.len() == 0,
            final(self)@.renderer.colors.len() == 0,
            final(self)@.wf(),
    {
        self.particles.clear();
        self.renderer.clear_particles();
        assert(self@.renderer.colors =~= packed_colors(self@.particles));
    }

    /// Removes the `num_to_remove` oldest particles, or all where there are no more
    /// than that, and their blocks from the renderer's arrays.
    pub fn remove_particles(&mut self, num_to_remove: usize)
        requires
            old(self)@.wf(),
        ensures
            final(self)@ == old(self)@.trimmed(num_to_remove as nat),
            final(self)@.wf(),
    {
        let count = self.particles.len();
        let dropped = if num_to_remove <= count {
            num_to_remove
        } else {
            count
        };
        let mut i: usize = 0;
        while i < dropped
            invariant
                i <= dropped,
                dropped <= old(self).particles@.len(),
                self.particles@ == old(self).particles@.skip(i as int),
                self@ == (AppView { particles: self@.particles, ..old(self)@ }),
            decreases dropped - i,
        {
            self.particles.pop_front();
            assert(self.particles@ =~= old(self).particles@.skip(i + 1));
            i += 1;
        }
        proof {
            lemma_packed_colors_skip(old(self).particles@, dropped as int);
        }
        self.renderer.drop_oldest(dropped);
    }

    /// Turns the reflection at the borders on or off. Turning it on removes, at
    /// once, every particle that `outside` marks: from the last index down to the
    /// first, each by moving the last particle into its place.
    pub fn set_borders_active(&mut self, new_state: bool, outside: &Vec<bool>)
        requires
            old(self)@.wf(),
        ensures
            new_state ==> final(self)@ == (AppView {
                borders_are_active: true,
                ..old(self)@.purged(outside@)
            }),
            !new_state ==> final(self)@ == (AppView { borders_are_active: false, ..old(self)@ }),
            final(self)@.wf(),
    {
        if new_state {
            let ghost count = self.particles@.len() as int;
            let mut i: usize = self.particles.len();
            while i > 0
                invariant
                    i <= self.particles@.len(),
                    self@.wf(),
                    purged_from(self.particles@, outside@, i as int) == purged(
                        old(self).particles@,
                        outside@,
                    ),
                    purged_segments_from(self@.renderer.vertices, outside@, i as int)
                        == purged_segments_from(old(self)@.renderer.vertices, outside@, count),
                    count == old(self).particles@.len(),
                    self@ == (AppView {
                        particles: self@.particles,
                        renderer: RendererView {
                            vertices: self@.renderer.vertices,
                            colors: self@.renderer.colors,
                            ..old(self)@.renderer
                        },
                        ..old(self)@
                    }),
                decreases i,
            {
                i -= 1;
                if i < outside.len() && outside[i] {
                    proof {
                        lemma_packed_colors_swap_remove(self.particles@, i as int);
                    }
                    swap_remove_back(&mut self.particles, i);
                    self.renderer.swap_remove_particle(i);
                }
            }
        }
        self.borders_are_active = new_state;
    }

    /// Offers, for `name`, the texture that was made from an image of the given
    /// size. A renderer that is ready stores it, and the result tells how it is to be
    /// sampled; before that, nothing is stored and the result is `None`.
    pub fn add_texture_from_image(
        &mut self,
        name: String,
        texture: T,
        width: u32,
        height: u32,
    ) -> (sampling: Option<TextureSampling>)
        requires
            old(self)@.wf(),
        ensures
            final(self)@ == old(self)@.with_texture(name@, texture),
            final(self)@.wf(),
            sampling == if old(self)@.renderer.ready {
                Some(sampling_for(width, height))
            } else {
                None
            },
    {
        if self.renderer.is_ready() {
            self.renderer.add_texture(name, texture);
            Some(texture_sampling(width, height))
        } else {
            None
        }
    }

    /// Sets the mass with which gravity wells pull. The mass that a new well is given
    /// stays as it is, and so does the mass that each well holds.
    pub fn set_gravity_well_mass(&mut self, new_mass: S)
        requires
            old(self)@.wf(),
        ensures
            final(self)@ == (AppView { gravity_well_mass: new_mass, ..old(self)@ }),
            final(self)@.wf(),
    {
        self.gravity_well_mass = new_mass;
    }

    /// The mass with which gravity wells pull.
    pub fn get_gravity_well_mass(&self) -> (mass: S)
        ensures
            mass == self@.gravity_well_mass,
    {
        self.gravity_well_mass
    }

    /// The mass that a new well is given.
    pub fn default_well_mass(&self) -> (mass: S)
        ensures
            mass == self@.default_well_mass,
    {
        self.default_well_mass
    }

    /// The number of particles.
    pub fn get_particle_count(&self) -> (count: usize)
        ensures
            count == self@.particles.len(),
    {
        self.particles.len()
    }

    /// Sets the factor by which the velocity of a particle is scaled to its trail.
    pub fn set_particle_trail_scale(&mut self, scale: S)
        requires
            old(self)@.wf(),
        ensures
            final(self)@ == (AppView { particle_trail_scale: scale, ..old(self)@ }),
            final(self)@.wf(),
    {
        self.particle_trail_scale = scale;
    }

    /// The factor by which the velocity of a particle is scaled to its trail.
    pub fn get_particle_trail_scale(&self) -> (scale: S)
        ensures
            scale == self@.particle_trail_scale,
    {
        self.particle_trail_scale
    }

    /// Sets whether the screen is to be cleared before a frame is drawn.
    pub fn set_should_clear_screen(&mut self, new_state: bool)
        requires
            old(self)@.wf(),
        ensures
            final(self)@ == (AppView { should_clear_screen: new_state, ..old(self)@ }),
            final(self)@.wf(),
    {
        self.should_clear_screen = new_state;
    }

    /// Whether the screen is to be cleared before a frame is drawn.
    pub fn should_clear_screen(&self) -> (state: bool)
        ensures
            state == self@.should_clear_screen,
    {
        self.should_clear_screen
    }

    /// Whether particles are reflected at the borders of the canvas.
    pub fn borders_are_active(&self) -> (state: bool)
        ensures
            state == self@.borders_are_active,
    {
        self.borders_are_active
    }

    /// The width of the canvas.
    pub fn width(&self) -> (width: u32)
        ensures
            width == self@.width,
    {
        self.width
    }

    /// The height of the canvas.
    pub fn height(&self) -> (height: u32)
        ensures
            height == self@.height,
    {
        self.height
    }

    /// The particles, oldest first.
    pub fn particles(&self) -> (particles: &VecDeque<Particle<S>>)
        ensures
            particles@ == self@.particles,
    {
        &self.particles
    }

    /// The gravity wells, in the order in which they were added.
    pub fn gravity_wells(&self) -> (wells: &Vec<GravityWell<S>>)
        ensures
            wells@ == self@.gravity_wells,
    {
        &self.gravity_wells
    }

    /// The renderer, with the arrays to upload.
    pub fn renderer(&self) -> (renderer: &Renderer<V, T>)
        ensures
            renderer@ == self@.renderer,
    {
        &self.renderer
    }
}

} // verus!
