//! The renderer's share of the state: the two parallel arrays from which the
//! particles are drawn, the named textures, and the plan of the pass that draws the
//! gravity wells.

use vstd::prelude::*;
use vstd::hash_map::StringHashMap;
use std::collections::VecDeque;
use crate::color::Color;
use crate::gravity_well::{GravityWell, RADIUS};
use crate::particle::Particle;
use crate::purge::{swap_removed, swap_removed_block};

verus! {

/// Entries that one particle takes in the vertex array: the two end points of its
/// trail, two coordinates each.
pub const SEGMENT_LEN: usize = 4;

/// Bytes that one particle takes in the colour array: four channels for each of the
/// two end points.
pub const COLOR_LEN: usize = 8;

/// Vertices of the line that is drawn for one particle.
pub const VERTICES_PER_PARTICLE: usize = 2;

/// Vertices of the two triangles that are drawn for one gravity well.
pub const QUAD_VERTICES: usize = 6;

/// Numbers per vertex of the well quad: `x`, `y`, and the texture coordinates.
pub const QUAD_VERTEX_LEN: usize = 4;

/// Name under which the sprite of the gravity wells is looked up.
pub const WELL_TEXTURE: &'static str = "gravity_well";

/// Name of the one-pixel texture that stands in for a texture that is missing.
pub const PLACEHOLDER_TEXTURE: &'static str = "not_found";

/// The colour bytes of one particle: opaque where the particle is, transparent
/// where its trail ends.
pub open spec fn endpoint_colors(color: Color) -> Seq<u8> {
    seq![color.r, color.g, color.b, 255u8, color.r, color.g, color.b, 0u8]
}

/// The colour array that belongs to a sequence of particles: the bytes of each, in
/// order.
pub open spec fn packed_colors<S>(particles: Seq<Particle<S>>) -> Seq<u8> {
    Seq::new(8 * particles.len(), |k: int| endpoint_colors(particles[k / 8].color)[k % 8])
}

/// The vertex array that holds exactly the given segments, in order.
pub open spec fn packed_segments<V>(segments: Seq<[V; 4]>) -> Seq<V> {
    Seq::new(4 * segments.len(), |k: int| segments[k / 4][k % 4])
}

/// A vertex array in which each particle that has a segment in `segments` got that
/// segment, and the others kept theirs.
pub open spec fn retrailed<V>(vertices: Seq<V>, segments: Seq<[V; 4]>) -> Seq<V> {
    Seq::new(
        vertices.len(),
        |k: int|
            if k / 4 < segments.len() {
                segments[k / 4][k % 4]
            } else {
                vertices[k]
            },
    )
}

/// The corner of the well quad with the given signs, as `x, y, u, t`: a corner on
/// the positive side of an axis has texture coordinate 1 on it, else 0.
pub open spec fn quad_corner(right: bool, bottom: bool) -> Seq<i32> {
    seq![
        if right { RADIUS as i32 } else { -(RADIUS as i32) as i32 },
        if bottom { RADIUS as i32 } else { -(RADIUS as i32) as i32 },
        if right { 1i32 } else { 0i32 },
        if bottom { 1i32 } else { 0i32 },
    ]
}

/// The quad that every gravity well is drawn with: a square of side `2 * RADIUS`
/// about the origin, as the triangle top right, top left, bottom left and the
/// triangle top right, bottom left, bottom right. The `y` axis points down.
pub open spec fn well_quad() -> Seq<i32> {
    quad_corner(true, false) + quad_corner(false, false) + quad_corner(false, true) + quad_corner(
        true,
        false,
    ) + quad_corner(false, true) + quad_corner(true, true)
}

/// What is drawn for one gravity well: the shared quad, turned by `rotation_deg`
/// degrees about its centre and then moved to `pos`.
#[derive(Debug, PartialEq)]
pub struct WellDraw<S> {
    pub pos: [S; 2],
    pub rotation_deg: u32,
}

/// The draw that belongs to a well.
pub open spec fn draw_of<S>(well: GravityWell<S>) -> WellDraw<S> {
    WellDraw { pos: well.pos, rotation_deg: well.rotation_deg }
}

/// The pass that draws the gravity wells: the texture to bind, the vertices of the
/// quad to upload once, and one draw of [`QUAD_VERTICES`] vertices per well.
pub struct WellPass<'a, S, T> {
    pub texture: Option<&'a T>,
    pub quad: Vec<i32>,
    pub draws: Vec<WellDraw<S>>,
}

/// What the renderer holds, as mathematical values.
#[verifier::ext_equal]
pub ghost struct RendererView<V, T> {
    pub textures: Map<Seq<char>, T>,
    pub vertices: Seq<V>,
    pub colors: Seq<u8>,
    pub ready: bool,
}

impl<V, T> RendererView<V, T> {
    /// Number of particles that the two arrays have room for.
    pub open spec fn slots(self) -> nat {
        self.colors.len() / 8
    }

    /// The two arrays hold whole blocks, for the same number of particles, and a
    /// renderer that is ready has its placeholder texture.
    pub open spec fn wf(self) -> bool {
        &&& self.vertices.len() == 4 * self.slots()
        &&& self.colors.len() == 8 * self.slots()
        &&& self.ready ==> self.textures.contains_key(PLACEHOLDER_TEXTURE@)
    }

    /// The texture that is bound for `name`: its own, or the placeholder where it
    /// has none.
    pub open spec fn texture_for(self, name: Seq<char>) -> Option<T> {
        if self.textures.contains_key(name) {
            Some(self.textures[name])
        } else if self.textures.contains_key(PLACEHOLDER_TEXTURE@) {
            Some(self.textures[PLACEHOLDER_TEXTURE@])
        } else {
            None
        }
    }
}

/// The part of the renderer that is independent of the graphics context: the
/// parallel arrays that are uploaded for the particles, and the named textures.
///
/// A renderer starts out uninitialized and becomes ready once, when it is given its
/// placeholder texture.
#[verifier::reject_recursive_types(T)]
pub struct Renderer<V, T> {
    textures: StringHashMap<T>,
    particle_vertex_array: Vec<V>,
    particle_color_array: Vec<u8>,
    ready: bool,
}

impl<V, T> View for Renderer<V, T> {
    type V = RendererView<V, T>;

    closed spec fn view(&self) -> RendererView<V, T> {
        RendererView {
            textures: self.textures@,
            vertices: self.particle_vertex_array@,
            colors: self.particle_color_array@,
            ready: self.ready,
        }
    }
}

/// Adding a particle at the end adds its colour bytes at the end.
pub proof fn lemma_packed_colors_push<S>(particles: Seq<Particle<S>>, particle: Particle<S>)
    ensures
        packed_colors(particles.push(particle)) == packed_colors(particles) + endpoint_colors(
            particle.color,
        ),
{
    assert(packed_colors(particles.push(particle)) =~= packed_colors(particles) + endpoint_colors(
        particle.color,
    ));
}

/// Dropping particles at the front drops their colour bytes at the front.
pub proof fn lemma_packed_colors_skip<S>(particles: Seq<Particle<S>>, count: int)
    requires
        0 <= count <= particles.len(),
    ensures
        packed_colors(particles.skip(count)) == packed_colors(particles).skip(8 * count),
{
    assert(packed_colors(particles.skip(count)) =~= packed_colors(particles).skip(8 * count));
}

/// Removing a particle by swapping the last one into its place does the same to the
/// blocks of the colour array.
pub proof fn lemma_packed_colors_swap_remove<S>(particles: Seq<Particle<S>>, index: int)
    requires
        0 <= index < particles.len(),
    ensures
        packed_colors(swap_removed(particles, index)) == swap_removed_block(
            packed_colors(particles),
            8 * index,
            8,
        ),
{
    assert(packed_colors(swap_removed(particles, index)) =~= swap_removed_block(
        packed_colors(particles),
        8 * index,
        8,
    ));
}

/// Overwrites the block of `width` entries at `start` with the last block, then
/// drops the last block.
fn swap_remove_block<A: Copy>(flat: &mut Vec<A>, start: usize, width: usize)
    requires
        start + width <= old(flat).len(),
    ensures
        final(flat)@ == swap_removed_block(old(flat)@, start as int, width as int),
{
    let kept: usize = flat.len() - width;
    let mut offset: usize = 0;
    while offset < width
        invariant
            offset <= width,
            start + width <= flat.len(),
            kept == flat.len() - width,
            flat.len() == old(flat).len(),
            forall|k: int|
                0 <= k < flat.len() ==> #[trigger] flat@[k] == if start <= k < start + offset {
                    old(flat)@[kept + (k - start)]
                } else {
                    old(flat)@[k]
                },
        decreases width - offset,
    {
        let moved = flat[kept + offset];
        flat[start + offset] = moved;
        offset += 1;
    }
    flat.truncate(kept);
    assert(flat@ =~= swap_removed_block(old(flat)@, start as int, width as int));
}

impl<V: Copy, T> Renderer<V, T> {
    /// A renderer that is not initialized yet: no textures, and arrays for no
    /// particle.
    pub fn new() -> (renderer: Renderer<V, T>)
        ensures
            renderer@ == (RendererView::<V, T> {
                textures: Map::empty(),
                vertices: Seq::empty(),
                colors: Seq::empty(),
                ready: false,
            }),
            renderer@.wf(),
    {
        Renderer {
            textures: StringHashMap::new(),
            particle_vertex_array: Vec::new(),
            particle_color_array: Vec::new(),
            ready: false,
        }
    }

    /// Makes the renderer ready, with `not_found` as its placeholder texture.
    pub fn initialize(&mut self, not_found: T)
        ensures
            final(self)@ == (RendererView {
                textures: old(self)@.textures.insert(PLACEHOLDER_TEXTURE@, not_found),
                ready: true,
                ..old(self)@
            }),
    {
        self.textures.insert(PLACEHOLDER_TEXTURE.to_string(), not_found);
        self.ready = true;
    }

    /// Whether the renderer was initialized.
    pub fn is_ready(&self) -> (ready: bool)
        ensures
            ready == self@.ready,
    {
        self.ready
    }

    /// Stores `texture` under `name`, in place of the one that had the name before.
    pub fn add_texture(&mut self, name: String, texture: T)
        ensures
            final(self)@ == (RendererView {
                textures: old(self)@.textures.insert(name@, texture),
                ..old(self)@
            }),
    {
        self.textures.insert(name, texture);
    }

    /// The texture to bind for `name`: the one stored under that name, else the
    /// placeholder.
    pub fn texture(&self, name: &str) -> (texture: Option<&T>)
        ensures
            match texture {
                Some(found) => self@.texture_for(name@) == Some(*found),
                None => self@.texture_for(name@) is None,
            },
            self@.wf() && self@.ready ==> texture is Some,
    {
        match self.textures.get(name) {
            Some(found) => Some(found),
            None => self.textures.get(PLACEHOLDER_TEXTURE),
        }
    }

    /// The vertex array, as it is uploaded: for each particle the start and the end
    /// of its trail, as `x, y, x, y`.
    pub fn particle_vertex_array(&self) -> (vertices: &Vec<V>)
        ensures
            vertices@ == self@.vertices,
    {
        &self.particle_vertex_array
    }

    /// The colour array, as it is uploaded: for each particle the colours of the
    /// start and the end of its trail, as `r, g, b, a, r, g, b, a`.
    pub fn particle_color_array(&self) -> (colors: &Vec<u8>)
        ensures
            colors@ == self@.colors,
    {
        &self.particle_color_array
    }

    /// Appends the blocks of a new particle to both arrays.
    pub fn push_particle(&mut self, segment: [V; 4], color: Color)
        ensures
            final(self)@ == (RendererView {
                vertices: old(self)@.vertices + segment@,
                colors: old(self)@.colors + endpoint_colors(color),
                ..old(self)@
            }),
            old(self)@.wf() ==> final(self)@.wf() && final(self)@.slots() == old(self)@.slots() + 1,
    {
        self.particle_vertex_array.push(segment[0]);
        self.particle_vertex_array.push(segment[1]);
        self.particle_vertex_array.push(segment[2]);
        self.particle_vertex_array.push(segment[3]);
        self.particle_color_array.push(color.r);
        self.particle_color_array.push(color.g);
        self.particle_color_array.push(color.b);
        self.particle_color_array.push(255);
        self.particle_color_array.push(color.r);
        self.particle_color_array.push(color.g);
        self.particle_color_array.push(color.b);
        self.particle_color_array.push(0);
        assert(self.particle_vertex_array@ =~= old(self)@.vertices + segment@);
        assert(self.particle_color_array@ =~= old(self)@.colors + endpoint_colors(color));
    }

    /// Drops the blocks of the `count` oldest particles from both arrays.
    pub fn drop_oldest(&mut self, count: usize)
        requires
            old(self)@.wf(),
            count <= old(self)@.slots(),
        ensures
            final(self)@ == (RendererView {
                vertices: old(self)@.vertices.skip(4 * count),
                colors: old(self)@.colors.skip(8 * count),
                ..old(self)@
            }),
            final(self)@.wf(),
            final(self)@.slots() == old(self)@.slots() - count,
    {
        let total = self.particle_color_array.len();
        assert(8 * count <= total);
        let vertices = self.particle_vertex_array.split_off(SEGMENT_LEN * count);
        let colors = self.particle_color_array.split_off(COLOR_LEN * count);
        self.particle_vertex_array = vertices;
        self.particle_color_array = colors;
    }

    /// Empties both arrays.
    pub fn clear_particles(&mut self)
        ensures
            final(self)@ == (RendererView {
                vertices: Seq::empty(),
                colors: Seq::empty(),
                ..old(self)@
            }),
            old(self)@.wf() ==> final(self)@.wf(),
            final(self)@.slots() == 0,
    {
        self.particle_color_array.clear();
        self.particle_vertex_array.clear();
    }

    /// Removes the blocks of the particle at `index` from both arrays, by moving the
    /// blocks of the last particle into their place.
    pub fn swap_remove_particle(&mut self, index: usize)
        requires
            old(self)@.wf(),
            index < old(self)@.slots(),
        ensures
            final(self)@ == (RendererView {
                vertices: swap_removed_block(old(self)@.vertices, 4 * index, 4),
                colors: swap_removed_block(old(self)@.colors, 8 * index, 8),
                ..old(self)@
            }),
            final(self)@.wf(),
            final(self)@.slots() == old(self)@.slots() - 1,
    {
        let total = self.particle_color_array.len();
        let ghost slots = old(self)@.slots();
        assert(8 * index + 8 <= total);
        swap_remove_block(&mut self.particle_vertex_array, SEGMENT_LEN * index, SEGMENT_LEN);
        swap_remove_block(&mut self.particle_color_array, COLOR_LEN * index, COLOR_LEN);
        assert(self.particle_vertex_array@.len() == 4 * (slots - 1));
        assert(self.particle_color_array@.len() == 8 * (slots - 1));
    }

    /// Brings both arrays up to date for a frame and returns the number of vertices
    /// to draw as lines: the particle at index `i` gets `segments[i]` as its trail,
    /// where there is one, and its colour, opaque at the start of the trail and
    /// transparent at its end.
    pub fn render_particles<S>(
        &mut self,
        particles: &VecDeque<Particle<S>>,
        segments: &Vec<[V; 4]>,
    ) -> (vertex_count: usize)
        requires
            old(self)@.wf(),
            old(self)@.slots() == particles@.len(),
        ensures
            final(self)@ == (RendererView {
                vertices: retrailed(old(self)@.vertices, segments@),
                colors: packed_colors(particles@),
                ..old(self)@
            }),
            final(self)@.wf(),
            vertex_count == 2 * particles@.len(),
    {
        let count = particles.len();
        let total = self.particle_color_array.len();
        let mut i: usize = 0;
        while i < count
            invariant
                i <= count,
                count == particles@.len(),
                total == 8 * count,
                self.textures == old(self).textures,
                self.ready == old(self).ready,
                self.particle_vertex_array@.len() == 4 * count,
                self.particle_color_array@.len() == 8 * count,
                old(self)@.vertices.len() == 4 * count,
                forall|k: int|
                    0 <= k < 4 * count ==> #[trigger] self.particle_vertex_array@[k] == if k < 4 * i
                        && k / 4 < segments@.len() {
                        segments@[k / 4][k % 4]
                    } else {
                        old(self)@.vertices[k]
                    },
                forall|k: int|
                    0 <= k < 8 * i ==> #[trigger] self.particle_color_array@[k] == endpoint_colors(
                        particles@[k / 8].color,
                    )[k % 8],
            decreases count - i,
        {
            if i < segments.len() {
                let segment = segments[i];
                self.particle_vertex_array[SEGMENT_LEN * i] = segment[0];
                self.particle_vertex_array[SEGMENT_LEN * i + 1] = segment[1];
                self.particle_vertex_array[SEGMENT_LEN * i + 2] = segment[2];
                self.particle_vertex_array[SEGMENT_LEN * i + 3] = segment[3];
            }
            let color = particles[i].color;
            self.particle_color_array[COLOR_LEN * i] = color.r;
            self.particle_color_array[COLOR_LEN * i + 1] = color.g;
            self.particle_color_array[COLOR_LEN * i + 2] = color.b;
            self.particle_color_array[COLOR_LEN * i + 3] = 255;
            self.particle_color_array[COLOR_LEN * i + 4] = color.r;
            self.particle_color_array[COLOR_LEN * i + 5] = color.g;
            self.particle_color_array[COLOR_LEN * i + 6] = color.b;
            self.particle_color_array[COLOR_LEN * i + 7] = 0;
            i += 1;
        }
        assert(self.particle_vertex_array@ =~= retrailed(old(self)@.vertices, segments@));
        assert(self.particle_color_array@ =~= packed_colors(particles@));
        VERTICES_PER_PARTICLE * count
    }

    /// Plans the pass that draws the gravity wells: the texture of the wells, or the
    /// placeholder where none was added, the shared quad, and one draw per well, in
    /// the order of the wells.
    pub fn render_gravity_wells<'a, S: Copy>(&'a self, gravity_wells: &Vec<GravityWell<S>>) -> (pass:
        WellPass<'a, S, T>)
        ensures
            match pass.texture {
                Some(found) => self@.texture_for(WELL_TEXTURE@) == Some(*found),
                None => self@.texture_for(WELL_TEXTURE@) is None,
            },
            self@.wf() && self@.ready ==> pass.texture is Some,
            pass.quad@ == well_quad(),
            pass.quad@.len() == QUAD_VERTICES * QUAD_VERTEX_LEN,
            pass.draws@ == gravity_wells@.map_values(|well: GravityWell<S>| draw_of(well)),
    {
        let far: i32 = RADIUS as i32;
        let near: i32 = -far;
        let quad: Vec<i32> = vec![
            far, near, 1, 0,
            near, near, 0, 0,
            near, far, 0, 1,
            far, near, 1, 0,
            near, far, 0, 1,
            far, far, 1, 1,
        ];
        assert(quad@ =~= well_quad());
        let mut draws: Vec<WellDraw<S>> = Vec::new();
        let mut i: usize = 0;
        while i < gravity_wells.len()
            invariant
                i <= gravity_wells.len(),
                draws@ == gravity_wells@.take(i as int).map_values(
                    |well: GravityWell<S>| draw_of(well),
                ),
            decreases gravity_wells.len() - i,
        {
            let well = &gravity_wells[i];
            draws.push(WellDraw { pos: well.pos, rotation_deg: well.rotation_deg });
            assert(gravity_wells@.take(i + 1) == gravity_wells@.take(i as int).push(
                gravity_wells@[i as int],
            ));
            assert(draws@ =~= gravity_wells@.take(i + 1).map_values(
                |well: GravityWell<S>| draw_of(well),
            ));
            i += 1;
        }
        assert(gravity_wells@.take(i as int) == gravity_wells@);
        WellPass { texture: self.texture(WELL_TEXTURE), quad, draws }
    }
}

} // verus!
