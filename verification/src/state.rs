//! The state of the renderer: the size and configuration of the surface,
//! the number of sides of the polygon, and the mesh that is drawn.

use vstd::prelude::*;
use crate::mesh::{generate_ngon_vertices, ngon_mesh, Vertex};
use crate::surface::{initial_config, is_preferred, srgb_flags, Size, SurfaceConfig};

verus! {

/// Sides of the polygon that a new state shows.
pub const INITIAL_SIDES: u32 = 6;

/// Fewest sides that a polygon can have.
pub const MIN_SIDES: u32 = 3;

/// Most sides that a polygon can have: a draw call counts vertices in 32
/// bits, and each side takes three.
pub const MAX_SIDES: u32 = 1_431_655_765;

/// A colour with an alpha channel; all four share the denominator `den`.
#[derive(Clone, Copy, Debug, PartialEq, Eq, Structural)]
pub struct Rgba {
    pub r: u32,
    pub g: u32,
    pub b: u32,
    pub a: u32,
    pub den: u32,
}

/// What one frame consists of: the colour that the target is cleared to,
/// and one draw of the vertices `first_vertex..end_vertex` of the buffer in
/// slot `vertex_slot`, for the instances `first_instance..end_instance`.
#[derive(Clone, Copy, Debug, PartialEq, Eq, Structural)]
pub struct Frame {
    pub clear: Rgba,
    pub vertex_slot: u32,
    pub first_vertex: u32,
    pub end_vertex: u32,
    pub first_instance: u32,
    pub end_instance: u32,
}

/// The dark grey behind the polygon: a tenth of each colour, fully opaque.
pub open spec fn background() -> Rgba {
    Rgba { r: 1, g: 1, b: 1, a: 10, den: 10 }
}

/// The state of the renderer.
pub struct State {
    config: SurfaceConfig,
    size: Size,
    vertices: Vec<Vertex>,
    num_vertices: u32,
    sides: u32,
}

/// What a `State` holds, as plain values.
pub struct StateView {
    pub config: SurfaceConfig,
    pub size: Size,
    pub vertices: Seq<Vertex>,
    pub num_vertices: u32,
    pub sides: u32,
}

impl StateView {
    /// The polygon has at least three sides, the mesh is the mesh of that
    /// polygon, the vertex count is its length, and the surface is
    /// configured for the stored size.
    pub open spec fn wf(self) -> bool {
        &&& MIN_SIDES <= self.sides <= MAX_SIDES
        &&& self.vertices == ngon_mesh(self.sides)
        &&& self.num_vertices == 3 * self.sides
        &&& self.config.spec_size() == self.size
    }

    /// The state of the polygon with `sides` sides, all else unchanged.
    pub open spec fn with_sides(self, sides: u32) -> StateView {
        StateView {
            vertices: ngon_mesh(sides),
            num_vertices: (3 * sides) as u32,
            sides,
            ..self
        }
    }

    /// The state with one side more.
    pub open spec fn increased(self) -> StateView {
        self.with_sides((self.sides + 1) as u32)
    }

    /// The state with one side less, or the same state where the polygon
    /// is a triangle.
    pub open spec fn decreased(self) -> StateView {
        if self.sides > MIN_SIDES {
            self.with_sides((self.sides - 1) as u32)
        } else {
            self
        }
    }

    /// The state after the window took the size `new_size`: a size without
    /// area changes nothing.
    pub open spec fn resized(self, new_size: Size) -> StateView {
        if new_size.spec_has_area() {
            StateView { config: self.config.spec_with_size(new_size), size: new_size, ..self }
        } else {
            self
        }
    }

    /// The state after `count` sides were added, one at a time.
    pub open spec fn increased_by(self, count: nat) -> StateView
        decreases count,
    {
        if count == 0 {
            self
        } else {
            self.increased().increased_by((count - 1) as nat)
        }
    }

    /// The state after `count` attempts to take a side away.
    pub open spec fn decreased_by(self, count: nat) -> StateView
        decreases count,
    {
        if count == 0 {
            self
        } else {
            self.decreased().decreased_by((count - 1) as nat)
        }
    }

    /// The frame that shows the state.
    pub open spec fn frame(self) -> Frame {
        Frame {
            clear: background(),
            vertex_slot: 0,
            first_vertex: 0,
            end_vertex: self.num_vertices,
            first_instance: 0,
            end_instance: 1,
        }
    }
}

impl View for State {
    type V = StateView;

    closed spec fn view(&self) -> StateView {
        StateView {
            config: self.config,
            size: self.size,
            vertices: self.vertices@,
            num_vertices: self.num_vertices,
            sides: self.sides,
        }
    }
}

impl State {
    /// The invariant of the state.
    pub open spec fn wf(&self) -> bool {
        self@.wf()
    }

    /// The state that rendering starts from: a hexagon on a surface of the
    /// given size, configured with the preferred format and the first
    /// present mode and alpha mode that the surface supports. There is no
    /// state where the surface supports no format, no present mode or no
    /// alpha mode.
    pub fn new(
        size: Size,
        formats: &Vec<wgpu::TextureFormat>,
        present_modes: &Vec<wgpu::PresentMode>,
        alpha_modes: &Vec<wgpu::CompositeAlphaMode>,
    ) -> (state: Option<State>)
        ensures
            state is None <==> formats@.len() == 0 || present_modes@.len() == 0
                || alpha_modes@.len() == 0,
            state matches Some(s) ==> {
                &&& s.wf()
                &&& s@.sides == INITIAL_SIDES
                &&& s@.size == size
                &&& s@.config.present_mode == present_modes@[0]
                &&& s@.config.alpha_mode == alpha_modes@[0]
                &&& exists|i: int|
                    is_preferred(srgb_flags(formats@), i) && s@.config.format == formats@[i]
            },
    {
        match initial_config(size, formats, present_modes, alpha_modes) {
            None => None,
            Some(config) => {
                let vertices = generate_ngon_vertices(INITIAL_SIDES);
                let num_vertices: u32 = 3 * INITIAL_SIDES;
                Some(State { config, size, vertices, num_vertices, sides: INITIAL_SIDES })
            },
        }
    }

    /// The number of sides of the polygon.
    pub fn sides(&self) -> (sides: u32)
        ensures
            sides == self@.sides,
    {
        self.sides
    }

    /// The number of vertices of the mesh.
    pub fn num_vertices(&self) -> (count: u32)
        ensures
            count == self@.num_vertices,
    {
        self.num_vertices
    }

    /// The mesh that is drawn.
    pub fn vertices(&self) -> (vertices: &Vec<Vertex>)
        ensures
            vertices@ == self@.vertices,
    {
        &self.vertices
    }

    /// The size of the window.
    pub fn size(&self) -> (size: Size)
        ensures
            size == self@.size,
    {
        self.size
    }

    /// The configuration of the surface.
    pub fn config(&self) -> (config: SurfaceConfig)
        ensures
            config == self@.config,
    {
        self.config
    }

    /// Gives the polygon one side more and rebuilds the mesh.
    pub fn increase_sides(&mut self)
        requires
            old(self).wf(),
            old(self)@.sides < MAX_SIDES,
        ensures
            final(self)@ == old(self)@.increased(),
            final(self).wf(),
    {
        self.sides += 1;
        self.update_polygon();
    }

    /// Takes one side from the polygon and rebuilds the mesh, unless the
    /// polygon is a triangle. Returns whether anything changed.
    pub fn decrease_sides(&mut self) -> (changed: bool)
        requires
            old(self).wf(),
        ensures
            final(self)@ == old(self)@.decreased(),
            final(self).wf(),
            changed == (old(self)@.sides > MIN_SIDES),
            !changed ==> final(self)@ == old(self)@,
    {
        if self.sides > MIN_SIDES {
            self.sides -= 1;
            self.update_polygon();
            true
        } else {
            false
        }
    }

    /// Builds the mesh and the vertex count that belong to the number of
    /// sides.
    fn update_polygon(&mut self)
        requires
            old(self)@.sides <= MAX_SIDES,
        ensures
            final(self)@ == old(self)@.with_sides(old(self)@.sides),
    {
        let vertices = generate_ngon_vertices(self.sides);
        self.num_vertices = 3 * self.sides;
        self.vertices = vertices;
    }

    /// Takes over the new size of the window, unless it has no area.
    /// Returns whether the surface has to be configured anew.
    pub fn resize(&mut self, new_size: Size) -> (changed: bool)
        requires
            old(self).wf(),
        ensures
            final(self)@ == old(self)@.resized(new_size),
            final(self).wf(),
            changed == new_size.spec_has_area(),
            !changed ==> final(self)@ == old(self)@,
    {
        if new_size.width > 0 && new_size.height > 0 {
            self.size = new_size;
            self.config.width = new_size.width;
            self.config.height = new_size.height;
            true
        } else {
            false
        }
    }

    /// The frame to draw: the background, then every vertex of the mesh,
    /// once.
    pub fn render(&self) -> (frame: Frame)
        requires
            self.wf(),
        ensures
            frame == self@.frame(),
            frame.end_vertex - frame.first_vertex == 3 * self@.sides,
    {
        Frame {
            clear: Rgba { r: 1, g: 1, b: 1, a: 10, den: 10 },
            vertex_slot: 0,
            first_vertex: 0,
            end_vertex: self.num_vertices,
            first_instance: 0,
            end_instance: 1,
        }
    }
}

/// In every valid state the mesh has three vertices for each side, and the
/// vertex count is the length of the mesh: a multiple of three, and at
/// least nine.
pub proof fn lemma_vertex_count(s: StateView)
    requires
        s.wf(),
    ensures
        s.vertices.len() == 3 * s.sides,
        s.num_vertices == s.vertices.len(),
        s.num_vertices % 3 == 0,
        s.num_vertices >= 9,
{
}

/// Every step leads from a valid state to a valid state.
pub proof fn lemma_steps_keep_wf(s: StateView, new_size: Size)
    requires
        s.wf(),
    ensures
        s.sides < MAX_SIDES ==> s.increased().wf(),
        s.decreased().wf(),
        s.resized(new_size).wf(),
{
}

/// Adding a side and taking one away leads back to the state before.
pub proof fn lemma_increase_then_decrease(s: StateView)
    requires
        s.wf(),
        s.sides < MAX_SIDES,
    ensures
        s.increased().sides == s.sides + 1,
        s.increased().decreased() == s,
{
}

/// Above three sides, taking a side away and adding one leads back to the
/// state before.
pub proof fn lemma_decrease_then_increase(s: StateView)
    requires
        s.wf(),
        s.sides > MIN_SIDES,
    ensures
        s.decreased().sides == s.sides - 1,
        s.decreased().increased() == s,
{
}

/// A triangle stays a triangle: at three sides, taking a side away changes
/// neither the number of sides nor the mesh nor anything else.
pub proof fn lemma_decrease_at_floor(s: StateView)
    requires
        s.wf(),
        s.sides == MIN_SIDES,
    ensures
        s.decreased() == s,
        s.decreased().sides == MIN_SIDES,
        s.decreased().vertices == s.vertices,
{
}

/// Adding sides one at a time adds up.
pub proof fn lemma_increased_by(s: StateView, count: nat)
    requires
        s.wf(),
        s.sides + count <= MAX_SIDES,
    ensures
        s.increased_by(count).wf(),
        s.increased_by(count) == s.with_sides((s.sides + count) as u32),
    decreases count,
{
    if count > 0 {
        lemma_increased_by(s.increased(), (count - 1) as nat);
    }
}

/// Taking sides away one at a time stops at three: after `count` attempts
/// the polygon has `count` sides less, but never fewer than three.
pub proof fn lemma_decreased_by(s: StateView, count: nat)
    requires
        s.wf(),
    ensures
        s.decreased_by(count).wf(),
        s.decreased_by(count) == s.with_sides(
            if s.sides - count >= MIN_SIDES {
                (s.sides - count) as u32
            } else {
                MIN_SIDES
            },
        ),
    decreases count,
{
    if count > 0 {
        lemma_decreased_by(s.decreased(), (count - 1) as nat);
    }
}

/// Changing the number of sides leaves the size and the configuration of
/// the surface alone, and a new size leaves the polygon alone.
pub proof fn lemma_steps_are_independent(s: StateView, new_size: Size)
    requires
        s.wf(),
    ensures
        s.increased().size == s.size,
        s.increased().config == s.config,
        s.decreased().size == s.size,
        s.decreased().config == s.config,
        s.resized(new_size).sides == s.sides,
        s.resized(new_size).vertices == s.vertices,
        s.resized(new_size).num_vertices == s.num_vertices,
{
}

/// A size with area becomes the stored size and the configured size; one
/// without area is ignored. The same size a second time changes nothing.
pub proof fn lemma_resized_size(s: StateView, new_size: Size)
    requires
        s.wf(),
    ensures
        new_size.spec_has_area() ==> s.resized(new_size).size == new_size && s.resized(
            new_size,
        ).config.spec_size() == new_size,
        !new_size.spec_has_area() ==> s.resized(new_size) == s,
        s.resized(new_size).config.format == s.config.format,
        s.resized(new_size).config.present_mode == s.config.present_mode,
        s.resized(new_size).config.alpha_mode == s.config.alpha_mode,
        s.resized(new_size).resized(new_size) == s.resized(new_size),
{
}

} // verus!
