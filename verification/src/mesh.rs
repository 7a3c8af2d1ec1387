//! The mesh of a regular polygon: one triangle per side, all of them meeting
//! in the centre.
//!
//! A vertex is kept exactly: its position in polar coordinates, with the
//! angle as a fraction of a full turn, and its colour as fractions. The
//! third coordinate of every position is zero.

use vstd::prelude::*;
use crate::color::{
    hsv_den, hsv_rgb, hsv_to_rgb, lemma_hsv_full_turn, lemma_hsv_unit_range, Rgb,
};
use crate::ratio::Ratio;

verus! {

/// Numerator of the distance from the centre to a corner.
pub const RADIUS_NUM: u32 = 7;

/// Denominator of the distance from the centre to a corner.
pub const RADIUS_DEN: u32 = 10;

/// A point of the plane: `radius` away from the origin, in the direction
/// that `angle` gives as a fraction of a full turn, counted counterclockwise
/// from the first axis.
#[derive(Clone, Copy, Debug, PartialEq, Eq, Structural)]
pub struct Polar {
    pub radius: Ratio,
    pub angle: Ratio,
}

/// One vertex of the mesh.
#[derive(Clone, Copy, Debug, PartialEq, Eq, Structural)]
pub struct Vertex {
    pub position: Polar,
    pub color: Rgb,
}

/// The vertex in the middle of the polygon: at the origin, and white.
pub open spec fn center_vertex() -> Vertex {
    Vertex {
        position: Polar { radius: Ratio { num: 0, den: RADIUS_DEN }, angle: Ratio::spec_zero() },
        color: Rgb::spec_white(),
    }
}

/// The colour of the corner that lies `step` sides along the rim: its hue is
/// that fraction of the colour wheel, at full saturation and value.
pub open spec fn rim_color(sides: u32, step: u32) -> Rgb {
    hsv_rgb(Ratio { num: step, den: sides }, Ratio::spec_one(), Ratio::spec_one())
}

/// The corner that lies `step` sides along the rim of a polygon of `sides`
/// sides.
pub open spec fn rim_vertex(sides: u32, step: u32) -> Vertex {
    Vertex {
        position: Polar {
            radius: Ratio { num: RADIUS_NUM, den: RADIUS_DEN },
            angle: Ratio { num: step, den: sides },
        },
        color: rim_color(sides, step),
    }
}

/// The vertex at index `k` of the mesh: triangle `k / 3` runs from the
/// centre to the corner `k / 3` and on to the corner after it.
pub open spec fn ngon_vertex(sides: u32, k: int) -> Vertex {
    if k % 3 == 0 {
        center_vertex()
    } else if k % 3 == 1 {
        rim_vertex(sides, (k / 3) as u32)
    } else {
        rim_vertex(sides, (k / 3 + 1) as u32)
    }
}

/// The first `count` triangles of the mesh of a polygon of `sides` sides.
pub open spec fn ngon_fan(sides: u32, count: int) -> Seq<Vertex> {
    Seq::new((3 * count) as nat, |k: int| ngon_vertex(sides, k))
}

/// The mesh of a polygon of `sides` sides.
pub open spec fn ngon_mesh(sides: u32) -> Seq<Vertex> {
    ngon_fan(sides, sides as int)
}

/// Builds the mesh of a regular polygon of `sides` sides.
pub fn generate_ngon_vertices(sides: u32) -> (vertices: Vec<Vertex>)
    requires
        3 * sides <= usize::MAX,
    ensures
        vertices@ == ngon_mesh(sides),
        vertices@.len() == 3 * sides,
        vertices@.len() % 3 == 0,
        forall|k: int|
            0 <= k < vertices@.len() && k % 3 == 0 ==> #[trigger] vertices@[k] == center_vertex(),
{
    let mut vertices: Vec<Vertex> = Vec::new();
    let center = Vertex {
        position: Polar { radius: Ratio { num: 0, den: RADIUS_DEN }, angle: Ratio::zero() },
        color: Rgb::white(),
    };
    let mut i: u32 = 0;
    while i < sides
        invariant
            i <= sides,
            3 * sides <= usize::MAX,
            center == center_vertex(),
            vertices@ == ngon_fan(sides, i as int),
        decreases sides - i,
    {
        let radius = Ratio { num: RADIUS_NUM, den: RADIUS_DEN };
        let first = Ratio { num: i, den: sides };
        let second = Ratio { num: i + 1, den: sides };
        vertices.push(center);
        vertices.push(
            Vertex {
                position: Polar { radius, angle: first },
                color: hsv_to_rgb(first, Ratio::one(), Ratio::one()),
            },
        );
        vertices.push(
            Vertex {
                position: Polar { radius, angle: second },
                color: hsv_to_rgb(second, Ratio::one(), Ratio::one()),
            },
        );
        i += 1;
        assert(vertices@ =~= ngon_fan(sides, i as int));
    }
    vertices
}

/// Triangle `t` of the mesh runs from the centre to corner `t` and on to
/// corner `t + 1`.
pub proof fn lemma_mesh_triangle(sides: u32, t: int)
    requires
        0 <= t < sides,
    ensures
        ngon_mesh(sides).len() == 3 * sides,
        ngon_mesh(sides)[3 * t] == center_vertex(),
        ngon_mesh(sides)[3 * t + 1] == rim_vertex(sides, t as u32),
        ngon_mesh(sides)[3 * t + 2] == rim_vertex(sides, (t + 1) as u32),
{
}

/// Neighbouring triangles share a corner: the last vertex of one is the
/// second vertex of the next.
pub proof fn lemma_mesh_shares_corners(sides: u32, t: int)
    requires
        0 <= t,
        t + 1 < sides,
    ensures
        ngon_mesh(sides)[3 * t + 2] == ngon_mesh(sides)[3 * (t + 1) + 1],
{
    lemma_mesh_triangle(sides, t);
    lemma_mesh_triangle(sides, t + 1);
}

/// The fan closes: the last vertex of the mesh lies a full turn along the
/// rim and has the colour of the first corner.
pub proof fn lemma_mesh_closes(sides: u32)
    requires
        sides > 0,
    ensures
        ngon_mesh(sides)[3 * sides - 1].position.radius == ngon_mesh(sides)[1].position.radius,
        ngon_mesh(sides)[3 * sides - 1].position.angle == (Ratio { num: sides, den: sides }),
        ngon_mesh(sides)[1].position.angle == (Ratio { num: 0, den: sides }),
        ngon_mesh(sides)[3 * sides - 1].color == ngon_mesh(sides)[1].color,
{
    lemma_mesh_triangle(sides, 0);
    lemma_mesh_triangle(sides, sides - 1);
    lemma_hsv_full_turn(Ratio { num: sides, den: sides }, Ratio::spec_one(), Ratio::spec_one());
}

/// Every colour of the mesh has its channels between zero and one, over the
/// number of sides as denominator, or is the white of the centre.
pub proof fn lemma_mesh_colors(sides: u32, k: int)
    requires
        0 <= k < 3 * sides,
    ensures
        ngon_mesh(sides)[k].color.in_unit_range(),
        k % 3 == 0 ==> ngon_mesh(sides)[k].color == Rgb::spec_white(),
        k % 3 != 0 ==> ngon_mesh(sides)[k].color.den == sides,
{
    if k % 3 != 0 {
        let step: u32 = if k % 3 == 1 {
            (k / 3) as u32
        } else {
            (k / 3 + 1) as u32
        };
        let hue = Ratio { num: step, den: sides };
        lemma_hsv_unit_range(hue, Ratio::spec_one(), Ratio::spec_one());
        assert(hsv_den(hue, Ratio::spec_one(), Ratio::spec_one()) == sides) by {
            assert(1 * 1 * sides == sides);
        }
    }
}

} // verus!
