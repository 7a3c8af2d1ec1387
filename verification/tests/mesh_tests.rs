use ngon::color::{hsv_to_rgb, Rgb};
use ngon::ratio::Ratio;
use ngon::mesh::{generate_ngon_vertices, Polar, Vertex, RADIUS_DEN, RADIUS_NUM};

fn center() -> Vertex {
    Vertex {
        position: Polar { radius: Ratio { num: 0, den: 10 }, angle: Ratio { num: 0, den: 1 } },
        color: Rgb { r: 1, g: 1, b: 1, den: 1 },
    }
}

#[test]
fn radius_is_seven_tenths() {
    assert_eq!((RADIUS_NUM, RADIUS_DEN), (7, 10));
    assert_eq!(RADIUS_NUM as f32 / RADIUS_DEN as f32, 0.7f32);
}

#[test]
fn mesh_has_three_vertices_per_side() {
    for sides in 3u32..=64 {
        let mesh = generate_ngon_vertices(sides);
        assert_eq!(mesh.len(), 3 * sides as usize);
        assert_eq!(mesh.len() % 3, 0);
    }
}

#[test]
fn every_triangle_starts_at_the_white_center() {
    for sides in [3u32, 4, 5, 6, 7, 12, 100] {
        let mesh = generate_ngon_vertices(sides);
        for t in 0..sides as usize {
            let v = mesh[3 * t];
            assert_eq!(v, center());
            assert_eq!(v.position.radius.num, 0);
            assert_eq!((v.color.r, v.color.g, v.color.b, v.color.den), (1, 1, 1, 1));
        }
    }
}

#[test]
fn triangle_mesh_in_full() {
    let mesh = generate_ngon_vertices(3);
    let radius = Ratio { num: 7, den: 10 };
    let corner = |step: u32, r: i128, g: i128, b: i128| Vertex {
        position: Polar { radius, angle: Ratio { num: step, den: 3 } },
        color: Rgb { r, g, b, den: 3 },
    };
    let expected = vec![
        center(),
        corner(0, 3, 0, 0),
        corner(1, 0, 3, 0),
        center(),
        corner(1, 0, 3, 0),
        corner(2, 0, 0, 3),
        center(),
        corner(2, 0, 0, 3),
        corner(3, 3, 0, 0),
    ];
    assert_eq!(mesh, expected);
}

#[test]
fn hexagon_corners_run_through_the_color_wheel() {
    let mesh = generate_ngon_vertices(6);
    assert_eq!(mesh.len(), 18);
    let colors: Vec<(i128, i128, i128, i128)> =
        (0..6).map(|t| mesh[3 * t + 1].color).map(|c| (c.r, c.g, c.b, c.den)).collect();
    assert_eq!(
        colors,
        vec![(6, 0, 0, 6), (6, 6, 0, 6), (0, 6, 0, 6), (0, 6, 6, 6), (0, 0, 6, 6), (6, 0, 6, 6)]
    );
}

#[test]
fn corners_lie_on_the_rim_at_equal_steps() {
    for sides in [3u32, 5, 8, 13] {
        let mesh = generate_ngon_vertices(sides);
        for t in 0..sides {
            let first = mesh[3 * t as usize + 1];
            let second = mesh[3 * t as usize + 2];
            assert_eq!(first.position.radius, Ratio { num: 7, den: 10 });
            assert_eq!(second.position.radius, Ratio { num: 7, den: 10 });
            assert_eq!(first.position.angle, Ratio { num: t, den: sides });
            assert_eq!(second.position.angle, Ratio { num: t + 1, den: sides });
            assert_eq!(first.color, hsv_to_rgb(Ratio { num: t, den: sides }, Ratio::one(), Ratio::one()));
            assert_eq!(second.color, hsv_to_rgb(Ratio { num: t + 1, den: sides }, Ratio::one(), Ratio::one()));
        }
    }
}

#[test]
fn neighbouring_triangles_share_a_corner() {
    let mesh = generate_ngon_vertices(9);
    for t in 0..8usize {
        assert_eq!(mesh[3 * t + 2], mesh[3 * (t + 1) + 1]);
    }
}

#[test]
fn the_fan_closes_on_the_first_corner() {
    for sides in [3u32, 6, 10, 17] {
        let mesh = generate_ngon_vertices(sides);
        let last = mesh[mesh.len() - 1];
        let first = mesh[1];
        assert_eq!(last.position.angle, Ratio { num: sides, den: sides });
        assert_eq!(first.position.angle, Ratio { num: 0, den: sides });
        assert_eq!(last.position.radius, first.position.radius);
        assert_eq!(last.color, first.color);
    }
}

#[test]
fn mesh_colors_stay_in_the_unit_interval() {
    let mesh = generate_ngon_vertices(37);
    for v in mesh.iter() {
        assert!(v.color.den > 0);
        for channel in [v.color.r, v.color.g, v.color.b] {
            assert!(0 <= channel && channel <= v.color.den);
        }
    }
}

#[test]
fn fewer_than_three_sides() {
    assert_eq!(generate_ngon_vertices(0).len(), 0);
    assert_eq!(generate_ngon_vertices(1).len(), 3);
    assert_eq!(generate_ngon_vertices(2).len(), 6);
}
