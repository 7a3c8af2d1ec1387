use ngon::mesh::generate_ngon_vertices;
use ngon::state::{Frame, Rgba, State, INITIAL_SIDES, MAX_SIDES, MIN_SIDES};
use ngon::surface::Size;
use wgpu::{CompositeAlphaMode, PresentMode, TextureFormat};

fn start(width: u32, height: u32) -> State {
    State::new(
        Size { width, height },
        &vec![TextureFormat::Bgra8UnormSrgb, TextureFormat::Bgra8Unorm],
        &vec![PresentMode::Fifo, PresentMode::Immediate],
        &vec![CompositeAlphaMode::Opaque],
    )
    .unwrap()
}

#[test]
fn limits() {
    assert_eq!((INITIAL_SIDES, MIN_SIDES), (6, 3));
    assert_eq!(MAX_SIDES, u32::MAX / 3);
}

#[test]
fn new_state_shows_a_hexagon() {
    let state = start(1024, 768);
    assert_eq!(state.sides(), 6);
    assert_eq!(state.num_vertices(), 18);
    assert_eq!(state.vertices(), &generate_ngon_vertices(6));
    assert_eq!(state.size(), Size { width: 1024, height: 768 });
    let config = state.config();
    assert_eq!(config.format, TextureFormat::Bgra8Unorm);
    assert_eq!((config.width, config.height), (1024, 768));
    assert_eq!(config.present_mode, PresentMode::Fifo);
    assert_eq!(config.alpha_mode, CompositeAlphaMode::Opaque);
}

#[test]
fn new_state_falls_back_to_the_first_format() {
    let state = State::new(
        Size { width: 10, height: 10 },
        &vec![TextureFormat::Rgba8UnormSrgb, TextureFormat::Bgra8UnormSrgb],
        &vec![PresentMode::Fifo],
        &vec![CompositeAlphaMode::Opaque],
    )
    .unwrap();
    assert_eq!(state.config().format, TextureFormat::Rgba8UnormSrgb);
}

#[test]
fn no_state_without_format_or_modes() {
    let size = Size { width: 10, height: 10 };
    let formats = vec![TextureFormat::Bgra8Unorm];
    let present = vec![PresentMode::Fifo];
    let alpha = vec![CompositeAlphaMode::Opaque];
    assert!(State::new(size, &vec![], &present, &alpha).is_none());
    assert!(State::new(size, &formats, &vec![], &alpha).is_none());
    assert!(State::new(size, &formats, &present, &vec![]).is_none());
    assert!(State::new(size, &formats, &present, &alpha).is_some());
}

#[test]
fn increase_adds_one_side_and_three_vertices() {
    let mut state = start(800, 600);
    state.increase_sides();
    assert_eq!(state.sides(), 7);
    assert_eq!(state.num_vertices(), 21);
    assert_eq!(state.vertices(), &generate_ngon_vertices(7));
}

#[test]
fn decrease_takes_one_side_and_three_vertices() {
    let mut state = start(800, 600);
    assert!(state.decrease_sides());
    assert_eq!(state.sides(), 5);
    assert_eq!(state.num_vertices(), 15);
    assert_eq!(state.vertices(), &generate_ngon_vertices(5));
}

#[test]
fn increase_then_decrease_restores_the_state() {
    let mut state = start(800, 600);
    for _ in 0..5 {
        let sides = state.sides();
        let mesh = state.vertices().clone();
        state.increase_sides();
        assert_eq!(state.sides(), sides + 1);
        assert!(state.decrease_sides());
        assert_eq!(state.sides(), sides);
        assert_eq!(state.num_vertices(), 3 * sides);
        assert_eq!(state.vertices(), &mesh);
        state.increase_sides();
    }
}

#[test]
fn decrease_then_increase_restores_the_state_above_three() {
    let mut state = start(800, 600);
    let mesh = state.vertices().clone();
    assert!(state.decrease_sides());
    state.increase_sides();
    assert_eq!(state.sides(), 6);
    assert_eq!(state.vertices(), &mesh);
}

#[test]
fn decrease_at_three_sides_changes_nothing() {
    let mut state = start(800, 600);
    while state.sides() > 3 {
        assert!(state.decrease_sides());
    }
    let mesh = state.vertices().clone();
    assert_eq!(mesh.len(), 9);
    assert!(!state.decrease_sides());
    assert_eq!(state.sides(), 3);
    assert_eq!(state.num_vertices(), 9);
    assert_eq!(state.vertices(), &mesh);
    assert_eq!(state.size(), Size { width: 800, height: 600 });
}

#[test]
fn resize_ignores_sizes_without_area() {
    let mut state = start(800, 600);
    assert!(!state.resize(Size { width: 0, height: 100 }));
    assert_eq!(state.size(), Size { width: 800, height: 600 });
    assert_eq!((state.config().width, state.config().height), (800, 600));
    assert!(!state.resize(Size { width: 100, height: 0 }));
    assert_eq!(state.size(), Size { width: 800, height: 600 });
    assert!(!state.resize(Size { width: 0, height: 0 }));
    assert_eq!(state.size(), Size { width: 800, height: 600 });
}

#[test]
fn resize_takes_over_a_size_with_area() {
    let mut state = start(320, 200);
    assert!(state.resize(Size { width: 800, height: 600 }));
    assert_eq!(state.size(), Size { width: 800, height: 600 });
    let config = state.config();
    assert_eq!((config.width, config.height), (800, 600));
    assert_eq!(config.format, TextureFormat::Bgra8Unorm);
    assert_eq!(config.present_mode, PresentMode::Fifo);
    assert_eq!(config.alpha_mode, CompositeAlphaMode::Opaque);
    assert_eq!(state.sides(), 6);
    assert_eq!(state.num_vertices(), 18);
}

#[test]
fn sides_do_not_touch_the_surface() {
    let mut state = start(320, 200);
    state.increase_sides();
    state.decrease_sides();
    state.decrease_sides();
    assert_eq!(state.size(), Size { width: 320, height: 200 });
    assert_eq!((state.config().width, state.config().height), (320, 200));
}

#[test]
fn example_run() {
    let mut state = start(800, 600);
    assert_eq!(state.sides(), 6);
    assert_eq!(state.vertices().len(), 18);
    for _ in 0..4 {
        state.increase_sides();
    }
    assert_eq!(state.sides(), 10);
    assert_eq!(state.num_vertices(), 30);
    assert_eq!(state.vertices().len(), 30);
    for _ in 0..8 {
        state.decrease_sides();
    }
    assert_eq!(state.sides(), 3);
    assert_eq!(state.num_vertices(), 9);
    assert_eq!(state.vertices().len(), 9);
    for _ in 0..3 {
        assert!(!state.decrease_sides());
        assert_eq!(state.sides(), 3);
        assert_eq!(state.vertices().len(), 9);
    }
}

#[test]
fn frame_draws_every_vertex_once() {
    let mut state = start(800, 600);
    let expected = |end_vertex: u32| Frame {
        clear: Rgba { r: 1, g: 1, b: 1, a: 10, den: 10 },
        vertex_slot: 0,
        first_vertex: 0,
        end_vertex,
        first_instance: 0,
        end_instance: 1,
    };
    assert_eq!(state.render(), expected(18));
    state.increase_sides();
    assert_eq!(state.render(), expected(21));
    let clear = state.render().clear;
    assert_eq!(clear.r as f64 / clear.den as f64, 0.1);
    assert_eq!(clear.g as f64 / clear.den as f64, 0.1);
    assert_eq!(clear.b as f64 / clear.den as f64, 0.1);
    assert_eq!(clear.a as f64 / clear.den as f64, 1.0);
}
