use rock::engine::{DEFAULT_CLEAR_COLOR, EngineError, FrameStats, Phase, Rock};
use rock::mesh::{Mesh, MeshBuilder};
use rock::math::Transform;
use rock::camera::{Camera, CameraMode};
use rock::vertex::VertexType;

fn mesh(vertices: usize) -> Mesh {
    let v: Vec<VertexType> = (0..vertices).map(|i| VertexType::at([i as u32, 0, 0])).collect();
    MeshBuilder::new().with_vertices(v).build().unwrap()
}

#[test]
fn submit_draw_before_init_fails() {
    let mut rock = Rock::new();
    let r = rock.submit_draw(&mesh(3), &Transform::identity());
    assert_eq!(r.err().map(|_| ()), Some(()));
    let mut rock = Rock::new();
    match rock.submit_draw(&mesh(3), &Transform::identity()) {
        Err(e) => assert_eq!(e, EngineError::NotInitialized),
        Ok(_) => panic!("draw accepted before init"),
    }
    assert_eq!(rock.draw_calls(), 0);
    assert_eq!(rock.phase(), Phase::Uninitialized);
}

#[test]
fn submit_draw_between_frames_fails() {
    let mut rock = Rock::new();
    rock.init().unwrap();
    match rock.submit_draw(&mesh(3), &Transform::identity()) {
        Err(e) => assert_eq!(e, EngineError::NotInFrame),
        Ok(_) => panic!("draw accepted outside a frame"),
    }
    rock.stop();
    match rock.submit_draw(&mesh(3), &Transform::identity()) {
        Err(e) => assert_eq!(e, EngineError::Stopped),
        Ok(_) => panic!("draw accepted after stop"),
    }
}

#[test]
fn counters_reset_each_frame_and_count_exactly() {
    let mut rock = Rock::new();
    rock.init().unwrap();
    let first = rock.begin_frame().unwrap();
    assert!(first.clear);
    assert_eq!(rock.draw_calls(), 0);
    assert_eq!(rock.triangles(), 0);
    let d = rock.submit_draw(&mesh(3), &Transform::identity()).unwrap();
    assert!(!d.render_state.clear);
    rock.submit_draw(&mesh(7), &Transform::identity()).unwrap();
    assert_eq!(rock.end_frame().unwrap(), FrameStats { draw_calls: 2, triangles: 3 });
    rock.begin_frame().unwrap();
    assert_eq!(rock.draw_calls(), 0);
    assert_eq!(rock.triangles(), 0);
    rock.submit_draw(&mesh(6), &Transform::identity()).unwrap();
    assert_eq!(rock.end_frame().unwrap(), FrameStats { draw_calls: 1, triangles: 2 });
    assert_eq!(rock.begin_frame().unwrap().clear, true);
    assert_eq!(rock.end_frame().unwrap(), FrameStats { draw_calls: 0, triangles: 0 });
}

#[test]
fn clear_once_per_frame() {
    let mut rock = Rock::new();
    rock.init().unwrap();
    assert!(rock.current_render_state().clear);
    rock.begin_frame().unwrap();
    assert!(!rock.current_render_state().clear);
    rock.end_frame().unwrap();
    assert!(rock.current_render_state().clear);
}

#[test]
fn clear_color_applies_to_the_next_clear() {
    let mut rock = Rock::new();
    assert_eq!(rock.clear_color(), [0.25f32.to_bits(), 0.25f32.to_bits(), 0.25f32.to_bits(), 1.0f32.to_bits()]);
    assert_eq!(DEFAULT_CLEAR_COLOR, rock.clear_color());
    rock.init().unwrap();
    let red = [1.0f32.to_bits(), 0, 0, 1.0f32.to_bits()];
    rock.set_clear_color(red);
    assert_eq!(rock.begin_frame().unwrap().clear_color, red);
}

#[test]
fn draw_call_uses_the_active_camera() {
    let mut rock = Rock::new();
    rock.init().unwrap();
    let cam = Camera::new(CameraMode::Orthographic, Transform::identity(), 0).unwrap();
    rock.set_active_camera(cam);
    assert_eq!(rock.active_camera(), cam);
    rock.begin_frame().unwrap();
    let t = Transform::new([1, 2, 3], [0, 0, 0, 1.0f32.to_bits()], [1, 1, 1]);
    let d = rock.submit_draw(&mesh(3), &t).unwrap();
    assert_eq!(d.camera, cam);
    assert_eq!(d.model, t);
    assert_eq!(d.mesh.vert_count(), 3);
}

#[test]
fn lifecycle_errors() {
    let mut rock = Rock::new();
    assert_eq!(rock.begin_frame().err(), Some(EngineError::NotInitialized));
    assert_eq!(rock.end_frame().err(), Some(EngineError::NotInitialized));
    rock.init().unwrap();
    assert_eq!(rock.init().err(), Some(EngineError::AlreadyInitialized));
    assert_eq!(rock.end_frame().err(), Some(EngineError::NotInFrame));
    rock.begin_frame().unwrap();
    assert_eq!(rock.begin_frame().err(), Some(EngineError::FrameInProgress));
    rock.stop();
    assert_eq!(rock.phase(), Phase::Stopped);
    assert_eq!(rock.init().err(), Some(EngineError::Stopped));
    assert_eq!(rock.begin_frame().err(), Some(EngineError::Stopped));
}

#[test]
fn render_error_restores_counters_and_stops() {
    let mut rock = Rock::new();
    rock.init().unwrap();
    rock.begin_frame().unwrap();
    rock.submit_draw(&mesh(3), &Transform::identity()).unwrap();
    let call = rock.submit_draw(&mesh(6), &Transform::identity()).unwrap();
    assert_eq!(call.counts_before, FrameStats { draw_calls: 1, triangles: 1 });
    assert_eq!(rock.draw_calls(), 2);
    assert_eq!(rock.report_render_error(&call), EngineError::RenderError);
    assert_eq!(rock.phase(), Phase::Stopped);
    assert_eq!(rock.draw_calls(), 1);
    assert_eq!(rock.triangles(), 1);
    match rock.submit_draw(&mesh(3), &Transform::identity()) {
        Err(e) => assert_eq!(e, EngineError::Stopped),
        Ok(_) => panic!("draw accepted after a render error"),
    }
}
