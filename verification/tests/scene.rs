//! Scenario tests for the scene-state library: the camera matrix
//! fixture, the controller's clamp and wrap rules, the help-mode round
//! trip, the grid generator, the material cycle and the cursor grabber.

use scene_core::input::{InputEvent, Key, ScrollDelta};
use scene_core::math::{Mat4, Vec3};
use scene_core::state::camera::{Camera, CameraUniform};
use scene_core::state::camera_controller::CameraController;
use scene_core::state::mouse_grabber::MouseGrabber;
use scene_core::state::world::instance::Instance;
use scene_core::state::world::model::{Material, Mesh, Model};
use scene_core::state::world::{draw_commands, generate_grid, World};
use scene_core::state::State;

fn fixture_camera() -> Camera {
    Camera {
        eye: Vec3 { x: 0, y: 1000, z: 2000 },
        target: Vec3 { x: 0, y: 0, z: 0 },
        up: Vec3 { x: 0, y: 1000, z: 0 },
        aspect: 1000,
        fovy: 90_000,
        znear: 1000,
        zfar: 100_000,
    }
}

fn test_model(n_materials: usize) -> Model {
    let meshes = vec![Mesh { name: String::from("cube"), num_elements: 36, material: 0 }];
    let mut materials: Vec<Material> = Vec::new();
    let mut i: usize = 0;
    while i < n_materials {
        materials.push(Material { name: format!("material {i}") });
        i += 1;
    }
    Model::new(meshes, materials)
}

fn test_world() -> World {
    World::new(vec![test_model(3), test_model(1)])
}

#[test]
fn test_build_view_projection_matrix() {
    let vp: Mat4 = fixture_camera().build_view_projection_matrix();
    assert_eq!(vp.m00, 1000);
    assert_eq!(vp.m01, 0);
    assert_eq!(vp.m02, 0);
    assert_eq!(vp.m03, 0);
    assert_eq!(vp.m10, 0);
    assert_eq!(vp.m11, 895);
    assert_eq!(vp.m12, -448);
    assert_eq!(vp.m13, 1);
    assert_eq!(vp.m20, 0);
    assert_eq!(vp.m21, -229);
    assert_eq!(vp.m22, -457);
    assert_eq!(vp.m23, 131);
    assert_eq!(vp.m30, 0);
    assert_eq!(vp.m31, -677);
    assert_eq!(vp.m32, -1352);
    assert_eq!(vp.m33, 2369);
}

#[test]
fn test_update_view_proj() {
    let camera = fixture_camera();
    let mut uniform = CameraUniform::new();
    uniform.update_view_proj(&camera);
    assert_eq!(uniform.view_proj, camera.build_view_projection_matrix());
}

#[test]
fn pitch_stays_clamped() {
    let mut c = CameraController::new(50);
    c.is_being_helped = false;
    c.process_mouse(0, 3_600_000);
    assert_eq!(c.pitch, -89_000);
    c.process_mouse(0, -3_600_000);
    c.process_mouse(0, -3_600_000);
    assert_eq!(c.pitch, 89_000);
}

#[test]
fn yaw_wraps_one_turn() {
    let mut c = CameraController::new(50);
    c.is_being_helped = false;
    c.yaw = 359_000;
    c.process_mouse(20_000, 0);
    assert_eq!(c.yaw, 1000);
    c.yaw = -359_000;
    c.process_mouse(-20_000, 0);
    assert_eq!(c.yaw, -1000);
    c.yaw = 100_000;
    c.process_mouse(10_000, 0);
    assert_eq!(c.yaw, 101_000);
}

#[test]
fn count_never_goes_negative() {
    let mut w = test_world();
    w.is_being_helped = false;
    w.num_instances = 0;
    w.is_decrease_pressed = true;
    w.update_world();
    assert_eq!(w.num_instances, 0);
}

#[test]
fn spin_toggle_is_debounced() {
    let mut w = test_world();
    let press = InputEvent::Keyboard { key: Key::Digit1, pressed: true, repeat: false };
    let release = InputEvent::Keyboard { key: Key::Digit1, pressed: false, repeat: false };
    let repeat = InputEvent::Keyboard { key: Key::Digit1, pressed: true, repeat: true };
    assert!(!w.is_spin);
    w.process_events(&press);
    assert!(w.is_spin);
    w.process_events(&repeat);
    w.process_events(&press);
    assert!(w.is_spin);
    w.process_events(&release);
    w.process_events(&press);
    w.process_events(&release);
    assert!(!w.is_spin);
}

#[test]
fn helped_pose_is_forced() {
    let mut c = CameraController::new(50);
    let mut camera = fixture_camera();
    c.is_forward_pressed = true;
    c.update_camera(&mut camera);
    assert_eq!(camera.eye, Vec3 { x: 0, y: 0, z: 2000 });
    assert_eq!(camera.target, Vec3 { x: 0, y: 0, z: 0 });
}

#[test]
fn help_round_trip_restores_pose() {
    let mut c = CameraController::new(50);
    let mut camera = fixture_camera();
    c.is_being_helped = false;
    c.update_camera(&mut camera);
    c.update_camera(&mut camera);
    let saved_eye = c.eyecpy;
    let saved_target = c.targetcpy;
    let press_h = InputEvent::Keyboard { key: Key::H, pressed: true, repeat: false };
    c.process_events(&press_h);
    assert!(c.is_being_helped);
    c.update_camera(&mut camera);
    c.update_camera(&mut camera);
    c.process_events(&press_h);
    assert!(!c.is_being_helped);
    c.update_camera(&mut camera);
    assert_eq!(camera.eye, saved_eye);
    assert_eq!(camera.target, saved_target);
}

#[test]
fn scroll_moves_eye_along_view() {
    let mut c = CameraController::new(50);
    let mut camera = fixture_camera();
    c.is_being_helped = false;
    // looking along the negative Z axis, one scroll line at the default
    // speed moves the eye by speed times the scroll factor: 2.5 units.
    c.process_mouse_wheel(1000, &mut camera);
    assert_eq!(camera.eye, Vec3 { x: 0, y: 1000, z: -500 });
    assert_eq!(camera.target, Vec3 { x: 0, y: 0, z: 0 });
    // while helped, scroll produces no motion
    c.is_being_helped = true;
    c.process_mouse_wheel(1000, &mut camera);
    assert_eq!(camera.eye, Vec3 { x: 0, y: 1000, z: -500 });
}

#[test]
fn grid_smallest_cases() {
    let empty = generate_grid(0, 10_000, 700);
    assert_eq!(empty.len(), 0);
    let one = generate_grid(1, 10_000, 700);
    assert_eq!(one.len(), 1);
    assert_eq!(one[0].position, Vec3 { x: 0, y: 0, z: 0 });
    assert_eq!(one[0].rotation_z, 55_000);
    assert_eq!(one[0].scale, 700);
}

#[test]
fn grid_two_by_two() {
    let g = generate_grid(2, 0, 1000);
    assert_eq!(g.len(), 4);
    assert_eq!(g[0].position, Vec3 { x: -3000, y: 0, z: -3000 });
    assert_eq!(g[1].position, Vec3 { x: 0, y: 0, z: -3000 });
    assert_eq!(g[2].position, Vec3 { x: -3000, y: 0, z: 0 });
    assert_eq!(g[3].position, Vec3 { x: 0, y: 0, z: 0 });
    assert_eq!(g[0].rotation_z, 0);
    assert_eq!(g[1].rotation_z, 0);
    assert_eq!(g[2].rotation_z, 0);
    assert_eq!(g[3].rotation_z, 45_000);
}

#[test]
fn grid_bumps_only_the_origin_instance() {
    // odd dimension: the origin is the middle of the middle row
    let g3 = generate_grid(3, 10_000, 1000);
    assert_eq!(g3.len(), 9);
    assert_eq!(g3[4].position, Vec3 { x: 0, y: 0, z: 0 });
    assert_eq!(g3[4].rotation_z, 55_000);
    let mut i = 0;
    while i < 9 {
        if i != 4 {
            assert_eq!(g3[i].rotation_z, 10_000);
        }
        i += 1;
    }
    assert_eq!(g3[0].position, Vec3 { x: -3000, y: 0, z: -3000 });
    assert_eq!(g3[8].position, Vec3 { x: 3000, y: 0, z: 3000 });
    // even dimension: later instances (same row or later rows) stay unbumped
    let g4 = generate_grid(4, 0, 1000);
    assert_eq!(g4.len(), 16);
    assert_eq!(g4[10].position, Vec3 { x: 0, y: 0, z: 0 });
    assert_eq!(g4[10].rotation_z, 45_000);
    assert_eq!(g4[11].rotation_z, 0);
    assert_eq!(g4[12].rotation_z, 0);
    assert_eq!(g4[15].rotation_z, 0);
}

#[test]
fn material_cycle_returns_to_start() {
    let mut m = test_model(3);
    assert_eq!(m.meshes[0].material, 0);
    m.change_material();
    assert_eq!(m.meshes[0].material, 1);
    m.change_material();
    assert_eq!(m.meshes[0].material, 2);
    m.change_material();
    assert_eq!(m.meshes[0].material, 0);
}

#[test]
fn buffer_mirror_tracks_instances() {
    let mut m = test_model(1);
    assert_eq!(m.instance_buffer.len(), 0);
    m.add_instances(Instance { position: Vec3 { x: 1, y: 2, z: 3 }, rotation_z: 0, scale: 1000 });
    assert_eq!(m.instances.len(), 1);
    assert_eq!(m.instance_buffer.len(), 1);
    let raw = m.instance_buffer[0];
    assert_eq!(raw.m00, 1000);
    assert_eq!(raw.m01, 0);
    assert_eq!(raw.m11, 1000);
    assert_eq!(raw.m22, 1000);
    assert_eq!(raw.m03, 1);
    assert_eq!(raw.m13, 2);
    assert_eq!(raw.m23, 3);
    assert_eq!(raw.m33, 1000);
}

#[test]
fn grabber_locks_and_unlocks() {
    let mut g = MouseGrabber { mouse_locked: false };
    let left = InputEvent::MouseLeft { pressed: true };
    let escape = InputEvent::Keyboard { key: Key::Escape, pressed: true, repeat: false };
    assert!(g.process_events(&left));
    assert!(g.mouse_locked);
    assert!(!g.process_events(&left));
    assert!(g.process_events(&escape));
    assert!(!g.mouse_locked);
    assert!(!g.process_events(&escape));
    assert_eq!(g.process_mouse(800, 600), None);
    g.mouse_locked = true;
    assert_eq!(g.process_mouse(800, 600), Some((400, 300)));
}

#[test]
fn help_swap_shows_overlay() {
    let mut w = test_world();
    w.go_to_help();
    assert!(!w.models[0].visible);
    assert!(w.models[1].visible);
    assert_eq!(w.models[1].instances.len(), 1);
    assert_eq!(w.models[1].instances[0].position, Vec3 { x: 0, y: 0, z: -1000 });
    assert_eq!(w.models[1].instances[0].rotation_z, 270_000);
    assert_eq!(w.models[1].instances[0].scale, 1000);
    let cmds = draw_commands(&w);
    assert_eq!(cmds.len(), 1);
    assert_eq!(cmds[0].model, 1);
    assert_eq!(cmds[0].instance_count, 1);
}

#[test]
fn scene_update_and_input() {
    let mut s = State::new(test_world(), 800, 600);
    assert!(!s.input(&InputEvent::Other));
    assert!(s.input(&InputEvent::Keyboard { key: Key::W, pressed: true, repeat: false }));
    assert!(s.camera_controller.is_forward_pressed);
    s.update();
    assert_eq!(s.camera.eye, Vec3 { x: 0, y: 0, z: 2000 });
    s.process_mouse_wheel(&ScrollDelta::Pixel(10, 10));
    assert_eq!(s.camera.eye, Vec3 { x: 0, y: 0, z: 2000 });
    assert_eq!(s.process_mouse_movement(100, 0), None);
}
