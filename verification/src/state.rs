//! Per-window scene state: the camera, its controller, the world and the
//! cursor grabber, stepped once per frame. Every input event is handed
//! to all three stateful consumers; handling is advisory and no consumer
//! suppresses delivery to the others.

pub mod camera;
pub mod camera_controller;
pub mod mouse_grabber;
pub mod world;

use vstd::prelude::*;

use crate::input::{InputEvent, ScrollDelta};
use crate::math::{clamp_i64, spec_clamp, spec_vec3, Vec3};
use crate::state::camera::{Camera, CameraUniform, ASPECT_MAX, ASPECT_MIN};
use crate::state::camera_controller::{
    spec_controller_step, spec_process_mouse, spec_process_mouse_wheel, spec_update_camera,
    CameraController, MOUSE_DELTA_LIMIT, SCROLL_DELTA_LIMIT,
};
use crate::state::mouse_grabber::{spec_grabber_step, MouseGrabber};
use crate::state::world::{
    spec_angle_after, spec_count_after, spec_grid, spec_help_instance, spec_recolor_edge,
    spec_scale_after, spec_world_changed, spec_world_step, World,
};

verus! {

/// The movement speed a fresh scene's controller starts with
/// (milliunits per frame).
pub const DEFAULT_SPEED: i64 = 50;

/// A scroll delta the scene accepts without loss.
pub open spec fn spec_scroll_delta_ok(delta: ScrollDelta) -> bool {
    match delta {
        ScrollDelta::Line(s) => -SCROLL_DELTA_LIMIT <= s <= SCROLL_DELTA_LIMIT,
        ScrollDelta::Pixel(_, _) => true,
    }
}

/// The state of one window's scene.
pub struct State {
    /// Window size in pixels.
    pub width: u32,
    pub height: u32,
    pub camera: Camera,
    pub camera_uniform: CameraUniform,
    pub camera_controller: CameraController,
    pub world: World,
    pub mouse_grabber: MouseGrabber,
}

impl State {
    pub open spec fn wf(self) -> bool {
        &&& self.camera.wf()
        &&& self.camera_controller.wf()
        &&& self.world.wf()
    }

    /// A fresh scene over a loaded world: the camera one unit up and two
    /// units back, looking at the origin, with a quarter-turn-and-a-bit
    /// less field of view, and the cursor unlocked. The aspect ratio is
    /// the window's, clamped to the camera's usable range.
    pub fn new(world: World, width: u32, height: u32) -> (r: State)
        requires
            world.wf(),
            1 <= height,
        ensures
            r.width == width && r.height == height,
            r.camera.eye == spec_vec3(0, 1000, 2000),
            r.camera.target == spec_vec3(0, 0, 0),
            r.camera.up == spec_vec3(0, 1000, 0),
            r.camera.aspect == spec_clamp(
                (width as int) * 1000 / (height as int),
                ASPECT_MIN as int,
                ASPECT_MAX as int,
            ),
            r.camera.fovy == 45_000,
            r.camera.znear == 100,
            r.camera.zfar == 100_000,
            r.camera_controller == camera_controller::spec_controller_new(DEFAULT_SPEED),
            r.camera_uniform.view_proj == camera::spec_view_proj(r.camera),
            !r.mouse_grabber.mouse_locked,
            r.world == world,
            r.wf(),
    {
        let wi: i64 = (width as i64) * 1000;
        let hi: i64 = height as i64;
        let aspect: i64 = clamp_i64(crate::math::div_floor(wi, hi), ASPECT_MIN, ASPECT_MAX);
        let camera = Camera {
            eye: Vec3 { x: 0, y: 1000, z: 2000 },
            target: Vec3 { x: 0, y: 0, z: 0 },
            up: Vec3 { x: 0, y: 1000, z: 0 },
            aspect,
            fovy: 45_000,
            znear: 100,
            zfar: 100_000,
        };
        let mut camera_uniform = CameraUniform::new();
        camera_uniform.update_view_proj(&camera);
        let camera_controller = CameraController::new(DEFAULT_SPEED);
        let mouse_grabber = MouseGrabber { mouse_locked: false };
        State { width, height, camera, camera_uniform, camera_controller, world, mouse_grabber }
    }

    /// Record a window resize; degenerate sizes are ignored.
    pub fn resize(&mut self, width: u32, height: u32)
        ensures
            width > 0 && height > 0 ==> final(self).width == width && final(self).height == height,
            !(width > 0 && height > 0) ==> final(self).width == old(self).width && final(self).height == old(self).height,
            *final(self) == (State { width: final(self).width, height: final(self).height, ..*old(self) }),
    {
        if width > 0 && height > 0 {
            self.width = width;
            self.height = height;
        }
    }

    /// Hand one window event to the cursor grabber, the camera
    /// controller and the world, in that order; all three are always
    /// consulted, and the event counts as handled if any of them
    /// handled it.
    pub fn input(&mut self, event: &InputEvent) -> (handled: bool)
        requires
            old(self).wf(),
        ensures
            final(self).mouse_grabber == spec_grabber_step(old(self).mouse_grabber, *event).0,
            final(self).camera_controller == spec_controller_step(
                old(self).camera_controller,
                *event,
            ).0,
            final(self).world == spec_world_step(old(self).world, *event).0,
            handled == (spec_grabber_step(old(self).mouse_grabber, *event).1
                || spec_controller_step(old(self).camera_controller, *event).1 || spec_world_step(
                old(self).world,
                *event,
            ).1),
            final(self).camera == old(self).camera,
            final(self).camera_uniform == old(self).camera_uniform,
            final(self).width == old(self).width && final(self).height == old(self).height,
            final(self).wf(),
    {
        let mut result: bool = self.mouse_grabber.process_events(event);
        result = self.camera_controller.process_events(event) || result;
        result = self.world.process_events(event) || result;
        result
    }

    /// Forward a relative mouse move to the controller while the cursor
    /// is locked, and return where the grabber wants the cursor
    /// re-centered (the window's middle, while locked).
    pub fn process_mouse_movement(&mut self, delta_x: i64, delta_y: i64) -> (recenter: Option<
        (u32, u32),
    >)
        requires
            old(self).wf(),
            -MOUSE_DELTA_LIMIT <= delta_x <= MOUSE_DELTA_LIMIT,
            -MOUSE_DELTA_LIMIT <= delta_y <= MOUSE_DELTA_LIMIT,
        ensures
            old(self).mouse_grabber.mouse_locked ==> final(self).camera_controller
                == spec_process_mouse(
                old(self).camera_controller,
                delta_x as int,
                delta_y as int,
            ),
            !old(self).mouse_grabber.mouse_locked ==> final(self).camera_controller == old(self).camera_controller,
            old(self).mouse_grabber.mouse_locked ==> recenter == Some(
                (old(self).width / 2, old(self).height / 2),
            ),
            !old(self).mouse_grabber.mouse_locked ==> recenter is None,
            final(self).mouse_grabber == old(self).mouse_grabber,
            final(self).camera == old(self).camera,
            final(self).world == old(self).world,
            final(self).wf(),
    {
        if self.mouse_grabber.mouse_locked {
            self.camera_controller.process_mouse(delta_x, delta_y);
        }
        self.mouse_grabber.process_mouse(self.width, self.height)
    }

    /// Forward a scroll-wheel event: line deltas move the camera while
    /// the cursor is locked, pixel deltas are accepted but produce no
    /// motion.
    pub fn process_mouse_wheel(&mut self, delta: &ScrollDelta)
        requires
            old(self).wf(),
            spec_scroll_delta_ok(*delta),
        ensures
            ({
                match *delta {
                    ScrollDelta::Line(s) => {
                        if old(self).mouse_grabber.mouse_locked {
                            final(self).camera == spec_process_mouse_wheel(
                                old(self).camera_controller,
                                old(self).camera,
                                s as int,
                            )
                        } else {
                            final(self).camera == old(self).camera
                        }
                    },
                    ScrollDelta::Pixel(_, _) => final(self).camera == old(self).camera,
                }
            }),
            final(self).camera_controller == old(self).camera_controller,
            final(self).world == old(self).world,
            final(self).mouse_grabber == old(self).mouse_grabber,
            final(self).wf(),
    {
        if self.mouse_grabber.mouse_locked {
            match *delta {
                ScrollDelta::Line(scroll) => {
                    self.camera_controller.process_mouse_wheel(scroll, &mut self.camera);
                },
                ScrollDelta::Pixel(_, _) => {},
            }
        }
    }

    /// One per-frame update: the world advances and applies its help
    /// swap, the controller recomputes the camera pose, and the uniform
    /// mirrors the new view-projection matrix. While the help overlay is
    /// up, the camera pose is forced to the overlay view.
    pub fn update(&mut self)
        requires
            old(self).wf(),
        ensures
            (final(self).camera_controller, final(self).camera) == spec_update_camera(
                old(self).camera_controller,
                old(self).camera,
            ),
            final(self).camera_uniform.view_proj == camera::spec_view_proj(final(self).camera),
            old(self).camera_controller.is_being_helped ==> final(self).camera.eye == spec_vec3(
                0,
                0,
                2000,
            ) && final(self).camera.target == spec_vec3(0, 0, 0),
            final(self).camera_controller.is_being_helped == old(self).camera_controller.is_being_helped,
            final(self).world.is_being_helped == old(self).world.is_being_helped,
            final(self).mouse_grabber == old(self).mouse_grabber,
            final(self).width == old(self).width && final(self).height == old(self).height,
            // The world advances by exactly one frame step followed by the
            // help swap. While helped, the frame leaves the world's scalars
            // alone and forces the overlay: the grid model hidden, the
            // overlay model visible with the single help instance.
            old(self).world.is_being_helped ==> ({
                let w0 = old(self).world;
                let w2 = final(self).world;
                &&& w2.num_instances == w0.num_instances
                &&& w2.cur_angle == w0.cur_angle
                &&& w2.cur_scale == w0.cur_scale
                &&& w2.is_upscalling == w0.is_upscalling
                &&& w2.initialized == w0.initialized
                &&& w2.is_help_just_pressed == w0.is_help_just_pressed
                &&& w2.models@.len() == w0.models@.len()
                &&& w2.models@[1].instances@ == seq![spec_help_instance()]
                &&& !w2.models@[0].visible
                &&& w2.models@[1].visible
                &&& w2.models@[0].instances == w0.models@[0].instances
                &&& w2.models@[0].meshes == w0.models@[0].meshes
            }),
            // While navigating, the counts, angle and scale advance by the
            // world's per-frame functions; a regeneration condition replaces
            // the grid model's instances with the freshly generated grid; a
            // recolor edge cycles the grid model's material; and the one-shot
            // exit from help flips the visibility back once.
            !old(self).world.is_being_helped ==> ({
                let w0 = old(self).world;
                let w2 = final(self).world;
                &&& w2.num_instances == spec_count_after(w0)
                &&& w2.cur_angle == spec_angle_after(w0, spec_count_after(w0))
                &&& w2.cur_scale == spec_scale_after(w0).0
                &&& w2.is_upscalling == spec_scale_after(w0).1
                &&& !w2.initialized
                &&& !w2.is_help_just_pressed
                &&& w2.models@.len() == w0.models@.len()
                &&& (spec_world_changed(w0) ==> w2.models@[0].instances@ == spec_grid(
                    spec_count_after(w0) as int,
                    spec_angle_after(w0, spec_count_after(w0)),
                    spec_scale_after(w0).0,
                ))
                &&& (!spec_world_changed(w0) ==> w2.models@[0].instances
                    == w0.models@[0].instances)
                &&& w2.models@[0].meshes@.len() == w0.models@[0].meshes@.len()
                &&& w2.models@[0].meshes@[0].material == (if spec_recolor_edge(w0) {
                    (w0.models@[0].meshes@[0].material + 1) % (
                    w0.models@[0].materials@.len() as int)
                } else {
                    w0.models@[0].meshes@[0].material as int
                })
                &&& (w0.is_help_just_pressed ==> w2.models@[0].visible
                    && !w2.models@[1].visible)
                &&& (!w0.is_help_just_pressed ==> w2.models@[0].visible
                    == w0.models@[0].visible && w2.models@[1].visible
                    == w0.models@[1].visible)
            }),
            final(self).wf(),
    {
        self.world.update_world();
        self.world.go_to_help();
        self.camera_controller.update_camera(&mut self.camera);
        self.camera_uniform.update_view_proj(&self.camera);
    }
}

} // verus!
