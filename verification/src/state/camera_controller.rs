//! The camera controller: latches for movement and look keys, the
//! help-overlay mode with its saved pose, and the per-frame integration
//! of yaw, pitch and position into the camera.
//!
//! Angles are millidegrees. The yaw stays within a full turn either way
//! by the wrap rule of `spec_wrap_yaw`; the pitch is clamped to
//! `[-PITCH_LIMIT, PITCH_LIMIT]` so the camera never flips over.

use vstd::prelude::*;

use crate::input::{InputEvent, Key};
use crate::math::{
    clamp_i64, cos_milli, cross_milli, div_floor, lemma_cross_bound, lemma_div_range,
    lemma_mul_bound, normalized, sin_milli, spec_clamp, spec_cos_milli, spec_cross_milli,
    spec_normalized, spec_sin_milli, spec_vec3, Vec3, FULL_TURN,
};
use crate::state::camera::{Camera, COORD_LIMIT, UP_LIMIT};

verus! {

/// Largest movement speed, in milliunits per frame.
pub const SPEED_LIMIT: i64 = 1_000_000;

/// Pitch never leaves `[-PITCH_LIMIT, PITCH_LIMIT]` (millidegrees).
pub const PITCH_LIMIT: i64 = 89_000;

/// Look rotation per frame from a held arrow key, in millidegrees.
pub const ROTATION_STEP: i64 = 500;

/// Yaw gained per millipixel of mouse motion, in thousandths of a
/// millidegree (a tenth of a degree per pixel).
pub const SENSITIVITY: i64 = 100;

/// Largest mouse delta accepted in one event, in millipixels: at the
/// fixed sensitivity this caps one event's rotation at a full turn,
/// which keeps the yaw wrap rule closed over its range.
pub const MOUSE_DELTA_LIMIT: i64 = 3_600_000;

/// Scroll speed factor: one scroll line moves the eye fifty speed-steps
/// along the view direction.
pub const SCROLL_FACTOR: i64 = 50;

/// Largest scroll delta accepted in one event, in thousandths of a line.
pub const SCROLL_DELTA_LIMIT: i64 = 1_000_000_000;

/// Controls for the camera: key latches, mouse-driven angles, and the
/// help-overlay mode with its saved pose.
#[derive(Clone, Copy, PartialEq, Eq, Structural, Debug)]
pub struct CameraController {
    /// Movement per frame, in milliunits.
    pub speed: i64,
    /// Movement latches.
    pub is_forward_pressed: bool,
    pub is_backward_pressed: bool,
    pub is_left_pressed: bool,
    pub is_right_pressed: bool,
    pub is_up_pressed: bool,
    pub is_down_pressed: bool,
    /// Look latches (arrow keys).
    pub is_looking_left: bool,
    pub is_looking_right: bool,
    pub is_looking_up: bool,
    pub is_looking_down: bool,
    /// Help-overlay controls.
    pub is_h_pressed: bool,
    pub is_being_helped: bool,
    pub is_h_just_pressed: bool,
    /// Saved camera pose, refreshed every navigating frame.
    pub eyecpy: Vec3,
    pub targetcpy: Vec3,
    /// Left/right rotation, in millidegrees.
    pub yaw: i64,
    /// Up/down rotation, in millidegrees.
    pub pitch: i64,
}

impl CameraController {
    /// Range bounds every operation preserves: the pitch clamp, the yaw
    /// wrap range, and a saved pose inside the world's coordinate range.
    pub open spec fn wf(self) -> bool {
        &&& 0 <= self.speed <= SPEED_LIMIT
        &&& -PITCH_LIMIT <= self.pitch <= PITCH_LIMIT
        &&& -FULL_TURN <= self.yaw <= FULL_TURN
        &&& self.eyecpy.abs_within(COORD_LIMIT as int)
        &&& self.targetcpy.abs_within(COORD_LIMIT as int + 1000)
    }
}

/// The initial controller: helped, looking along the negative Z axis,
/// with the default pose saved.
pub open spec fn spec_controller_new(speed: i64) -> CameraController {
    CameraController {
        speed,
        is_forward_pressed: false,
        is_backward_pressed: false,
        is_left_pressed: false,
        is_right_pressed: false,
        is_up_pressed: false,
        is_down_pressed: false,
        is_looking_left: false,
        is_looking_right: false,
        is_looking_up: false,
        is_looking_down: false,
        is_h_pressed: false,
        is_being_helped: true,
        is_h_just_pressed: false,
        eyecpy: spec_vec3(0, 1000, 2000),
        targetcpy: spec_vec3(0, 0, 0),
        yaw: -90_000i64,
        pitch: 0,
    }
}

/// Whether the controller reacts to a key at all.
pub open spec fn spec_controller_handles(key: Key) -> bool {
    ||| key == Key::W
    ||| key == Key::A
    ||| key == Key::S
    ||| key == Key::D
    ||| key == Key::Space
    ||| key == Key::ShiftLeft
    ||| key == Key::ArrowLeft
    ||| key == Key::ArrowRight
    ||| key == Key::ArrowUp
    ||| key == Key::ArrowDown
    ||| key == Key::H
}

/// The effect of one non-repeated key transition: each key updates
/// exactly one latch. The help key toggles the mode on each press; a
/// press that leaves the overlay sets the one-shot restore marker.
pub open spec fn spec_controller_key(c: CameraController, key: Key, pressed: bool) -> (
    CameraController,
    bool,
) {
    (
        CameraController {
            is_forward_pressed: if key == Key::W { pressed } else { c.is_forward_pressed },
            is_left_pressed: if key == Key::A { pressed } else { c.is_left_pressed },
            is_backward_pressed: if key == Key::S { pressed } else { c.is_backward_pressed },
            is_right_pressed: if key == Key::D { pressed } else { c.is_right_pressed },
            is_up_pressed: if key == Key::Space { pressed } else { c.is_up_pressed },
            is_down_pressed: if key == Key::ShiftLeft { pressed } else { c.is_down_pressed },
            is_looking_left: if key == Key::ArrowLeft { pressed } else { c.is_looking_left },
            is_looking_right: if key == Key::ArrowRight { pressed } else { c.is_looking_right },
            is_looking_up: if key == Key::ArrowUp { pressed } else { c.is_looking_up },
            is_looking_down: if key == Key::ArrowDown { pressed } else { c.is_looking_down },
            is_h_pressed: if key == Key::H { pressed } else { c.is_h_pressed },
            is_being_helped: if key == Key::H && pressed {
                !c.is_being_helped
            } else {
                c.is_being_helped
            },
            is_h_just_pressed: if key == Key::H && pressed && c.is_being_helped {
                true
            } else {
                c.is_h_just_pressed
            },
            ..c
        },
        spec_controller_handles(key),
    )
}

/// One step of the controller on a window event: key repeats and events
/// other than key transitions are ignored.
pub open spec fn spec_controller_step(c: CameraController, event: InputEvent) -> (
    CameraController,
    bool,
) {
    match event {
        InputEvent::Keyboard { key, pressed, repeat } => {
            if !repeat {
                spec_controller_key(c, key, pressed)
            } else {
                (c, false)
            }
        },
        _ => (c, false),
    }
}

/// The yaw wrap rule: one full turn is folded back, anything already
/// within a turn either way is unchanged.
pub open spec fn spec_wrap_yaw(y: int) -> int {
    if y > FULL_TURN as int {
        y - FULL_TURN as int
    } else if y < -FULL_TURN as int {
        y + FULL_TURN as int
    } else {
        y
    }
}

/// Mouse-delta integration, active only while navigating: yaw gains
/// `dx`, pitch loses `dy` (both scaled by the sensitivity), then the yaw
/// is wrapped and the pitch clamped.
pub open spec fn spec_process_mouse(c: CameraController, dx: int, dy: int) -> CameraController {
    if !c.is_being_helped {
        let yaw1 = c.yaw + dx * SENSITIVITY / 1000;
        let pitch1 = spec_clamp(
            c.pitch - dy * SENSITIVITY / 1000,
            -PITCH_LIMIT as int,
            PITCH_LIMIT as int,
        );
        CameraController { yaw: spec_wrap_yaw(yaw1) as i64, pitch: pitch1 as i64, ..c }
    } else {
        c
    }
}

/// The spherical view direction for a yaw and pitch, as a (milli) unit
/// vector.
#[verifier::opaque]
pub open spec fn spec_front(yaw: int, pitch: int) -> Vec3 {
    spec_normalized(
        spec_vec3(
            spec_cos_milli(yaw) * spec_cos_milli(pitch) / 1000,
            spec_sin_milli(pitch),
            spec_sin_milli(yaw) * spec_cos_milli(pitch) / 1000,
        ),
    )
}

/// Clamp a position componentwise into the world's coordinate range.
pub open spec fn spec_clamp_coord(v: int) -> int {
    spec_clamp(v, -COORD_LIMIT as int, COORD_LIMIT as int)
}

/// The help-mode camera override: while helped the pose is forced; on
/// the first navigating frame after leaving help the saved pose is
/// restored once; while navigating the current pose is saved every
/// frame.
pub open spec fn spec_go_to_help(c: CameraController, cam: Camera) -> (CameraController, Camera) {
    if c.is_being_helped {
        (c, Camera { eye: spec_vec3(0, 0, 2000), target: spec_vec3(0, 0, 0), ..cam })
    } else {
        let c1 = if c.is_h_just_pressed {
            CameraController { is_h_just_pressed: false, ..c }
        } else {
            c
        };
        let cam1 = if c.is_h_just_pressed {
            Camera { eye: c.eyecpy, target: c.targetcpy, ..cam }
        } else {
            cam
        };
        (CameraController { eyecpy: cam1.eye, targetcpy: cam1.target, ..c1 }, cam1)
    }
}

/// The eye after one frame of held movement keys: the front and side
/// steps scaled by the speed, an unscaled vertical step, and the result
/// clamped into the coordinate range.
#[verifier::opaque]
pub open spec fn spec_moved_eye(c: CameraController, front: Vec3, right: Vec3, eye: Vec3) -> Vec3 {
    let fx = front.x * c.speed / 1000;
    let fy = front.y * c.speed / 1000;
    let fz = front.z * c.speed / 1000;
    let rx = right.x * c.speed / 1000;
    let ry = right.y * c.speed / 1000;
    let rz = right.z * c.speed / 1000;
    let ex = eye.x + (if c.is_forward_pressed { fx } else { 0 }) - (
    if c.is_backward_pressed { fx } else { 0 }) + (if c.is_right_pressed { rx } else { 0 }) - (
    if c.is_left_pressed { rx } else { 0 });
    let ey = eye.y + (if c.is_forward_pressed { fy } else { 0 }) - (
    if c.is_backward_pressed { fy } else { 0 }) + (if c.is_right_pressed { ry } else { 0 }) - (
    if c.is_left_pressed { ry } else { 0 }) + (if c.is_up_pressed { c.speed as int } else { 0 }) - (
    if c.is_down_pressed { c.speed as int } else { 0 });
    let ez = eye.z + (if c.is_forward_pressed { fz } else { 0 }) - (
    if c.is_backward_pressed { fz } else { 0 }) + (if c.is_right_pressed { rz } else { 0 }) - (
    if c.is_left_pressed { rz } else { 0 });
    spec_vec3(spec_clamp_coord(ex), spec_clamp_coord(ey), spec_clamp_coord(ez))
}

/// One per-frame camera update: the help override first; then, only
/// while navigating, arrow-key look rotation (yaw wrapped, pitch
/// reclamped), movement along the recomputed front and right directions,
/// and the target set one front-step ahead of the eye.
pub open spec fn spec_navigate(c1: CameraController, cam1: Camera) -> (CameraController, Camera) {
    let yaw_d = (if c1.is_looking_left { -ROTATION_STEP as int } else { 0 }) + (
    if c1.is_looking_right { ROTATION_STEP as int } else { 0 });
    let pitch_d = (if c1.is_looking_up { ROTATION_STEP as int } else { 0 }) + (
    if c1.is_looking_down { -ROTATION_STEP as int } else { 0 });
    let yaw2 = spec_wrap_yaw(c1.yaw + yaw_d);
    let pitch2 = spec_clamp(c1.pitch + pitch_d, -PITCH_LIMIT as int, PITCH_LIMIT as int);
    let front = spec_front(yaw2, pitch2);
    let right = spec_normalized(spec_cross_milli(front, cam1.up));
    let eye2 = spec_moved_eye(c1, front, right, cam1.eye);
    let target2 = spec_vec3(eye2.x + front.x, eye2.y + front.y, eye2.z + front.z);
    (
        CameraController { yaw: yaw2 as i64, pitch: pitch2 as i64, ..c1 },
        Camera { eye: eye2, target: target2, ..cam1 },
    )
}

/// One per-frame camera update: the help override first; then, only
/// while navigating, one navigation step.
pub open spec fn spec_update_camera(c: CameraController, cam: Camera) -> (
    CameraController,
    Camera,
) {
    let (c1, cam1) = spec_go_to_help(c, cam);
    if !c1.is_being_helped {
        spec_navigate(c1, cam1)
    } else {
        (c1, cam1)
    }
}

/// The scroll rule: while navigating, the eye moves along the view
/// direction by the line delta times the speed times `SCROLL_FACTOR`,
/// clamped into the coordinate range; while helped nothing moves.
pub open spec fn spec_process_mouse_wheel(c: CameraController, cam: Camera, scroll: int) -> Camera {
    if !c.is_being_helped {
        let front = spec_front(c.yaw as int, c.pitch as int);
        let dx = scroll * front.x / 1000 * (c.speed * SCROLL_FACTOR) / 1000;
        let dy = scroll * front.y / 1000 * (c.speed * SCROLL_FACTOR) / 1000;
        let dz = scroll * front.z / 1000 * (c.speed * SCROLL_FACTOR) / 1000;
        Camera {
            eye: spec_vec3(
                spec_clamp_coord(cam.eye.x + dx),
                spec_clamp_coord(cam.eye.y + dy),
                spec_clamp_coord(cam.eye.z + dz),
            ),
            ..cam
        }
    } else {
        cam
    }
}

/// One non-repeated key transition applied to the controller's latches.
#[verifier::rlimit(100)]
fn apply_key(c0: CameraController, key: Key, pressed: bool) -> (r: (CameraController, bool))
    ensures
        r == spec_controller_key(c0, key, pressed),
        r.0.yaw == c0.yaw && r.0.pitch == c0.pitch && r.0.speed == c0.speed,
        r.0.eyecpy == c0.eyecpy && r.0.targetcpy == c0.targetcpy,
{
    let mut c: CameraController = c0;
    match key {
        Key::W => {
            c.is_forward_pressed = pressed;
            proof {
                assert(c == spec_controller_key(c0, key, pressed).0);
            }
            return (c, true);
        },
        Key::A => {
            c.is_left_pressed = pressed;
            proof {
                assert(c == spec_controller_key(c0, key, pressed).0);
            }
            return (c, true);
        },
        Key::S => {
            c.is_backward_pressed = pressed;
            proof {
                assert(c == spec_controller_key(c0, key, pressed).0);
            }
            return (c, true);
        },
        Key::D => {
            c.is_right_pressed = pressed;
            proof {
                assert(c == spec_controller_key(c0, key, pressed).0);
            }
            return (c, true);
        },
        Key::Space => {
            c.is_up_pressed = pressed;
            proof {
                assert(c == spec_controller_key(c0, key, pressed).0);
            }
            return (c, true);
        },
        Key::ShiftLeft => {
            c.is_down_pressed = pressed;
            proof {
                assert(c == spec_controller_key(c0, key, pressed).0);
            }
            return (c, true);
        },
        Key::ArrowLeft => {
            c.is_looking_left = pressed;
            proof {
                assert(c == spec_controller_key(c0, key, pressed).0);
            }
            return (c, true);
        },
        Key::ArrowRight => {
            c.is_looking_right = pressed;
            proof {
                assert(c == spec_controller_key(c0, key, pressed).0);
            }
            return (c, true);
        },
        Key::ArrowUp => {
            c.is_looking_up = pressed;
            proof {
                assert(c == spec_controller_key(c0, key, pressed).0);
            }
            return (c, true);
        },
        Key::ArrowDown => {
            c.is_looking_down = pressed;
            proof {
                assert(c == spec_controller_key(c0, key, pressed).0);
            }
            return (c, true);
        },
        Key::H => {
            c.is_h_pressed = pressed;
            if pressed && !c.is_being_helped {
                c.is_being_helped = true;
            } else if pressed && c.is_being_helped {
                c.is_h_just_pressed = true;
                c.is_being_helped = false;
            }
            proof {
                assert(c == spec_controller_key(c0, key, pressed).0);
            }
            return (c, true);
        },
        _ => {
            proof {
                assert(c == spec_controller_key(c0, key, pressed).0);
            }
            return (c, false);
        },
    }
}

/// Law: on every mouse event while navigating, the yaw obeys the wrap
/// rule for any delta whatsoever: the scaled delta is added and one
/// full turn is folded back where the sum left one. The only hypothesis
/// is that the folded value fits the stored integer width.
pub proof fn lemma_mouse_yaw_wrap_law(c: CameraController, dx: int, dy: int)
    requires
        !c.is_being_helped,
        i64::MIN <= spec_wrap_yaw(c.yaw + dx * SENSITIVITY / 1000) <= i64::MAX,
    ensures
        spec_process_mouse(c, dx, dy).yaw == spec_wrap_yaw(c.yaw + dx * SENSITIVITY / 1000),
{
}

/// Law: after every mouse event while navigating the pitch lies within
/// its limits, for any deltas and any prior pitch; a helped event
/// leaves the pitch untouched.
pub proof fn lemma_mouse_pitch_clamped(c: CameraController, dx: int, dy: int)
    requires
        !c.is_being_helped,
    ensures
        -PITCH_LIMIT <= spec_process_mouse(c, dx, dy).pitch <= PITCH_LIMIT,
{
}

/// Law: the yaw wrap rule keeps the yaw within a full turn either way,
/// as long as one event's delta is itself at most a full turn.
pub proof fn lemma_yaw_wrap_stays_in_range(y: int, d: int)
    requires
        -FULL_TURN <= y <= FULL_TURN,
        -FULL_TURN <= d <= FULL_TURN,
    ensures
        -FULL_TURN <= spec_wrap_yaw(y + d) <= FULL_TURN,
{
}

/// Law: while helped, the per-frame update forces the camera pose to
/// the overlay view — eye two units back, target at the origin —
/// regardless of any prior state.
pub proof fn lemma_helped_pose_forced(c: CameraController, cam: Camera)
    requires
        c.is_being_helped,
    ensures
        spec_update_camera(c, cam).1.eye == spec_vec3(0, 0, 2000),
        spec_update_camera(c, cam).1.target == spec_vec3(0, 0, 0),
{
}

/// Law: a helped frame changes nothing in the controller — in
/// particular the saved pose and the view angles survive any number of
/// frames spent in the help overlay.
pub proof fn lemma_helped_frame_preserves_controller(c: CameraController, cam: Camera)
    requires
        c.is_being_helped,
    ensures
        spec_update_camera(c, cam).0 == c,
{
}

/// Law: entering the help overlay and leaving it restores the camera to
/// exactly the saved navigating pose. The hypotheses name the inputs on
/// which the restoration is exact: no movement or look key is held
/// during the frame that restores, and the saved target is one
/// front-step ahead of the saved eye, which is how every navigating
/// frame records it.
#[verifier::rlimit(100)]
pub proof fn lemma_help_round_trip(c0: CameraController, cam0: Camera, press_h: InputEvent)
    requires
        c0.wf(),
        !c0.is_being_helped,
        !c0.is_forward_pressed && !c0.is_backward_pressed,
        !c0.is_left_pressed && !c0.is_right_pressed,
        !c0.is_up_pressed && !c0.is_down_pressed,
        !c0.is_looking_left && !c0.is_looking_right,
        !c0.is_looking_up && !c0.is_looking_down,
        !c0.is_h_just_pressed,
        c0.targetcpy == spec_vec3(
            c0.eyecpy.x + spec_front(c0.yaw as int, c0.pitch as int).x,
            c0.eyecpy.y + spec_front(c0.yaw as int, c0.pitch as int).y,
            c0.eyecpy.z + spec_front(c0.yaw as int, c0.pitch as int).z,
        ),
        press_h == (InputEvent::Keyboard { key: Key::H, pressed: true, repeat: false }),
    ensures
        ({
            let (c1, h1) = spec_controller_step(c0, press_h);  // enter the overlay
            let (c2, cam2) = spec_update_camera(c1, cam0);  // one helped frame
            let (c3, h3) = spec_controller_step(c2, press_h);  // leave the overlay
            let (c4, cam4) = spec_update_camera(c3, cam2);  // first navigating frame
            cam4.eye == c0.eyecpy && cam4.target == c0.targetcpy
        }),
{
    let (c1, h1) = spec_controller_step(c0, press_h);
    assert(c1.is_being_helped && c1.eyecpy == c0.eyecpy && c1.targetcpy == c0.targetcpy);
    let (c2, cam2) = spec_update_camera(c1, cam0);
    assert(c2 == c1);
    let (c3, h3) = spec_controller_step(c2, press_h);
    assert(!c3.is_being_helped && c3.is_h_just_pressed);
    assert(c3.eyecpy == c0.eyecpy && c3.targetcpy == c0.targetcpy);
    assert(c3.yaw == c0.yaw && c3.pitch == c0.pitch);
    let (c5, cam5) = spec_go_to_help(c3, cam2);
    assert(cam5.eye == c0.eyecpy && cam5.target == c0.targetcpy);
    assert(!c5.is_being_helped);
    let (c4, cam4) = spec_update_camera(c3, cam2);
    assert((c4, cam4) == spec_navigate(c5, cam5));
    assert(c5.yaw == c0.yaw && c5.pitch == c0.pitch);
    assert(spec_wrap_yaw(c5.yaw + 0) == c0.yaw);
    assert(spec_clamp(c5.pitch + 0, -PITCH_LIMIT as int, PITCH_LIMIT as int) == c0.pitch);
    let front = spec_front(c0.yaw as int, c0.pitch as int);
    let eye2 = spec_moved_eye(c5, front, spec_normalized(spec_cross_milli(front, cam5.up)), cam5.eye);
    assert(eye2 == c0.eyecpy) by {
        reveal(spec_moved_eye);
    }
    assert(cam4.eye == eye2);
    assert(cam4.target == spec_vec3(eye2.x + front.x, eye2.y + front.y, eye2.z + front.z));
}

/// The spherical view direction for a yaw and pitch.
pub fn front_dir(yaw: i64, pitch: i64) -> (r: Vec3)
    requires
        -1_000_000_000 <= yaw <= 1_000_000_000,
        -1_000_000_000 <= pitch <= 1_000_000_000,
    ensures
        r == spec_front(yaw as int, pitch as int),
        r.abs_within(1000),
{
    let cy: i64 = cos_milli(yaw);
    let sy: i64 = sin_milli(yaw);
    let cp: i64 = cos_milli(pitch);
    let sp: i64 = sin_milli(pitch);
    proof {
        reveal(spec_front);
        lemma_mul_bound(cy as int, cp as int, 1000, 1000);
        lemma_mul_bound(sy as int, cp as int, 1000, 1000);
        lemma_div_range(cy as int * cp as int, 1_000_000, 1000);
        lemma_div_range(sy as int * cp as int, 1_000_000, 1000);
        assert(1_000_000int / 1000 == 1000) by {
            vstd::arithmetic::div_mod::lemma_div_by_multiple(1000, 1000);
        }
    }
    let x: i64 = div_floor(cy * cp, 1000);
    let z: i64 = div_floor(sy * cp, 1000);
    normalized(Vec3 { x, y: sp, z })
}

impl CameraController {
    /// A fresh controller with the given movement speed: helped, with
    /// the default pose saved and the view along the negative Z axis.
    pub fn new(speed: i64) -> (r: CameraController)
        requires
            0 <= speed <= SPEED_LIMIT,
        ensures
            r == spec_controller_new(speed),
            r.wf(),
    {
        CameraController {
            speed,
            is_forward_pressed: false,
            is_backward_pressed: false,
            is_left_pressed: false,
            is_right_pressed: false,
            is_up_pressed: false,
            is_down_pressed: false,
            is_looking_left: false,
            is_looking_right: false,
            is_looking_up: false,
            is_looking_down: false,
            is_h_pressed: false,
            is_being_helped: true,
            is_h_just_pressed: false,
            eyecpy: Vec3 { x: 0, y: 1000, z: 2000 },
            targetcpy: Vec3 { x: 0, y: 0, z: 0 },
            yaw: -90_000,
            pitch: 0,
        }
    }

    /// Process one window event: each non-repeated key transition
    /// updates exactly one latch, and the help key toggles the overlay
    /// mode on each press.
    #[verifier::rlimit(100)]
    pub fn process_events(&mut self, event: &InputEvent) -> (handled: bool)
        requires
            old(self).wf(),
        ensures
            (*final(self), handled) == spec_controller_step(*old(self), *event),
            final(self).wf(),
            final(self).yaw == old(self).yaw && final(self).pitch == old(self).pitch,
            final(self).eyecpy == old(self).eyecpy && final(self).targetcpy == old(self).targetcpy,
    {
        match *event {
            InputEvent::Keyboard { key, pressed, repeat: false } => {
                let (c, handled): (CameraController, bool) = apply_key(*self, key, pressed);
                *self = c;
                handled
            },
            _ => false,
        }
    }

    /// Integrate one mouse movement while navigating: the yaw wrap rule
    /// and the pitch clamp are applied on every call.
    #[verifier::rlimit(100)]
    pub fn process_mouse(&mut self, dx: i64, dy: i64)
        requires
            old(self).wf(),
            -MOUSE_DELTA_LIMIT <= dx <= MOUSE_DELTA_LIMIT,
            -MOUSE_DELTA_LIMIT <= dy <= MOUSE_DELTA_LIMIT,
        ensures
            *final(self) == spec_process_mouse(*old(self), dx as int, dy as int),
            final(self).wf(),
            -PITCH_LIMIT <= final(self).pitch <= PITCH_LIMIT,
            !old(self).is_being_helped ==> final(self).yaw == spec_wrap_yaw(
                old(self).yaw + dx * SENSITIVITY / 1000,
            ),
    {
        if !self.is_being_helped {
            let dyaw: i64 = div_floor(dx * SENSITIVITY, 1000);
            let dpitch: i64 = div_floor(dy * SENSITIVITY, 1000);
            proof {
                lemma_div_range(dx as int * SENSITIVITY as int, 360_000_000, 1000);
                lemma_div_range(dy as int * SENSITIVITY as int, 360_000_000, 1000);
                assert(360_000_000int / 1000 == 360_000) by {
                    vstd::arithmetic::div_mod::lemma_div_by_multiple(360_000, 1000);
                }
            }
            self.yaw = self.yaw + dyaw;
            if self.yaw > FULL_TURN {
                self.yaw = self.yaw - FULL_TURN;
            } else if self.yaw < -FULL_TURN {
                self.yaw = self.yaw + FULL_TURN;
            }
            self.pitch = clamp_i64(self.pitch - dpitch, -PITCH_LIMIT, PITCH_LIMIT);
        }
    }

    /// Move the eye along the view direction by the scroll delta, only
    /// while navigating.
    pub fn process_mouse_wheel(&mut self, scroll: i64, camera: &mut Camera)
        requires
            old(self).wf(),
            old(camera).wf(),
            -SCROLL_DELTA_LIMIT <= scroll <= SCROLL_DELTA_LIMIT,
        ensures
            *final(self) == *old(self),
            *final(camera) == spec_process_mouse_wheel(*old(self), *old(camera), scroll as int),
            final(camera).wf(),
    {
        if !self.is_being_helped {
            let front: Vec3 = front_dir(self.yaw, self.pitch);
            let step: i64 = self.speed * SCROLL_FACTOR;
            proof {
                lemma_mul_bound(scroll as int, front.x as int, SCROLL_DELTA_LIMIT as int, 1000);
                lemma_mul_bound(scroll as int, front.y as int, SCROLL_DELTA_LIMIT as int, 1000);
                lemma_mul_bound(scroll as int, front.z as int, SCROLL_DELTA_LIMIT as int, 1000);
                lemma_div_range(scroll as int * front.x as int, 1_000_000_000_000, 1000);
                lemma_div_range(scroll as int * front.y as int, 1_000_000_000_000, 1000);
                lemma_div_range(scroll as int * front.z as int, 1_000_000_000_000, 1000);
                assert(1_000_000_000_000int / 1000 == 1_000_000_000) by {
                    vstd::arithmetic::div_mod::lemma_div_by_multiple(1_000_000_000, 1000);
                }
            }
            let sx: i64 = div_floor(scroll * front.x, 1000);
            let sy: i64 = div_floor(scroll * front.y, 1000);
            let sz: i64 = div_floor(scroll * front.z, 1000);
            proof {
                lemma_mul_bound(sx as int, step as int, 1_000_000_001, 50_000_000);
                lemma_mul_bound(sy as int, step as int, 1_000_000_001, 50_000_000);
                lemma_mul_bound(sz as int, step as int, 1_000_000_001, 50_000_000);
                lemma_div_range(sx as int * step as int, 50_000_000_050_000_000, 1000);
                lemma_div_range(sy as int * step as int, 50_000_000_050_000_000, 1000);
                lemma_div_range(sz as int * step as int, 50_000_000_050_000_000, 1000);
                assert(50_000_000_050_000_000int / 1000 == 50_000_000_050_000) by {
                    vstd::arithmetic::div_mod::lemma_div_by_multiple(50_000_000_050_000, 1000);
                }
            }
            let dx: i64 = div_floor(sx * step, 1000);
            let dy: i64 = div_floor(sy * step, 1000);
            let dz: i64 = div_floor(sz * step, 1000);
            camera.eye = Vec3 {
                x: clamp_i64(camera.eye.x + dx, -COORD_LIMIT, COORD_LIMIT),
                y: clamp_i64(camera.eye.y + dy, -COORD_LIMIT, COORD_LIMIT),
                z: clamp_i64(camera.eye.z + dz, -COORD_LIMIT, COORD_LIMIT),
            };
        }
    }

    /// Apply the help-mode pose override (see `spec_go_to_help`).
    pub fn go_to_help(&mut self, camera: &mut Camera)
        requires
            old(self).wf(),
            old(camera).wf(),
        ensures
            (*final(self), *final(camera)) == spec_go_to_help(*old(self), *old(camera)),
            final(self).wf(),
            final(camera).wf(),
            old(self).is_being_helped ==> final(camera).eye == spec_vec3(0, 0, 2000)
                && final(camera).target == spec_vec3(0, 0, 0),
            !old(self).is_being_helped ==> final(self).eyecpy == final(camera).eye
                && final(self).targetcpy == final(camera).target,
    {
        if self.is_being_helped {
            camera.eye = Vec3 { x: 0, y: 0, z: 2000 };
            camera.target = Vec3 { x: 0, y: 0, z: 0 };
        }
        if !self.is_being_helped {
            if self.is_h_just_pressed {
                camera.eye = self.eyecpy;
                camera.target = self.targetcpy;
                self.is_h_just_pressed = false;
            }
            self.eyecpy = camera.eye;
            self.targetcpy = camera.target;
        }
    }

    /// One per-frame update of the camera from the latches (see
    /// `spec_update_camera`). While helped the pose is forced to the
    /// overlay view on every frame, whatever went before.
    pub fn update_camera(&mut self, camera: &mut Camera)
        requires
            old(self).wf(),
            old(camera).wf(),
        ensures
            (*final(self), *final(camera)) == spec_update_camera(*old(self), *old(camera)),
            final(self).wf(),
            final(camera).wf(),
            old(self).is_being_helped ==> final(camera).eye == spec_vec3(0, 0, 2000)
                && final(camera).target == spec_vec3(0, 0, 0),
            final(self).is_being_helped == old(self).is_being_helped,
            -PITCH_LIMIT <= final(self).pitch <= PITCH_LIMIT,
    {
        self.go_to_help(camera);
        if !self.is_being_helped {
            let (c2, cam2): (CameraController, Camera) = navigate(*self, *camera);
            *self = c2;
            *camera = cam2;
        }
    }
}

/// The eye moved by one frame of held movement keys.
#[verifier::rlimit(100)]
fn move_step(c1: CameraController, eye: Vec3, front: Vec3, right: Vec3) -> (r: Vec3)
    requires
        c1.wf(),
        eye.abs_within(COORD_LIMIT as int),
        front.abs_within(1000),
        right.abs_within(1000),
    ensures
        r == spec_moved_eye(c1, front, right, eye),
        r.abs_within(COORD_LIMIT as int),
{
    proof {
        lemma_mul_bound(front.x as int, c1.speed as int, 1000, SPEED_LIMIT as int);
        lemma_mul_bound(front.y as int, c1.speed as int, 1000, SPEED_LIMIT as int);
        lemma_mul_bound(front.z as int, c1.speed as int, 1000, SPEED_LIMIT as int);
        lemma_mul_bound(right.x as int, c1.speed as int, 1000, SPEED_LIMIT as int);
        lemma_mul_bound(right.y as int, c1.speed as int, 1000, SPEED_LIMIT as int);
        lemma_mul_bound(right.z as int, c1.speed as int, 1000, SPEED_LIMIT as int);
        lemma_div_range(front.x as int * c1.speed as int, 1_000_000_000, 1000);
        lemma_div_range(front.y as int * c1.speed as int, 1_000_000_000, 1000);
        lemma_div_range(front.z as int * c1.speed as int, 1_000_000_000, 1000);
        lemma_div_range(right.x as int * c1.speed as int, 1_000_000_000, 1000);
        lemma_div_range(right.y as int * c1.speed as int, 1_000_000_000, 1000);
        lemma_div_range(right.z as int * c1.speed as int, 1_000_000_000, 1000);
        assert(1_000_000_000int / 1000 == 1_000_000) by {
            vstd::arithmetic::div_mod::lemma_div_by_multiple(1_000_000, 1000);
        }
    }
    let fx: i64 = div_floor(front.x * c1.speed, 1000);
    let fy: i64 = div_floor(front.y * c1.speed, 1000);
    let fz: i64 = div_floor(front.z * c1.speed, 1000);
    let rx: i64 = div_floor(right.x * c1.speed, 1000);
    let ry: i64 = div_floor(right.y * c1.speed, 1000);
    let rz: i64 = div_floor(right.z * c1.speed, 1000);
    let ex: i64 = eye.x + (if c1.is_forward_pressed { fx } else { 0 }) - (
    if c1.is_backward_pressed { fx } else { 0 }) + (if c1.is_right_pressed { rx } else { 0 }) - (
    if c1.is_left_pressed { rx } else { 0 });
    let ey: i64 = eye.y + (if c1.is_forward_pressed { fy } else { 0 }) - (
    if c1.is_backward_pressed { fy } else { 0 }) + (if c1.is_right_pressed { ry } else { 0 }) - (
    if c1.is_left_pressed { ry } else { 0 }) + (if c1.is_up_pressed { c1.speed } else { 0 }) - (
    if c1.is_down_pressed { c1.speed } else { 0 });
    let ez: i64 = eye.z + (if c1.is_forward_pressed { fz } else { 0 }) - (
    if c1.is_backward_pressed { fz } else { 0 }) + (if c1.is_right_pressed { rz } else { 0 }) - (
    if c1.is_left_pressed { rz } else { 0 });
    let r = Vec3 {
        x: clamp_i64(ex, -COORD_LIMIT, COORD_LIMIT),
        y: clamp_i64(ey, -COORD_LIMIT, COORD_LIMIT),
        z: clamp_i64(ez, -COORD_LIMIT, COORD_LIMIT),
    };
    proof {
        assert(r == spec_moved_eye(c1, front, right, eye)) by {
            reveal(spec_moved_eye);
        }
    }
    r
}

/// One navigating frame: arrow-key look rotation, movement from the
/// latches, and the target set one front-step ahead of the eye.
#[verifier::rlimit(100)]
fn navigate(c1: CameraController, cam1: Camera) -> (r: (CameraController, Camera))
    requires
        c1.wf(),
        cam1.wf(),
        !c1.is_being_helped,
    ensures
        r == spec_navigate(c1, cam1),
        r.0.wf(),
        r.1.wf(),
        r.0.is_being_helped == c1.is_being_helped,
        -PITCH_LIMIT <= r.0.pitch <= PITCH_LIMIT,
{
    let yaw1: i64 = c1.yaw + (if c1.is_looking_left { -ROTATION_STEP } else { 0 }) + (
    if c1.is_looking_right { ROTATION_STEP } else { 0 });
    let yaw: i64 = if yaw1 > FULL_TURN {
        yaw1 - FULL_TURN
    } else if yaw1 < -FULL_TURN {
        yaw1 + FULL_TURN
    } else {
        yaw1
    };
    let pitch1: i64 = c1.pitch + (if c1.is_looking_up { ROTATION_STEP } else { 0 }) + (
    if c1.is_looking_down { -ROTATION_STEP } else { 0 });
    let pitch: i64 = clamp_i64(pitch1, -PITCH_LIMIT, PITCH_LIMIT);

    let front: Vec3 = front_dir(yaw, pitch);
    let fxu: Vec3 = cross_milli(front, cam1.up);
    proof {
        lemma_cross_bound(front, cam1.up, 1000, UP_LIMIT as int);
        assert((2 * 1000 * (UP_LIMIT as int)) / 1000 == 2_000_000) by {
            assert(2 * 1000 * (UP_LIMIT as int) == 2_000_000 * 1000);
            vstd::arithmetic::div_mod::lemma_div_by_multiple(2_000_000, 1000);
        }
    }
    let right: Vec3 = normalized(fxu);
    let eye2: Vec3 = move_step(c1, cam1.eye, front, right);
    let target2 = Vec3 { x: eye2.x + front.x, y: eye2.y + front.y, z: eye2.z + front.z };
    proof {
        assert(yaw as int == spec_wrap_yaw(
            c1.yaw + ((if c1.is_looking_left {
                -ROTATION_STEP as int
            } else {
                0
            }) + (if c1.is_looking_right {
                ROTATION_STEP as int
            } else {
                0
            })),
        ));
        assert(pitch as int == spec_clamp(
            c1.pitch + ((if c1.is_looking_up {
                ROTATION_STEP as int
            } else {
                0
            }) + (if c1.is_looking_down {
                -ROTATION_STEP as int
            } else {
                0
            })),
            -PITCH_LIMIT as int,
            PITCH_LIMIT as int,
        ));
        assert(front == spec_front(yaw as int, pitch as int));
        assert(right == spec_normalized(spec_cross_milli(front, cam1.up)));
        assert(target2 == spec_vec3(eye2.x + front.x, eye2.y + front.y, eye2.z + front.z));
    }
    (
        CameraController { yaw, pitch, ..c1 },
        Camera { eye: eye2, target: target2, ..cam1 },
    )
}

} // verus!
