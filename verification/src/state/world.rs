//! The world: the procedural instance grid, its animation toggles, and
//! the help-overlay model swap.
//!
//! Four toggle families drive the grid. Count is level-triggered with a
//! floor of zero; spin and resize are edge-triggered toggles with a
//! debounce latch; recolor is level-triggered but cycles the material
//! once per press. Whenever anything relevant changed, the whole
//! instance set is regenerated — never patched.

pub mod instance;
pub mod model;

use vstd::prelude::*;

use self::instance::{Instance, INSTANCE_ANGLE_LIMIT, INSTANCE_SCALE_LIMIT};
use self::model::Model;
use crate::input::{InputEvent, Key};
use crate::math::{mod_floor, spec_vec3, FULL_TURN};

verus! {

/// Grid pitch between neighbouring instances, in milliunits.
pub const SPACE_BETWEEN: i64 = 3000;

/// Base spin advance per frame, in millidegrees.
pub const SPIN_BASE_STEP: i64 = 500;

/// Extra rotation given to the single instance that stands exactly at
/// the origin, in millidegrees.
pub const ORIGIN_BUMP: i64 = 45_000;

/// Ping-pong scale bounds and step, in thousandths.
pub const SCALE_MIN: i64 = 500;

pub const SCALE_MAX: i64 = 1000;

pub const SCALE_STEP: i64 = 10;

/// The grid dimension a fresh world starts with.
pub const INITIAL_GRID: u32 = 5;

/// The pose of the help-overlay instance: one unit into the screen,
/// rotated a three-quarter turn about Z, unscaled.
pub open spec fn spec_help_instance() -> Instance {
    Instance { position: spec_vec3(0, 0, -1000), rotation_z: 270_000i64, scale: 1000i64 }
}

/// The overall world: its models and the animation state of the grid.
pub struct World {
    /// The drawable models: the grid model first, the help overlay
    /// second.
    pub models: Vec<Model>,
    pub is_increase_pressed: bool,
    pub is_decrease_pressed: bool,
    pub is_spin: bool,
    pub is_spin_pressed: bool,
    pub is_color_change: bool,
    pub is_color_change_pressed: bool,
    /// Current grid rotation, in millidegrees, kept inside one turn.
    pub cur_angle: i64,
    /// Current uniform scale, in thousandths, ping-ponged in
    /// `[SCALE_MIN, SCALE_MAX]`.
    pub cur_scale: i64,
    pub is_resize: bool,
    pub is_resize_pressed: bool,
    pub is_upscalling: bool,
    /// Grid dimension: the grid holds its square many instances.
    pub num_instances: u32,
    /// Forces one regeneration on the first frame.
    pub initialized: bool,
    pub is_help_pressed: bool,
    pub is_being_helped: bool,
    pub is_help_just_pressed: bool,
}

impl World {
    /// A grid model and a help model exist, every model is coherent, and
    /// the animation scalars sit in their ranges. The scale moves in
    /// whole steps and turns around exactly at its bounds.
    pub open spec fn wf(self) -> bool {
        &&& self.models@.len() >= 2
        &&& forall|i: int| 0 <= i < self.models@.len() ==> (#[trigger] self.models@[i]).wf()
        &&& 0 <= self.cur_angle < FULL_TURN
        &&& SCALE_MIN <= self.cur_scale <= SCALE_MAX
        &&& self.cur_scale % 10 == 0
        &&& (self.cur_scale == SCALE_MIN ==> self.is_upscalling)
        &&& (self.cur_scale == SCALE_MAX ==> !self.is_upscalling)
    }
}

/// Whether the world reacts to a key at all.
pub open spec fn spec_world_handles(key: Key) -> bool {
    ||| key == Key::J
    ||| key == Key::K
    ||| key == Key::Digit1
    ||| key == Key::Digit2
    ||| key == Key::Digit3
    ||| key == Key::H
}

/// The effect of one non-repeated key transition on the world's
/// latches: count keys are plain latches, spin and resize toggle once
/// per press behind their debounce latches, recolor is a plain latch
/// (its once-per-press discipline lives in the frame update), and the
/// help key toggles the overlay mode on each press.
pub open spec fn spec_world_key(w: World, key: Key, pressed: bool) -> (World, bool) {
    (
        World {
            is_increase_pressed: if key == Key::J { pressed } else { w.is_increase_pressed },
            is_decrease_pressed: if key == Key::K { pressed } else { w.is_decrease_pressed },
            is_spin: if key == Key::Digit1 && pressed && !w.is_spin_pressed {
                !w.is_spin
            } else {
                w.is_spin
            },
            is_spin_pressed: if key == Key::Digit1 { pressed } else { w.is_spin_pressed },
            is_color_change: if key == Key::Digit2 { pressed } else { w.is_color_change },
            is_resize: if key == Key::Digit3 && pressed && !w.is_resize_pressed {
                !w.is_resize
            } else {
                w.is_resize
            },
            is_resize_pressed: if key == Key::Digit3 { pressed } else { w.is_resize_pressed },
            is_help_pressed: if key == Key::H { pressed } else { w.is_help_pressed },
            is_being_helped: if key == Key::H && pressed {
                !w.is_being_helped
            } else {
                w.is_being_helped
            },
            is_help_just_pressed: if key == Key::H && pressed && w.is_being_helped {
                true
            } else {
                w.is_help_just_pressed
            },
            ..w
        },
        spec_world_handles(key),
    )
}

/// One step of the world on a window event: key repeats and events
/// other than key transitions are ignored.
pub open spec fn spec_world_step(w: World, event: InputEvent) -> (World, bool) {
    match event {
        InputEvent::Keyboard { key, pressed, repeat } => {
            if !repeat {
                spec_world_key(w, key, pressed)
            } else {
                (w, false)
            }
        },
        _ => (w, false),
    }
}

/// The grid dimension after the increase key (held: one more per frame,
/// saturating at the type's ceiling).
pub open spec fn spec_count_mid(w: World) -> u32 {
    if w.is_increase_pressed && w.num_instances < 0xFFFF_FFFFu32 {
        (w.num_instances + 1) as u32
    } else {
        w.num_instances
    }
}

/// The grid dimension after both count keys: the decrease key takes one
/// back per frame but never below zero.
pub open spec fn spec_count_after(w: World) -> u32 {
    if w.is_decrease_pressed && spec_count_mid(w) > 0 {
        (spec_count_mid(w) - 1) as u32
    } else {
        spec_count_mid(w)
    }
}

/// The spin advance per frame: the super-linear terms keep the apparent
/// rotation rate roughly constant as the grid grows.
pub open spec fn spec_spin_step(n: u32) -> int {
    SPIN_BASE_STEP + (n as int / 200) * 1000 + (n as int / 1000) * 1000
}

/// The grid angle after one frame, wrapped modulo a full turn.
pub open spec fn spec_angle_after(w: World, n: u32) -> int {
    if w.is_spin {
        (w.cur_angle + spec_spin_step(n)) % (FULL_TURN as int)
    } else {
        w.cur_angle as int
    }
}

/// The ping-pong scale after one frame, with its direction flag: one
/// step toward the current direction, turning around at the bounds.
pub open spec fn spec_scale_after(w: World) -> (int, bool) {
    if w.is_resize {
        if w.is_upscalling {
            (w.cur_scale + SCALE_STEP, !(w.cur_scale + SCALE_STEP >= SCALE_MAX))
        } else {
            (w.cur_scale - SCALE_STEP, w.cur_scale - SCALE_STEP <= SCALE_MIN)
        }
    } else {
        (w.cur_scale as int, w.is_upscalling)
    }
}

/// The recolor edge: held, but not yet consumed by a previous frame.
pub open spec fn spec_recolor_edge(w: World) -> bool {
    w.is_color_change && !w.is_color_change_pressed
}

/// Whether this frame regenerates the instance set: the first frame, a
/// count delta, an active spin or resize animation, or a recolor edge.
pub open spec fn spec_world_changed(w: World) -> bool {
    ||| w.initialized
    ||| spec_count_after(w) != w.num_instances
    ||| w.is_spin
    ||| spec_recolor_edge(w)
    ||| w.is_resize
}

/// The linear index of the grid instance whose position is exactly the
/// origin: the middle of the middle row.
pub open spec fn spec_grid_origin_index(n: int) -> int {
    (n / 2) * n + n / 2
}

/// The instance at linear index `i` of an `n` by `n` grid: laid out on
/// the X/Z plane around the origin and rotated about Z by the frame's
/// angle, except the single instance standing exactly at the origin,
/// which is rotated an extra `ORIGIN_BUMP`.
pub open spec fn spec_grid_instance(n: int, angle: int, scale: int, i: int) -> Instance {
    let z = i / n;
    let x = i % n;
    let bump = if i == spec_grid_origin_index(n) {
        ORIGIN_BUMP as int
    } else {
        0
    };
    Instance {
        position: spec_vec3(SPACE_BETWEEN * (x - n / 2), 0, SPACE_BETWEEN * (z - n / 2)),
        rotation_z: (angle + bump) as i64,
        scale: scale as i64,
    }
}

/// The whole grid, row by row.
pub open spec fn spec_grid(n: int, angle: int, scale: int) -> Seq<Instance> {
    Seq::new((n * n) as nat, |i: int| spec_grid_instance(n, angle, scale, i))
}

/// Generate the `n` by `n` instance grid for the given frame angle and
/// uniform scale.
#[verifier::rlimit(100)]
pub fn generate_grid(n: u32, angle: i64, scale: i64) -> (r: Vec<Instance>)
    requires
        0 <= angle < FULL_TURN,
        0 <= scale <= INSTANCE_SCALE_LIMIT,
    ensures
        r@ == spec_grid(n as int, angle as int, scale as int),
        forall|i: int| 0 <= i < r@.len() ==> (#[trigger] r@[i]).wf(),
{
    let mut out: Vec<Instance> = Vec::new();
    let half: u32 = n / 2;
    let mut z: u32 = 0;
    proof {
        vstd::arithmetic::mul::lemma_mul_nonnegative(n as int, n as int);
    }
    while z < n
        invariant
            0 <= z <= n,
            0 <= angle < FULL_TURN,
            0 <= scale <= INSTANCE_SCALE_LIMIT,
            half == n as int / 2,
            out@.len() == (z as int) * (n as int),
            out@ =~= spec_grid(n as int, angle as int, scale as int).take(
                (z as int) * (n as int),
            ),
        decreases n - z,
    {
        let mut x: u32 = 0;
        proof {
            vstd::arithmetic::mul::lemma_mul_inequality(z as int + 1, n as int, n as int);
            vstd::arithmetic::mul::lemma_mul_is_distributive_add_other_way(
                n as int,
                z as int,
                1,
            );
        }
        while x < n
            invariant
                0 <= z < n,
                0 <= x <= n,
                0 <= angle < FULL_TURN,
                0 <= scale <= INSTANCE_SCALE_LIMIT,
                half == n as int / 2,
                (z as int) * (n as int) + (n as int) <= (n as int) * (n as int),
                out@.len() == (z as int) * (n as int) + x as int,
                out@ =~= spec_grid(n as int, angle as int, scale as int).take(
                    (z as int) * (n as int) + x as int,
                ),
            decreases n - x,
        {
            let ghost idx = (z as int) * (n as int) + x as int;
            proof {
                vstd::arithmetic::div_mod::lemma_fundamental_div_mod_converse(
                    idx,
                    n as int,
                    z as int,
                    x as int,
                );
            }
            let px: i64 = SPACE_BETWEEN * ((x as i64) - (half as i64));
            let pz: i64 = SPACE_BETWEEN * ((z as i64) - (half as i64));
            let rot: i64 = if px == 0 && pz == 0 {
                angle + ORIGIN_BUMP
            } else {
                angle
            };
            proof {
                if px == 0 && pz == 0 {
                    assert(x as int == n as int / 2 && z as int == n as int / 2);
                    assert(idx == spec_grid_origin_index(n as int));
                } else {
                    assert(x as int != n as int / 2 || z as int != n as int / 2);
                    assert(idx != spec_grid_origin_index(n as int)) by {
                        if idx == spec_grid_origin_index(n as int) {
                            vstd::arithmetic::div_mod::lemma_fundamental_div_mod_converse(
                                idx,
                                n as int,
                                n as int / 2,
                                n as int / 2,
                            );
                        }
                    }
                }
            }
            let inst = Instance {
                position: crate::math::Vec3 { x: px, y: 0, z: pz },
                rotation_z: rot,
                scale,
            };
            proof {
                assert(inst == spec_grid_instance(n as int, angle as int, scale as int, idx));
            }
            out.push(inst);
            x = x + 1;
            proof {
                assert(out@ =~= spec_grid(n as int, angle as int, scale as int).take(
                    (z as int) * (n as int) + x as int,
                ));
            }
        }
        z = z + 1;
        proof {
            vstd::arithmetic::mul::lemma_mul_is_distributive_add_other_way(
                n as int,
                z as int - 1,
                1,
            );
        }
    }
    proof {
        assert(out@ =~= spec_grid(n as int, angle as int, scale as int));
    }
    out
}


impl World {
    /// A fresh world over the given models: the default grid dimension,
    /// no animation running, and the help overlay showing.
    pub fn new(models: Vec<Model>) -> (r: World)
        requires
            models@.len() >= 2,
            forall|i: int| 0 <= i < models@.len() ==> (#[trigger] models@[i]).wf(),
        ensures
            r.models == models,
            r.num_instances == INITIAL_GRID,
            r.cur_angle == 0,
            r.cur_scale == SCALE_MAX,
            !r.is_spin && !r.is_resize && !r.is_color_change && !r.is_upscalling,
            !r.is_spin_pressed && !r.is_resize_pressed && !r.is_color_change_pressed,
            !r.is_increase_pressed && !r.is_decrease_pressed,
            r.initialized,
            r.is_being_helped,
            !r.is_help_pressed && !r.is_help_just_pressed,
            r.wf(),
    {
        World {
            models,
            is_decrease_pressed: false,
            is_increase_pressed: false,
            is_spin: false,
            is_spin_pressed: false,
            is_color_change: false,
            is_color_change_pressed: false,
            cur_angle: 0,
            cur_scale: SCALE_MAX,
            is_resize: false,
            is_resize_pressed: false,
            is_upscalling: false,
            num_instances: INITIAL_GRID,
            initialized: true,
            is_help_pressed: false,
            is_being_helped: true,
            is_help_just_pressed: false,
        }
    }

    /// Handle one window event (see `spec_world_step`).
    pub fn process_events(&mut self, event: &InputEvent) -> (handled: bool)
        requires
            old(self).wf(),
        ensures
            (*final(self), handled) == spec_world_step(*old(self), *event),
            final(self).wf(),
    {
        match *event {
            InputEvent::Keyboard { key, pressed, repeat: false } => {
                self.apply_key(key, pressed)
            },
            _ => false,
        }
    }

    /// One non-repeated key transition applied to the world's latches.
    #[verifier::rlimit(100)]
    fn apply_key(&mut self, key: Key, pressed: bool) -> (handled: bool)
        requires
            old(self).wf(),
        ensures
            *final(self) == spec_world_key(*old(self), key, pressed).0,
            handled == spec_world_key(*old(self), key, pressed).1,
            final(self).wf(),
    {
        match key {
            Key::J => {
                self.is_increase_pressed = pressed;
                proof {
                    assert(*self == spec_world_key(*old(self), key, pressed).0);
                }
                return true;
            },
            Key::K => {
                self.is_decrease_pressed = pressed;
                proof {
                    assert(*self == spec_world_key(*old(self), key, pressed).0);
                }
                return true;
            },
            Key::Digit1 => {
                if pressed && !self.is_spin_pressed {
                    self.is_spin = !self.is_spin;
                    self.is_spin_pressed = true;
                } else if !pressed && self.is_spin_pressed {
                    self.is_spin_pressed = false;
                } else {
                    self.is_spin_pressed = pressed;
                }
                proof {
                    assert(*self == spec_world_key(*old(self), key, pressed).0);
                }
                return true;
            },
            Key::Digit2 => {
                self.is_color_change = pressed;
                proof {
                    assert(*self == spec_world_key(*old(self), key, pressed).0);
                }
                return true;
            },
            Key::Digit3 => {
                if pressed && !self.is_resize_pressed {
                    self.is_resize = !self.is_resize;
                    self.is_resize_pressed = true;
                } else if !pressed && self.is_resize_pressed {
                    self.is_resize_pressed = false;
                } else {
                    self.is_resize_pressed = pressed;
                }
                proof {
                    assert(*self == spec_world_key(*old(self), key, pressed).0);
                }
                return true;
            },
            Key::H => {
                self.is_help_pressed = pressed;
                if pressed && !self.is_being_helped {
                    self.is_being_helped = true;
                } else if pressed && self.is_being_helped {
                    self.is_help_just_pressed = true;
                    self.is_being_helped = false;
                }
                proof {
                    assert(*self == spec_world_key(*old(self), key, pressed).0);
                }
                return true;
            },
            _ => {
                proof {
                    assert(*self == spec_world_key(*old(self), key, pressed).0);
                }
                return false;
            },
        }
    }

    /// Update the grid for one frame (see the named spec functions):
    /// count keys move the dimension, spin advances the angle, resize
    /// ping-pongs the scale, a recolor edge cycles the grid model's
    /// material once, and if anything changed the whole instance set is
    /// regenerated. While helped, nothing moves.
    pub fn update_world(&mut self)
        requires
            old(self).wf(),
        ensures
            final(self).wf(),
            old(self).is_being_helped ==> *final(self) == *old(self),
            !old(self).is_being_helped ==> ({
                let w0 = *old(self);
                let n2 = spec_count_after(w0);
                &&& final(self).num_instances == n2
                &&& final(self).cur_angle == spec_angle_after(w0, n2)
                &&& final(self).cur_scale == spec_scale_after(w0).0
                &&& final(self).is_upscalling == spec_scale_after(w0).1
                &&& !final(self).initialized
                &&& final(self).is_color_change_pressed == (if spec_recolor_edge(w0) {
                    true
                } else if !w0.is_color_change {
                    false
                } else {
                    w0.is_color_change_pressed
                })
                &&& final(self).is_increase_pressed == w0.is_increase_pressed
                &&& final(self).is_decrease_pressed == w0.is_decrease_pressed
                &&& final(self).is_spin == w0.is_spin
                &&& final(self).is_spin_pressed == w0.is_spin_pressed
                &&& final(self).is_color_change == w0.is_color_change
                &&& final(self).is_resize == w0.is_resize
                &&& final(self).is_resize_pressed == w0.is_resize_pressed
                &&& final(self).is_being_helped == w0.is_being_helped
                &&& final(self).is_help_pressed == w0.is_help_pressed
                &&& final(self).is_help_just_pressed == w0.is_help_just_pressed
                &&& final(self).models@.len() == w0.models@.len()
                &&& forall|i: int|
                    1 <= i < w0.models@.len() ==> final(self).models@[i] == w0.models@[i]
                &&& final(self).models@[0].materials == w0.models@[0].materials
                &&& final(self).models@[0].visible == w0.models@[0].visible
                &&& final(self).models@[0].meshes@.len() == w0.models@[0].meshes@.len()
                &&& final(self).models@[0].meshes@[0].material == (if spec_recolor_edge(w0) {
                    (w0.models@[0].meshes@[0].material + 1) % (
                    w0.models@[0].materials@.len() as int)
                } else {
                    w0.models@[0].meshes@[0].material as int
                })
                &&& final(self).models@[0].meshes@[0].name == w0.models@[0].meshes@[0].name
                &&& final(self).models@[0].meshes@[0].num_elements
                    == w0.models@[0].meshes@[0].num_elements
                &&& forall|j: int|
                    1 <= j < w0.models@[0].meshes@.len() ==> final(self).models@[0].meshes@[j]
                        == w0.models@[0].meshes@[j]
                &&& (spec_world_changed(w0) ==> final(self).models@[0].instances@ == spec_grid(
                    n2 as int,
                    spec_angle_after(w0, n2),
                    spec_scale_after(w0).0,
                ))
                &&& (!spec_world_changed(w0) ==> final(self).models@[0].instances
                    == w0.models@[0].instances && final(self).models@[0].instance_buffer
                    == w0.models@[0].instance_buffer)
            }),
    {
        if !self.is_being_helped {
            self.update_world_navigating();
        }
    }

    #[verifier::rlimit(100)]
    fn update_world_navigating(&mut self)
        requires
            old(self).wf(),
            !old(self).is_being_helped,
        ensures
            final(self).wf(),
            old(self).is_being_helped ==> *final(self) == *old(self),
            !old(self).is_being_helped ==> ({
                let w0 = *old(self);
                let n2 = spec_count_after(w0);
                &&& final(self).num_instances == n2
                &&& final(self).cur_angle == spec_angle_after(w0, n2)
                &&& final(self).cur_scale == spec_scale_after(w0).0
                &&& final(self).is_upscalling == spec_scale_after(w0).1
                &&& !final(self).initialized
                &&& final(self).is_color_change_pressed == (if spec_recolor_edge(w0) {
                    true
                } else if !w0.is_color_change {
                    false
                } else {
                    w0.is_color_change_pressed
                })
                &&& final(self).is_increase_pressed == w0.is_increase_pressed
                &&& final(self).is_decrease_pressed == w0.is_decrease_pressed
                &&& final(self).is_spin == w0.is_spin
                &&& final(self).is_spin_pressed == w0.is_spin_pressed
                &&& final(self).is_color_change == w0.is_color_change
                &&& final(self).is_resize == w0.is_resize
                &&& final(self).is_resize_pressed == w0.is_resize_pressed
                &&& final(self).is_being_helped == w0.is_being_helped
                &&& final(self).is_help_pressed == w0.is_help_pressed
                &&& final(self).is_help_just_pressed == w0.is_help_just_pressed
                &&& final(self).models@.len() == w0.models@.len()
                &&& forall|i: int|
                    1 <= i < w0.models@.len() ==> final(self).models@[i] == w0.models@[i]
                &&& final(self).models@[0].materials == w0.models@[0].materials
                &&& final(self).models@[0].visible == w0.models@[0].visible
                &&& final(self).models@[0].meshes@.len() == w0.models@[0].meshes@.len()
                &&& final(self).models@[0].meshes@[0].material == (if spec_recolor_edge(w0) {
                    (w0.models@[0].meshes@[0].material + 1) % (
                    w0.models@[0].materials@.len() as int)
                } else {
                    w0.models@[0].meshes@[0].material as int
                })
                &&& final(self).models@[0].meshes@[0].name == w0.models@[0].meshes@[0].name
                &&& final(self).models@[0].meshes@[0].num_elements
                    == w0.models@[0].meshes@[0].num_elements
                &&& forall|j: int|
                    1 <= j < w0.models@[0].meshes@.len() ==> final(self).models@[0].meshes@[j]
                        == w0.models@[0].meshes@[j]
                &&& (spec_world_changed(w0) ==> final(self).models@[0].instances@ == spec_grid(
                    n2 as int,
                    spec_angle_after(w0, n2),
                    spec_scale_after(w0).0,
                ))
                &&& (!spec_world_changed(w0) ==> final(self).models@[0].instances
                    == w0.models@[0].instances && final(self).models@[0].instance_buffer
                    == w0.models@[0].instance_buffer)
            }),
    {
        let (recolor, changed): (bool, bool) = self.advance_scalars();
        if recolor {
            self.recolor_grid_model();
        }
        if changed {
            let instances: Vec<Instance> = generate_grid(
                self.num_instances,
                self.cur_angle,
                self.cur_scale,
            );
            self.replace_grid_instances(instances);
        }
    }

    /// Advance the world's scalar state by one frame: the counts, the
    /// spin angle, the ping-pong scale and the recolor latch. Returns
    /// whether this frame recolors, and whether it regenerates.
    #[verifier::rlimit(100)]
    fn advance_scalars(&mut self) -> (r: (bool, bool))
        requires
            old(self).wf(),
            !old(self).is_being_helped,
        ensures
            final(self).wf(),
            r.0 == spec_recolor_edge(*old(self)),
            r.1 == spec_world_changed(*old(self)),
            final(self).models == old(self).models,
            final(self).num_instances == spec_count_after(*old(self)),
            final(self).cur_angle == spec_angle_after(*old(self), spec_count_after(*old(self))),
            final(self).cur_scale == spec_scale_after(*old(self)).0,
            final(self).is_upscalling == spec_scale_after(*old(self)).1,
            !final(self).initialized,
            final(self).is_color_change_pressed == (if spec_recolor_edge(*old(self)) {
                true
            } else if !old(self).is_color_change {
                false
            } else {
                old(self).is_color_change_pressed
            }),
            final(self).is_increase_pressed == old(self).is_increase_pressed,
            final(self).is_decrease_pressed == old(self).is_decrease_pressed,
            final(self).is_spin == old(self).is_spin,
            final(self).is_spin_pressed == old(self).is_spin_pressed,
            final(self).is_color_change == old(self).is_color_change,
            final(self).is_resize == old(self).is_resize,
            final(self).is_resize_pressed == old(self).is_resize_pressed,
            final(self).is_being_helped == old(self).is_being_helped,
            final(self).is_help_pressed == old(self).is_help_pressed,
            final(self).is_help_just_pressed == old(self).is_help_just_pressed,
    {
        let ghost w0 = *self;
        let n1: u32 = if self.is_increase_pressed && self.num_instances < 0xFFFF_FFFFu32 {
            self.num_instances + 1
        } else {
            self.num_instances
        };
        let n2: u32 = if self.is_decrease_pressed && n1 > 0 {
            n1 - 1
        } else {
            n1
        };
        let angle2: i64 = if self.is_spin {
            let step: i64 = SPIN_BASE_STEP + ((n2 / 200) as i64) * 1000 + ((n2 / 1000) as i64)
                * 1000;
            mod_floor(self.cur_angle + step, FULL_TURN)
        } else {
            self.cur_angle
        };
        let scale2: i64 = if self.is_resize {
            if self.is_upscalling {
                self.cur_scale + SCALE_STEP
            } else {
                self.cur_scale - SCALE_STEP
            }
        } else {
            self.cur_scale
        };
        let up2: bool = if self.is_resize {
            if self.is_upscalling {
                !(scale2 >= SCALE_MAX)
            } else {
                scale2 <= SCALE_MIN
            }
        } else {
            self.is_upscalling
        };
        let recolor: bool = self.is_color_change && !self.is_color_change_pressed;
        let changed: bool = self.initialized || n2 != self.num_instances || self.is_spin
            || recolor || self.is_resize;
        proof {
            assert(n1 == spec_count_mid(w0));
            assert(n2 == spec_count_after(w0));
            assert(angle2 == spec_angle_after(w0, n2));
            assert(scale2 == spec_scale_after(w0).0);
            assert(up2 == spec_scale_after(w0).1);
            assert(recolor == spec_recolor_edge(w0));
            assert(changed == spec_world_changed(w0));
            assert(0 <= angle2 < FULL_TURN);
            assert(SCALE_MIN <= scale2 <= SCALE_MAX);
        }
        self.initialized = false;
        self.num_instances = n2;
        self.cur_angle = angle2;
        self.cur_scale = scale2;
        self.is_upscalling = up2;
        if recolor {
            self.is_color_change_pressed = true;
        } else if !self.is_color_change {
            self.is_color_change_pressed = false;
        }
        (recolor, changed)
    }

    /// The help-overlay model swap: while helped, the overlay model is
    /// forced to one instance of the help pose and made the only visible
    /// model, every frame; on the one-shot exit from help the visibility
    /// flips back once.
    #[verifier::rlimit(100)]
    pub fn go_to_help(&mut self)
        requires
            old(self).wf(),
        ensures
            final(self).wf(),
            final(self).models@.len() == old(self).models@.len(),
            old(self).is_being_helped ==> ({
                &&& final(self).models@[1].instances@ == seq![spec_help_instance()]
                &&& !final(self).models@[0].visible
                &&& final(self).models@[1].visible
                &&& final(self).models@[0].meshes == old(self).models@[0].meshes
                &&& final(self).models@[0].materials == old(self).models@[0].materials
                &&& final(self).models@[0].instances == old(self).models@[0].instances
                &&& final(self).models@[0].instance_buffer == old(self).models@[0].instance_buffer
                &&& final(self).models@[1].meshes == old(self).models@[1].meshes
                &&& final(self).models@[1].materials == old(self).models@[1].materials
                &&& forall|i: int|
                    2 <= i < old(self).models@.len() ==> final(self).models@[i] == old(
                        self,
                    ).models@[i]
                &&& final(self).is_help_just_pressed == old(self).is_help_just_pressed
            }),
            !old(self).is_being_helped && old(self).is_help_just_pressed ==> ({
                &&& !final(self).is_help_just_pressed
                &&& !final(self).models@[1].visible
                &&& final(self).models@[0].visible
                &&& final(self).models@[0].meshes == old(self).models@[0].meshes
                &&& final(self).models@[0].materials == old(self).models@[0].materials
                &&& final(self).models@[0].instances == old(self).models@[0].instances
                &&& final(self).models@[1].instances == old(self).models@[1].instances
                &&& forall|i: int|
                    2 <= i < old(self).models@.len() ==> final(self).models@[i] == old(
                        self,
                    ).models@[i]
            }),
            !old(self).is_being_helped && !old(self).is_help_just_pressed ==> *final(self) == *old(
                self,
            ),
            *final(self) == (World {
                models: final(self).models,
                is_help_just_pressed: final(self).is_help_just_pressed,
                ..*old(self)
            }),
            !old(self).is_being_helped ==> !final(self).is_help_just_pressed,
    {
        if self.is_being_helped {
            let mut overlay: Vec<Instance> = Vec::new();
            overlay.push(Instance { position: crate::math::Vec3 { x: 0, y: 0, z: -1000 }, rotation_z: 270_000, scale: 1000 });
            proof {
                assert(overlay@ =~= seq![spec_help_instance()]);
            }
            let mut help_model: Model = self.models.remove(1);
            help_model.set_instances(overlay);
            help_model.visible = true;
            self.models.insert(1, help_model);
            let mut grid_model: Model = self.models.remove(0);
            grid_model.visible = false;
            self.models.insert(0, grid_model);
        }
        if !self.is_being_helped {
            if self.is_help_just_pressed {
                let mut help_model: Model = self.models.remove(1);
                help_model.visible = false;
                self.models.insert(1, help_model);
                let mut grid_model: Model = self.models.remove(0);
                grid_model.visible = true;
                self.models.insert(0, grid_model);
                self.is_help_just_pressed = false;
            }
        }
    }
}


impl World {
    /// Cycle the grid model's material (the once-per-press recolor).
    fn recolor_grid_model(&mut self)
        requires
            old(self).wf(),
        ensures
            *final(self) == (World { models: final(self).models, ..*old(self) }),
            final(self).models@.len() == old(self).models@.len(),
            forall|i: int|
                1 <= i < old(self).models@.len() ==> final(self).models@[i] == old(
                    self,
                ).models@[i],
            final(self).models@[0].materials == old(self).models@[0].materials,
            final(self).models@[0].visible == old(self).models@[0].visible,
            final(self).models@[0].instances == old(self).models@[0].instances,
            final(self).models@[0].instance_buffer == old(self).models@[0].instance_buffer,
            final(self).models@[0].meshes@.len() == old(self).models@[0].meshes@.len(),
            final(self).models@[0].meshes@[0].material == (old(self).models@[0].meshes@[0].material
                + 1) % (old(self).models@[0].materials@.len() as int),
            final(self).models@[0].meshes@[0].name == old(self).models@[0].meshes@[0].name,
            final(self).models@[0].meshes@[0].num_elements == old(
                self,
            ).models@[0].meshes@[0].num_elements,
            forall|j: int|
                1 <= j < old(self).models@[0].meshes@.len() ==> final(self).models@[0].meshes@[j]
                    == old(self).models@[0].meshes@[j],
            final(self).wf(),
    {
        let mut grid_model: Model = self.models.remove(0);
        grid_model.change_material();
        self.models.insert(0, grid_model);
        proof {
            assert(self.models@ =~= old(self).models@.update(0, self.models@[0]));
        }
    }

    /// Replace the grid model's instance set (and so its buffer mirror).
    fn replace_grid_instances(&mut self, instances: Vec<Instance>)
        requires
            old(self).wf(),
            forall|i: int| 0 <= i < instances@.len() ==> (#[trigger] instances@[i]).wf(),
        ensures
            *final(self) == (World { models: final(self).models, ..*old(self) }),
            final(self).models@.len() == old(self).models@.len(),
            forall|i: int|
                1 <= i < old(self).models@.len() ==> final(self).models@[i] == old(
                    self,
                ).models@[i],
            final(self).models@[0].instances == instances,
            final(self).models@[0].meshes == old(self).models@[0].meshes,
            final(self).models@[0].materials == old(self).models@[0].materials,
            final(self).models@[0].visible == old(self).models@[0].visible,
            final(self).wf(),
    {
        let mut grid_model: Model = self.models.remove(0);
        grid_model.set_instances(instances);
        self.models.insert(0, grid_model);
        proof {
            assert(self.models@ =~= old(self).models@.update(0, self.models@[0]));
        }
    }
}

/// A recorded draw call: bind the mesh of the named model with the
/// material the mesh points at, and draw its full instance range.
#[derive(Clone, Copy, PartialEq, Eq, Structural, Debug)]
pub struct DrawCommand {
    pub model: usize,
    pub mesh: usize,
    pub material: usize,
    pub instance_count: usize,
}

/// The draw calls one model contributes: one per mesh when visible,
/// none when hidden.
pub open spec fn spec_model_commands(m: Model, idx: int) -> Seq<DrawCommand> {
    if m.visible {
        Seq::new(
            m.meshes@.len(),
            |j: int|
                DrawCommand {
                    model: idx as usize,
                    mesh: j as usize,
                    material: m.meshes@[j].material,
                    instance_count: m.instances@.len() as usize,
                },
        )
    } else {
        Seq::empty()
    }
}

/// The draw calls of the first `k` models, in model order.
pub open spec fn spec_draw_commands_prefix(models: Seq<Model>, k: int) -> Seq<DrawCommand>
    decreases k,
{
    if k <= 0 {
        Seq::empty()
    } else {
        spec_draw_commands_prefix(models, k - 1) + spec_model_commands(models[k - 1], k - 1)
    }
}

/// The full draw traversal of a world: for each visible model, one
/// indexed instanced draw per mesh, spanning the model's whole current
/// instance range; invisible models contribute nothing.
pub open spec fn spec_draw_commands(models: Seq<Model>) -> Seq<DrawCommand> {
    spec_draw_commands_prefix(models, models.len() as int)
}

/// Record the draw traversal of the world as plain commands for the
/// render shell to issue.
pub fn draw_commands(world: &World) -> (r: Vec<DrawCommand>)
    ensures
        r@ == spec_draw_commands(world.models@),
{
    let mut out: Vec<DrawCommand> = Vec::new();
    let mut k: usize = 0;
    while k < world.models.len()
        invariant
            0 <= k <= world.models@.len(),
            out@ =~= spec_draw_commands_prefix(world.models@, k as int),
        decreases world.models@.len() - k,
    {
        let m: &Model = &world.models[k];
        if m.visible {
            let mut j: usize = 0;
            while j < m.meshes.len()
                invariant
                    0 <= j <= m.meshes@.len(),
                    0 <= k < world.models@.len(),
                    m == &world.models@[k as int],
                    m.visible,
                    out@ =~= spec_draw_commands_prefix(world.models@, k as int)
                        + spec_model_commands(world.models@[k as int], k as int).take(j as int),
                decreases m.meshes@.len() - j,
            {
                out.push(
                    DrawCommand {
                        model: k,
                        mesh: j,
                        material: m.meshes[j].material,
                        instance_count: m.instances.len(),
                    },
                );
                j = j + 1;
                proof {
                    assert(out@ =~= spec_draw_commands_prefix(world.models@, k as int)
                        + spec_model_commands(world.models@[k as int], k as int).take(j as int));
                }
            }
            proof {
                assert(spec_model_commands(world.models@[k as int], k as int).take(
                    m.meshes@.len() as int,
                ) =~= spec_model_commands(world.models@[k as int], k as int));
            }
        }
        k = k + 1;
        proof {
            assert(out@ =~= spec_draw_commands_prefix(world.models@, k as int));
        }
    }
    out
}

/// Law: with the grid at zero, a frame with the decrease key held
/// leaves the count at zero — it never goes negative.
pub proof fn lemma_count_floor(w: World)
    requires
        w.num_instances == 0,
        !w.is_increase_pressed,
        w.is_decrease_pressed,
    ensures
        spec_count_after(w) == 0,
{
}

/// Law: the spin toggle is debounced. A second press without a release
/// in between changes nothing, and a press-release pair followed by
/// another press-release pair returns the toggle to where it started.
pub proof fn lemma_spin_debounce(w: World, press: InputEvent, release: InputEvent)
    requires
        !w.is_spin_pressed,
        press == (InputEvent::Keyboard { key: Key::Digit1, pressed: true, repeat: false }),
        release == (InputEvent::Keyboard { key: Key::Digit1, pressed: false, repeat: false }),
    ensures
        spec_world_step(spec_world_step(w, press).0, press).0.is_spin == !w.is_spin,
        spec_world_step(
            spec_world_step(
                spec_world_step(spec_world_step(w, press).0, release).0,
                press,
            ).0,
            release,
        ).0.is_spin == w.is_spin,
        !spec_world_step(
            spec_world_step(
                spec_world_step(spec_world_step(w, press).0, release).0,
                press,
            ).0,
            release,
        ).0.is_spin_pressed,
{
}

/// Law: the generated grid is empty for a zero dimension; for dimension
/// one it is exactly one instance standing at the origin, rotated an
/// extra `ORIGIN_BUMP` past the frame's angle, at the frame's scale.
pub proof fn lemma_grid_smallest(angle: int, scale: int)
    requires
        0 <= angle < FULL_TURN,
        0 <= scale <= INSTANCE_SCALE_LIMIT,
    ensures
        spec_grid(0, angle, scale).len() == 0,
        spec_grid(1, angle, scale).len() == 1,
        spec_grid(1, angle, scale)[0] == (Instance {
            position: spec_vec3(0, 0, 0),
            rotation_z: (angle + ORIGIN_BUMP) as i64,
            scale: scale as i64,
        }),
{
    assert(spec_grid(0, angle, scale).len() == 0) by (nonlinear_arith);
    assert(1int * 1int == 1) by (nonlinear_arith);
    assert(spec_grid_origin_index(1) == 0);
    assert(0int / 1int == 0 && 0int % 1int == 0) by {
        vstd::arithmetic::div_mod::lemma_basic_div(0, 1);
        vstd::arithmetic::div_mod::lemma_small_mod(0nat, 1nat);
    }
}

} // verus!
