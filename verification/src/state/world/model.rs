//! A drawable model: meshes, materials, a visibility flag, and the
//! authoritative CPU instance list with its serialized buffer mirror.
//!
//! The mirror is rebuilt in full on every change to the instance list —
//! never patched — so it always equals the serialized list. The render
//! shell uploads the mirror verbatim.

use vstd::prelude::*;

use super::instance::{spec_instance_to_raw, Instance};
use crate::math::Mat4;

verus! {

/// The material of a mesh: the texture and its bindings live in the
/// render shell, keyed by the model and material index.
pub struct Material {
    pub name: String,
}

/// A mesh of a model: the geometry buffers live in the render shell;
/// the scene logic reads the element count and the active material.
pub struct Mesh {
    pub name: String,
    pub num_elements: u32,
    pub material: usize,
}

/// A drawable model and its instance data.
pub struct Model {
    pub meshes: Vec<Mesh>,
    pub materials: Vec<Material>,
    pub visible: bool,
    pub instances: Vec<Instance>,
    /// Mirror of the GPU instance buffer: always equals the serialized
    /// instance list.
    pub instance_buffer: Vec<Mat4>,
}

impl Model {
    /// The buffer mirror equals the serialized current instance list.
    pub open spec fn mirror_ok(self) -> bool {
        self.instance_buffer@ == self.instances@.map_values(
            |i: Instance| spec_instance_to_raw(i),
        )
    }

    /// A model has at least one mesh and one material, every mesh
    /// points at a material that exists, every instance is serializable,
    /// and the mirror is in sync.
    pub open spec fn wf(self) -> bool {
        &&& self.meshes.len() >= 1
        &&& self.materials.len() >= 1
        &&& forall|i: int|
            0 <= i < self.meshes@.len() ==> (#[trigger] self.meshes@[i]).material
                < self.materials@.len()
        &&& forall|i: int| 0 <= i < self.instances@.len() ==> (#[trigger] self.instances@[i]).wf()
        &&& self.mirror_ok()
    }

    /// Make a new model with no instances, visible by default.
    pub fn new(meshes: Vec<Mesh>, materials: Vec<Material>) -> (r: Model)
        requires
            meshes.len() >= 1,
            materials.len() >= 1,
            forall|i: int|
                0 <= i < meshes@.len() ==> (#[trigger] meshes@[i]).material < materials@.len(),
        ensures
            r.meshes == meshes,
            r.materials == materials,
            r.visible,
            r.instances@.len() == 0,
            r.instance_buffer@.len() == 0,
            r.wf(),
    {
        let instances: Vec<Instance> = Vec::new();
        let instance_buffer: Vec<Mat4> = Vec::new();
        let model = Model { meshes, materials, visible: true, instances, instance_buffer };
        proof {
            assert(model.instance_buffer@ =~= model.instances@.map_values(
                |i: Instance| spec_instance_to_raw(i),
            ));
        }
        model
    }

    /// Replace the instance list and rebuild the whole buffer mirror
    /// from it — no incremental patching.
    pub fn set_instances(&mut self, instances: Vec<Instance>)
        requires
            old(self).wf(),
            forall|i: int| 0 <= i < instances@.len() ==> (#[trigger] instances@[i]).wf(),
        ensures
            final(self).instances == instances,
            final(self).instance_buffer@ == instances@.map_values(
                |i: Instance| spec_instance_to_raw(i),
            ),
            final(self).meshes == old(self).meshes,
            final(self).materials == old(self).materials,
            final(self).visible == old(self).visible,
            final(self).wf(),
    {
        let raw: Vec<Mat4> = serialize_instances(&instances);
        self.instances = instances;
        self.instance_buffer = raw;
    }

    /// Append one instance and rebuild the whole buffer mirror from the
    /// appended list.
    pub fn add_instances(&mut self, instance: Instance)
        requires
            old(self).wf(),
            instance.wf(),
        ensures
            final(self).instances@ == old(self).instances@.push(instance),
            final(self).instance_buffer@ == final(self).instances@.map_values(
                |i: Instance| spec_instance_to_raw(i),
            ),
            final(self).meshes == old(self).meshes,
            final(self).materials == old(self).materials,
            final(self).visible == old(self).visible,
            final(self).wf(),
    {
        self.instances.push(instance);
        let raw: Vec<Mat4> = serialize_instances(&self.instances);
        self.instance_buffer = raw;
    }

    /// Cycle the first mesh's material index, wrapping to zero past the
    /// last material.
    pub fn change_material(&mut self)
        requires
            old(self).wf(),
        ensures
            final(self).meshes@.len() == old(self).meshes@.len(),
            final(self).meshes@[0].material == (old(self).meshes@[0].material + 1) % (
            old(self).materials@.len() as int),
            final(self).meshes@[0].name == old(self).meshes@[0].name,
            final(self).meshes@[0].num_elements == old(self).meshes@[0].num_elements,
            forall|i: int|
                1 <= i < old(self).meshes@.len() ==> final(self).meshes@[i] == old(
                    self,
                ).meshes@[i],
            final(self).materials == old(self).materials,
            final(self).visible == old(self).visible,
            final(self).instances == old(self).instances,
            final(self).instance_buffer == old(self).instance_buffer,
            final(self).wf(),
    {
        let ghost len = self.materials@.len() as int;
        let ghost m = self.meshes@[0].material as int;
        let mut mesh0: Mesh = self.meshes.remove(0);
        let next: usize = mesh0.material + 1;
        if self.materials.len() <= next {
            mesh0.material = 0;
        } else {
            mesh0.material = next;
        }
        proof {
            if m + 1 < len {
                vstd::arithmetic::div_mod::lemma_small_mod((m + 1) as nat, len as nat);
            } else {
                vstd::arithmetic::div_mod::lemma_mod_self_0(len);
            }
        }
        self.meshes.insert(0, mesh0);
        proof {
            assert(self.meshes@ =~= old(self).meshes@.update(0, self.meshes@[0]));
        }
    }
}

/// Serialize an instance list into the mirror's form.
fn serialize_instances(instances: &Vec<Instance>) -> (r: Vec<Mat4>)
    requires
        forall|i: int| 0 <= i < instances@.len() ==> (#[trigger] instances@[i]).wf(),
    ensures
        r@ == instances@.map_values(|i: Instance| spec_instance_to_raw(i)),
{
    let mut raw: Vec<Mat4> = Vec::new();
    let mut k: usize = 0;
    while k < instances.len()
        invariant
            0 <= k <= instances.len(),
            forall|i: int| 0 <= i < instances@.len() ==> (#[trigger] instances@[i]).wf(),
            raw@ =~= instances@.take(k as int).map_values(|i: Instance| spec_instance_to_raw(i)),
        decreases instances.len() - k,
    {
        let inst: Instance = instances[k];
        raw.push(inst.to_raw());
        k = k + 1;
        proof {
            assert(raw@ =~= instances@.take(k as int).map_values(
                |i: Instance| spec_instance_to_raw(i),
            ));
        }
    }
    proof {
        assert(instances@.take(instances@.len() as int) =~= instances@);
        assert(raw@ =~= instances@.map_values(|i: Instance| spec_instance_to_raw(i)));
    }
    raw
}

/// The number of applications of the material cycle, as a function of
/// the starting index and the material count.
pub open spec fn spec_cycled_material(m: int, len: int, k: nat) -> int
    decreases k,
{
    if k == 0 {
        m
    } else {
        (spec_cycled_material(m, len, (k - 1) as nat) + 1) % len
    }
}

/// The cycle advances by one modulo the material count at each step.
proof fn lemma_cycled_material_linear(m: int, len: int, k: nat)
    requires
        0 < len,
        0 <= m < len,
    ensures
        spec_cycled_material(m, len, k) == (m + k) % len,
    decreases k,
{
    if k == 0 {
        vstd::arithmetic::div_mod::lemma_small_mod(m as nat, len as nat);
    } else {
        lemma_cycled_material_linear(m, len, (k - 1) as nat);
        vstd::arithmetic::div_mod::lemma_add_mod_noop_right(1, m + k - 1, len);
    }
}

/// Law: cycling the material as many times as there are materials
/// returns the active index to where it started.
pub proof fn lemma_material_cycle_round_trip(m: int, len: int)
    requires
        0 < len,
        0 <= m < len,
    ensures
        spec_cycled_material(m, len, len as nat) == m,
{
    lemma_cycled_material_linear(m, len, len as nat);
    vstd::arithmetic::div_mod::lemma_mod_add_multiples_vanish(m, len);
    vstd::arithmetic::div_mod::lemma_small_mod(m as nat, len as nat);
}

} // verus!
