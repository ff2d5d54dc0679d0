//! The buffers of the mesh distance probe, kept on the device from one probe to the
//! next.

use vstd::prelude::*;

use crate::vulkan::buffers::{DataUpload, VulkanBuffer};
use crate::vulkan::power::checked_next_power_of_two;
#[allow(unused_imports)]
use crate::vulkan::power::{law_next_power_is_least, law_next_power_is_steady, next_power};
use crate::vulkan::script::{BufferUse, DeviceOp, Setup, Slot, Step};

verus! {

/// The capacity for `required` bytes: nothing for nothing, else the next power of
/// two, or exactly what is required where that cannot be represented.
pub open spec fn derived_capacity(required: u64) -> u64 {
    if required == 0 {
        0
    } else if next_power(required as nat) <= u64::MAX {
        next_power(required as nat) as u64
    } else {
        required
    }
}

/// Computes the capacity for `required` bytes.
pub fn xr_f32_mesh_sdf_capacity_byte_len(required: u64) -> (capacity: u64)
    ensures
        capacity == derived_capacity(required),
{
    if required == 0 {
        0
    } else {
        match checked_next_power_of_two(required) {
            Some(power) => power,
            None => required,
        }
    }
}

/// A capacity holds what is required, and growth within it asks for the same
/// capacity, so that the buffer can be kept.
pub proof fn law_capacity_absorbs_growth(required: u64, grown: u64)
    requires
        0 < required <= grown <= derived_capacity(required),
    ensures
        required <= derived_capacity(required),
        derived_capacity(grown) == derived_capacity(required),
{
    law_next_power_is_least(required as nat, 0);
    if next_power(required as nat) <= u64::MAX {
        law_next_power_is_steady(required as nat, grown as nat);
    }
}

/// The mesh as it was written to the device.
#[derive(Clone, Copy, PartialEq, Eq, Structural, Debug)]
pub struct SourceBuffers {
    pub generation: u64,
    pub vertex_byte_len: u64,
    pub triangle_byte_len: u64,
    pub vertices: VulkanBuffer,
    pub triangles: VulkanBuffer,
}

/// What the device derives from the mesh. The lengths are capacities.
#[derive(Clone, Copy, PartialEq, Eq, Structural, Debug)]
pub struct DerivedBuffers {
    pub generation: u64,
    pub skinned_position_byte_len: u64,
    pub sdf_distance_byte_len: u64,
    pub skinned_positions: VulkanBuffer,
    pub sdf_distances: VulkanBuffer,
}

/// The mesh buffers that a probe uses.
#[derive(Clone, Copy, PartialEq, Eq, Structural, Debug)]
pub struct SourceUse {
    pub generation: u64,
    pub resident: bool,
    pub reused: bool,
    pub vertex_byte_len: u64,
    pub triangle_byte_len: u64,
}

/// The derived buffers that a probe uses.
#[derive(Clone, Copy, PartialEq, Eq, Structural, Debug)]
pub struct DerivedUse {
    pub generation: u64,
    pub resident: bool,
    pub reused: bool,
    pub skinned_position_byte_len: u64,
    pub sdf_distance_byte_len: u64,
}

/// Where a probe's buffers come from.
#[derive(Clone, Copy, PartialEq, Eq, Debug)]
pub enum BufferPlan {
    /// A probe that has not completed still reads the resident buffers, so this one
    /// makes its own.
    Owned,
    /// The resident buffers serve.
    Reuse,
    /// Resident buffers are made under the generation, after `release` was given
    /// back in order.
    Rebuild { generation: u64, release: Option<(VulkanBuffer, VulkanBuffer)> },
}

/// The resident buffers.
pub struct MeshSdfBuffers {
    pub source: Option<SourceBuffers>,
    pub derived: Option<DerivedBuffers>,
}

/// The generation after `generation`; the largest is kept once reached.
pub open spec fn next_generation(generation: u64) -> u64 {
    if generation < u64::MAX {
        (generation + 1) as u64
    } else {
        u64::MAX
    }
}

/// Where the mesh goes: the resident buffers serve where both lengths are the same.
pub open spec fn source_plan(
    source: Option<SourceBuffers>,
    has_pending_reader: bool,
    vertex_bytes: u64,
    triangle_bytes: u64,
) -> BufferPlan {
    if has_pending_reader {
        BufferPlan::Owned
    } else {
        match source {
            None => BufferPlan::Rebuild { generation: 1, release: None },
            Some(held) => if held.vertex_byte_len == vertex_bytes && held.triangle_byte_len
                == triangle_bytes {
                BufferPlan::Reuse
            } else {
                BufferPlan::Rebuild {
                    generation: next_generation(held.generation),
                    release: Some((held.triangles, held.vertices)),
                }
            },
        }
    }
}

/// Where the derived data goes: the resident buffers serve where both are large
/// enough.
pub open spec fn derived_plan(
    derived: Option<DerivedBuffers>,
    has_pending_reader: bool,
    position_bytes: u64,
    distance_bytes: u64,
) -> BufferPlan {
    if has_pending_reader {
        BufferPlan::Owned
    } else {
        match derived {
            None => BufferPlan::Rebuild { generation: 1, release: None },
            Some(held) => if held.skinned_position_byte_len >= position_bytes
                && held.sdf_distance_byte_len >= distance_bytes {
                BufferPlan::Reuse
            } else {
                BufferPlan::Rebuild {
                    generation: next_generation(held.generation),
                    release: Some((held.sdf_distances, held.skinned_positions)),
                }
            },
        }
    }
}

/// The steps that make mesh buffers.
pub open spec fn source_buffer_steps(vertex_bytes: u64, triangle_bytes: u64) -> Seq<Step> {
    seq![
        Step {
            slot: Slot::Vertices,
            op: DeviceOp::HostBufferWithData { usage: BufferUse::Storage, size: vertex_bytes },
            subject: "f32 mesh SDF probe",
        },
        Step {
            slot: Slot::Triangles,
            op: DeviceOp::HostBufferWithData { usage: BufferUse::Storage, size: triangle_bytes },
            subject: "f32 mesh SDF probe",
        },
    ]
}

/// The steps that make derived buffers.
pub open spec fn derived_buffer_steps(position_bytes: u64, distance_bytes: u64) -> Seq<Step> {
    seq![
        Step {
            slot: Slot::Positions,
            op: DeviceOp::HostBuffer { usage: BufferUse::Storage, size: position_bytes },
            subject: "f32 mesh SDF probe",
        },
        Step {
            slot: Slot::Distances,
            op: DeviceOp::HostBuffer { usage: BufferUse::Storage, size: distance_bytes },
            subject: "f32 mesh SDF probe",
        },
    ]
}

/// Lists the steps that make mesh buffers.
pub fn create_owned_xr_f32_mesh_sdf_source_mesh_buffers(
    vertex_bytes: u64,
    triangle_bytes: u64,
) -> (steps: Vec<Step>)
    ensures
        steps@ == source_buffer_steps(vertex_bytes, triangle_bytes),
{
    vec![
        Step {
            slot: Slot::Vertices,
            op: DeviceOp::HostBufferWithData { usage: BufferUse::Storage, size: vertex_bytes },
            subject: "f32 mesh SDF probe",
        },
        Step {
            slot: Slot::Triangles,
            op: DeviceOp::HostBufferWithData { usage: BufferUse::Storage, size: triangle_bytes },
            subject: "f32 mesh SDF probe",
        },
    ]
}

/// Lists the steps that make derived buffers.
pub fn create_owned_xr_f32_mesh_sdf_derived_buffers(
    position_bytes: u64,
    distance_bytes: u64,
) -> (steps: Vec<Step>)
    ensures
        steps@ == derived_buffer_steps(position_bytes, distance_bytes),
{
    vec![
        Step {
            slot: Slot::Positions,
            op: DeviceOp::HostBuffer { usage: BufferUse::Storage, size: position_bytes },
            subject: "f32 mesh SDF probe",
        },
        Step {
            slot: Slot::Distances,
            op: DeviceOp::HostBuffer { usage: BufferUse::Storage, size: distance_bytes },
            subject: "f32 mesh SDF probe",
        },
    ]
}

/// The message for data that a resident buffer cannot hold.
pub open spec fn exceeds_text(label: Seq<char>) -> Seq<char> {
    "f32 mesh SDF "@ + label + " data exceeds resident buffer size"@
}

/// How `byte_len` bytes reach a resident buffer; nothing is mapped for no data.
pub fn write_xr_f32_mesh_sdf_host_buffer(
    buffer: VulkanBuffer,
    byte_len: u64,
    label: &str,
) -> (upload: Result<Option<DataUpload>, String>)
    ensures
        if byte_len > buffer.size {
            upload matches Err(message) && message@ == exceeds_text(label@)
        } else if byte_len == 0 {
            upload == Ok::<Option<DataUpload>, String>(None)
        } else {
            upload == Ok::<Option<DataUpload>, String>(
                Some(
                    DataUpload { memory: buffer.memory, map_size: buffer.size, copy_len: byte_len },
                ),
            )
        },
{
    if byte_len > buffer.size {
        let mut message: String = "f32 mesh SDF ".to_owned();
        message.append(label);
        message.append(" data exceeds resident buffer size");
        return Err(message);
    }
    if byte_len == 0 {
        return Ok(None);
    }
    Ok(Some(DataUpload { memory: buffer.memory, map_size: buffer.size, copy_len: byte_len }))
}

impl MeshSdfBuffers {
    /// Every resident derived buffer was made with its capacity.
    pub open spec fn wf(&self) -> bool {
        &&& self.source matches Some(held) ==> held.vertex_byte_len <= held.vertices.size
            && held.triangle_byte_len <= held.triangles.size
        &&& self.derived matches Some(held) ==> held.skinned_position_byte_len
            <= held.skinned_positions.size && held.sdf_distance_byte_len <= held.sdf_distances.size
    }

    /// Starts without resident buffers.
    pub fn new() -> (buffers: MeshSdfBuffers)
        ensures
            buffers.wf(),
            buffers.source is None,
            buffers.derived is None,
    {
        MeshSdfBuffers { source: None, derived: None }
    }

    /// Decides where the mesh goes. Resident buffers that do not serve are given up
    /// before new ones are made.
    pub fn prepare_xr_f32_mesh_sdf_source_mesh_buffers(
        &mut self,
        has_pending_reader: bool,
        vertex_bytes: u64,
        triangle_bytes: u64,
    ) -> (plan: BufferPlan)
        requires
            old(self).wf(),
        ensures
            final(self).wf(),
            plan == source_plan(
                old(self).source,
                has_pending_reader,
                vertex_bytes,
                triangle_bytes,
            ),
            final(self).source == (if plan is Rebuild {
                None
            } else {
                old(self).source
            }),
            final(self).derived == old(self).derived,
    {
        if has_pending_reader {
            return BufferPlan::Owned;
        }
        match self.source {
            None => BufferPlan::Rebuild { generation: 1, release: None },
            Some(held) => {
                if held.vertex_byte_len == vertex_bytes && held.triangle_byte_len
                    == triangle_bytes {
                    BufferPlan::Reuse
                } else {
                    self.source = None;
                    BufferPlan::Rebuild {
                        generation: held.generation.saturating_add(1),
                        release: Some((held.triangles, held.vertices)),
                    }
                }
            },
        }
    }

    /// Keeps mesh buffers that were made as `source_buffer_steps` says.
    pub fn install_source(
        &mut self,
        generation: u64,
        vertex_bytes: u64,
        triangle_bytes: u64,
        vertices: VulkanBuffer,
        triangles: VulkanBuffer,
    )
        requires
            old(self).wf(),
            vertex_bytes <= vertices.size,
            triangle_bytes <= triangles.size,
        ensures
            final(self).wf(),
            final(self).source == Some(
                (SourceBuffers {
                    generation,
                    vertex_byte_len: vertex_bytes,
                    triangle_byte_len: triangle_bytes,
                    vertices,
                    triangles,
                }),
            ),
            final(self).derived == old(self).derived,
    {
        self.source = Some(
            SourceBuffers {
                generation,
                vertex_byte_len: vertex_bytes,
                triangle_byte_len: triangle_bytes,
                vertices,
                triangles,
            },
        );
    }

    /// Decides where the derived data goes. Resident buffers that do not serve are
    /// given up before new ones are made.
    pub fn prepare_xr_f32_mesh_sdf_derived_buffers(
        &mut self,
        has_pending_reader: bool,
        position_bytes: u64,
        distance_bytes: u64,
    ) -> (plan: BufferPlan)
        requires
            old(self).wf(),
        ensures
            final(self).wf(),
            plan == derived_plan(
                old(self).derived,
                has_pending_reader,
                position_bytes,
                distance_bytes,
            ),
            final(self).derived == (if plan is Rebuild {
                None
            } else {
                old(self).derived
            }),
            final(self).source == old(self).source,
    {
        if has_pending_reader {
            return BufferPlan::Owned;
        }
        match self.derived {
            None => BufferPlan::Rebuild { generation: 1, release: None },
            Some(held) => {
                if held.skinned_position_byte_len >= position_bytes && held.sdf_distance_byte_len
                    >= distance_bytes {
                    BufferPlan::Reuse
                } else {
                    self.derived = None;
                    BufferPlan::Rebuild {
                        generation: held.generation.saturating_add(1),
                        release: Some((held.sdf_distances, held.skinned_positions)),
                    }
                }
            },
        }
    }

    /// Starts the making of resident derived buffers: each has the capacity for what
    /// is required.
    pub fn derived_setup(position_bytes: u64, distance_bytes: u64) -> (setup: Setup)
        ensures
            setup.wf(),
            setup.done == 0,
            setup.acquired@.len() == 0,
            setup.steps@ == derived_buffer_steps(
                derived_capacity(position_bytes),
                derived_capacity(distance_bytes),
            ),
    {
        let positions: u64 = xr_f32_mesh_sdf_capacity_byte_len(position_bytes);
        let distances: u64 = xr_f32_mesh_sdf_capacity_byte_len(distance_bytes);
        Setup::new(create_owned_xr_f32_mesh_sdf_derived_buffers(positions, distances))
    }

    /// Keeps derived buffers that were made as `derived_setup` says.
    pub fn install_derived(
        &mut self,
        generation: u64,
        position_bytes: u64,
        distance_bytes: u64,
        skinned_positions: VulkanBuffer,
        sdf_distances: VulkanBuffer,
    )
        requires
            old(self).wf(),
            derived_capacity(position_bytes) <= skinned_positions.size,
            derived_capacity(distance_bytes) <= sdf_distances.size,
        ensures
            final(self).wf(),
            final(self).derived == Some(
                (DerivedBuffers {
                    generation,
                    skinned_position_byte_len: derived_capacity(position_bytes),
                    sdf_distance_byte_len: derived_capacity(distance_bytes),
                    skinned_positions,
                    sdf_distances,
                }),
            ),
            final(self).source == old(self).source,
    {
        self.derived = Some(
            DerivedBuffers {
                generation,
                skinned_position_byte_len: xr_f32_mesh_sdf_capacity_byte_len(position_bytes),
                sdf_distance_byte_len: xr_f32_mesh_sdf_capacity_byte_len(distance_bytes),
                skinned_positions,
                sdf_distances,
            },
        );
    }

    /// The mesh buffers that a probe uses, once its plan was carried out.
    pub fn source_use(&self, plan: BufferPlan, vertex_bytes: u64, triangle_bytes: u64) -> (result:
        Result<SourceUse, String>)
        ensures
            match plan {
                BufferPlan::Owned => result == Ok::<SourceUse, String>(
                    SourceUse {
                        generation: 0,
                        resident: false,
                        reused: false,
                        vertex_byte_len: vertex_bytes,
                        triangle_byte_len: triangle_bytes,
                    },
                ),
                _ => match self.source {
                    Some(held) => result == Ok::<SourceUse, String>(
                        SourceUse {
                            generation: held.generation,
                            resident: true,
                            reused: plan is Reuse,
                            vertex_byte_len: vertex_bytes,
                            triangle_byte_len: triangle_bytes,
                        },
                    ),
                    None => result matches Err(message) && message@
                        == "f32 mesh SDF resident source mesh buffers missing"@,
                },
            },
    {
        let reused: bool = match plan {
            BufferPlan::Owned => {
                return Ok(
                    SourceUse {
                        generation: 0,
                        resident: false,
                        reused: false,
                        vertex_byte_len: vertex_bytes,
                        triangle_byte_len: triangle_bytes,
                    },
                );
            },
            BufferPlan::Reuse => true,
            BufferPlan::Rebuild { .. } => false,
        };
        match self.source {
            Some(held) => Ok(
                SourceUse {
                    generation: held.generation,
                    resident: true,
                    reused,
                    vertex_byte_len: vertex_bytes,
                    triangle_byte_len: triangle_bytes,
                },
            ),
            None => Err("f32 mesh SDF resident source mesh buffers missing".to_owned()),
        }
    }

    /// The derived buffers that a probe uses, once its plan was carried out.
    pub fn derived_use(&self, plan: BufferPlan, position_bytes: u64, distance_bytes: u64) -> (result:
        Result<DerivedUse, String>)
        ensures
            match plan {
                BufferPlan::Owned => result == Ok::<DerivedUse, String>(
                    DerivedUse {
                        generation: 0,
                        resident: false,
                        reused: false,
                        skinned_position_byte_len: position_bytes,
                        sdf_distance_byte_len: distance_bytes,
                    },
                ),
                _ => match self.derived {
                    Some(held) => result == Ok::<DerivedUse, String>(
                        DerivedUse {
                            generation: held.generation,
                            resident: true,
                            reused: plan is Reuse,
                            skinned_position_byte_len: held.skinned_position_byte_len,
                            sdf_distance_byte_len: held.sdf_distance_byte_len,
                        },
                    ),
                    None => result matches Err(message) && message@
                        == "f32 mesh SDF resident derived buffers missing"@,
                },
            },
    {
        let reused: bool = match plan {
            BufferPlan::Owned => {
                return Ok(
                    DerivedUse {
                        generation: 0,
                        resident: false,
                        reused: false,
                        skinned_position_byte_len: position_bytes,
                        sdf_distance_byte_len: distance_bytes,
                    },
                );
            },
            BufferPlan::Reuse => true,
            BufferPlan::Rebuild { .. } => false,
        };
        match self.derived {
            Some(held) => Ok(
                DerivedUse {
                    generation: held.generation,
                    resident: true,
                    reused,
                    skinned_position_byte_len: held.skinned_position_byte_len,
                    sdf_distance_byte_len: held.sdf_distance_byte_len,
                },
            ),
            None => Err("f32 mesh SDF resident derived buffers missing".to_owned()),
        }
    }

    /// Gives the derived buffers up: returns what to release, in order.
    pub fn destroy_xr_f32_mesh_sdf_probe_derived_buffers(&mut self) -> (release: Option<
        (VulkanBuffer, VulkanBuffer),
    >)
        requires
            old(self).wf(),
        ensures
            final(self).wf(),
            final(self).derived is None,
            final(self).source == old(self).source,
            release == (match old(self).derived {
                Some(held) => Some((held.sdf_distances, held.skinned_positions)),
                None => None,
            }),
    {
        match self.derived.take() {
            Some(held) => Some((held.sdf_distances, held.skinned_positions)),
            None => None,
        }
    }

    /// Gives the mesh buffers up: returns what to release, in order.
    pub fn destroy_xr_f32_mesh_sdf_probe_source_mesh_buffers(&mut self) -> (release: Option<
        (VulkanBuffer, VulkanBuffer),
    >)
        requires
            old(self).wf(),
        ensures
            final(self).wf(),
            final(self).source is None,
            final(self).derived == old(self).derived,
            release == (match old(self).source {
                Some(held) => Some((held.triangles, held.vertices)),
                None => None,
            }),
    {
        match self.source.take() {
            Some(held) => Some((held.triangles, held.vertices)),
            None => None,
        }
    }
}

/// Resident buffers that were just made for a mesh serve the next probe of the same
/// mesh, and still serve where its derived data grows within the capacity.
pub proof fn law_resident_buffers_serve_again(
    source: SourceBuffers,
    derived: DerivedBuffers,
    position_bytes: u64,
    distance_bytes: u64,
    grown_positions: u64,
    grown_distances: u64,
)
    requires
        derived.skinned_position_byte_len == derived_capacity(position_bytes),
        derived.sdf_distance_byte_len == derived_capacity(distance_bytes),
        grown_positions <= derived_capacity(position_bytes),
        grown_distances <= derived_capacity(distance_bytes),
    ensures
        source_plan(Some(source), false, source.vertex_byte_len, source.triangle_byte_len)
            == BufferPlan::Reuse,
        derived_plan(Some(derived), false, grown_positions, grown_distances)
            == BufferPlan::Reuse,
{
}

/// A probe that has not completed keeps its buffers: nothing is reused or given back
/// while one reads them. Otherwise the mesh buffers serve again exactly where both have
/// the size that is asked for, and are else given back, both of them.
pub proof fn law_source_buffers_serve_the_same_size(
    source: Option<SourceBuffers>,
    has_pending_reader: bool,
    vertex_bytes: u64,
    triangle_bytes: u64,
)
    ensures
        ({
            let plan = source_plan(source, has_pending_reader, vertex_bytes, triangle_bytes);
            &&& plan is Owned <==> has_pending_reader
            &&& plan is Reuse <==> !has_pending_reader && (source matches Some(held)
                && held.vertex_byte_len == vertex_bytes && held.triangle_byte_len
                == triangle_bytes)
            &&& plan is Rebuild ==> match source {
                Some(held) => {
                    &&& plan->release == Some((held.triangles, held.vertices))
                    &&& plan->Rebuild_generation > held.generation || held.generation == u64::MAX
                },
                None => plan->release is None && plan->Rebuild_generation == 1,
            }
        }),
{
}

/// The derived buffers serve again exactly where no probe reads them and both have room
/// for what is asked for; else they are given back, both of them.
pub proof fn law_derived_buffers_serve_what_fits(
    derived: Option<DerivedBuffers>,
    has_pending_reader: bool,
    position_bytes: u64,
    distance_bytes: u64,
)
    ensures
        ({
            let plan = derived_plan(derived, has_pending_reader, position_bytes, distance_bytes);
            &&& plan is Owned <==> has_pending_reader
            &&& plan is Reuse <==> !has_pending_reader && (derived matches Some(held)
                && position_bytes <= held.skinned_position_byte_len && distance_bytes
                <= held.sdf_distance_byte_len)
            &&& plan is Rebuild ==> match derived {
                Some(held) => {
                    &&& plan->release == Some((held.sdf_distances, held.skinned_positions))
                    &&& plan->Rebuild_generation > held.generation || held.generation == u64::MAX
                },
                None => plan->release is None && plan->Rebuild_generation == 1,
            }
        }),
{
}

/// A derived buffer has room for what is required, and for less than twice as much; only
/// nothing needs nothing.
pub proof fn law_capacity_has_room(required: u64)
    ensures
        derived_capacity(required) >= required,
        required > 0 ==> derived_capacity(required) < 2 * required,
        derived_capacity(required) == 0 <==> required == 0,
{
    if required > 0 {
        let value = required as nat;
        law_next_power_is_least(value, 0);
        let e = choose|e: nat| #[trigger] vstd::arithmetic::power2::pow2(e) == next_power(value);
        vstd::arithmetic::power2::lemma2_to64();
        if e > 0 {
            vstd::arithmetic::power2::lemma_pow2_unfold(e);
            vstd::arithmetic::power2::lemma_pow2_pos((e - 1) as nat);
            law_next_power_is_least(value, (e - 1) as nat);
        }
    }
}

/// Data that does not fit is named by its label.
pub proof fn law_data_that_exceeds_is_named(label: Seq<char>)
    ensures
        ({
            let start = "f32 mesh SDF "@;
            let text = exceeds_text(label);
            &&& text.len() >= start.len() + label.len()
            &&& text.subrange(0, start.len() as int) == start
            &&& text.subrange(start.len() as int, (start.len() + label.len()) as int) == label
        }),
{
    let start = "f32 mesh SDF "@;
    let text = exceeds_text(label);
    assert(text.subrange(0, start.len() as int) =~= start);
    assert(text.subrange(start.len() as int, (start.len() + label.len()) as int) =~= label);
}

/// Buffers that are made anew have the next generation.
pub proof fn law_generations_go_up_by_one(generation: u64)
    ensures
        generation < u64::MAX ==> next_generation(generation) == generation + 1,
        next_generation(generation) >= generation,
{
}

} // verus!
