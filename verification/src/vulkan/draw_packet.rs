//! One draw call on the device: its uniforms, textures and samplers.

use vstd::prelude::*;

use crate::text::decimal;
#[allow(unused_imports)]
use crate::text::decimal_text;
use crate::vulkan::binding_order::{order_by_binding, Bound};
#[allow(unused_imports)]
use crate::vulkan::binding_order::{holds_firsts, is_first, strictly_sorted};
use crate::vulkan::buffers::{align_device_size, VulkanBuffer};
#[allow(unused_imports)]
use crate::vulkan::buffers::{aligned, law_aligned_is_least_multiple};
use crate::vulkan::codes::{
    DESCRIPTOR_COMBINED_IMAGE_SAMPLER, DESCRIPTOR_SAMPLED_IMAGE, DESCRIPTOR_SAMPLER,
    DESCRIPTOR_UNIFORM_BUFFER, DRAW_FIRST_INDEX, DRAW_FIRST_INSTANCE, DRAW_VERTEX_OFFSET,
    INDEX_UINT32,
};
use crate::vulkan::descriptors::{reflected_vulkan_descriptor_type, ReflectedBinding};
#[allow(unused_imports)]
use crate::vulkan::descriptors::reflected_type;
use crate::vulkan::geometry::VulkanGeometryResource;
use crate::vulkan::pipeline_build::{pick_pipeline, VulkanPipeline};

verus! {

/// Where the contents of a uniform buffer come from.
#[derive(Clone, Copy, PartialEq, Eq, Structural, Debug)]
pub enum UniformSource {
    Pass,
    DrawList,
    DrawCall,
    Dynamic,
    Scope,
    /// Something that the packet has no contents for.
    Unknown,
}

/// What a packet uploads for a uniform buffer: `len` numbers from the source.
#[derive(Clone, Copy, PartialEq, Eq, Structural, Debug)]
pub struct UniformUpload {
    pub source: UniformSource,
    pub len: usize,
}

/// A uniform buffer at its place in the packet.
#[derive(Clone, Copy, PartialEq, Eq, Structural, Debug)]
pub struct PlacedUniform {
    pub binding: u32,
    pub source: UniformSource,
    pub offset: u64,
    pub size: u64,
}

/// The uniform buffers of a packet.
pub struct PacketUniforms {
    /// The bindings that the shader declares, with what fills them.
    pub bindings: Vec<(UniformSource, u32)>,
    pub pass_len: usize,
    pub draw_list_len: usize,
    pub draw_call_len: usize,
    pub dynamic_binding: u32,
    pub dynamic_len: usize,
    pub scope_binding: Option<u32>,
    pub scope_len: usize,
}

impl PacketUniforms {
    /// How many numbers a declared binding is filled with.
    pub open spec fn len_of(&self, source: UniformSource) -> usize {
        match source {
            UniformSource::Pass => self.pass_len,
            UniformSource::DrawList => self.draw_list_len,
            UniformSource::DrawCall => self.draw_call_len,
            _ => 0,
        }
    }

    /// The uploads for the first `n` declared bindings; one without contents has none.
    pub open spec fn declared(&self, n: int) -> Seq<Bound<UniformUpload>>
        decreases n,
    {
        if n <= 0 {
            seq![]
        } else {
            let before = self.declared(n - 1);
            let (source, binding) = self.bindings@[n - 1];
            if self.len_of(source) == 0 {
                before
            } else {
                before.push(Bound {
                        binding,
                        value: UniformUpload { source, len: self.len_of(source) },
                    })
            }
        }
    }

    /// All uploads as they are collected: the declared bindings, the dynamic uniforms,
    /// the scope uniforms.
    pub open spec fn collected(&self) -> Seq<Bound<UniformUpload>> {
        self.declared(self.bindings@.len() as int) + (if self.dynamic_len > 0 {
            seq![
                Bound {
                    binding: self.dynamic_binding,
                    value: UniformUpload {
                        source: UniformSource::Dynamic,
                        len: self.dynamic_len,
                    },
                },
            ]
        } else {
            seq![]
        }) + (match self.scope_binding {
            Some(binding) => if self.scope_len > 0 {
                seq![
                    Bound {
                        binding,
                        value: UniformUpload {
                            source: UniformSource::Scope,
                            len: self.scope_len,
                        },
                    },
                ]
            } else {
                seq![]
            },
            None => seq![],
        })
    }

    /// Collects the uploads.
    pub fn collect(&self) -> (uploads: Vec<Bound<UniformUpload>>)
        ensures
            uploads@ == self.collected(),
    {
        let mut uploads: Vec<Bound<UniformUpload>> = Vec::new();
        let mut i: usize = 0;
        while i < self.bindings.len()
            invariant
                i <= self.bindings@.len(),
                uploads@ == self.declared(i as int),
            decreases self.bindings@.len() - i,
        {
            let (source, binding): (UniformSource, u32) = self.bindings[i];
            let len: usize = match source {
                UniformSource::Pass => self.pass_len,
                UniformSource::DrawList => self.draw_list_len,
                UniformSource::DrawCall => self.draw_call_len,
                _ => 0,
            };
            if len != 0 {
                uploads.push(Bound { binding, value: UniformUpload { source, len } });
            }
            i = i + 1;
        }
        let ghost declared = uploads@;
        if self.dynamic_len > 0 {
            uploads.push(
                Bound {
                    binding: self.dynamic_binding,
                    value: UniformUpload {
                        source: UniformSource::Dynamic,
                        len: self.dynamic_len,
                    },
                },
            );
        }
        let ghost with_dynamic = uploads@;
        match self.scope_binding {
            Some(binding) => {
                if self.scope_len > 0 {
                    uploads.push(
                        Bound {
                        binding,
                        value: UniformUpload {
                            source: UniformSource::Scope,
                            len: self.scope_len,
                        },
                    },
                    );
                }
            },
            None => {},
        }
        assert(uploads@ =~= self.collected());
        uploads
    }
}

/// Where the uniforms end, after `start`: each begins on the alignment.
pub open spec fn layout_end(uploads: Seq<Bound<UniformUpload>>, start: int, alignment: int) -> int
    decreases uploads.len(),
{
    if uploads.len() == 0 {
        start
    } else {
        aligned(layout_end(uploads.drop_last(), start, alignment), alignment)
            + uploads.last().value.len * 4
    }
}

/// The uniforms at their places, after `start`.
pub open spec fn layout(uploads: Seq<Bound<UniformUpload>>, start: int, alignment: int) -> Seq<
    PlacedUniform,
>
    decreases uploads.len(),
{
    if uploads.len() == 0 {
        seq![]
    } else {
        layout(uploads.drop_last(), start, alignment).push(
            PlacedUniform {
                binding: uploads.last().binding,
                source: uploads.last().value.source,
                offset: aligned(
                    layout_end(uploads.drop_last(), start, alignment),
                    alignment,
                ) as u64,
                size: (uploads.last().value.len * 4) as u64,
            },
        )
    }
}

/// A packet's bytes: the instances at the start, then the uniforms.
pub struct PacketLayout {
    pub instances_bytes: u64,
    pub uniforms: Vec<PlacedUniform>,
    pub span: u64,
}

/// The bytes of a packet, at least four.
pub open spec fn packet_span(end: int) -> int {
    if end < 4 {
        4
    } else {
        end
    }
}

proof fn lemma_aligned_bounds(value: int, alignment: int)
    requires
        0 <= value,
        1 <= alignment,
    ensures
        value <= aligned(value, alignment) < value + alignment,
        aligned(value, alignment) % alignment == 0,
{
    let far = alignment * (value + 1);
    vstd::arithmetic::div_mod::lemma_mod_multiples_basic(value + 1, alignment);
    assert(alignment * (value + 1) == (value + 1) * alignment) by (nonlinear_arith);
    assert(value <= far) by (nonlinear_arith)
        requires
            far == alignment * (value + 1),
            alignment >= 1,
            value >= 0,
    ;
    law_aligned_is_least_multiple(value, alignment, far);
}

proof fn lemma_layout_grows(uploads: Seq<Bound<UniformUpload>>, n: int, start: int, alignment: int)
    requires
        0 <= n <= uploads.len(),
        0 <= start,
        1 <= alignment,
    ensures
        start <= layout_end(uploads.take(n), start, alignment) <= layout_end(
            uploads,
            start,
            alignment,
        ),
    decreases uploads.len() - n, uploads.len(),
{
    lemma_layout_from_start(uploads.take(n), start, alignment);
    if n == uploads.len() {
        assert(uploads.take(n) =~= uploads);
    } else {
        let before = uploads.drop_last();
        assert(before.take(n) =~= uploads.take(n));
        lemma_layout_grows(before, n, start, alignment);
        lemma_layout_from_start(before, start, alignment);
        lemma_aligned_bounds(layout_end(before, start, alignment), alignment);
    }
}

proof fn lemma_layout_from_start(uploads: Seq<Bound<UniformUpload>>, start: int, alignment: int)
    requires
        0 <= start,
        1 <= alignment,
    ensures
        start <= layout_end(uploads, start, alignment),
    decreases uploads.len(),
{
    if uploads.len() > 0 {
        lemma_layout_from_start(uploads.drop_last(), start, alignment);
        lemma_aligned_bounds(layout_end(uploads.drop_last(), start, alignment), alignment);
    }
}

/// Lays a packet out. `instance_len` counts numbers; the alignment is that of uniform
/// buffers.
pub fn lay_out_packet(
    instance_len: usize,
    uploads: &Vec<Bound<UniformUpload>>,
    uniform_alignment: u64,
) -> (packet: PacketLayout)
    requires
        uniform_alignment >= 4,
        instance_len * 4 <= u64::MAX,
        forall|i: int| 0 <= i < uploads@.len() ==> (#[trigger] uploads@[i]).value.len * 4 <= u64::MAX,
        layout_end(uploads@, instance_len * 4, uniform_alignment as int) <= u64::MAX,
    ensures
        packet.instances_bytes == instance_len * 4,
        packet.uniforms@ == layout(uploads@, instance_len * 4, uniform_alignment as int),
        packet.span == packet_span(
            layout_end(uploads@, instance_len * 4, uniform_alignment as int),
        ),
{
    let instances_bytes: u64 = instance_len as u64 * 4;
    let mut cursor: u64 = instances_bytes;
    let mut uniforms: Vec<PlacedUniform> = Vec::new();
    let ghost start = instance_len * 4;
    let ghost alignment = uniform_alignment as int;
    let mut i: usize = 0;
    while i < uploads.len()
        invariant
            i <= uploads@.len(),
            uniform_alignment >= 4,
            alignment == uniform_alignment,
            0 <= start,
            layout_end(uploads@, start, alignment) <= u64::MAX,
            forall|i: int|
                0 <= i < uploads@.len() ==> (#[trigger] uploads@[i]).value.len * 4 <= u64::MAX,
            cursor == layout_end(uploads@.take(i as int), start, alignment),
            uniforms@ == layout(uploads@.take(i as int), start, alignment),
        decreases uploads@.len() - i,
    {
        let upload: Bound<UniformUpload> = uploads[i];
        proof {
            let next = uploads@.take(i + 1);
            assert(next.drop_last() =~= uploads@.take(i as int));
            assert(next.last() == upload);
            lemma_layout_grows(uploads@, i + 1, start, alignment);
            lemma_aligned_bounds(cursor as int, alignment);
        }
        let size: u64 = upload.value.len as u64 * 4;
        let offset: u64 = align_device_size(cursor, uniform_alignment);
        uniforms.push(
            PlacedUniform { binding: upload.binding, source: upload.value.source, offset, size },
        );
        cursor = offset + size;
        i = i + 1;
    }
    assert(uploads@.take(i as int) =~= uploads@);
    PacketLayout { instances_bytes, uniforms, span: if cursor < 4 { 4 } else { cursor } }
}

/// In a packet, each uniform begins on the alignment, after the instances and after
/// the uniforms before it, and ends within the packet.
pub proof fn law_packet_parts_do_not_overlap(
    uploads: Seq<Bound<UniformUpload>>,
    start: int,
    alignment: int,
    i: int,
    j: int,
)
    requires
        0 <= start,
        1 <= alignment,
        0 <= i < j < uploads.len(),
        layout_end(uploads, start, alignment) <= u64::MAX,
        forall|k: int| 0 <= k < uploads.len() ==> (#[trigger] uploads[k]).value.len * 4 <= u64::MAX,
    ensures
        ({
            let placed = layout(uploads, start, alignment);
            &&& placed.len() == uploads.len()
            &&& start <= placed[i].offset
            &&& placed[i].offset as int % alignment == 0
            &&& placed[j].offset as int % alignment == 0
            &&& placed[i].offset + placed[i].size <= placed[j].offset
            &&& placed[j].offset + placed[j].size <= layout_end(uploads, start, alignment)
        }),
{
    lemma_layout_index(uploads, start, alignment, i);
    lemma_layout_index(uploads, start, alignment, j);
    lemma_layout_grows(uploads.take(j), i + 1, start, alignment);
    assert(uploads.take(j).take(i + 1) =~= uploads.take(i + 1));
    lemma_layout_grows(uploads, j + 1, start, alignment);
    lemma_aligned_bounds(layout_end(uploads.take(j), start, alignment), alignment);
    lemma_layout_from_start(uploads.take(j), start, alignment);
}

proof fn lemma_layout_index(uploads: Seq<Bound<UniformUpload>>, start: int, alignment: int, i: int)
    requires
        0 <= start,
        1 <= alignment,
        0 <= i < uploads.len(),
        layout_end(uploads, start, alignment) <= u64::MAX,
        forall|k: int| 0 <= k < uploads.len() ==> (#[trigger] uploads[k]).value.len * 4 <= u64::MAX,
    ensures
        layout(uploads, start, alignment).len() == uploads.len(),
        layout(uploads, start, alignment)[i].offset == aligned(
            layout_end(uploads.take(i), start, alignment),
            alignment,
        ),
        layout(uploads, start, alignment)[i].size == uploads[i].value.len * 4,
        layout_end(uploads.take(i + 1), start, alignment) == layout(uploads, start, alignment)[i].offset
            + layout(uploads, start, alignment)[i].size,
        layout(uploads, start, alignment)[i].offset as int % alignment == 0,
        layout(uploads, start, alignment)[i].offset >= start,
    decreases uploads.len(),
{
    let before = uploads.drop_last();
    lemma_layout_grows(uploads, uploads.len() - 1, start, alignment);
    assert(uploads.take(uploads.len() - 1) =~= before);
    assert(uploads.take(i + 1).drop_last() =~= uploads.take(i));
    assert(uploads.take(i + 1).last() == uploads[i]);
    lemma_layout_from_start(uploads.take(i), start, alignment);
    lemma_aligned_bounds(layout_end(uploads.take(i), start, alignment), alignment);
    lemma_layout_grows(uploads, i + 1, start, alignment);
    if i < uploads.len() - 1 {
        assert forall|k: int| 0 <= k < before.len() implies (#[trigger] before[k]).value.len * 4
            <= u64::MAX by {
            assert(before[k] == uploads[k]);
        }
        lemma_layout_index(before, start, alignment, i);
        assert(before.take(i) =~= uploads.take(i));
        assert(before.take(i + 1) =~= uploads.take(i + 1));
    } else {
        assert(uploads.take(i) =~= before);
        lemma_layout_len(before, start, alignment);
    }
}

proof fn lemma_layout_len(uploads: Seq<Bound<UniformUpload>>, start: int, alignment: int)
    ensures
        layout(uploads, start, alignment).len() == uploads.len(),
    decreases uploads.len(),
{
    if uploads.len() > 0 {
        lemma_layout_len(uploads.drop_last(), start, alignment);
    }
}

/// How many instances a packet holds, as the device counts them.
pub open spec fn instances_of(instance_slots: usize, instance_len: usize) -> u32 {
    (instance_len / instance_slots) as u32
}

/// Whether a packet draws anything: both strides are there, and so are an instance and
/// an index.
pub open spec fn packet_draws(
    geometry_slots: usize,
    instance_slots: usize,
    instance_len: usize,
    index_count: u32,
) -> bool {
    &&& geometry_slots > 0
    &&& instance_slots > 0
    &&& instances_of(instance_slots, instance_len) > 0
    &&& index_count > 0
}

/// How many instances a packet draws; nothing where it draws nothing.
pub fn packet_instances(
    geometry_slots: usize,
    instance_slots: usize,
    instance_len: usize,
    index_count: u32,
) -> (count: Option<u32>)
    ensures
        count == (if packet_draws(geometry_slots, instance_slots, instance_len, index_count) {
            Some(instances_of(instance_slots, instance_len))
        } else {
            None
        }),
{
    if geometry_slots == 0 || instance_slots == 0 {
        return None;
    }
    let count: u32 = #[verifier::truncate] ((instance_len / instance_slots) as u32);
    if count == 0 || index_count == 0 {
        return None;
    }
    Some(count)
}

/// The alignment of a packet's parts.
pub open spec fn packet_alignment(min_uniform_alignment: u64) -> u64 {
    if min_uniform_alignment < 4 {
        4
    } else {
        min_uniform_alignment
    }
}

/// The uniforms of a packet in their order fit in the device's sizes.
pub open spec fn packet_fits(
    uniforms: PacketUniforms,
    instance_len: usize,
    min_uniform_alignment: u64,
) -> bool {
    &&& instance_len * 4 <= u64::MAX
    &&& forall|ordered: Seq<Bound<UniformUpload>>|
        strictly_sorted(ordered) && #[trigger] holds_firsts(ordered, uniforms.collected())
            ==> layout_end(
            ordered,
            instance_len * 4,
            packet_alignment(min_uniform_alignment) as int,
        ) <= u64::MAX
}

/// A packet that is drawn: how many instances, where its bytes go, and the alignment of
/// the whole.
pub struct PacketPlan {
    pub instance_count: u32,
    pub layout: PacketLayout,
    pub alignment: u64,
}

/// Plans a packet; nothing where it draws nothing.
pub fn plan_packet(
    uniforms: &PacketUniforms,
    geometry_slots: usize,
    instance_slots: usize,
    instance_len: usize,
    index_count: u32,
    min_uniform_alignment: u64,
) -> (plan: Option<PacketPlan>)
    requires
        packet_fits(*uniforms, instance_len, min_uniform_alignment),
    ensures
        match plan {
            Some(plan) => {
                &&& packet_draws(geometry_slots, instance_slots, instance_len, index_count)
                &&& plan.instance_count == instances_of(instance_slots, instance_len)
                &&& plan.alignment == packet_alignment(min_uniform_alignment)
                &&& plan.layout.instances_bytes == instance_len * 4
                &&& exists|ordered: Seq<Bound<UniformUpload>>|
                    {
                        &&& strictly_sorted(ordered)
                        &&& #[trigger] holds_firsts(ordered, uniforms.collected())
                        &&& plan.layout.uniforms@ == layout(
                            ordered,
                            instance_len * 4,
                            plan.alignment as int,
                        )
                        &&& plan.layout.span == packet_span(
                            layout_end(ordered, instance_len * 4, plan.alignment as int),
                        )
                    }
            },
            None => !packet_draws(geometry_slots, instance_slots, instance_len, index_count),
        },
{
    let instance_count: u32 = match packet_instances(
        geometry_slots,
        instance_slots,
        instance_len,
        index_count,
    ) {
        Some(count) => count,
        None => {
            return None;
        },
    };
    let uploads: Vec<Bound<UniformUpload>> = uniforms.collect();
    let ordered: Vec<Bound<UniformUpload>> = order_by_binding(&uploads);
    let alignment: u64 = if min_uniform_alignment < 4 {
        4
    } else {
        min_uniform_alignment
    };
    assert(holds_firsts(ordered@, uniforms.collected()));
    proof {
        lemma_sizes_bounded(ordered@, instance_len * 4, alignment as int);
    }
    let layout: PacketLayout = lay_out_packet(instance_len, &ordered, alignment);
    Some(PacketPlan { instance_count, layout, alignment })
}

proof fn lemma_sizes_bounded(uploads: Seq<Bound<UniformUpload>>, start: int, alignment: int)
    requires
        0 <= start,
        1 <= alignment,
    ensures
        forall|i: int|
            0 <= i < uploads.len() ==> (#[trigger] uploads[i]).value.len * 4 <= layout_end(
                uploads,
                start,
                alignment,
            ),
    decreases uploads.len(),
{
    if uploads.len() > 0 {
        let before = uploads.drop_last();
        lemma_sizes_bounded(before, start, alignment);
        lemma_layout_from_start(before, start, alignment);
        lemma_aligned_bounds(layout_end(before, start, alignment), alignment);
        assert forall|i: int| 0 <= i < uploads.len() implies (#[trigger] uploads[i]).value.len * 4
            <= layout_end(uploads, start, alignment) by {
            if i < before.len() {
                assert(before[i] == uploads[i]);
            }
        }
    }
}

/// A texture as it is bound.
#[derive(Clone, Copy, PartialEq, Eq, Structural, Debug)]
pub struct BoundTexture {
    pub view: u64,
    pub layout: i32,
    /// The sampler of a video texture.
    pub sampler: Option<u64>,
    pub ycbcr: bool,
}

/// A texture slot of a packet. `texture` is the texture, or the null texture of its
/// shape, or nothing where not even that is there.
#[derive(Clone, Copy, PartialEq, Eq, Structural, Debug)]
pub struct TextureSlot {
    pub texture: Option<BoundTexture>,
    pub sampler_index: usize,
}

/// How many dynamic uniforms a packet takes along: those that the shader declares, as
/// far as there are any.
pub fn dynamic_uniform_len(total_slots: usize, len: usize) -> (taken: usize)
    ensures
        taken <= total_slots && taken <= len,
        taken == total_slots || taken == len,
{
    if total_slots < len {
        total_slots
    } else {
        len
    }
}

/// The texture that a slot of a packet asks for.
#[derive(Clone, Copy, PartialEq, Eq, Structural, Debug)]
pub struct TextureRequest {
    pub texture_key: u64,
    pub is_cube: bool,
    pub sampler_index: usize,
}

/// What a slot asks for: its own texture or the null texture of its shape, with the
/// sampler that is declared for it or the first one.
pub open spec fn texture_request(
    own: Option<u64>,
    is_cube: bool,
    sampler_indices: Seq<usize>,
    slot: int,
    null_texture: u64,
    null_cube: u64,
) -> TextureRequest {
    TextureRequest {
        texture_key: match own {
            Some(key) => key,
            None => if is_cube {
                null_cube
            } else {
                null_texture
            },
        },
        is_cube,
        sampler_index: if slot < sampler_indices.len() {
            sampler_indices[slot]
        } else {
            0
        },
    }
}

/// Lists what the slots of a packet ask for. `cubes` says of each texture that the
/// shader declares whether it is a cube, `own` holds the textures of the call.
pub fn collect_texture_requests(
    own: &Vec<Option<u64>>,
    cubes: &Vec<bool>,
    sampler_indices: &Vec<usize>,
    null_texture: u64,
    null_cube: u64,
) -> (requests: Vec<TextureRequest>)
    requires
        cubes@.len() <= own@.len(),
    ensures
        requests@.len() == cubes@.len(),
        forall|i: int|
            0 <= i < cubes@.len() ==> #[trigger] requests@[i] == texture_request(
                own@[i],
                cubes@[i],
                sampler_indices@,
                i,
                null_texture,
                null_cube,
            ),
{
    let mut requests: Vec<TextureRequest> = Vec::new();
    let mut i: usize = 0;
    while i < cubes.len()
        invariant
            i <= cubes@.len() <= own@.len(),
            requests@.len() == i,
            forall|j: int|
                0 <= j < i ==> #[trigger] requests@[j] == texture_request(
                    own@[j],
                    cubes@[j],
                    sampler_indices@,
                    j,
                    null_texture,
                    null_cube,
                ),
        decreases cubes@.len() - i,
    {
        let is_cube: bool = cubes[i];
        let texture_key: u64 = match own[i] {
            Some(key) => key,
            None => {
                if is_cube {
                    null_cube
                } else {
                    null_texture
                }
            },
        };
        let sampler_index: usize = if i < sampler_indices.len() {
            sampler_indices[i]
        } else {
            0
        };
        requests.push(TextureRequest { texture_key, is_cube, sampler_index });
        i = i + 1;
    }
    requests
}

/// The texture of a slot: its own, else the null texture of its shape.
pub fn resolve_texture(
    own: Option<BoundTexture>,
    is_cube: bool,
    null_texture: Option<BoundTexture>,
    null_cube: Option<BoundTexture>,
) -> (texture: Option<BoundTexture>)
    ensures
        texture == (if own is Some {
            own
        } else if is_cube {
            null_cube
        } else {
            null_texture
        }),
{
    match own {
        Some(texture) => Some(texture),
        None => {
            if is_cube {
                null_cube
            } else {
                null_texture
            }
        },
    }
}

/// A shader that samples a video texture through one combined binding.
#[derive(Clone, Copy, PartialEq, Eq, Structural, Debug)]
pub struct CombinedRemap {
    pub texture_binding: u32,
    pub sampler_binding: u32,
}

/// The bindings of a shader.
pub struct ShaderBindings {
    pub texture_base: u32,
    pub sampler_base: u32,
    pub xr_depth: u32,
    pub remaps: Vec<CombinedRemap>,
    pub interface: Vec<ReflectedBinding>,
}

/// A descriptor that is written.
#[derive(Clone, Copy, PartialEq, Eq, Structural, Debug)]
pub enum DescriptorWrite {
    Uniform { binding: u32, offset: u64, range: u64 },
    Texture { binding: u32, descriptor: i32, view: u64, layout: i32, sampler: u64 },
    Sampler { binding: u32, sampler: u64 },
    XrDepth { binding: u32 },
}

/// The first remap for a texture binding.
pub open spec fn find_remap(remaps: Seq<CombinedRemap>, texture_binding: int) -> Option<
    CombinedRemap,
>
    decreases remaps.len(),
{
    if remaps.len() == 0 {
        None
    } else {
        match find_remap(remaps.drop_last(), texture_binding) {
            Some(found) => Some(found),
            None => if remaps.last().texture_binding == texture_binding {
                Some(remaps.last())
            } else {
                None
            },
        }
    }
}

proof fn lemma_remap_prefix(remaps: Seq<CombinedRemap>, texture_binding: int, n: int)
    requires
        0 <= n <= remaps.len(),
        find_remap(remaps.take(n), texture_binding) is Some,
    ensures
        find_remap(remaps, texture_binding) == find_remap(remaps.take(n), texture_binding),
    decreases remaps.len() - n,
{
    if n == remaps.len() {
        assert(remaps.take(n) =~= remaps);
    } else {
        assert(remaps.take(n + 1).drop_last() =~= remaps.take(n));
        lemma_remap_prefix(remaps, texture_binding, n + 1);
    }
}

/// Finds the first remap for a texture binding.
pub fn lookup_remap(remaps: &Vec<CombinedRemap>, texture_binding: u32) -> (found: Option<
    CombinedRemap,
>)
    ensures
        found == find_remap(remaps@, texture_binding as int),
{
    let mut i: usize = 0;
    while i < remaps.len()
        invariant
            i <= remaps@.len(),
            find_remap(remaps@.take(i as int), texture_binding as int) is None,
        decreases remaps@.len() - i,
    {
        proof {
            let next = remaps@.take(i + 1);
            assert(next.drop_last() =~= remaps@.take(i as int));
            assert(next.last() == remaps@[i as int]);
        }
        if remaps[i].texture_binding == texture_binding {
            proof {
                lemma_remap_prefix(remaps@, texture_binding as int, i + 1);
            }
            return Some(remaps[i]);
        }
        i = i + 1;
    }
    assert(remaps@.take(i as int) =~= remaps@);
    None
}

/// Whether a slot's texture is a video texture that the shader samples through one
/// combined binding.
pub open spec fn combined_remap(
    shader: ShaderBindings,
    slots: Seq<TextureSlot>,
    slot: int,
) -> Option<CombinedRemap> {
    match slots[slot].texture {
        Some(texture) => if texture.sampler is Some && texture.ycbcr {
            find_remap(shader.remaps@, shader.texture_base + slot)
        } else {
            None
        },
        None => None,
    }
}

/// The write for a slot whose texture is there.
pub open spec fn texture_write(
    shader: ShaderBindings,
    slots: Seq<TextureSlot>,
    slot: int,
) -> DescriptorWrite {
    let texture = slots[slot].texture->0;
    let binding = (shader.texture_base + slot) as u32;
    let combined = combined_remap(shader, slots, slot) is Some;
    DescriptorWrite::Texture {
        binding,
        descriptor: if combined {
            DESCRIPTOR_COMBINED_IMAGE_SAMPLER
        } else {
            reflected_type(shader.interface@, binding, DESCRIPTOR_SAMPLED_IMAGE)
        },
        view: texture.view,
        layout: texture.layout,
        sampler: if combined {
            texture.sampler->0
        } else {
            0
        },
    }
}

/// A sampler binding that a combined binding stands in for.
pub open spec fn is_combined_sampler(
    shader: ShaderBindings,
    slots: Seq<TextureSlot>,
    n: int,
    binding: u32,
) -> bool {
    exists|slot: int|
        0 <= slot < n && (#[trigger] combined_remap(shader, slots, slot) matches Some(remap)
            && remap.sampler_binding == binding)
}

/// The sampler that the video textures of the first `n` slots put in place of a
/// pipeline's own; the last one counts.
pub open spec fn sampler_override(slots: Seq<TextureSlot>, n: int, sampler_index: int) -> Option<
    u64,
>
    decreases n,
{
    if n <= 0 {
        None
    } else {
        let slot = slots[n - 1];
        match slot.texture {
            Some(texture) => if slot.sampler_index == sampler_index && texture.sampler is Some {
                texture.sampler
            } else {
                sampler_override(slots, n - 1, sampler_index)
            },
            None => sampler_override(slots, n - 1, sampler_index),
        }
    }
}

/// The writes for the first `n` samplers of a pipeline.
pub open spec fn sampler_writes(
    shader: ShaderBindings,
    slots: Seq<TextureSlot>,
    samplers: Seq<u64>,
    n: int,
) -> Seq<DescriptorWrite>
    decreases n,
{
    if n <= 0 {
        seq![]
    } else {
        let before = sampler_writes(shader, slots, samplers, n - 1);
        let binding = (shader.sampler_base + n - 1) as u32;
        if is_combined_sampler(shader, slots, slots.len() as int, binding) {
            before
        } else {
            before.push(
                DescriptorWrite::Sampler {
                    binding,
                    sampler: match sampler_override(slots, slots.len() as int, n - 1) {
                        Some(sampler) => sampler,
                        None => samplers[n - 1],
                    },
                },
            )
        }
    }
}

/// Every slot has a texture.
pub open spec fn all_textures_there(slots: Seq<TextureSlot>) -> bool {
    forall|i: int| 0 <= i < slots.len() ==> (#[trigger] slots[i]).texture is Some
}

/// The writes for the textures.
pub open spec fn texture_writes(shader: ShaderBindings, slots: Seq<TextureSlot>) -> Seq<
    DescriptorWrite,
> {
    Seq::new(slots.len(), |i: int| texture_write(shader, slots, i))
}

/// The writes for the uniforms of a packet that starts at `base`.
pub open spec fn uniform_writes(uniforms: Seq<PlacedUniform>, base: u64) -> Seq<DescriptorWrite> {
    Seq::new(
        uniforms.len(),
        |i: int|
            DescriptorWrite::Uniform {
                binding: uniforms[i].binding,
                offset: (base + uniforms[i].offset) as u64,
                range: uniforms[i].size,
            },
    )
}

/// All writes of a packet: uniforms, textures, samplers, and the depth of the real
/// world.
pub open spec fn packet_writes(
    shader: ShaderBindings,
    uniforms: Seq<PlacedUniform>,
    base: u64,
    slots: Seq<TextureSlot>,
    samplers: Seq<u64>,
) -> Seq<DescriptorWrite> {
    uniform_writes(uniforms, base) + texture_writes(shader, slots) + sampler_writes(
        shader,
        slots,
        samplers,
        samplers.len() as int,
    ) + seq![DescriptorWrite::XrDepth { binding: shader.xr_depth }]
}

/// What becomes of a packet once its bytes are uploaded.
pub enum PacketDescriptors {
    /// A texture is missing: the packet is not drawn.
    Skip,
    /// The pipeline binds nothing.
    Unbound,
    Write(Vec<DescriptorWrite>),
}

fn collect_texture_writes(shader: &ShaderBindings, slots: &Vec<TextureSlot>) -> (writes: Option<
    Vec<DescriptorWrite>,
>)
    requires
        shader.texture_base + slots@.len() <= u32::MAX,
    ensures
        match writes {
            Some(list) => all_textures_there(slots@) && list@ == texture_writes(*shader, slots@),
            None => !all_textures_there(slots@),
        },
{
    let mut writes: Vec<DescriptorWrite> = Vec::new();
    let mut i: usize = 0;
    while i < slots.len()
        invariant
            i <= slots@.len(),
            shader.texture_base + slots@.len() <= u32::MAX,
            forall|j: int| 0 <= j < i ==> (#[trigger] slots@[j]).texture is Some,
            writes@ == texture_writes(*shader, slots@).take(i as int),
        decreases slots@.len() - i,
    {
        let slot: TextureSlot = slots[i];
        match slot.texture {
            None => {
                assert(slots@[i as int].texture is None);
                return None;
            },
            Some(texture) => {
                let binding: u32 = shader.texture_base + i as u32;
                let combined: bool = texture.sampler.is_some() && texture.ycbcr && lookup_remap(
                    &shader.remaps,
                    binding,
                ).is_some();
                let descriptor: i32 = if combined {
                    DESCRIPTOR_COMBINED_IMAGE_SAMPLER
                } else {
                    reflected_vulkan_descriptor_type(
                        &shader.interface,
                        binding,
                        DESCRIPTOR_SAMPLED_IMAGE,
                    )
                };
                let sampler: u64 = match texture.sampler {
                    Some(sampler) => {
                        if combined {
                            sampler
                        } else {
                            0
                        }
                    },
                    None => 0,
                };
                writes.push(
                    DescriptorWrite::Texture {
                        binding,
                        descriptor,
                        view: texture.view,
                        layout: texture.layout,
                        sampler,
                    },
                );
            },
        }
        i = i + 1;
        assert(writes@ =~= texture_writes(*shader, slots@).take(i as int));
    }
    assert(writes@ =~= texture_writes(*shader, slots@));
    Some(writes)
}

fn check_combined_sampler(shader: &ShaderBindings, slots: &Vec<TextureSlot>, binding: u32) -> (
    combined: bool)
    requires
        shader.texture_base + slots@.len() <= u32::MAX,
    ensures
        combined == is_combined_sampler(*shader, slots@, slots@.len() as int, binding),
{
    let mut i: usize = 0;
    while i < slots.len()
        invariant
            i <= slots@.len(),
            shader.texture_base + slots@.len() <= u32::MAX,
            !is_combined_sampler(*shader, slots@, i as int, binding),
        decreases slots@.len() - i,
    {
        match slots[i].texture {
            Some(texture) => {
                if texture.sampler.is_some() && texture.ycbcr {
                    match lookup_remap(&shader.remaps, shader.texture_base + i as u32) {
                        Some(remap) => {
                            assert(combined_remap(*shader, slots@, i as int) == Some(remap));
                            if remap.sampler_binding == binding {
                                return true;
                            }
                        },
                        None => {
                            assert(combined_remap(*shader, slots@, i as int) is None);
                        },
                    }
                } else {
                    assert(combined_remap(*shader, slots@, i as int) is None);
                }
            },
            None => {
                assert(combined_remap(*shader, slots@, i as int) is None);
            },
        }
        i = i + 1;
    }
    false
}

fn find_sampler_override(slots: &Vec<TextureSlot>, sampler_index: usize) -> (sampler: Option<u64>)
    ensures
        sampler == sampler_override(slots@, slots@.len() as int, sampler_index as int),
{
    let mut i: usize = slots.len();
    while i > 0
        invariant
            i <= slots@.len(),
            sampler_override(slots@, slots@.len() as int, sampler_index as int)
                == sampler_override(slots@, i as int, sampler_index as int),
        decreases i,
    {
        i = i - 1;
        let slot: TextureSlot = slots[i];
        match slot.texture {
            Some(texture) => {
                if slot.sampler_index == sampler_index && texture.sampler.is_some() {
                    return texture.sampler;
                }
            },
            None => {},
        }
    }
    None
}

/// Collects the descriptors of a packet whose bytes start at `base`.
pub fn record_draw_packet(
    shader: &ShaderBindings,
    shader_index: usize,
    has_descriptors: bool,
    uniforms: &Vec<PlacedUniform>,
    base: u64,
    slots: &Vec<TextureSlot>,
    samplers: &Vec<u64>,
) -> (result: Result<PacketDescriptors, String>)
    requires
        shader.texture_base + slots@.len() <= u32::MAX,
        shader.sampler_base + samplers@.len() <= u32::MAX,
        forall|i: int|
            0 <= i < uniforms@.len() ==> base + (#[trigger] uniforms@[i]).offset <= u64::MAX,
    ensures
        if !all_textures_there(slots@) {
            result == Ok::<PacketDescriptors, String>(PacketDescriptors::Skip)
        } else if !has_descriptors {
            result == Ok::<PacketDescriptors, String>(PacketDescriptors::Unbound)
        } else if uniforms@.len() == 0 && slots@.len() == 0 && sampler_writes(
            *shader,
            slots@,
            samplers@,
            samplers@.len() as int,
        ).len() == 0 {
            result matches Err(message) && message@ == "shader "@ + decimal_text(
                shader_index as nat,
            ) + " expects descriptors but no descriptor payloads were built"@
        } else {
            result matches Ok(PacketDescriptors::Write(writes)) && writes@ == packet_writes(
                *shader,
                uniforms@,
                base,
                slots@,
                samplers@,
            )
        },
{
    let mut textures: Vec<DescriptorWrite> = match collect_texture_writes(shader, slots) {
        None => {
            return Ok(PacketDescriptors::Skip);
        },
        Some(textures) => textures,
    };
    let mut sampler_list: Vec<DescriptorWrite> = Vec::new();
    let mut i: usize = 0;
    while i < samplers.len()
        invariant
            i <= samplers@.len(),
            shader.texture_base + slots@.len() <= u32::MAX,
            shader.sampler_base + samplers@.len() <= u32::MAX,
            sampler_list@ == sampler_writes(*shader, slots@, samplers@, i as int),
        decreases samplers@.len() - i,
    {
        let binding: u32 = shader.sampler_base + i as u32;
        if !check_combined_sampler(shader, slots, binding) {
            let sampler: u64 = match find_sampler_override(slots, i) {
                Some(sampler) => sampler,
                None => samplers[i],
            };
            sampler_list.push(DescriptorWrite::Sampler { binding, sampler });
        }
        i = i + 1;
    }
    if !has_descriptors {
        return Ok(PacketDescriptors::Unbound);
    }
    if uniforms.len() == 0 && slots.len() == 0 && sampler_list.len() == 0 {
        let mut message: String = "shader ".to_owned();
        let index: String = decimal(shader_index as u64);
        message.append(index.as_str());
        message.append(" expects descriptors but no descriptor payloads were built");
        return Err(message);
    }
    let mut writes: Vec<DescriptorWrite> = Vec::new();
    let mut i: usize = 0;
    while i < uniforms.len()
        invariant
            i <= uniforms@.len(),
            forall|i: int|
                0 <= i < uniforms@.len() ==> base + (#[trigger] uniforms@[i]).offset <= u64::MAX,
            writes@ == uniform_writes(uniforms@, base).take(i as int),
        decreases uniforms@.len() - i,
    {
        let uniform: PlacedUniform = uniforms[i];
        writes.push(
            DescriptorWrite::Uniform {
                binding: uniform.binding,
                offset: base + uniform.offset,
                range: uniform.size,
            },
        );
        i = i + 1;
        assert(writes@ =~= uniform_writes(uniforms@, base).take(i as int));
    }
    assert(writes@ =~= uniform_writes(uniforms@, base));
    writes.append(&mut textures);
    writes.append(&mut sampler_list);
    writes.push(DescriptorWrite::XrDepth { binding: shader.xr_depth });
    assert(writes@ =~= packet_writes(*shader, uniforms@, base, slots@, samplers@));
    Ok(PacketDescriptors::Write(writes))
}

/// The descriptor type of a write.
pub open spec fn write_type(write: DescriptorWrite) -> i32 {
    match write {
        DescriptorWrite::Uniform { .. } => DESCRIPTOR_UNIFORM_BUFFER,
        DescriptorWrite::Texture { descriptor, .. } => descriptor,
        DescriptorWrite::Sampler { .. } => DESCRIPTOR_SAMPLER,
        DescriptorWrite::XrDepth { .. } => DESCRIPTOR_SAMPLED_IMAGE,
    }
}

/// Finds the descriptor type of a write.
pub fn descriptor_write_type(write: &DescriptorWrite) -> (descriptor: i32)
    ensures
        descriptor == write_type(*write),
{
    match write {
        DescriptorWrite::Uniform { .. } => DESCRIPTOR_UNIFORM_BUFFER,
        DescriptorWrite::Texture { descriptor, .. } => *descriptor,
        DescriptorWrite::Sampler { .. } => DESCRIPTOR_SAMPLER,
        DescriptorWrite::XrDepth { .. } => DESCRIPTOR_SAMPLED_IMAGE,
    }
}

/// What a packet binds and draws with.
pub struct PacketDraw {
    pub pipeline: u64,
    pub pipeline_layout: u64,
    pub set: Option<u64>,
    pub vertex_buffer: u64,
    pub packet_buffer: u64,
    /// Where the packet starts in its buffer; the instances come first in it.
    pub packet_offset: u64,
    pub index_buffer: u64,
    pub index_count: u32,
    pub instance_count: u32,
}

/// What a packet that was planned is drawn with: the pipeline for its depth writes, its
/// slice of the packet buffer and the buffers of its geometry.
pub open spec fn packet_draw(
    plan: PacketPlan,
    pipeline: VulkanPipeline,
    depth_write: bool,
    set: Option<u64>,
    geometry: VulkanGeometryResource,
    packet: VulkanBuffer,
    packet_offset: u64,
    index_count: u32,
) -> PacketDraw {
    PacketDraw {
        pipeline: if depth_write {
            pipeline.pipeline_write
        } else {
            pipeline.pipeline_no_write
        },
        pipeline_layout: pipeline.layout,
        set,
        vertex_buffer: geometry.vertex_buffer.buffer,
        packet_buffer: packet.buffer,
        packet_offset,
        index_buffer: geometry.index_buffer.buffer,
        index_count,
        instance_count: plan.instance_count,
    }
}

/// A command of a packet.
#[derive(Clone, Copy, PartialEq, Eq, Structural, Debug)]
pub enum DrawCommand {
    BindPipeline { pipeline: u64 },
    BindSet { layout: u64, set: u64 },
    /// The vertices of the geometry from its start, and the instances from an offset.
    BindVertexBuffers { vertices: u64, instances: u64, instances_offset: u64 },
    /// The indices of the geometry from its start.
    BindIndexBuffer { indices: u64, index_type: i32 },
    DrawIndexed {
        index_count: u32,
        instance_count: u32,
        first_index: u32,
        vertex_offset: i32,
        first_instance: u32,
    },
}

impl PacketDraw {
    /// Puts together what a packet is drawn with. A set is bound exactly where the
    /// pipeline has descriptors.
    pub fn new(
        plan: &PacketPlan,
        pipeline: &VulkanPipeline,
        depth_write: bool,
        set: Option<u64>,
        geometry: VulkanGeometryResource,
        packet: VulkanBuffer,
        packet_offset: u64,
        index_count: u32,
    ) -> (draw: PacketDraw)
        requires
            set is Some == pipeline.has_descriptors,
        ensures
            draw == packet_draw(
                *plan,
                *pipeline,
                depth_write,
                set,
                geometry,
                packet,
                packet_offset,
                index_count,
            ),
    {
        PacketDraw {
            pipeline: pick_pipeline(pipeline, depth_write),
            pipeline_layout: pipeline.layout,
            set,
            vertex_buffer: geometry.vertex_buffer.buffer,
            packet_buffer: packet.buffer,
            packet_offset,
            index_buffer: geometry.index_buffer.buffer,
            index_count,
            instance_count: plan.instance_count,
        }
    }

    /// The commands of the packet.
    pub open spec fn commands(&self) -> Seq<DrawCommand> {
        seq![DrawCommand::BindPipeline { pipeline: self.pipeline }] + (match self.set {
            Some(set) => seq![DrawCommand::BindSet { layout: self.pipeline_layout, set }],
            None => seq![],
        }) + seq![
            DrawCommand::BindVertexBuffers {
                vertices: self.vertex_buffer,
                instances: self.packet_buffer,
                instances_offset: self.packet_offset,
            },
            DrawCommand::BindIndexBuffer { indices: self.index_buffer, index_type: INDEX_UINT32 },
            DrawCommand::DrawIndexed {
                index_count: self.index_count,
                instance_count: self.instance_count,
                first_index: DRAW_FIRST_INDEX,
                vertex_offset: DRAW_VERTEX_OFFSET,
                first_instance: DRAW_FIRST_INSTANCE,
            },
        ]
    }

    /// Lists the commands of the packet.
    pub fn list_commands(&self) -> (commands: Vec<DrawCommand>)
        ensures
            commands@ == self.commands(),
    {
        let mut commands: Vec<DrawCommand> = Vec::new();
        commands.push(DrawCommand::BindPipeline { pipeline: self.pipeline });
        match self.set {
            Some(set) => {
                commands.push(DrawCommand::BindSet { layout: self.pipeline_layout, set });
            },
            None => {},
        }
        commands.push(
            DrawCommand::BindVertexBuffers {
                vertices: self.vertex_buffer,
                instances: self.packet_buffer,
                instances_offset: self.packet_offset,
            },
        );
        commands.push(DrawCommand::BindIndexBuffer { indices: self.index_buffer, index_type: INDEX_UINT32 });
        commands.push(
            DrawCommand::DrawIndexed {
                index_count: self.index_count,
                instance_count: self.instance_count,
                first_index: DRAW_FIRST_INDEX,
                vertex_offset: DRAW_VERTEX_OFFSET,
                first_instance: DRAW_FIRST_INSTANCE,
            },
        );
        assert(commands@ =~= self.commands());
        commands
    }
}

/// `placed` has a uniform with the binding, from the source, of `len` numbers.
pub open spec fn is_placed(
    placed: Seq<PlacedUniform>,
    binding: u32,
    source: UniformSource,
    len: usize,
) -> bool {
    exists|k: int|
        0 <= k < placed.len() && (#[trigger] placed[k]).binding == binding && placed[k].source
            == source && placed[k].size == len * 4
}

proof fn lemma_declared_holds(uniforms: PacketUniforms, n: int, i: int)
    requires
        0 <= i < n <= uniforms.bindings@.len(),
        uniforms.len_of(uniforms.bindings@[i].0) > 0,
        forall|j: int| 0 <= j < i ==> (#[trigger] uniforms.bindings@[j]).1 != uniforms.bindings@[i].1,
    ensures
        exists|k: int|
            {
                &&& 0 <= k < uniforms.declared(n).len()
                &&& #[trigger] is_first(uniforms.declared(n), k)
                &&& uniforms.declared(n)[k].binding == uniforms.bindings@[i].1
                &&& uniforms.declared(n)[k].value.source == uniforms.bindings@[i].0
                &&& uniforms.declared(n)[k].value.len == uniforms.len_of(uniforms.bindings@[i].0)
            },
    decreases n,
{
    let all = uniforms.declared(n);
    let before = uniforms.declared(n - 1);
    if i == n - 1 {
        lemma_declared_bindings(uniforms, n - 1);
        let k = before.len() as int;
        assert(all[k].binding == uniforms.bindings@[i].1);
        assert forall|j: int| 0 <= j < k implies (#[trigger] all[j]).binding != all[k].binding by {
            assert(all[j] == before[j]);
            let m = choose|m: int|
                0 <= m < n - 1 && before[j].binding == (#[trigger] uniforms.bindings@[m]).1;
            assert(uniforms.bindings@[m].1 != uniforms.bindings@[i].1);
        }
        assert(is_first(all, k));
    } else {
        lemma_declared_holds(uniforms, n - 1, i);
        let k = choose|k: int|
            {
                &&& 0 <= k < before.len()
                &&& #[trigger] is_first(before, k)
                &&& before[k].binding == uniforms.bindings@[i].1
                &&& before[k].value.source == uniforms.bindings@[i].0
                &&& before[k].value.len == uniforms.len_of(uniforms.bindings@[i].0)
            };
        assert(all[k] == before[k]);
        assert(is_first(all, k)) by {
            assert forall|j: int| 0 <= j < k implies (#[trigger] all[j]).binding
                != all[k].binding by {
                assert(all[j] == before[j]);
            }
        }
    }
}

proof fn lemma_declared_bindings(uniforms: PacketUniforms, n: int)
    requires
        0 <= n <= uniforms.bindings@.len(),
    ensures
        forall|k: int|
            0 <= k < uniforms.declared(n).len() ==> exists|m: int|
                0 <= m < n && (#[trigger] uniforms.declared(n)[k]).binding == (
                #[trigger] uniforms.bindings@[m]).1 && uniforms.declared(n)[k].value.source
                    == uniforms.bindings@[m].0,
    decreases n,
{
    if n > 0 {
        lemma_declared_bindings(uniforms, n - 1);
        let all = uniforms.declared(n);
        let before = uniforms.declared(n - 1);
        assert forall|k: int| 0 <= k < all.len() implies exists|m: int|
            0 <= m < n && (#[trigger] all[k]).binding == (#[trigger] uniforms.bindings@[m]).1
                && all[k].value.source == uniforms.bindings@[m].0 by {
            if k < before.len() {
                assert(all[k] == before[k]);
                let m = choose|m: int|
                    0 <= m < n - 1 && before[k].binding == (#[trigger] uniforms.bindings@[m]).1
                        && before[k].value.source == uniforms.bindings@[m].0;
                assert(all[k].binding == uniforms.bindings@[m].1);
            } else {
                assert(all[k].binding == uniforms.bindings@[n - 1].1);
            }
        }
    }
}

proof fn lemma_ordered_is_placed(
    ordered: Seq<Bound<UniformUpload>>,
    collected: Seq<Bound<UniformUpload>>,
    start: int,
    alignment: int,
    k: int,
)
    requires
        holds_firsts(ordered, collected),
        0 <= start,
        1 <= alignment,
        layout_end(ordered, start, alignment) <= u64::MAX,
        0 <= k < collected.len(),
        is_first(collected, k),
    ensures
        is_placed(
            layout(ordered, start, alignment),
            collected[k].binding,
            collected[k].value.source,
            collected[k].value.len,
        ),
{
    assert(ordered.contains(collected[k]));
    let m = choose|m: int| 0 <= m < ordered.len() && ordered[m] == collected[k];
    lemma_sizes_bounded(ordered, start, alignment);
    lemma_layout_source(ordered, start, alignment, m);
    lemma_layout_index(ordered, start, alignment, m);
    assert(layout(ordered, start, alignment)[m].binding == collected[k].binding);
}

proof fn lemma_layout_source(uploads: Seq<Bound<UniformUpload>>, start: int, alignment: int, i: int)
    requires
        0 <= i < uploads.len(),
    ensures
        layout(uploads, start, alignment).len() == uploads.len(),
        layout(uploads, start, alignment)[i].binding == uploads[i].binding,
        layout(uploads, start, alignment)[i].source == uploads[i].value.source,
    decreases uploads.len(),
{
    lemma_layout_len(uploads, start, alignment);
    lemma_layout_len(uploads.drop_last(), start, alignment);
    if i < uploads.len() - 1 {
        lemma_layout_source(uploads.drop_last(), start, alignment, i);
    }
}

/// A declared binding whose source has numbers, and that is not declared before, is placed
/// in the packet with all numbers of its source: those of the pass, of the draw list or of
/// the draw call.
pub proof fn law_declared_uniforms_are_placed(
    uniforms: PacketUniforms,
    ordered: Seq<Bound<UniformUpload>>,
    start: int,
    alignment: int,
    i: int,
)
    requires
        strictly_sorted(ordered),
        holds_firsts(ordered, uniforms.collected()),
        0 <= start,
        1 <= alignment,
        layout_end(ordered, start, alignment) <= u64::MAX,
        0 <= i < uniforms.bindings@.len(),
        forall|j: int| 0 <= j < i ==> (#[trigger] uniforms.bindings@[j]).1 != uniforms.bindings@[i].1,
    ensures
        ({
            let placed = layout(ordered, start, alignment);
            let source = uniforms.bindings@[i].0;
            let binding = uniforms.bindings@[i].1;
            &&& source is Pass && uniforms.pass_len > 0 ==> is_placed(
                placed,
                binding,
                UniformSource::Pass,
                uniforms.pass_len,
            )
            &&& source is DrawList && uniforms.draw_list_len > 0 ==> is_placed(
                placed,
                binding,
                UniformSource::DrawList,
                uniforms.draw_list_len,
            )
            &&& source is DrawCall && uniforms.draw_call_len > 0 ==> is_placed(
                placed,
                binding,
                UniformSource::DrawCall,
                uniforms.draw_call_len,
            )
        }),
{
    let source = uniforms.bindings@[i].0;
    let n = uniforms.bindings@.len() as int;
    assert(source is Pass ==> uniforms.len_of(source) == uniforms.pass_len);
    assert(source is DrawList ==> uniforms.len_of(source) == uniforms.draw_list_len);
    assert(source is DrawCall ==> uniforms.len_of(source) == uniforms.draw_call_len);
    if uniforms.len_of(source) > 0 {
        lemma_declared_holds(uniforms, n, i);
        let declared = uniforms.declared(n);
        let collected = uniforms.collected();
        let k = choose|k: int|
            {
                &&& 0 <= k < declared.len()
                &&& #[trigger] is_first(declared, k)
                &&& declared[k].binding == uniforms.bindings@[i].1
                &&& declared[k].value.source == source
                &&& declared[k].value.len == uniforms.len_of(source)
            };
        assert(collected[k] == declared[k]);
        assert(is_first(collected, k)) by {
            assert forall|j: int| 0 <= j < k implies (#[trigger] collected[j]).binding
                != collected[k].binding by {
                assert(collected[j] == declared[j]);
            }
        }
        lemma_ordered_is_placed(ordered, collected, start, alignment, k);
    }
}

/// The dynamic uniforms are placed with all their numbers where there are any and their
/// binding is not declared; so are those of the scope, unless theirs is declared or that
/// of the dynamic uniforms.
pub proof fn law_dynamic_and_scope_uniforms_are_placed(
    uniforms: PacketUniforms,
    ordered: Seq<Bound<UniformUpload>>,
    start: int,
    alignment: int,
)
    requires
        strictly_sorted(ordered),
        holds_firsts(ordered, uniforms.collected()),
        0 <= start,
        1 <= alignment,
        layout_end(ordered, start, alignment) <= u64::MAX,
    ensures
        ({
            let placed = layout(ordered, start, alignment);
            let free = |binding: u32|
                forall|j: int|
                    0 <= j < uniforms.bindings@.len() ==> (#[trigger] uniforms.bindings@[j]).1
                        != binding;
            &&& uniforms.dynamic_len > 0 && free(uniforms.dynamic_binding) ==> is_placed(
                placed,
                uniforms.dynamic_binding,
                UniformSource::Dynamic,
                uniforms.dynamic_len,
            )
            &&& uniforms.scope_len > 0 && (uniforms.scope_binding matches Some(binding) && free(
                binding,
            ) && (uniforms.dynamic_len == 0 || binding != uniforms.dynamic_binding))
                ==> is_placed(
                placed,
                uniforms.scope_binding->0,
                UniformSource::Scope,
                uniforms.scope_len,
            )
        }),
{
    let n = uniforms.bindings@.len() as int;
    let declared = uniforms.declared(n);
    let collected = uniforms.collected();
    let d = declared.len() as int;
    lemma_declared_bindings(uniforms, n);
    let free = |binding: u32|
        forall|j: int|
            0 <= j < uniforms.bindings@.len() ==> (#[trigger] uniforms.bindings@[j]).1 != binding;
    assert forall|binding: u32, j: int| #[trigger] free(binding) && 0 <= j < d implies (
    #[trigger] collected[j]).binding != binding by {
        assert(collected[j] == declared[j]);
        let m = choose|m: int|
            0 <= m < n && declared[j].binding == (#[trigger] uniforms.bindings@[m]).1
                && declared[j].value.source == uniforms.bindings@[m].0;
        assert(uniforms.bindings@[m].1 != binding);
    }
    if uniforms.dynamic_len > 0 && free(uniforms.dynamic_binding) {
        assert(collected[d].binding == uniforms.dynamic_binding);
        assert(is_first(collected, d));
        lemma_ordered_is_placed(ordered, collected, start, alignment, d);
    }
    if uniforms.scope_len > 0 && (uniforms.scope_binding matches Some(binding) && free(binding)
        && (uniforms.dynamic_len == 0 || binding != uniforms.dynamic_binding)) {
        let k = if uniforms.dynamic_len > 0 {
            d + 1
        } else {
            d
        };
        assert(collected[k].binding == uniforms.scope_binding->0);
        assert(is_first(collected, k)) by {
            assert forall|j: int| 0 <= j < k implies (#[trigger] collected[j]).binding
                != collected[k].binding by {
                if j < d {
                    assert(free(uniforms.scope_binding->0));
                }
            }
        }
        lemma_ordered_is_placed(ordered, collected, start, alignment, k);
    }
}

/// Every slot's texture is written to the binding of the slot, with its own view and
/// layout; one that is sampled through a combined binding takes its sampler along.
pub proof fn law_every_texture_is_written(
    shader: ShaderBindings,
    uniforms: Seq<PlacedUniform>,
    base: u64,
    slots: Seq<TextureSlot>,
    samplers: Seq<u64>,
    slot: int,
)
    requires
        0 <= slot < slots.len(),
        slots[slot].texture is Some,
        shader.texture_base + slots.len() <= u32::MAX,
    ensures
        ({
            let texture = slots[slot].texture->0;
            let combined = combined_remap(shader, slots, slot) is Some;
            let write = packet_writes(shader, uniforms, base, slots, samplers)[uniforms.len()
                + slot];
            &&& write is Texture
            &&& write->Texture_binding == shader.texture_base + slot
            &&& write->Texture_view == texture.view
            &&& write->Texture_layout == texture.layout
            &&& combined ==> write->Texture_descriptor == 1 && texture.sampler == Some(
                write->Texture_sampler,
            )
            &&& !combined ==> write->Texture_sampler == 0
        }),
{
    let writes = packet_writes(shader, uniforms, base, slots, samplers);
    assert(writes[uniforms.len() + slot] == texture_write(shader, slots, slot));
}

/// Every placed uniform is written to its binding, with its size, at its place behind the
/// start of the packet.
pub proof fn law_every_uniform_is_written(
    shader: ShaderBindings,
    uniforms: Seq<PlacedUniform>,
    base: u64,
    slots: Seq<TextureSlot>,
    samplers: Seq<u64>,
    i: int,
)
    requires
        0 <= i < uniforms.len(),
        base + uniforms[i].offset <= u64::MAX,
    ensures
        packet_writes(shader, uniforms, base, slots, samplers).contains(
            DescriptorWrite::Uniform {
                binding: uniforms[i].binding,
                offset: (base + uniforms[i].offset) as u64,
                range: uniforms[i].size,
            },
        ),
{
    let writes = packet_writes(shader, uniforms, base, slots, samplers);
    assert(writes[i] == DescriptorWrite::Uniform {
        binding: uniforms[i].binding,
        offset: (base + uniforms[i].offset) as u64,
        range: uniforms[i].size,
    });
}

/// Every sampler of a pipeline that no combined binding stands in for is written to its
/// binding: the pipeline's own, unless a slot that samples through it holds a video
/// texture, whose sampler takes its place.
pub proof fn law_every_sampler_is_written(
    shader: ShaderBindings,
    slots: Seq<TextureSlot>,
    samplers: Seq<u64>,
    i: int,
    n: int,
)
    requires
        0 <= i < n <= samplers.len(),
        !is_combined_sampler(
            shader,
            slots,
            slots.len() as int,
            (shader.sampler_base + i) as u32,
        ),
    ensures
        ({
            let writes = sampler_writes(shader, slots, samplers, n);
            let binding = (shader.sampler_base + i) as u32;
            let is_video = |s: int|
                slots[s].sampler_index == i && (slots[s].texture matches Some(texture)
                    && texture.sampler is Some);
            &&& (forall|s: int| 0 <= s < slots.len() ==> !#[trigger] is_video(s))
                ==> writes.contains(DescriptorWrite::Sampler { binding, sampler: samplers[i] })
            &&& forall|s: int|
                0 <= s < slots.len() && #[trigger] is_video(s) && (forall|t: int|
                    s < t < slots.len() ==> !#[trigger] is_video(t)) ==> writes.contains(
                    DescriptorWrite::Sampler {
                        binding,
                        sampler: slots[s].texture->0.sampler->0,
                    },
                )
        }),
    decreases n,
{
    let writes = sampler_writes(shader, slots, samplers, n);
    let binding = (shader.sampler_base + i) as u32;
    let own = sampler_override(slots, slots.len() as int, i);
    let chosen = DescriptorWrite::Sampler {
        binding,
        sampler: match own {
            Some(sampler) => sampler,
            None => samplers[i],
        },
    };
    lemma_sampler_written(shader, slots, samplers, i, n);
    let is_video = |s: int|
        slots[s].sampler_index == i && (slots[s].texture matches Some(texture)
            && texture.sampler is Some);
    if forall|s: int| 0 <= s < slots.len() ==> !#[trigger] is_video(s) {
        assert forall|s: int| 0 <= s < slots.len() implies !(slots[s].sampler_index == i && (
        slots[s].texture matches Some(texture) && texture.sampler is Some)) by {
            assert(!is_video(s));
        }
        lemma_no_override(slots, slots.len() as int, i);
    }
    assert forall|s: int|
        0 <= s < slots.len() && #[trigger] is_video(s) && (forall|t: int|
            s < t < slots.len() ==> !#[trigger] is_video(t)) implies writes.contains(
        DescriptorWrite::Sampler { binding, sampler: slots[s].texture->0.sampler->0 },
    ) by {
        assert forall|t: int| s < t < slots.len() implies !(slots[t].sampler_index == i && (
        slots[t].texture matches Some(texture) && texture.sampler is Some)) by {
            assert(!is_video(t));
        }
        lemma_last_override(slots, slots.len() as int, i, s);
    }
}

proof fn lemma_sampler_written(
    shader: ShaderBindings,
    slots: Seq<TextureSlot>,
    samplers: Seq<u64>,
    i: int,
    n: int,
)
    requires
        0 <= i < n <= samplers.len(),
        !is_combined_sampler(
            shader,
            slots,
            slots.len() as int,
            (shader.sampler_base + i) as u32,
        ),
    ensures
        sampler_writes(shader, slots, samplers, n).contains(
            DescriptorWrite::Sampler {
                binding: (shader.sampler_base + i) as u32,
                sampler: match sampler_override(slots, slots.len() as int, i) {
                    Some(sampler) => sampler,
                    None => samplers[i],
                },
            },
        ),
    decreases n,
{
    let writes = sampler_writes(shader, slots, samplers, n);
    let before = sampler_writes(shader, slots, samplers, n - 1);
    if i == n - 1 {
        assert(shader.sampler_base + n - 1 == shader.sampler_base + i);
        assert(writes.last() == writes[writes.len() - 1]);
    } else {
        lemma_sampler_written(shader, slots, samplers, i, n - 1);
        let wanted = DescriptorWrite::Sampler {
            binding: (shader.sampler_base + i) as u32,
            sampler: match sampler_override(slots, slots.len() as int, i) {
                Some(sampler) => sampler,
                None => samplers[i],
            },
        };
        let k = choose|k: int| 0 <= k < before.len() && before[k] == wanted;
        assert(writes[k] == wanted);
    }
}

proof fn lemma_no_override(slots: Seq<TextureSlot>, n: int, index: int)
    requires
        0 <= n <= slots.len(),
        forall|s: int|
            0 <= s < n ==> !((#[trigger] slots[s]).sampler_index == index && (
            slots[s].texture matches Some(texture) && texture.sampler is Some)),
    ensures
        sampler_override(slots, n, index) is None,
    decreases n,
{
    if n > 0 {
        assert(!(slots[n - 1].sampler_index == index && (
        slots[n - 1].texture matches Some(texture) && texture.sampler is Some)));
        lemma_no_override(slots, n - 1, index);
    }
}

proof fn lemma_last_override(slots: Seq<TextureSlot>, n: int, index: int, s: int)
    requires
        0 <= s < n <= slots.len(),
        slots[s].sampler_index == index,
        slots[s].texture matches Some(texture) && texture.sampler is Some,
        forall|t: int|
            s < t < n ==> !((#[trigger] slots[t]).sampler_index == index && (
            slots[t].texture matches Some(texture) && texture.sampler is Some)),
    ensures
        sampler_override(slots, n, index) == slots[s].texture->0.sampler,
    decreases n,
{
    if s < n - 1 {
        assert(!(slots[n - 1].sampler_index == index && (
        slots[n - 1].texture matches Some(texture) && texture.sampler is Some)));
        lemma_last_override(slots, n - 1, index, s);
    }
}

/// A packet is drawn by exactly one command, the last one, with the instances and indices
/// that were counted, from the start of the geometry; before it the pipeline is bound, the
/// buffers are, and the set where there is one.
pub proof fn law_packet_is_drawn_once(draw: PacketDraw)
    ensures
        ({
            let commands = draw.commands();
            let n = commands.len() as int;
            &&& commands[n - 1] == DrawCommand::DrawIndexed {
                index_count: draw.index_count,
                instance_count: draw.instance_count,
                first_index: 0,
                vertex_offset: 0,
                first_instance: 0,
            }
            &&& forall|i: int| 0 <= i < n - 1 ==> !(#[trigger] commands[i] is DrawIndexed)
            &&& commands.contains(DrawCommand::BindPipeline { pipeline: draw.pipeline })
            &&& commands.contains(
                DrawCommand::BindVertexBuffers {
                    vertices: draw.vertex_buffer,
                    instances: draw.packet_buffer,
                    instances_offset: draw.packet_offset,
                },
            )
            &&& commands.contains(
                DrawCommand::BindIndexBuffer { indices: draw.index_buffer, index_type: 1 },
            )
            &&& match draw.set {
                Some(set) => commands.contains(
                    DrawCommand::BindSet { layout: draw.pipeline_layout, set },
                ),
                None => forall|i: int| 0 <= i < n ==> !(#[trigger] commands[i] is BindSet),
            }
        }),
{
    let commands = draw.commands();
    let n = commands.len() as int;
    assert(commands[0] == DrawCommand::BindPipeline { pipeline: draw.pipeline });
    assert(commands[n - 3] == DrawCommand::BindVertexBuffers {
        vertices: draw.vertex_buffer,
        instances: draw.packet_buffer,
        instances_offset: draw.packet_offset,
    });
    assert(commands[n - 2] == DrawCommand::BindIndexBuffer {
        indices: draw.index_buffer,
        index_type: 1,
    });
    if draw.set is Some {
        assert(commands[1] == DrawCommand::BindSet {
            layout: draw.pipeline_layout,
            set: draw.set->0,
        });
    }
}

/// A packet draws exactly where the numbers make an instance and there is an index, and
/// it then draws as many instances as the numbers make.
pub proof fn law_packet_draws_its_instances(
    geometry_slots: usize,
    instance_slots: usize,
    instance_len: usize,
    index_count: u32,
)
    requires
        instance_slots > 0 ==> instance_len as int / instance_slots as int <= u32::MAX,
    ensures
        packet_draws(geometry_slots, instance_slots, instance_len, index_count) <==> {
            geometry_slots > 0 && 0 < instance_slots <= instance_len && index_count > 0
        },
        instance_slots > 0 ==> {
            let count = instances_of(instance_slots, instance_len) as int;
            count * instance_slots <= instance_len < (count + 1) * instance_slots
        },
{
    if instance_slots > 0 {
        let len = instance_len as int;
        let slots = instance_slots as int;
        let count = len / slots;
        vstd::arithmetic::div_mod::lemma_fundamental_div_mod(len, slots);
        vstd::arithmetic::div_mod::lemma_mod_bound(len, slots);
        vstd::arithmetic::div_mod::lemma_div_pos_is_pos(len, slots);
        assert(instances_of(instance_slots, instance_len) == count);
        assert(slots * count == count * slots && (count + 1) * slots == count * slots + slots)
            by (nonlinear_arith);
        assert(count >= 1 ==> count * slots >= slots) by (nonlinear_arith)
            requires
                slots > 0,
        ;
        assert(count <= 0 ==> count * slots <= 0) by (nonlinear_arith)
            requires
                slots > 0,
        ;
    }
}

/// The parts of a packet lie on a multiple of what the device asks for, and of at least
/// four bytes.
pub proof fn law_packet_alignment_serves_the_device(min_uniform_alignment: u64)
    ensures
        packet_alignment(min_uniform_alignment) >= min_uniform_alignment,
        packet_alignment(min_uniform_alignment) >= 4,
        min_uniform_alignment >= 4 ==> packet_alignment(min_uniform_alignment)
            == min_uniform_alignment,
{
}

/// A slot asks for the call's own texture where it has one, else for the null texture of
/// its shape, and samples as declared or through the first sampler.
pub proof fn law_slot_asks_for_its_texture(
    own: Option<u64>,
    is_cube: bool,
    sampler_indices: Seq<usize>,
    slot: int,
    null_texture: u64,
    null_cube: u64,
)
    requires
        0 <= slot,
    ensures
        ({
            let request = texture_request(
                own,
                is_cube,
                sampler_indices,
                slot,
                null_texture,
                null_cube,
            );
            &&& own is Some ==> own == Some(request.texture_key)
            &&& own is None && is_cube ==> request.texture_key == null_cube
            &&& own is None && !is_cube ==> request.texture_key == null_texture
            &&& request.is_cube == is_cube
            &&& slot < sampler_indices.len() ==> request.sampler_index == sampler_indices[slot]
            &&& slot >= sampler_indices.len() ==> request.sampler_index == 0
        }),
{
}

/// A remap that is found is for the binding, and the first such; where none is found
/// there is none.
pub proof fn law_found_remap_is_for_the_binding(remaps: Seq<CombinedRemap>, texture_binding: int)
    ensures
        match find_remap(remaps, texture_binding) {
            Some(found) => exists|i: int|
                {
                    &&& 0 <= i < remaps.len()
                    &&& #[trigger] remaps[i] == found
                    &&& found.texture_binding == texture_binding
                    &&& forall|j: int|
                        0 <= j < i ==> (#[trigger] remaps[j]).texture_binding != texture_binding
                },
            None => forall|i: int|
                0 <= i < remaps.len() ==> (#[trigger] remaps[i]).texture_binding
                    != texture_binding,
        },
    decreases remaps.len(),
{
    if remaps.len() > 0 {
        let before = remaps.drop_last();
        law_found_remap_is_for_the_binding(before, texture_binding);
        match find_remap(before, texture_binding) {
            Some(found) => {
                let i = choose|i: int|
                    {
                        &&& 0 <= i < before.len()
                        &&& #[trigger] before[i] == found
                        &&& found.texture_binding == texture_binding
                        &&& forall|j: int|
                            0 <= j < i ==> (#[trigger] before[j]).texture_binding
                                != texture_binding
                    };
                assert(remaps[i] == found);
                assert(forall|j: int| 0 <= j < i ==> remaps[j] == before[j]);
            },
            None => {
                assert(forall|j: int| 0 <= j < before.len() ==> remaps[j] == before[j]);
                if remaps.last().texture_binding == texture_binding {
                    assert(remaps[remaps.len() - 1] == remaps.last());
                }
            },
        }
    }
}

/// Only a video texture that the shader has a remap for is sampled through a combined
/// binding, and it is where it has one.
pub proof fn law_combined_bindings_are_for_video(
    shader: ShaderBindings,
    slots: Seq<TextureSlot>,
    slot: int,
)
    requires
        0 <= slot < slots.len(),
    ensures
        combined_remap(shader, slots, slot) is Some <==> {
            &&& slots[slot].texture matches Some(texture) && texture.sampler is Some
                && texture.ycbcr
            &&& exists|i: int|
                0 <= i < shader.remaps@.len() && (#[trigger] shader.remaps@[i]).texture_binding
                    == shader.texture_base + slot
        },
{
    law_found_remap_is_for_the_binding(shader.remaps@, shader.texture_base + slot);
}

/// A packet takes what it fills, and never less than a word.
pub proof fn law_packets_take_a_word_at_least(end: int)
    ensures
        packet_span(end) >= 4 && packet_span(end) >= end,
        packet_span(end) == 4 || packet_span(end) == end,
{
}

/// A packet is drawn from its own buffers, with the pipeline that writes depth exactly
/// where depth is written.
pub proof fn law_packet_is_drawn_from_its_buffers(
    plan: PacketPlan,
    pipeline: VulkanPipeline,
    depth_write: bool,
    set: Option<u64>,
    geometry: VulkanGeometryResource,
    packet: VulkanBuffer,
    packet_offset: u64,
    index_count: u32,
)
    ensures
        ({
            let draw = packet_draw(
                plan,
                pipeline,
                depth_write,
                set,
                geometry,
                packet,
                packet_offset,
                index_count,
            );
            &&& depth_write ==> draw.pipeline == pipeline.pipeline_write
            &&& !depth_write ==> draw.pipeline == pipeline.pipeline_no_write
            &&& draw.pipeline_layout == pipeline.layout && draw.set == set
            &&& draw.vertex_buffer == geometry.vertex_buffer.buffer
            &&& draw.index_buffer == geometry.index_buffer.buffer
            &&& draw.packet_buffer == packet.buffer && draw.packet_offset == packet_offset
            &&& draw.index_count == index_count && draw.instance_count == plan.instance_count
        }),
{
}

/// A sampler is put in place of a pipeline's own exactly where a slot with its number has a
/// texture with a sampler; the last such slot counts.
pub proof fn law_last_override_counts(slots: Seq<TextureSlot>, n: int, sampler_index: int)
    requires
        0 <= n <= slots.len(),
    ensures
        match sampler_override(slots, n, sampler_index) {
            Some(sampler) => exists|i: int|
                {
                    &&& 0 <= i < n
                    &&& (#[trigger] slots[i]).sampler_index == sampler_index
                    &&& slots[i].texture is Some && slots[i].texture->0.sampler == Some(sampler)
                    &&& forall|j: int|
                        i < j < n && (#[trigger] slots[j]).sampler_index == sampler_index
                            && slots[j].texture is Some ==> slots[j].texture->0.sampler is None
                },
            None => forall|j: int|
                0 <= j < n && (#[trigger] slots[j]).sampler_index == sampler_index
                    && slots[j].texture is Some ==> slots[j].texture->0.sampler is None,
        },
    decreases n,
{
    if n > 0 {
        law_last_override_counts(slots, n - 1, sampler_index);
        assert(slots[n - 1] == slots[n - 1]);
    }
}

/// A sampler is stood in for exactly where a video texture before slot `n` is combined with
/// a sampler of its binding.
pub proof fn law_combined_samplers_belong_to_slots(
    shader: ShaderBindings,
    slots: Seq<TextureSlot>,
    n: int,
    slot: int,
    binding: u32,
)
    ensures
        0 <= slot < n && combined_remap(shader, slots, slot) is Some && combined_remap(
            shader,
            slots,
            slot,
        )->0.sampler_binding == binding ==> is_combined_sampler(shader, slots, n, binding),
        n <= 0 ==> !is_combined_sampler(shader, slots, n, binding),
        (forall|i: int|
            0 <= i < n ==> #[trigger] combined_remap(shader, slots, i) is None
                || combined_remap(shader, slots, i)->0.sampler_binding != binding)
            ==> !is_combined_sampler(shader, slots, n, binding),
{
}

} // verus!
