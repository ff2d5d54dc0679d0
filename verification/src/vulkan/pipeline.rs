//! Pipelines: their bindings, how they are built, and which ones are kept.

use vstd::prelude::*;

use crate::vulkan::binding_order::{order_by_binding, Bound};
#[allow(unused_imports)]
use crate::vulkan::binding_order::{
    holds_firsts, is_a_first, is_first, law_binding_order_is_unique, lemma_first_exists,
    strictly_sorted,
};
use crate::vulkan::codes::{
    ADDRESS_CLAMP_TO_BORDER, ADDRESS_CLAMP_TO_EDGE, ADDRESS_MIRRORED_REPEAT, ADDRESS_REPEAT,
    BORDER_TRANSPARENT_BLACK, DESCRIPTOR_COMBINED_IMAGE_SAMPLER, DESCRIPTOR_SAMPLED_IMAGE,
    DESCRIPTOR_SAMPLER, DESCRIPTOR_UNIFORM_BUFFER, FILTER_LINEAR, FILTER_NEAREST, LOD_CLAMP_NONE,
    MIPMAP_LINEAR,
};
use crate::vulkan::descriptors::reflected_vulkan_descriptor_type;
#[allow(unused_imports)]
use crate::vulkan::descriptors::reflected_type;
use crate::vulkan::draw_packet::{lookup_remap, CombinedRemap, ShaderBindings};
#[allow(unused_imports)]
use crate::vulkan::draw_packet::{
    all_textures_there, combined_remap, find_remap, texture_write, write_type, TextureSlot,
};
use crate::vulkan::pipeline_key::VulkanVideoCombinedImmutableSamplerKey;
#[allow(unused_imports)]
use crate::vulkan::pipeline_key::video_samplers;

verus! {

/// A texture that a shader declares.
#[derive(Clone, Copy, PartialEq, Eq, Structural, Debug)]
pub struct TextureDeclaration {
    pub is_video: bool,
}

/// How a sampler filters.
#[derive(Clone, Copy, PartialEq, Eq, Structural, Debug)]
pub enum SamplerFilter {
    Nearest,
    Linear,
}

/// What a sampler gives outside of its texture.
#[derive(Clone, Copy, PartialEq, Eq, Structural, Debug)]
pub enum SamplerAddress {
    Repeat,
    ClampToEdge,
    ClampToZero,
    MirroredRepeat,
}

/// Whether a sampler's coordinates are fractions or pixels.
#[derive(Clone, Copy, PartialEq, Eq, Structural, Debug)]
pub enum SamplerCoord {
    Normalized,
    Pixel,
}

/// A sampler that a shader declares.
#[derive(Clone, Copy, PartialEq, Eq, Structural, Debug)]
pub struct SamplerDeclaration {
    pub filter: SamplerFilter,
    pub address: SamplerAddress,
    pub coord: SamplerCoord,
}

/// How a sampler is made. The filter holds for both directions, the address mode for
/// all axes.
#[derive(Clone, Copy, PartialEq, Eq, Structural, Debug)]
pub struct SamplerPlan {
    pub filter: i32,
    pub address_mode: i32,
    pub unnormalized: bool,
    pub mipmap_mode: i32,
    pub border_color: i32,
    pub compares: bool,
    /// The bits of the smallest and of the largest level of detail.
    pub min_lod: u32,
    pub max_lod: u32,
}

/// How the declared sampler is made.
pub open spec fn sampler_plan(sampler: SamplerDeclaration) -> SamplerPlan {
    SamplerPlan {
        filter: match sampler.filter {
            SamplerFilter::Nearest => FILTER_NEAREST,
            SamplerFilter::Linear => FILTER_LINEAR,
        },
        address_mode: match sampler.address {
            SamplerAddress::Repeat => ADDRESS_REPEAT,
            SamplerAddress::ClampToEdge => ADDRESS_CLAMP_TO_EDGE,
            SamplerAddress::ClampToZero => ADDRESS_CLAMP_TO_BORDER,
            SamplerAddress::MirroredRepeat => ADDRESS_MIRRORED_REPEAT,
        },
        unnormalized: sampler.coord == SamplerCoord::Pixel,
        mipmap_mode: MIPMAP_LINEAR,
        border_color: BORDER_TRANSPARENT_BLACK,
        compares: false,
        min_lod: 0,
        max_lod: LOD_CLAMP_NONE,
    }
}

/// Plans a declared sampler.
pub fn plan_sampler(sampler: SamplerDeclaration) -> (plan: SamplerPlan)
    ensures
        plan == sampler_plan(sampler),
{
    SamplerPlan {
        filter: match sampler.filter {
            SamplerFilter::Nearest => FILTER_NEAREST,
            SamplerFilter::Linear => FILTER_LINEAR,
        },
        address_mode: match sampler.address {
            SamplerAddress::Repeat => ADDRESS_REPEAT,
            SamplerAddress::ClampToEdge => ADDRESS_CLAMP_TO_EDGE,
            SamplerAddress::ClampToZero => ADDRESS_CLAMP_TO_BORDER,
            SamplerAddress::MirroredRepeat => ADDRESS_MIRRORED_REPEAT,
        },
        unnormalized: sampler.coord == SamplerCoord::Pixel,
        mipmap_mode: MIPMAP_LINEAR,
        border_color: BORDER_TRANSPARENT_BLACK,
        compares: false,
        min_lod: 0,
        max_lod: LOD_CLAMP_NONE,
    }
}

/// What a shader declares.
pub struct ShaderDeclaration {
    pub uniform_bindings: Vec<u32>,
    pub has_dynamic: bool,
    pub dynamic_binding: u32,
    pub has_scope: bool,
    pub scope_binding: Option<u32>,
    pub textures: Vec<TextureDeclaration>,
    pub samplers: Vec<SamplerDeclaration>,
    pub bindings: ShaderBindings,
    /// How many numbers a vertex has in the mapping of the shader.
    pub geometry_slots: usize,
    /// How many numbers an instance has in the mapping of the shader.
    pub instance_slots: usize,
    pub has_vertex_code: bool,
    pub has_fragment_code: bool,
}

/// The sampler that is built into the binding; the last one given counts.
pub open spec fn built_in_sampler(
    samplers: Seq<VulkanVideoCombinedImmutableSamplerKey>,
    binding: u32,
) -> Option<u64>
    decreases samplers.len(),
{
    if samplers.len() == 0 {
        None
    } else if samplers.last().texture_binding == binding {
        Some(samplers.last().sampler)
    } else {
        built_in_sampler(samplers.drop_last(), binding)
    }
}

fn find_built_in_sampler(
    samplers: &Vec<VulkanVideoCombinedImmutableSamplerKey>,
    binding: u32,
) -> (sampler: Option<u64>)
    ensures
        sampler == built_in_sampler(samplers@, binding),
{
    let mut i: usize = samplers.len();
    assert(samplers@.take(i as int) =~= samplers@);
    while i > 0
        invariant
            i <= samplers@.len(),
            built_in_sampler(samplers@, binding) == built_in_sampler(
                samplers@.take(i as int),
                binding,
            ),
        decreases i,
    {
        proof {
            let now = samplers@.take(i as int);
            assert(now.drop_last() =~= samplers@.take(i - 1));
            assert(now.last() == samplers@[i - 1]);
        }
        i = i - 1;
        if samplers[i].texture_binding == binding {
            return Some(samplers[i].sampler);
        }
    }
    None
}

impl ShaderDeclaration {
    /// Whether the shader binds anything.
    pub open spec fn has_descriptors(&self) -> bool {
        ||| self.uniform_bindings@.len() > 0
        ||| self.has_dynamic
        ||| self.has_scope
        ||| self.textures@.len() > 0
        ||| self.samplers@.len() > 0
        ||| self.bindings.xr_depth != 0
    }

    /// The type that the shader declares for a binding.
    pub open spec fn declared_type(&self, binding: u32, fallback: i32) -> Bound<i32> {
        Bound { binding, value: reflected_type(self.bindings.interface@, binding, fallback) }
    }

    /// The remap of a slot that holds a video texture with its sampler built in.
    pub open spec fn built_in_remap(
        &self,
        samplers: Seq<VulkanVideoCombinedImmutableSamplerKey>,
        slot: int,
    ) -> Option<CombinedRemap> {
        if built_in_sampler(samplers, (self.bindings.texture_base + slot) as u32) is Some {
            find_remap(self.bindings.remaps@, self.bindings.texture_base + slot)
        } else {
            None
        }
    }

    /// The type of a slot's texture.
    pub open spec fn texture_type(
        &self,
        samplers: Seq<VulkanVideoCombinedImmutableSamplerKey>,
        slot: int,
    ) -> Bound<i32> {
        let binding = (self.bindings.texture_base + slot) as u32;
        if self.built_in_remap(samplers, slot) is Some {
            Bound { binding, value: DESCRIPTOR_COMBINED_IMAGE_SAMPLER }
        } else {
            self.declared_type(binding, DESCRIPTOR_SAMPLED_IMAGE)
        }
    }

    /// The sampler binding belongs to a video texture that has its sampler built in.
    pub open spec fn is_built_in(
        &self,
        samplers: Seq<VulkanVideoCombinedImmutableSamplerKey>,
        n: int,
        binding: u32,
    ) -> bool {
        exists|slot: int|
            0 <= slot < n && self.textures@[slot].is_video && (
            #[trigger] self.built_in_remap(samplers, slot) matches Some(remap)
                && remap.sampler_binding == binding)
    }

    /// The types of the first `n` samplers; one that is built in has none.
    pub open spec fn sampler_types(
        &self,
        samplers: Seq<VulkanVideoCombinedImmutableSamplerKey>,
        n: int,
    ) -> Seq<Bound<i32>>
        decreases n,
    {
        if n <= 0 {
            seq![]
        } else {
            let before = self.sampler_types(samplers, n - 1);
            let binding = (self.bindings.sampler_base + n - 1) as u32;
            if self.is_built_in(samplers, self.textures@.len() as int, binding) {
                before
            } else {
                before.push(self.declared_type(binding, DESCRIPTOR_SAMPLER))
            }
        }
    }

    /// The types of the uniform buffers.
    pub open spec fn uniform_types(&self) -> Seq<Bound<i32>> {
        Seq::new(
            self.uniform_bindings@.len(),
            |i: int| self.declared_type(self.uniform_bindings@[i], DESCRIPTOR_UNIFORM_BUFFER),
        ) + (if self.has_dynamic {
            seq![self.declared_type(self.dynamic_binding, DESCRIPTOR_UNIFORM_BUFFER)]
        } else {
            seq![]
        }) + (match self.scope_binding {
            Some(binding) => if self.has_scope {
                seq![self.declared_type(binding, DESCRIPTOR_UNIFORM_BUFFER)]
            } else {
                seq![]
            },
            None => seq![],
        })
    }

    /// The types of the textures.
    pub open spec fn texture_types(
        &self,
        samplers: Seq<VulkanVideoCombinedImmutableSamplerKey>,
    ) -> Seq<Bound<i32>> {
        Seq::new(self.textures@.len(), |i: int| self.texture_type(samplers, i))
    }

    /// All types as they are collected.
    pub open spec fn collected_types(
        &self,
        samplers: Seq<VulkanVideoCombinedImmutableSamplerKey>,
    ) -> Seq<Bound<i32>> {
        self.uniform_types() + self.texture_types(samplers) + self.sampler_types(
            samplers,
            self.samplers@.len() as int,
        ) + seq![self.declared_type(self.bindings.xr_depth, DESCRIPTOR_SAMPLED_IMAGE)]
    }

    /// The bindings are numbers of 32 bits.
    pub open spec fn bindings_fit(&self) -> bool {
        &&& self.bindings.texture_base + self.textures@.len() <= u32::MAX
        &&& self.bindings.sampler_base + self.samplers@.len() <= u32::MAX
    }

    fn lookup_type(&self, binding: u32, fallback: i32) -> (bound: Bound<i32>)
        ensures
            bound == self.declared_type(binding, fallback),
    {
        Bound {
            binding,
            value: reflected_vulkan_descriptor_type(&self.bindings.interface, binding, fallback),
        }
    }

    /// Finds the remap of a slot that holds a video texture with its sampler built in.
    pub fn lookup_built_in(
        &self,
        samplers: &Vec<VulkanVideoCombinedImmutableSamplerKey>,
        slot: usize,
    ) -> (remap: Option<CombinedRemap>)
        requires
            self.bindings_fit(),
            slot < self.textures@.len(),
        ensures
            remap == self.built_in_remap(samplers@, slot as int),
    {
        let binding: u32 = self.bindings.texture_base + slot as u32;
        match find_built_in_sampler(samplers, binding) {
            Some(_) => lookup_remap(&self.bindings.remaps, binding),
            None => None,
        }
    }

    fn check_built_in(
        &self,
        samplers: &Vec<VulkanVideoCombinedImmutableSamplerKey>,
        binding: u32,
    ) -> (built_in: bool)
        requires
            self.bindings_fit(),
        ensures
            built_in == self.is_built_in(samplers@, self.textures@.len() as int, binding),
    {
        let mut slot: usize = 0;
        while slot < self.textures.len()
            invariant
                slot <= self.textures@.len(),
                self.bindings_fit(),
                !self.is_built_in(samplers@, slot as int, binding),
            decreases self.textures@.len() - slot,
        {
            let remap: Option<CombinedRemap> = self.lookup_built_in(samplers, slot);
            if self.textures[slot].is_video {
                match remap {
                    Some(remap) => {
                        if remap.sampler_binding == binding {
                            assert(self.built_in_remap(samplers@, slot as int) == Some(remap));
                            return true;
                        }
                    },
                    None => {},
                }
            }
            slot = slot + 1;
        }
        false
    }

    fn append_uniform_types(&self, types: &mut Vec<Bound<i32>>)
        requires
            old(types)@.len() == 0,
        ensures
            final(types)@ == self.uniform_types(),
    {
        let ghost declared = Seq::new(
            self.uniform_bindings@.len(),
            |i: int| self.declared_type(self.uniform_bindings@[i], DESCRIPTOR_UNIFORM_BUFFER),
        );
        let mut i: usize = 0;
        while i < self.uniform_bindings.len()
            invariant
                i <= self.uniform_bindings@.len(),
                declared == Seq::new(
                    self.uniform_bindings@.len(),
                    |i: int|
                        self.declared_type(self.uniform_bindings@[i], DESCRIPTOR_UNIFORM_BUFFER),
                ),
                types@ == declared.take(i as int),
            decreases self.uniform_bindings@.len() - i,
        {
            types.push(self.lookup_type(self.uniform_bindings[i], DESCRIPTOR_UNIFORM_BUFFER));
            i = i + 1;
            assert(types@ =~= declared.take(i as int));
        }
        assert(types@ =~= declared);
        if self.has_dynamic {
            types.push(self.lookup_type(self.dynamic_binding, DESCRIPTOR_UNIFORM_BUFFER));
        }
        if self.has_scope {
            match self.scope_binding {
                Some(binding) => {
                    types.push(self.lookup_type(binding, DESCRIPTOR_UNIFORM_BUFFER));
                },
                None => {},
            }
        }
        assert(types@ =~= self.uniform_types());
    }

    /// Collects the types of all bindings.
    pub fn collect_types(&self, samplers: &Vec<VulkanVideoCombinedImmutableSamplerKey>) -> (types:
        Vec<Bound<i32>>)
        requires
            self.bindings_fit(),
        ensures
            types@ == self.collected_types(samplers@),
    {
        let mut types: Vec<Bound<i32>> = Vec::new();
        self.append_uniform_types(&mut types);
        let ghost uniforms = types@;
        let ghost textures = self.texture_types(samplers@);
        let mut slot: usize = 0;
        while slot < self.textures.len()
            invariant
                slot <= self.textures@.len(),
                self.bindings_fit(),
                textures == self.texture_types(samplers@),
                types@ == uniforms + textures.take(slot as int),
            decreases self.textures@.len() - slot,
        {
            let binding: u32 = self.bindings.texture_base + slot as u32;
            let bound: Bound<i32> = match self.lookup_built_in(samplers, slot) {
                Some(_) => Bound { binding, value: DESCRIPTOR_COMBINED_IMAGE_SAMPLER },
                None => self.lookup_type(binding, DESCRIPTOR_SAMPLED_IMAGE),
            };
            types.push(bound);
            slot = slot + 1;
            assert(types@ =~= uniforms + textures.take(slot as int));
        }
        assert(textures.take(slot as int) =~= textures);
        let mut index: usize = 0;
        assert(types@ =~= uniforms + textures + self.sampler_types(samplers@, 0));
        while index < self.samplers.len()
            invariant
                index <= self.samplers@.len(),
                self.bindings_fit(),
                types@ == uniforms + textures + self.sampler_types(samplers@, index as int),
            decreases self.samplers@.len() - index,
        {
            let binding: u32 = self.bindings.sampler_base + index as u32;
            if !self.check_built_in(samplers, binding) {
                types.push(self.lookup_type(binding, DESCRIPTOR_SAMPLER));
            }
            index = index + 1;
            assert(types@ =~= uniforms + textures + self.sampler_types(samplers@, index as int));
        }
        types.push(self.lookup_type(self.bindings.xr_depth, DESCRIPTOR_SAMPLED_IMAGE));
        assert(types@ =~= self.collected_types(samplers@));
        types
    }
}

/// A binding of a set layout.
#[derive(Clone, Copy, PartialEq, Eq, Structural, Debug)]
pub struct LayoutBinding {
    pub binding: u32,
    pub descriptor: i32,
    /// The sampler that is built in.
    pub sampler: Option<u64>,
}

/// The bindings of a set layout from the types in their order.
pub open spec fn layout_bindings(
    types: Seq<Bound<i32>>,
    samplers: Seq<VulkanVideoCombinedImmutableSamplerKey>,
) -> Seq<LayoutBinding> {
    Seq::new(
        types.len(),
        |i: int|
            LayoutBinding {
                binding: types[i].binding,
                descriptor: types[i].value,
                sampler: built_in_sampler(samplers, types[i].binding),
            },
    )
}

/// The bindings of a set layout: those that the shader declares, ordered, the first
/// one of each binding.
pub open spec fn is_set_layout(
    bindings: Seq<LayoutBinding>,
    shader: ShaderDeclaration,
    samplers: Seq<VulkanVideoCombinedImmutableSamplerKey>,
) -> bool {
    exists|types: Seq<Bound<i32>>|
        {
            &&& strictly_sorted(types)
            &&& #[trigger] holds_firsts(types, shader.collected_types(samplers))
            &&& bindings =~= layout_bindings(types, samplers)
        }
}

/// Plans the set layout of a shader.
pub fn plan_set_layout(
    shader: &ShaderDeclaration,
    samplers: &Vec<VulkanVideoCombinedImmutableSamplerKey>,
) -> (bindings: Vec<LayoutBinding>)
    requires
        shader.bindings_fit(),
    ensures
        is_set_layout(bindings@, *shader, samplers@),
{
    let collected: Vec<Bound<i32>> = shader.collect_types(samplers);
    let types: Vec<Bound<i32>> = order_by_binding(&collected);
    let mut bindings: Vec<LayoutBinding> = Vec::new();
    let ghost wanted = layout_bindings(types@, samplers@);
    let mut i: usize = 0;
    while i < types.len()
        invariant
            i <= types@.len(),
            wanted == layout_bindings(types@, samplers@),
            bindings@ == wanted.take(i as int),
        decreases types@.len() - i,
    {
        bindings.push(
            LayoutBinding {
                binding: types[i].binding,
                descriptor: types[i].value,
                sampler: find_built_in_sampler(samplers, types[i].binding),
            },
        );
        i = i + 1;
        assert(bindings@ =~= wanted.take(i as int));
    }
    assert(wanted.take(i as int) =~= wanted);
    assert(holds_firsts(types@, shader.collected_types(samplers@)));
    bindings
}

/// A shader and its samplers determine one set layout.
pub proof fn law_set_layout_is_unique(
    a: Seq<LayoutBinding>,
    b: Seq<LayoutBinding>,
    shader: ShaderDeclaration,
    samplers: Seq<VulkanVideoCombinedImmutableSamplerKey>,
)
    requires
        is_set_layout(a, shader, samplers),
        is_set_layout(b, shader, samplers),
    ensures
        a == b,
{
    let collected = shader.collected_types(samplers);
    let types_a = choose|types: Seq<Bound<i32>>|
        {
            &&& strictly_sorted(types)
            &&& #[trigger] holds_firsts(types, collected)
            &&& a =~= layout_bindings(types, samplers)
        };
    let types_b = choose|types: Seq<Bound<i32>>|
        {
            &&& strictly_sorted(types)
            &&& #[trigger] holds_firsts(types, collected)
            &&& b =~= layout_bindings(types, samplers)
        };
    law_binding_order_is_unique(types_a, types_b, collected);
}

/// What a packet writes for a texture has the type that its pipeline declares, where
/// the pipeline has the samplers of the packet built in.
pub proof fn law_texture_writes_match_the_pipeline(
    shader: ShaderDeclaration,
    slots: Seq<TextureSlot>,
    slot: int,
)
    requires
        shader.bindings_fit(),
        slots.len() == shader.textures@.len(),
        all_textures_there(slots),
        0 <= slot < slots.len(),
    ensures
        ({
            let samplers = video_samplers(shader.bindings, slots, slots.len() as int);
            write_type(texture_write(shader.bindings, slots, slot)) == shader.texture_type(
                samplers,
                slot,
            ).value
        }),
{
    lemma_built_in_found(shader, slots, slots.len() as int, slot);
}

proof fn lemma_built_in_found(
    shader: ShaderDeclaration,
    slots: Seq<TextureSlot>,
    n: int,
    slot: int,
)
    requires
        shader.bindings.texture_base + slots.len() <= u32::MAX,
        0 <= slot < slots.len(),
        0 <= n <= slots.len(),
    ensures
        ({
            let samplers = video_samplers(shader.bindings, slots, n);
            let found = built_in_sampler(samplers, (shader.bindings.texture_base + slot) as u32);
            if slot < n && combined_remap(shader.bindings, slots, slot) is Some {
                found == slots[slot].texture->0.sampler
            } else {
                found is None
            }
        }),
    decreases n,
{
    if n > 0 {
        lemma_built_in_found(shader, slots, n - 1, slot);
        let samplers = video_samplers(shader.bindings, slots, n);
        let before = video_samplers(shader.bindings, slots, n - 1);
        if combined_remap(shader.bindings, slots, n - 1) is Some {
            assert(samplers.drop_last() =~= before);
        }
    }
}

/// A sampler is made as it is declared: each filter, each way to leave the texture and each
/// kind of coordinates is made otherwise.
pub proof fn law_samplers_are_made_as_declared(a: SamplerDeclaration, b: SamplerDeclaration)
    ensures
        sampler_plan(a) == sampler_plan(b) ==> a == b,
        sampler_plan(a).filter == 1 <==> a.filter is Linear,
        sampler_plan(a).filter == 0 <==> a.filter is Nearest,
        sampler_plan(a).address_mode == 0 <==> a.address is Repeat,
        sampler_plan(a).address_mode == 1 <==> a.address is MirroredRepeat,
        sampler_plan(a).address_mode == 2 <==> a.address is ClampToEdge,
        sampler_plan(a).address_mode == 3 <==> a.address is ClampToZero,
        sampler_plan(a).unnormalized <==> a.coord is Pixel,
        sampler_plan(a).mipmap_mode == 1 && sampler_plan(a).border_color == 0,
        sampler_plan(a).min_lod == 0 && sampler_plan(a).max_lod == 0x447a_0000,
        !sampler_plan(a).compares,
{
}

/// The sampler that is built into a binding was given for it; one is built in exactly
/// where one was given.
pub proof fn law_built_in_sampler_was_given(
    samplers: Seq<VulkanVideoCombinedImmutableSamplerKey>,
    binding: u32,
)
    ensures
        match built_in_sampler(samplers, binding) {
            Some(sampler) => exists|i: int|
                {
                    &&& 0 <= i < samplers.len()
                    &&& (#[trigger] samplers[i]).texture_binding == binding
                    &&& samplers[i].sampler == sampler
                    &&& forall|j: int|
                        i < j < samplers.len() ==> (#[trigger] samplers[j]).texture_binding
                            != binding
                },
            None => forall|i: int|
                0 <= i < samplers.len() ==> (#[trigger] samplers[i]).texture_binding != binding,
        },
    decreases samplers.len(),
{
    if samplers.len() > 0 {
        let before = samplers.drop_last();
        law_built_in_sampler_was_given(before, binding);
        let n = samplers.len() - 1;
        assert(samplers[n] == samplers.last());
        assert(forall|i: int| 0 <= i < n ==> before[i] == samplers[i]);
        if samplers.last().texture_binding != binding && built_in_sampler(before, binding) is Some {
            let sampler = built_in_sampler(before, binding)->0;
            let i = choose|i: int|
                {
                    &&& 0 <= i < before.len()
                    &&& (#[trigger] before[i]).texture_binding == binding
                    &&& before[i].sampler == sampler
                    &&& forall|j: int|
                        i < j < before.len() ==> (#[trigger] before[j]).texture_binding != binding
                };
            assert(samplers[i].texture_binding == binding && samplers[i].sampler == sampler);
            assert forall|j: int| i < j < samplers.len() implies (
            #[trigger] samplers[j]).texture_binding != binding by {
                if j < n {
                    assert(before[j].texture_binding != binding);
                }
            }
        }
    }
}

/// Everything that a shader binds has a type: each uniform buffer, the dynamic uniforms and
/// those of the scope where there are any, each texture at its slot, and the depth of the
/// real world; a texture with a built-in sampler is bound as one with it.
pub proof fn law_everything_bound_has_a_type(
    shader: ShaderDeclaration,
    samplers: Seq<VulkanVideoCombinedImmutableSamplerKey>,
    i: int,
    slot: int,
)
    ensures
        ({
            let types = shader.collected_types(samplers);
            let has = |binding: u32|
                exists|k: int| 0 <= k < types.len() && (#[trigger] types[k]).binding == binding;
            &&& 0 <= i < shader.uniform_bindings@.len() ==> has(shader.uniform_bindings@[i])
            &&& shader.has_dynamic ==> has(shader.dynamic_binding)
            &&& shader.has_scope && shader.scope_binding is Some ==> has(shader.scope_binding->0)
            &&& 0 <= slot < shader.textures@.len() ==> has(
                (shader.bindings.texture_base + slot) as u32,
            )
            &&& has(shader.bindings.xr_depth)
            &&& shader.built_in_remap(samplers, slot) is Some ==> shader.texture_type(
                samplers,
                slot,
            ).value == 1
        }),
{
    let types = shader.collected_types(samplers);
    let uniforms = shader.uniform_types();
    let u = shader.uniform_bindings@.len() as int;
    let t = uniforms.len() as int;
    if 0 <= i < u {
        assert(types[i] == uniforms[i]);
        assert(types[i].binding == shader.uniform_bindings@[i]);
    }
    if shader.has_dynamic {
        assert(types[u] == uniforms[u]);
        assert(types[u].binding == shader.dynamic_binding);
    }
    if shader.has_scope && shader.scope_binding is Some {
        assert(types[t - 1] == uniforms[t - 1]);
        assert(types[t - 1].binding == shader.scope_binding->0);
    }
    if 0 <= slot < shader.textures@.len() {
        assert(types[t + slot] == shader.texture_type(samplers, slot));
    }
    assert(types[types.len() - 1].binding == shader.bindings.xr_depth);
}

/// Every sampler that is not built in has a type, and none that is.
pub proof fn law_loose_samplers_have_a_type(
    shader: ShaderDeclaration,
    samplers: Seq<VulkanVideoCombinedImmutableSamplerKey>,
    n: int,
    i: int,
)
    requires
        0 <= i < n <= shader.samplers@.len(),
        shader.bindings.sampler_base + n <= u32::MAX,
    ensures
        ({
            let types = shader.sampler_types(samplers, n);
            let binding = (shader.bindings.sampler_base + i) as u32;
            let built_in = shader.is_built_in(
                samplers,
                shader.textures@.len() as int,
                binding,
            );
            (exists|k: int| 0 <= k < types.len() && (#[trigger] types[k]).binding == binding)
                <==> !built_in
        }),
    decreases n,
{
    let types = shader.sampler_types(samplers, n);
    let before = shader.sampler_types(samplers, n - 1);
    let binding = (shader.bindings.sampler_base + i) as u32;
    lemma_sampler_types_below(shader, samplers, n - 1);
    if i < n - 1 {
        law_loose_samplers_have_a_type(shader, samplers, n - 1, i);
        if exists|k: int| 0 <= k < before.len() && (#[trigger] before[k]).binding == binding {
            let k = choose|k: int| 0 <= k < before.len() && (#[trigger] before[k]).binding
                == binding;
            assert(types[k].binding == binding);
        }
        if exists|k: int| 0 <= k < types.len() && (#[trigger] types[k]).binding == binding {
            let k = choose|k: int| 0 <= k < types.len() && (#[trigger] types[k]).binding == binding;
            if k < before.len() {
                assert(before[k].binding == binding);
            }
        }
    } else {
        if exists|k: int| 0 <= k < types.len() && (#[trigger] types[k]).binding == binding {
            let k = choose|k: int| 0 <= k < types.len() && (#[trigger] types[k]).binding == binding;
            if k < before.len() {
                assert(types[k] == before[k]);
            }
        }
        if !shader.is_built_in(samplers, shader.textures@.len() as int, binding) {
            assert(types[types.len() - 1].binding == binding);
        }
    }
}

proof fn lemma_sampler_types_below(
    shader: ShaderDeclaration,
    samplers: Seq<VulkanVideoCombinedImmutableSamplerKey>,
    n: int,
)
    requires
        0 <= n <= shader.samplers@.len(),
        shader.bindings.sampler_base + n <= u32::MAX,
    ensures
        forall|k: int|
            0 <= k < shader.sampler_types(samplers, n).len() ==> (
            #[trigger] shader.sampler_types(samplers, n)[k]).binding < shader.bindings.sampler_base
                + n,
    decreases n,
{
    if n > 0 {
        lemma_sampler_types_below(shader, samplers, n - 1);
        let types = shader.sampler_types(samplers, n);
        let before = shader.sampler_types(samplers, n - 1);
        assert forall|k: int| 0 <= k < types.len() implies (
        #[trigger] types[k]).binding < shader.bindings.sampler_base + n by {
            if k < before.len() {
                assert(types[k] == before[k]);
            }
        }
    }
}

/// A binding of the layout has this number.
pub open spec fn has_binding(bindings: Seq<LayoutBinding>, binding: u32) -> bool {
    exists|k: int| 0 <= k < bindings.len() && (#[trigger] bindings[k]).binding == binding
}

/// A set layout has exactly the bindings that the shader declares, ordered, each with a type
/// that was declared for it, and with a sampler built in exactly where one is given for it.
pub proof fn law_set_layout_binds_what_is_declared(
    bindings: Seq<LayoutBinding>,
    shader: ShaderDeclaration,
    samplers: Seq<VulkanVideoCombinedImmutableSamplerKey>,
)
    requires
        is_set_layout(bindings, shader, samplers),
    ensures
        forall|i: int, j: int|
            0 <= i < j < bindings.len() ==> (#[trigger] bindings[i]).binding < (
            #[trigger] bindings[j]).binding,
        forall|k: int|
            0 <= k < bindings.len() ==> ({
                let bound = #[trigger] bindings[k];
                &&& shader.collected_types(samplers).contains(
                    (Bound { binding: bound.binding, value: bound.descriptor }),
                )
                &&& bound.sampler == built_in_sampler(samplers, bound.binding)
            }),
        forall|i: int|
            0 <= i < shader.collected_types(samplers).len() ==> has_binding(
                bindings,
                (#[trigger] shader.collected_types(samplers)[i]).binding,
            ),
{
    let collected = shader.collected_types(samplers);
    let types = choose|types: Seq<Bound<i32>>|
        {
            &&& strictly_sorted(types)
            &&& #[trigger] holds_firsts(types, collected)
            &&& bindings =~= layout_bindings(types, samplers)
        };
    assert forall|k: int| 0 <= k < bindings.len() implies ({
        let bound = #[trigger] bindings[k];
        &&& collected.contains((Bound { binding: bound.binding, value: bound.descriptor }))
        &&& bound.sampler == built_in_sampler(samplers, bound.binding)
    }) by {
        assert(is_a_first(collected, types[k]));
        assert(types[k] == (Bound { binding: types[k].binding, value: types[k].value }));
    }
    assert forall|i: int, j: int| 0 <= i < j < bindings.len() implies (
    #[trigger] bindings[i]).binding < (#[trigger] bindings[j]).binding by {
        assert(types[i].binding < types[j].binding);
    }
    assert forall|i: int| 0 <= i < collected.len() implies has_binding(
        bindings,
        (#[trigger] collected[i]).binding,
    ) by {
        lemma_first_exists(collected, i);
        let j = choose|j: int|
            0 <= j <= i && #[trigger] is_first(collected, j) && collected[j].binding
                == collected[i].binding;
        assert(types.contains(collected[j]));
        let k = choose|k: int| 0 <= k < types.len() && types[k] == collected[j];
        assert(bindings[k].binding == collected[i].binding);
    }
}

/// A sampler is built in exactly where a video texture before slot `n` has one built in for
/// its binding.
pub proof fn law_built_in_samplers_belong_to_videos(
    shader: ShaderDeclaration,
    samplers: Seq<VulkanVideoCombinedImmutableSamplerKey>,
    n: int,
    slot: int,
    binding: u32,
)
    ensures
        0 <= slot < n && shader.textures@[slot].is_video && shader.built_in_remap(samplers, slot)
            is Some && shader.built_in_remap(samplers, slot)->0.sampler_binding == binding
            ==> shader.is_built_in(samplers, n, binding),
        (forall|i: int|
            0 <= i < n && (#[trigger] shader.textures@[i]).is_video ==> shader.built_in_remap(
                samplers,
                i,
            ) is None) ==> !shader.is_built_in(samplers, n, binding),
        (forall|i: int| 0 <= i < n ==> !(#[trigger] shader.textures@[i]).is_video)
            ==> !shader.is_built_in(samplers, n, binding),
{
}

} // verus!
