//! What is reported of how devices and shaders meet: software devices, slots that do
//! not match, and the descriptors of video textures.

use vstd::prelude::*;

use crate::event::video_playback::VideoTextureYcbcrConversionMetadata;
use crate::text::decimal;
#[allow(unused_imports)]
use crate::text::decimal_text;
use crate::vulkan::codes::{
    DESCRIPTOR_COMBINED_IMAGE_SAMPLER, DESCRIPTOR_SAMPLED_IMAGE, DESCRIPTOR_SAMPLER,
};
use crate::vulkan::descriptors::{
    reflected_shader_descriptor_kind_name, reflected_vulkan_descriptor_type,
    vulkan_descriptor_type_name,
};
#[allow(unused_imports)]
use crate::vulkan::descriptors::{descriptor_type_name, kind_name, reflected_type};
#[allow(unused_imports)]
use crate::vulkan::draw_packet::{find_remap, law_found_remap_is_for_the_binding};
use crate::vulkan::draw_packet::{lookup_remap, ShaderBindings, TextureSlot};
use crate::vulkan::pipeline::{ShaderDeclaration, TextureDeclaration};
use crate::vulkan::pipeline_key::VulkanVideoCombinedImmutableSamplerKey;

verus! {

/// The vendor of the software device.
pub const SOFTWARE_VENDOR: u32 = 0x1AE0;

/// `part` stands in `text` from place `at` on.
pub open spec fn holds_at(text: Seq<char>, part: Seq<char>, at: int) -> bool {
    0 <= at && at + part.len() <= text.len() && text.subrange(at, at + part.len()) == part
}

/// `part` stands somewhere in `text`.
pub open spec fn holds_text(text: Seq<char>, part: Seq<char>) -> bool {
    exists|at: int| #[trigger] holds_at(text, part, at)
}

fn check_at(text: &str, part: &str, len: usize, part_len: usize, at: usize) -> (held: bool)
    requires
        len == text@.len(),
        part_len == part@.len(),
        at + part_len <= len,
    ensures
        held == holds_at(text@, part@, at as int),
{
    let mut i: usize = 0;
    while i < part_len
        invariant
            i <= part_len,
            len == text@.len(),
            part_len == part@.len(),
            at + part_len <= len,
            forall|j: int| 0 <= j < i ==> text@[at + j] == #[trigger] part@[j],
        decreases part_len - i,
    {
        if text.get_char(at + i) != part.get_char(i) {
            proof {
                assert(text@.subrange(at as int, at + part@.len())[i as int] != part@[i as int]);
            }
            return false;
        }
        i = i + 1;
    }
    assert(text@.subrange(at as int, at + part@.len()) =~= part@);
    true
}

/// Whether `part` stands in `text`.
pub fn find_text(text: &str, part: &str) -> (found: bool)
    ensures
        found == holds_text(text@, part@),
{
    let len: usize = text.unicode_len();
    let part_len: usize = part.unicode_len();
    if len < part_len {
        return false;
    }
    let mut at: usize = 0;
    while at <= len - part_len
        invariant
            len == text@.len(),
            part_len == part@.len(),
            part_len <= len,
            at <= len - part_len + 1,
            forall|j: int| 0 <= j < at ==> !#[trigger] holds_at(text@, part@, j),
        decreases len - part_len + 1 - at,
    {
        if check_at(text, part, len, part_len, at) {
            return true;
        }
        if at == len - part_len {
            return false;
        }
        at = at + 1;
    }
    false
}

/// Whether a device computes in software.
pub fn is_software_device(device_name: &str, vendor_id: u32) -> (software: bool)
    ensures
        software == (holds_text(device_name@, "SwiftShader"@) || vendor_id == SOFTWARE_VENDOR),
{
    find_text(device_name, "SwiftShader") || vendor_id == SOFTWARE_VENDOR
}

fn append_number(message: &mut String, value: usize)
    ensures
        final(message)@ == old(message)@ + decimal_text(value as nat),
{
    let text: String = decimal(value as u64);
    message.append(text.as_str());
}

/// What is said of a shader whose slots are not those of its mapping.
pub open spec fn slot_mismatch_text(
    shader_index: usize,
    shader_geometry: usize,
    mapping_geometry: usize,
    shader_instance: usize,
    mapping_instance: usize,
) -> Seq<char> {
    "Android Vulkan slot mismatch: shader="@ + decimal_text(shader_index as nat)
        + ", wgsl_geom_slots="@ + decimal_text(shader_geometry as nat) + ", map_geom_slots="@
        + decimal_text(mapping_geometry as nat) + ", wgsl_inst_slots="@ + decimal_text(
        shader_instance as nat,
    ) + ", map_inst_slots="@ + decimal_text(mapping_instance as nat)
}

/// Warns of a shader whose slots are not those of its mapping.
pub fn slot_mismatch(
    shader_index: usize,
    shader_geometry: usize,
    mapping_geometry: usize,
    shader_instance: usize,
    mapping_instance: usize,
) -> (warning: Option<String>)
    ensures
        if shader_geometry != mapping_geometry || shader_instance != mapping_instance {
            warning matches Some(message) && message@ == slot_mismatch_text(
                shader_index,
                shader_geometry,
                mapping_geometry,
                shader_instance,
                mapping_instance,
            )
        } else {
            warning is None
        },
{
    if shader_geometry == mapping_geometry && shader_instance == mapping_instance {
        return None;
    }
    let mut message: String = "Android Vulkan slot mismatch: shader=".to_owned();
    append_number(&mut message, shader_index);
    message.append(", wgsl_geom_slots=");
    append_number(&mut message, shader_geometry);
    message.append(", map_geom_slots=");
    append_number(&mut message, mapping_geometry);
    message.append(", wgsl_inst_slots=");
    append_number(&mut message, shader_instance);
    message.append(", map_inst_slots=");
    append_number(&mut message, mapping_instance);
    Some(message)
}

/// Where a video texture is bound.
#[derive(Clone, Copy, PartialEq, Eq, Structural, Debug)]
pub struct ShapeKey {
    pub shader_index: usize,
    pub slot: usize,
    pub texture_key: u64,
    pub sampler_index: usize,
}

/// How a shader binds a video texture and its sampler.
#[derive(Clone, Copy, Debug)]
pub struct DescriptorShape {
    pub slot: usize,
    pub sampler_index: usize,
    pub texture_binding: u32,
    pub texture_kind: &'static str,
    pub texture_descriptor: &'static str,
    pub sampler_binding: u32,
    pub remapped_sampler_binding: u32,
    pub sampler_kind: &'static str,
    pub sampler_descriptor: &'static str,
    /// The texture and its sampler are one binding, with a sampler that never changes.
    pub combined: bool,
}

/// A video texture that is reported.
#[derive(Clone, Copy, Debug)]
pub struct ReportedShape {
    pub key: ShapeKey,
    pub shape: DescriptorShape,
}

/// The texture of a slot is a video texture.
pub open spec fn is_video_slot(slot: TextureSlot) -> bool {
    slot.texture matches Some(texture) && texture.sampler is Some && texture.ycbcr
}

/// Where the texture of a slot is bound.
pub open spec fn shape_key(
    shader_index: usize,
    slots: Seq<TextureSlot>,
    texture_keys: Seq<u64>,
    slot: int,
) -> ShapeKey {
    ShapeKey {
        shader_index,
        slot: slot as usize,
        texture_key: texture_keys[slot],
        sampler_index: slots[slot].sampler_index,
    }
}

/// `shape` is how the shader binds a slot with its sampler.
pub open spec fn is_shape(
    shape: DescriptorShape,
    shader: ShaderBindings,
    slot: usize,
    sampler_index: usize,
    combined: bool,
) -> bool {
    let interface = shader.interface@;
    &&& shape.slot == slot
    &&& shape.sampler_index == sampler_index
    &&& shape.combined == combined
    &&& shape.texture_binding == shader.texture_base + slot
    &&& shape.texture_kind@ == kind_name(interface, shape.texture_binding)
    &&& shape.texture_descriptor@ == descriptor_type_name(
        if combined {
            DESCRIPTOR_COMBINED_IMAGE_SAMPLER
        } else {
            reflected_type(interface, shape.texture_binding, DESCRIPTOR_SAMPLED_IMAGE)
        },
    )
    &&& shape.sampler_binding == shader.sampler_base + sampler_index
    &&& shape.remapped_sampler_binding == match find_remap(
        shader.remaps@,
        shader.texture_base + slot,
    ) {
        Some(remap) => remap.sampler_binding,
        None => shape.sampler_binding,
    }
    &&& shape.sampler_kind@ == if combined {
        "remapped-sampler-same-binding"@
    } else {
        kind_name(interface, shape.sampler_binding)
    }
    &&& shape.sampler_descriptor@ == descriptor_type_name(
        if combined {
            DESCRIPTOR_COMBINED_IMAGE_SAMPLER
        } else {
            reflected_type(interface, shape.sampler_binding, DESCRIPTOR_SAMPLER)
        },
    )
}

/// `reported` is what is reported of a video texture in its place.
pub open spec fn is_reported(reported: ReportedShape, shader: ShaderBindings, key: ShapeKey) -> bool {
    &&& reported.key == key
    &&& is_shape(
        reported.shape,
        shader,
        key.slot,
        key.sampler_index,
        find_remap(shader.remaps@, shader.texture_base + key.slot) is Some,
    )
}

fn find_shape(
    shader: &ShaderBindings,
    slot: usize,
    sampler_index: usize,
    combined: bool,
) -> (shape: DescriptorShape)
    requires
        shader.texture_base + slot <= u32::MAX,
        shader.sampler_base + sampler_index <= u32::MAX,
    ensures
        is_shape(shape, *shader, slot, sampler_index, combined),
{
    let texture_binding: u32 = shader.texture_base + slot as u32;
    let sampler_binding: u32 = shader.sampler_base + sampler_index as u32;
    let (texture_descriptor, sampler_descriptor): (i32, i32) = if combined {
        (DESCRIPTOR_COMBINED_IMAGE_SAMPLER, DESCRIPTOR_COMBINED_IMAGE_SAMPLER)
    } else {
        (
            reflected_vulkan_descriptor_type(
                &shader.interface,
                texture_binding,
                DESCRIPTOR_SAMPLED_IMAGE,
            ),
            reflected_vulkan_descriptor_type(
                &shader.interface,
                sampler_binding,
                DESCRIPTOR_SAMPLER,
            ),
        )
    };
    DescriptorShape {
        slot,
        sampler_index,
        texture_binding,
        texture_kind: reflected_shader_descriptor_kind_name(&shader.interface, texture_binding),
        texture_descriptor: vulkan_descriptor_type_name(texture_descriptor),
        sampler_binding,
        remapped_sampler_binding: match lookup_remap(&shader.remaps, texture_binding) {
            Some(remap) => remap.sampler_binding,
            None => sampler_binding,
        },
        sampler_kind: if combined {
            "remapped-sampler-same-binding"
        } else {
            reflected_shader_descriptor_kind_name(&shader.interface, sampler_binding)
        },
        sampler_descriptor: vulkan_descriptor_type_name(sampler_descriptor),
        combined,
    }
}

/// The slots among the first `n` that the shader declares as video textures, in order.
pub open spec fn video_slots(textures: Seq<TextureDeclaration>, n: nat) -> Seq<usize>
    decreases n,
{
    if n == 0 {
        seq![]
    } else {
        let before = video_slots(textures, (n - 1) as nat);
        if textures[n - 1].is_video {
            before.push((n - 1) as usize)
        } else {
            before
        }
    }
}

/// The sampler of a slot; the first one where none is declared.
pub open spec fn slot_sampler(sampler_indices: Seq<usize>, slot: int) -> usize {
    if slot < sampler_indices.len() {
        sampler_indices[slot]
    } else {
        0
    }
}

/// Lists how a shader binds its video textures, for a pipeline with the samplers.
pub fn report_interface(
    shader: &ShaderDeclaration,
    samplers: &Vec<VulkanVideoCombinedImmutableSamplerKey>,
    sampler_indices: &Vec<usize>,
) -> (shapes: Vec<DescriptorShape>)
    requires
        shader.bindings_fit(),
        forall|i: int|
            0 <= i < shader.textures@.len() ==> shader.bindings.sampler_base
                + #[trigger] slot_sampler(sampler_indices@, i) <= u32::MAX,
    ensures
        shapes@.len() == video_slots(shader.textures@, shader.textures@.len()).len(),
        forall|i: int|
            0 <= i < shapes@.len() ==> ({
                let slot = video_slots(shader.textures@, shader.textures@.len())[i];
                is_shape(
                    #[trigger] shapes@[i],
                    shader.bindings,
                    slot,
                    slot_sampler(sampler_indices@, slot as int),
                    shader.built_in_remap(samplers@, slot as int) is Some,
                )
            }),
{
    let mut shapes: Vec<DescriptorShape> = Vec::new();
    let mut slot: usize = 0;
    while slot < shader.textures.len()
        invariant
            slot <= shader.textures@.len(),
            shader.bindings_fit(),
            forall|i: int|
                0 <= i < shader.textures@.len() ==> shader.bindings.sampler_base
                    + #[trigger] slot_sampler(sampler_indices@, i) <= u32::MAX,
            shapes@.len() == video_slots(shader.textures@, slot as nat).len(),
            forall|i: int|
                0 <= i < shapes@.len() ==> ({
                    let slot = video_slots(shader.textures@, slot as nat)[i];
                    is_shape(
                        #[trigger] shapes@[i],
                        shader.bindings,
                        slot,
                        slot_sampler(sampler_indices@, slot as int),
                        shader.built_in_remap(samplers@, slot as int) is Some,
                    )
                }),
        decreases shader.textures@.len() - slot,
    {
        if shader.textures[slot].is_video {
            let sampler_index: usize = if slot < sampler_indices.len() {
                sampler_indices[slot]
            } else {
                0
            };
            assert(sampler_index == slot_sampler(sampler_indices@, slot as int));
            let combined: bool = shader.lookup_built_in(samplers, slot).is_some();
            shapes.push(find_shape(&shader.bindings, slot, sampler_index, combined));
        }
        slot = slot + 1;
    }
    shapes
}

/// Of how many slots the textures are there, before the first whose texture is not.
pub open spec fn slots_there(slots: Seq<TextureSlot>) -> nat
    decreases slots.len(),
{
    if slots.len() == 0 || slots[0].texture is None {
        0
    } else {
        1 + slots_there(slots.drop_first())
    }
}

/// What the first `n` slots add to what was reported: each video texture that was not
/// reported in the same place before, in order.
pub open spec fn new_keys(
    reported: Seq<ShapeKey>,
    shader_index: usize,
    slots: Seq<TextureSlot>,
    texture_keys: Seq<u64>,
    n: nat,
) -> Seq<ShapeKey>
    decreases n,
{
    if n == 0 {
        seq![]
    } else {
        let before = new_keys(reported, shader_index, slots, texture_keys, (n - 1) as nat);
        let key = shape_key(shader_index, slots, texture_keys, n - 1);
        if is_video_slot(slots[n - 1]) && !(reported + before).contains(key) {
            before.push(key)
        } else {
            before
        }
    }
}

/// The video textures that were reported.
pub struct ReportedShapes {
    pub keys: Vec<ShapeKey>,
}

impl ReportedShapes {
    /// Nothing was reported twice.
    pub open spec fn wf(&self) -> bool {
        self.keys@.no_duplicates()
    }

    /// Nothing was reported.
    pub fn new() -> (shapes: ReportedShapes)
        ensures
            shapes.wf(),
            shapes.keys@ == Seq::<ShapeKey>::empty(),
    {
        ReportedShapes { keys: Vec::new() }
    }

    fn check_key(&self, key: ShapeKey) -> (known: bool)
        ensures
            known == self.keys@.contains(key),
    {
        let mut i: usize = 0;
        while i < self.keys.len()
            invariant
                i <= self.keys@.len(),
                forall|j: int| 0 <= j < i ==> #[trigger] self.keys@[j] != key,
            decreases self.keys@.len() - i,
        {
            if self.keys[i] == key {
                return true;
            }
            i = i + 1;
        }
        false
    }

    /// Reports how the video textures of a packet are bound, each of them once in its
    /// place, up to the first slot without a texture.
    pub fn report_packet(
        &mut self,
        shader: &ShaderBindings,
        shader_index: usize,
        slots: &Vec<TextureSlot>,
        texture_keys: &Vec<u64>,
    ) -> (shapes: Vec<ReportedShape>)
        requires
            old(self).wf(),
            texture_keys@.len() == slots@.len(),
            shader.texture_base + slots@.len() <= u32::MAX,
            forall|i: int|
                0 <= i < slots@.len() ==> shader.sampler_base + (
                #[trigger] slots@[i]).sampler_index <= u32::MAX,
        ensures
            final(self).wf(),
            final(self).keys@ == old(self).keys@ + new_keys(
                old(self).keys@,
                shader_index,
                slots@,
                texture_keys@,
                slots_there(slots@),
            ),
            shapes@.len() == final(self).keys@.len() - old(self).keys@.len(),
            forall|i: int|
                0 <= i < shapes@.len() ==> is_reported(
                    #[trigger] shapes@[i],
                    *shader,
                    final(self).keys@[old(self).keys@.len() + i],
                ),
    {
        let ghost before = self.keys@;
        let mut shapes: Vec<ReportedShape> = Vec::new();
        let mut i: usize = 0;
        assert(slots@.skip(0) =~= slots@);
        assert(before + Seq::<ShapeKey>::empty() =~= before);
        while i < slots.len() && slots[i].texture.is_some()
            invariant
                i <= slots@.len(),
                self.wf(),
                texture_keys@.len() == slots@.len(),
                shader.texture_base + slots@.len() <= u32::MAX,
                forall|j: int|
                    0 <= j < slots@.len() ==> shader.sampler_base + (
                    #[trigger] slots@[j]).sampler_index <= u32::MAX,
                slots_there(slots@) == i + slots_there(slots@.skip(i as int)),
                self.keys@ == before + new_keys(
                    before,
                    shader_index,
                    slots@,
                    texture_keys@,
                    i as nat,
                ),
                shapes@.len() == self.keys@.len() - before.len(),
                forall|j: int|
                    0 <= j < shapes@.len() ==> is_reported(
                        #[trigger] shapes@[j],
                        *shader,
                        self.keys@[before.len() + j],
                    ),
            decreases slots@.len() - i,
        {
            let slot: TextureSlot = slots[i];
            let key: ShapeKey = ShapeKey {
                shader_index,
                slot: i,
                texture_key: texture_keys[i],
                sampler_index: slot.sampler_index,
            };
            let is_video: bool = match slot.texture {
                Some(texture) => texture.sampler.is_some() && texture.ycbcr,
                None => false,
            };
            proof {
                assert(slots@.skip(i as int).drop_first() =~= slots@.skip(i + 1));
            }
            let ghost keys = self.keys@;
            if is_video && !self.check_key(key) {
                self.keys.push(key);
                let combined: bool = lookup_remap(
                    &shader.remaps,
                    shader.texture_base + i as u32,
                ).is_some();
                let shape: DescriptorShape = find_shape(shader, i, key.sampler_index, combined);
                shapes.push(ReportedShape { key, shape });
                assert(self.keys@ =~= before + new_keys(
                    before,
                    shader_index,
                    slots@,
                    texture_keys@,
                    (i + 1) as nat,
                ));
                assert(forall|j: int| 0 <= j < keys.len() ==> self.keys@[j] == keys[j]);
            }
            i = i + 1;
        }
        shapes
    }
}

/// A packet whose textures are bound as before has nothing new to report.
pub proof fn law_shapes_are_reported_once(
    reported: Seq<ShapeKey>,
    shader_index: usize,
    slots: Seq<TextureSlot>,
    texture_keys: Seq<u64>,
)
    ensures
        new_keys(
            reported + new_keys(
                reported,
                shader_index,
                slots,
                texture_keys,
                slots_there(slots),
            ),
            shader_index,
            slots,
            texture_keys,
            slots_there(slots),
        ).len() == 0,
{
    let n = slots_there(slots);
    let all = reported + new_keys(reported, shader_index, slots, texture_keys, n);
    lemma_nothing_new(reported, all, shader_index, slots, texture_keys, n, n);
}

proof fn lemma_keys_grow(
    reported: Seq<ShapeKey>,
    shader_index: usize,
    slots: Seq<TextureSlot>,
    texture_keys: Seq<u64>,
    m: nat,
    n: nat,
    key: ShapeKey,
)
    requires
        m <= n,
        new_keys(reported, shader_index, slots, texture_keys, m).contains(key),
    ensures
        new_keys(reported, shader_index, slots, texture_keys, n).contains(key),
    decreases n - m,
{
    if m < n {
        lemma_keys_grow(reported, shader_index, slots, texture_keys, m, (n - 1) as nat, key);
        let before = new_keys(reported, shader_index, slots, texture_keys, (n - 1) as nat);
        let i = choose|i: int| 0 <= i < before.len() && before[i] == key;
        assert(new_keys(reported, shader_index, slots, texture_keys, n)[i] == key);
    }
}

proof fn lemma_nothing_new(
    reported: Seq<ShapeKey>,
    all: Seq<ShapeKey>,
    shader_index: usize,
    slots: Seq<TextureSlot>,
    texture_keys: Seq<u64>,
    m: nat,
    n: nat,
)
    requires
        m <= n,
        all == reported + new_keys(reported, shader_index, slots, texture_keys, n),
    ensures
        new_keys(all, shader_index, slots, texture_keys, m).len() == 0,
    decreases m,
{
    if m > 0 {
        lemma_nothing_new(reported, all, shader_index, slots, texture_keys, (m - 1) as nat, n);
        let key = shape_key(shader_index, slots, texture_keys, m - 1);
        let added = new_keys(reported, shader_index, slots, texture_keys, n);
        let before = new_keys(reported, shader_index, slots, texture_keys, (m - 1) as nat);
        let upto = new_keys(reported, shader_index, slots, texture_keys, m);
        if is_video_slot(slots[m - 1]) {
            if (reported + before).contains(key) {
                let i = choose|i: int|
                    0 <= i < (reported + before).len() && (reported + before)[i] == key;
                if i < reported.len() {
                    assert(all[i] == key);
                } else {
                    assert(before[i - reported.len()] == key);
                    lemma_keys_grow(
                        reported,
                        shader_index,
                        slots,
                        texture_keys,
                        (m - 1) as nat,
                        n,
                        key,
                    );
                }
            } else {
                assert(upto[upto.len() - 1] == key);
                lemma_keys_grow(reported, shader_index, slots, texture_keys, m, n, key);
            }
            if added.contains(key) {
                let i = choose|i: int| 0 <= i < added.len() && added[i] == key;
                assert(all[reported.len() + i] == key);
            }
            assert(all.contains(key));
            let none = new_keys(all, shader_index, slots, texture_keys, (m - 1) as nat);
            assert(all + none =~= all);
        }
    }
}

/// One value of a report.
pub open spec fn field_text(name: Seq<char>, value: Seq<char>) -> Seq<char> {
    " "@ + name + "="@ + value
}

fn append_field(message: &mut String, name: &str, value: &str)
    ensures
        final(message)@ == old(message)@ + field_text(name@, value@),
{
    message.append(" ");
    message.append(name);
    message.append("=");
    message.append(value);
    assert(message@ =~= old(message)@ + field_text(name@, value@));
}

fn append_count(message: &mut String, name: &str, value: u64)
    ensures
        final(message)@ == old(message)@ + field_text(name@, decimal_text(value as nat)),
{
    let text: String = decimal(value);
    append_field(message, name, text.as_str());
}

/// The name of a truth value.
pub open spec fn truth_text(value: bool) -> Seq<char> {
    if value {
        "true"@
    } else {
        "false"@
    }
}

fn append_truth(message: &mut String, name: &str, value: bool)
    ensures
        final(message)@ == old(message)@ + field_text(name@, truth_text(value)),
{
    append_field(
        message,
        name,
        if value {
            "true"
        } else {
            "false"
        },
    );
}

/// How a video texture is bound, in one word.
pub open spec fn binding_mode(combined: bool) -> Seq<char> {
    if combined {
        "combined-immutable-sampler"@
    } else {
        "separate-sampled-image-and-mutable-sampler"@
    }
}

/// How far that is what it should be.
pub open spec fn binding_compliance(combined: bool) -> Seq<char> {
    if combined {
        "pure-hwb-reference-combined-immutable"@
    } else {
        "diagnostic-not-combined-immutable"@
    }
}

/// How a shader samples a video texture.
pub open spec fn sample_lowering(combined: bool) -> Seq<char> {
    if combined {
        "textureSampleLevel_combined_image_sampler_same_binding"@
    } else {
        "textureSampleLevel_separate_texture_sampler"@
    }
}

impl DescriptorShape {
    /// The bindings of a shape.
    pub open spec fn texture_text(self) -> Seq<char> {
        field_text("textureBinding"@, decimal_text(self.texture_binding as nat)) + field_text(
            "shaderTextureResourceKind"@,
            self.texture_kind@,
        ) + field_text("textureDescriptorType"@, self.texture_descriptor@) + field_text(
            "samplerIndex"@,
            decimal_text(self.sampler_index as nat),
        ) + field_text("samplerBinding"@, decimal_text(self.sampler_binding as nat)) + field_text(
            "remappedSamplerBinding"@,
            decimal_text(self.remapped_sampler_binding as nat),
        ) + field_text("shaderSamplerResourceKind"@, self.sampler_kind@) + field_text(
            "samplerDescriptorType"@,
            self.sampler_descriptor@,
        )
    }

    fn append_bindings(&self, report: &mut String)
        ensures
            final(report)@ == old(report)@ + self.texture_text(),
    {
        append_count(report, "textureBinding", self.texture_binding as u64);
        append_field(report, "shaderTextureResourceKind", self.texture_kind);
        append_field(report, "textureDescriptorType", self.texture_descriptor);
        append_count(report, "samplerIndex", self.sampler_index as u64);
        append_count(report, "samplerBinding", self.sampler_binding as u64);
        append_count(report, "remappedSamplerBinding", self.remapped_sampler_binding as u64);
        append_field(report, "shaderSamplerResourceKind", self.sampler_kind);
        append_field(report, "samplerDescriptorType", self.sampler_descriptor);
        assert(report@ =~= old(report)@ + self.texture_text());
    }

    /// Whether the sampler is the one that never changes, and how it is bound.
    pub open spec fn mode_text(self) -> Seq<char> {
        field_text("samplerBindingMode"@, binding_mode(self.combined)) + field_text(
            "samplerBindingCompliance"@,
            binding_compliance(self.combined),
        )
    }

    fn append_mode(&self, report: &mut String)
        ensures
            final(report)@ == old(report)@ + self.mode_text(),
    {
        append_field(
            report,
            "samplerBindingMode",
            if self.combined {
                "combined-immutable-sampler"
            } else {
                "separate-sampled-image-and-mutable-sampler"
            },
        );
        append_field(
            report,
            "samplerBindingCompliance",
            if self.combined {
                "pure-hwb-reference-combined-immutable"
            } else {
                "diagnostic-not-combined-immutable"
            },
        );
        assert(report@ =~= old(report)@ + self.mode_text());
    }

    /// How the texture is sampled.
    pub open spec fn sampling_text(self) -> Seq<char> {
        field_text("shaderSampleLowering"@, sample_lowering(self.combined)) + field_text(
            "colorFixAttempt"@,
            "hwb-external-combined-immutable-v4-default-sampler-remap"@,
        )
    }

    fn append_sampling(&self, report: &mut String)
        ensures
            final(report)@ == old(report)@ + self.sampling_text(),
    {
        append_field(
            report,
            "shaderSampleLowering",
            if self.combined {
                "textureSampleLevel_combined_image_sampler_same_binding"
            } else {
                "textureSampleLevel_separate_texture_sampler"
            },
        );
        append_field(
            report,
            "colorFixAttempt",
            "hwb-external-combined-immutable-v4-default-sampler-remap",
        );
        assert(report@ =~= old(report)@ + self.sampling_text());
    }

    /// The report of how a shader binds a video texture.
    pub open spec fn interface_text(self, shader_index: usize, shader_variant: usize) -> Seq<char> {
        "RUSTY_XR_MAKEPAD_VULKAN_VIDEO_SHADER_INTERFACE schema=rusty.xr.makepad-vulkan-video-shader-interface.v1"@
            + field_text("shaderIndex"@, decimal_text(shader_index as nat)) + field_text(
            "shaderVariant"@,
            decimal_text(shader_variant as nat),
        ) + field_text("slot"@, decimal_text(self.slot as nat)) + self.texture_text() + field_text(
            "combinedImageSamplerExpected"@,
            truth_text(self.combined),
        ) + field_text("immutableSamplerExpected"@, truth_text(self.combined)) + self.mode_text()
            + field_text("wgslTextureType"@, "texture_2d_f32"@) + self.sampling_text()
    }

    /// Writes the report of how a shader binds a video texture.
    pub fn interface_report(&self, shader_index: usize, shader_variant: usize) -> (report: String)
        ensures
            report@ == self.interface_text(shader_index, shader_variant),
    {
        let mut report: String =
            "RUSTY_XR_MAKEPAD_VULKAN_VIDEO_SHADER_INTERFACE schema=rusty.xr.makepad-vulkan-video-shader-interface.v1".to_owned();
        append_count(&mut report, "shaderIndex", shader_index as u64);
        append_count(&mut report, "shaderVariant", shader_variant as u64);
        append_count(&mut report, "slot", self.slot as u64);
        self.append_bindings(&mut report);
        append_truth(&mut report, "combinedImageSamplerExpected", self.combined);
        append_truth(&mut report, "immutableSamplerExpected", self.combined);
        self.append_mode(&mut report);
        append_field(&mut report, "wgslTextureType", "texture_2d_f32");
        self.append_sampling(&mut report);
        report
    }
}

impl ReportedShape {
    /// The report of a video texture.
    pub open spec fn report_text(
        self,
        texture_type: Seq<char>,
        metadata: Option<VideoTextureYcbcrConversionMetadata>,
    ) -> Seq<char> {
        "RUSTY_XR_MAKEPAD_VULKAN_VIDEO_DESCRIPTOR_SHAPE schema=rusty.xr.makepad-vulkan-video-descriptor-shape.v1"@
            + field_text("shaderIndex"@, decimal_text(self.key.shader_index as nat)) + field_text(
            "slot"@,
            decimal_text(self.key.slot as nat),
        ) + field_text("textureKey"@, decimal_text(self.key.texture_key as nat)) + field_text(
            "textureType"@,
            texture_type,
        ) + self.shape.texture_text() + field_text(
            "resourceSamplerOverride"@,
            truth_text(!self.shape.combined),
        ) + field_text("samplerYcbcrConversion"@, "true"@) + field_text(
            "combinedImageSampler"@,
            truth_text(self.shape.combined),
        ) + field_text("immutableSampler"@, truth_text(self.shape.combined))
            + self.shape.mode_text() + field_text(
            "effectiveYcbcrModel"@,
            match metadata {
                Some(metadata) => metadata.effective_model@,
                None => "unspecified"@,
            },
        ) + field_text(
            "effectiveYcbcrRange"@,
            match metadata {
                Some(metadata) => metadata.effective_range@,
                None => "unspecified"@,
            },
        ) + field_text(
            "conversionMode"@,
            match metadata {
                Some(metadata) => metadata.conversion_mode@,
                None => "unspecified"@,
            },
        ) + self.shape.sampling_text()
    }

    /// Writes the report of a video texture. `metadata` is how its colors are converted,
    /// where that is known.
    pub fn report(
        &self,
        texture_type: &str,
        metadata: Option<&VideoTextureYcbcrConversionMetadata>,
    ) -> (report: String)
        ensures
            report@ == self.report_text(
                texture_type@,
                match metadata {
                    Some(metadata) => Some(*metadata),
                    None => None,
                },
            ),
    {
        let mut report: String =
            "RUSTY_XR_MAKEPAD_VULKAN_VIDEO_DESCRIPTOR_SHAPE schema=rusty.xr.makepad-vulkan-video-descriptor-shape.v1".to_owned();
        append_count(&mut report, "shaderIndex", self.key.shader_index as u64);
        append_count(&mut report, "slot", self.key.slot as u64);
        append_count(&mut report, "textureKey", self.key.texture_key);
        append_field(&mut report, "textureType", texture_type);
        self.shape.append_bindings(&mut report);
        append_truth(&mut report, "resourceSamplerOverride", !self.shape.combined);
        append_field(&mut report, "samplerYcbcrConversion", "true");
        append_truth(&mut report, "combinedImageSampler", self.shape.combined);
        append_truth(&mut report, "immutableSampler", self.shape.combined);
        self.shape.append_mode(&mut report);
        append_field(
            &mut report,
            "effectiveYcbcrModel",
            match metadata {
                Some(metadata) => metadata.effective_model.as_str(),
                None => "unspecified",
            },
        );
        append_field(
            &mut report,
            "effectiveYcbcrRange",
            match metadata {
                Some(metadata) => metadata.effective_range.as_str(),
                None => "unspecified",
            },
        );
        append_field(
            &mut report,
            "conversionMode",
            match metadata {
                Some(metadata) => metadata.conversion_mode.as_str(),
                None => "unspecified",
            },
        );
        self.shape.append_sampling(&mut report);
        report
    }
}

/// What is looked for is found wherever it stands, and a text without it does not hold it.
pub proof fn law_text_is_found_where_it_stands(
    before: Seq<char>,
    part: Seq<char>,
    after: Seq<char>,
)
    ensures
        holds_text(before + part + after, part),
        part.len() > before.len() ==> !holds_text(before, part),
        (forall|i: int|
            0 <= i < before.len() ==> part.len() > 0 && #[trigger] before[i] != part[0])
            && part.len() > 0 ==> !holds_text(before, part),
{
    let text = before + part + after;
    assert(text.subrange(before.len() as int, (before.len() + part.len()) as int) =~= part);
    assert(holds_at(text, part, before.len() as int));
    if holds_text(before, part) && part.len() > 0 {
        let at = choose|at: int| #[trigger] holds_at(before, part, at);
        assert(before.subrange(at, at + part.len())[0] == before[at]);
    }
}

/// What a report says stands in it.
#[verifier::opaque]
pub open spec fn tells(report: Seq<char>, part: Seq<char>) -> bool {
    holds_text(report, part)
}

proof fn lemma_append(a: Seq<char>, b: Seq<char>)
    ensures
        tells(a + b, b),
        forall|part: Seq<char>| tells(a, part) ==> #[trigger] tells(a + b, part),
{
    reveal(tells);
    assert((a + b).subrange(a.len() as int, (a.len() + b.len()) as int) =~= b);
    assert(holds_at(a + b, b, a.len() as int));
    assert forall|part: Seq<char>| tells(a, part) implies #[trigger] tells(a + b, part) by {
        let at = choose|at: int| #[trigger] holds_at(a, part, at);
        assert((a + b).subrange(at, at + part.len()) =~= a.subrange(at, at + part.len()));
        assert(holds_at(a + b, part, at));
    }
}

/// A value of a report stands behind its name, apart from what is before it.
pub proof fn law_value_stands_behind_its_name(name: Seq<char>, value: Seq<char>)
    ensures
        field_text(name, value) == seq![' '] + name + seq!['='] + value,
        tells(field_text(name, value), name),
        tells(field_text(name, value), value),
{
    reveal_strlit(" ");
    reveal_strlit("=");
    assert(" "@ =~= seq![' ']);
    assert("="@ =~= seq!['=']);
    lemma_append(" "@, name);
    lemma_append(" "@ + name, "="@);
    lemma_append(" "@ + name + "="@, value);
}

/// The report of a texture holds its binding, its sampler's and the one that the sampler is
/// moved to, what the shader declares there and what the descriptors are.
pub proof fn law_texture_report_holds_its_values(shape: DescriptorShape)
    ensures
        ({
            let text = shape.texture_text();
            &&& tells(
                text,
                field_text("textureBinding"@, decimal_text(shape.texture_binding as nat)),
            )
            &&& tells(text, field_text("shaderTextureResourceKind"@, shape.texture_kind@))
            &&& tells(text, field_text("textureDescriptorType"@, shape.texture_descriptor@))
            &&& tells(
                text,
                field_text("samplerIndex"@, decimal_text(shape.sampler_index as nat)),
            )
            &&& tells(
                text,
                field_text("samplerBinding"@, decimal_text(shape.sampler_binding as nat)),
            )
            &&& tells(
                text,
                field_text(
                    "remappedSamplerBinding"@,
                    decimal_text(shape.remapped_sampler_binding as nat),
                ),
            )
            &&& tells(text, field_text("shaderSamplerResourceKind"@, shape.sampler_kind@))
            &&& tells(text, field_text("samplerDescriptorType"@, shape.sampler_descriptor@))
        }),
{
    let a1 = field_text("textureBinding"@, decimal_text(shape.texture_binding as nat));
    let b2 = field_text("shaderTextureResourceKind"@, shape.texture_kind@);
    let b3 = field_text("textureDescriptorType"@, shape.texture_descriptor@);
    let b4 = field_text("samplerIndex"@, decimal_text(shape.sampler_index as nat));
    let b5 = field_text("samplerBinding"@, decimal_text(shape.sampler_binding as nat));
    let b6 = field_text(
        "remappedSamplerBinding"@,
        decimal_text(shape.remapped_sampler_binding as nat),
    );
    let b7 = field_text("shaderSamplerResourceKind"@, shape.sampler_kind@);
    let b8 = field_text("samplerDescriptorType"@, shape.sampler_descriptor@);
    lemma_append(Seq::empty(), a1);
    assert(Seq::empty() + a1 =~= a1);
    lemma_append(a1, b2);
    lemma_append(a1 + b2, b3);
    lemma_append(a1 + b2 + b3, b4);
    lemma_append(a1 + b2 + b3 + b4, b5);
    lemma_append(a1 + b2 + b3 + b4 + b5, b6);
    lemma_append(a1 + b2 + b3 + b4 + b5 + b6, b7);
    lemma_append(a1 + b2 + b3 + b4 + b5 + b6 + b7, b8);
}

/// The textures that are there are those before the first that is not.
pub proof fn law_slots_are_there_up_to_the_first_gap(slots: Seq<TextureSlot>)
    ensures
        slots_there(slots) <= slots.len(),
        forall|i: int| 0 <= i < slots_there(slots) ==> (#[trigger] slots[i]).texture is Some,
        slots_there(slots) < slots.len() ==> slots[slots_there(slots) as int].texture is None,
    decreases slots.len(),
{
    if slots.len() > 0 && slots[0].texture is Some {
        let rest = slots.drop_first();
        law_slots_are_there_up_to_the_first_gap(rest);
        assert forall|i: int| 0 <= i < slots_there(slots) implies (
        #[trigger] slots[i]).texture is Some by {
            if i > 0 {
                assert(rest[i - 1] == slots[i]);
            }
        }
        if slots_there(slots) < slots.len() {
            assert(rest[slots_there(rest) as int] == slots[slots_there(slots) as int]);
        }
    }
}

/// After a packet, every video texture that it binds before its first empty slot has been
/// reported with its shader, slot, texture and sampler; what is new is of such a texture,
/// and was not reported before.
pub proof fn law_video_textures_are_reported(
    reported: Seq<ShapeKey>,
    shader_index: usize,
    slots: Seq<TextureSlot>,
    texture_keys: Seq<u64>,
    n: nat,
)
    requires
        n <= slots.len() <= usize::MAX,
    ensures
        ({
            let added = new_keys(reported, shader_index, slots, texture_keys, n);
            &&& forall|i: int|
                0 <= i < n && slots[i].texture is Some && slots[i].texture->0.ycbcr
                    && slots[i].texture->0.sampler is Some ==> (reported + added).contains(
                    #[trigger] shape_key(shader_index, slots, texture_keys, i),
                )
            &&& forall|k: int|
                0 <= k < added.len() ==> {
                    let key = #[trigger] added[k];
                    &&& key.slot < n
                    &&& slots[key.slot as int].texture is Some
                    &&& slots[key.slot as int].texture->0.ycbcr
                    &&& slots[key.slot as int].texture->0.sampler is Some
                    &&& key.shader_index == shader_index
                    &&& key.texture_key == texture_keys[key.slot as int]
                    &&& key.sampler_index == slots[key.slot as int].sampler_index
                    &&& !reported.contains(key)
                }
            &&& forall|k: int, l: int|
                0 <= k < l < added.len() ==> (#[trigger] added[k]).slot < (
                #[trigger] added[l]).slot
        }),
    decreases n,
{
    if n > 0 {
        let m = (n - 1) as nat;
        law_video_textures_are_reported(reported, shader_index, slots, texture_keys, m);
        let before = new_keys(reported, shader_index, slots, texture_keys, m);
        let added = new_keys(reported, shader_index, slots, texture_keys, n);
        let key = shape_key(shader_index, slots, texture_keys, n - 1);
        if reported.contains(key) {
            let at = choose|at: int| 0 <= at < reported.len() && reported[at] == key;
            assert((reported + before)[at] == key);
        }
        assert forall|i: int|
            0 <= i < n && slots[i].texture is Some && slots[i].texture->0.ycbcr
                && slots[i].texture->0.sampler is Some implies (reported + added).contains(
            #[trigger] shape_key(shader_index, slots, texture_keys, i),
        ) by {
            let own = shape_key(shader_index, slots, texture_keys, i);
            if i < m {
                assert((reported + before).contains(own));
                let at = choose|at: int|
                    0 <= at < (reported + before).len() && (reported + before)[at] == own;
                assert((reported + added)[at] == own);
            } else if (reported + before).contains(key) {
                assert(added == before);
            } else {
                assert((reported + added)[(reported.len() + before.len()) as int] == key);
            }
        }
    }
}

/// The video slots are exactly those of textures that are videos, in their order.
pub proof fn law_video_slots_are_those_of_videos(textures: Seq<TextureDeclaration>, n: nat)
    requires
        n <= textures.len() <= usize::MAX,
    ensures
        forall|i: int|
            0 <= i < n && (#[trigger] textures[i]).is_video ==> video_slots(
                textures,
                n,
            ).contains(i as usize),
        forall|k: int|
            0 <= k < video_slots(textures, n).len() ==> {
                let slot = #[trigger] video_slots(textures, n)[k];
                slot < n && textures[slot as int].is_video
            },
        forall|k: int, l: int|
            0 <= k < l < video_slots(textures, n).len() ==> #[trigger] video_slots(
                textures,
                n,
            )[k] < #[trigger] video_slots(textures, n)[l],
    decreases n,
{
    if n > 0 {
        let m = (n - 1) as nat;
        law_video_slots_are_those_of_videos(textures, m);
        let before = video_slots(textures, m);
        let after = video_slots(textures, n);
        assert forall|i: int| 0 <= i < n && (#[trigger] textures[i]).is_video implies after.contains(
            i as usize,
        ) by {
            if i < m {
                let k = choose|k: int| 0 <= k < before.len() && before[k] == i as usize;
                assert(after[k] == i as usize);
            } else {
                assert(after[after.len() - 1] == i as usize);
            }
        }
    }
}

/// A texture is bound at the place of its slot and its sampler at that of its number; one
/// that holds its sampler has the descriptor of both at once, at both, and a sampler is
/// moved exactly where a remap for the texture's place says so.
pub proof fn law_shapes_say_where_textures_are_bound(
    shape: DescriptorShape,
    shader: ShaderBindings,
    slot: usize,
    sampler_index: usize,
    combined: bool,
)
    requires
        is_shape(shape, shader, slot, sampler_index, combined),
    ensures
        shape.texture_binding - shader.texture_base == slot,
        shape.sampler_binding - shader.sampler_base == sampler_index,
        shape.slot == slot && shape.sampler_index == sampler_index,
        shape.combined == combined,
        shape.texture_kind@ == kind_name(shader.interface@, shape.texture_binding),
        combined ==> shape.sampler_kind@ == "remapped-sampler-same-binding"@,
        !combined ==> shape.sampler_kind@ == kind_name(shader.interface@, shape.sampler_binding),
        combined ==> shape.combined && shape.texture_descriptor@ == "COMBINED_IMAGE_SAMPLER"@
            && shape.sampler_descriptor@ == "COMBINED_IMAGE_SAMPLER"@,
        shape.remapped_sampler_binding != shape.sampler_binding ==> exists|i: int|
            0 <= i < shader.remaps@.len() && (#[trigger] shader.remaps@[i]).texture_binding
                == shape.texture_binding && shader.remaps@[i].sampler_binding
                == shape.remapped_sampler_binding,
        (forall|i: int|
            0 <= i < shader.remaps@.len() ==> (#[trigger] shader.remaps@[i]).texture_binding
                != shape.texture_binding) ==> shape.remapped_sampler_binding
            == shape.sampler_binding,
{
    law_found_remap_is_for_the_binding(shader.remaps@, shader.texture_base + slot);
}

/// The number of a sampler is the one at its slot, or the first where there is none.
pub proof fn law_slots_have_their_sampler(sampler_indices: Seq<usize>, slot: int)
    requires
        0 <= slot,
    ensures
        slot < sampler_indices.len() ==> slot_sampler(sampler_indices, slot)
            == sampler_indices[slot],
        slot >= sampler_indices.len() ==> slot_sampler(sampler_indices, slot) == 0,
{
}

proof fn lemma_append_named(a: Seq<char>, name: Seq<char>, value: Seq<char>)
    ensures
        tells(a + name + value, name + value),
        forall|part: Seq<char>|
            tells(a, part) ==> #[trigger] tells(a + name + value, part),
{
    let text = a + name + value;
    assert(text =~= a + (name + value));
    lemma_append(a, name + value);
}

/// The report of a mismatch holds each of the counts behind its name.
pub proof fn law_mismatch_holds_its_counts(
    shader_index: usize,
    shader_geometry: usize,
    mapping_geometry: usize,
    shader_instance: usize,
    mapping_instance: usize,
)
    ensures
        ({
            let text = slot_mismatch_text(
                shader_index,
                shader_geometry,
                mapping_geometry,
                shader_instance,
                mapping_instance,
            );
            &&& tells(
                text,
                "Android Vulkan slot mismatch: shader="@ + decimal_text(shader_index as nat),
            )
            &&& tells(text, ", wgsl_geom_slots="@ + decimal_text(shader_geometry as nat))
            &&& tells(text, ", map_geom_slots="@ + decimal_text(mapping_geometry as nat))
            &&& tells(text, ", wgsl_inst_slots="@ + decimal_text(shader_instance as nat))
            &&& tells(text, ", map_inst_slots="@ + decimal_text(mapping_instance as nat))
        }),
{
    let a1 = "Android Vulkan slot mismatch: shader="@ + decimal_text(shader_index as nat);
    let a2 = a1 + ", wgsl_geom_slots="@ + decimal_text(shader_geometry as nat);
    let a3 = a2 + ", map_geom_slots="@ + decimal_text(mapping_geometry as nat);
    let a4 = a3 + ", wgsl_inst_slots="@ + decimal_text(shader_instance as nat);
    lemma_append(Seq::empty(), a1);
    assert(Seq::empty() + a1 =~= a1);
    lemma_append_named(a1, ", wgsl_geom_slots="@, decimal_text(shader_geometry as nat));
    lemma_append_named(a2, ", map_geom_slots="@, decimal_text(mapping_geometry as nat));
    lemma_append_named(a3, ", wgsl_inst_slots="@, decimal_text(shader_instance as nat));
    lemma_append_named(a4, ", map_inst_slots="@, decimal_text(mapping_instance as nat));
}

/// The report of how a shader binds a texture holds its numbers, all that is said of the
/// texture, and whether it and its sampler are one, with the way in which it is sampled.
pub proof fn law_interface_report_holds_its_values(
    shape: DescriptorShape,
    shader_index: usize,
    shader_variant: usize,
)
    ensures
        ({
            let text = shape.interface_text(shader_index, shader_variant);
            let expected = if shape.combined {
                "true"@
            } else {
                "false"@
            };
            &&& tells(text, field_text("shaderIndex"@, decimal_text(shader_index as nat)))
            &&& tells(text, field_text("shaderVariant"@, decimal_text(shader_variant as nat)))
            &&& tells(text, field_text("slot"@, decimal_text(shape.slot as nat)))
            &&& tells(text, shape.texture_text())
            &&& tells(text, field_text("combinedImageSamplerExpected"@, expected))
            &&& tells(text, field_text("immutableSamplerExpected"@, expected))
            &&& tells(text, shape.mode_text())
            &&& tells(text, shape.sampling_text())
        }),
{
    let a = "RUSTY_XR_MAKEPAD_VULKAN_VIDEO_SHADER_INTERFACE schema=rusty.xr.makepad-vulkan-video-shader-interface.v1"@;
    let a1 = a + field_text("shaderIndex"@, decimal_text(shader_index as nat));
    let a2 = a1 + field_text("shaderVariant"@, decimal_text(shader_variant as nat));
    let a3 = a2 + field_text("slot"@, decimal_text(shape.slot as nat));
    let a4 = a3 + shape.texture_text();
    let a5 = a4 + field_text("combinedImageSamplerExpected"@, truth_text(shape.combined));
    let a6 = a5 + field_text("immutableSamplerExpected"@, truth_text(shape.combined));
    let a7 = a6 + shape.mode_text();
    let a8 = a7 + field_text("wgslTextureType"@, "texture_2d_f32"@);
    lemma_append(a, field_text("shaderIndex"@, decimal_text(shader_index as nat)));
    lemma_append(a1, field_text("shaderVariant"@, decimal_text(shader_variant as nat)));
    lemma_append(a2, field_text("slot"@, decimal_text(shape.slot as nat)));
    lemma_append(a3, shape.texture_text());
    lemma_append(a4, field_text("combinedImageSamplerExpected"@, truth_text(shape.combined)));
    lemma_append(a5, field_text("immutableSamplerExpected"@, truth_text(shape.combined)));
    lemma_append(a6, shape.mode_text());
    lemma_append(a7, field_text("wgslTextureType"@, "texture_2d_f32"@));
    lemma_append(a8, shape.sampling_text());
}

/// A texture that is one with its sampler is said to be bound and sampled so, and another
/// is said to be bound and sampled apart.
pub proof fn law_modes_follow_the_shape(shape: DescriptorShape)
    ensures
        shape.combined ==> shape.mode_text() == field_text(
            "samplerBindingMode"@,
            "combined-immutable-sampler"@,
        ) + field_text("samplerBindingCompliance"@, "pure-hwb-reference-combined-immutable"@),
        !shape.combined ==> shape.mode_text() == field_text(
            "samplerBindingMode"@,
            "separate-sampled-image-and-mutable-sampler"@,
        ) + field_text("samplerBindingCompliance"@, "diagnostic-not-combined-immutable"@),
        shape.combined ==> tells(
            shape.sampling_text(),
            field_text(
                "shaderSampleLowering"@,
                "textureSampleLevel_combined_image_sampler_same_binding"@,
            ),
        ),
        !shape.combined ==> tells(
            shape.sampling_text(),
            field_text("shaderSampleLowering"@, "textureSampleLevel_separate_texture_sampler"@),
        ),
{
    let first = field_text("shaderSampleLowering"@, sample_lowering(shape.combined));
    let rest = field_text(
        "colorFixAttempt"@,
        "hwb-external-combined-immutable-v4-default-sampler-remap"@,
    );
    lemma_append(Seq::empty(), first);
    assert(Seq::empty() + first =~= first);
    lemma_append(first, rest);
}

/// The report of a bound texture holds its key, all that is said of its shape, and the
/// model, range and mode of its conversion where they are known.
pub proof fn law_shape_report_holds_its_values(
    reported: ReportedShape,
    texture_type: Seq<char>,
    metadata: Option<VideoTextureYcbcrConversionMetadata>,
)
    ensures
        ({
            let text = reported.report_text(texture_type, metadata);
            let combined = if reported.shape.combined {
                "true"@
            } else {
                "false"@
            };
            let apart = if reported.shape.combined {
                "false"@
            } else {
                "true"@
            };
            &&& tells(
                text,
                field_text("shaderIndex"@, decimal_text(reported.key.shader_index as nat)),
            )
            &&& tells(text, field_text("slot"@, decimal_text(reported.key.slot as nat)))
            &&& tells(
                text,
                field_text("textureKey"@, decimal_text(reported.key.texture_key as nat)),
            )
            &&& tells(text, field_text("textureType"@, texture_type))
            &&& tells(text, reported.shape.texture_text())
            &&& tells(text, field_text("resourceSamplerOverride"@, apart))
            &&& tells(text, field_text("combinedImageSampler"@, combined))
            &&& tells(text, field_text("immutableSampler"@, combined))
            &&& tells(text, reported.shape.mode_text())
            &&& metadata is Some ==> tells(
                text,
                field_text("effectiveYcbcrModel"@, metadata->0.effective_model@),
            ) && tells(text, field_text("effectiveYcbcrRange"@, metadata->0.effective_range@))
                && tells(text, field_text("conversionMode"@, metadata->0.conversion_mode@))
            &&& metadata is None ==> tells(
                text,
                field_text("effectiveYcbcrModel"@, "unspecified"@),
            ) && tells(text, field_text("effectiveYcbcrRange"@, "unspecified"@)) && tells(
                text,
                field_text("conversionMode"@, "unspecified"@),
            )
            &&& tells(text, reported.shape.sampling_text())
        }),
{
    let shape = reported.shape;
    let model = match metadata {
        Some(metadata) => metadata.effective_model@,
        None => "unspecified"@,
    };
    let range = match metadata {
        Some(metadata) => metadata.effective_range@,
        None => "unspecified"@,
    };
    let mode = match metadata {
        Some(metadata) => metadata.conversion_mode@,
        None => "unspecified"@,
    };
    let a = "RUSTY_XR_MAKEPAD_VULKAN_VIDEO_DESCRIPTOR_SHAPE schema=rusty.xr.makepad-vulkan-video-descriptor-shape.v1"@;
    let b1 = field_text("shaderIndex"@, decimal_text(reported.key.shader_index as nat));
    let b2 = field_text("slot"@, decimal_text(reported.key.slot as nat));
    let b3 = field_text("textureKey"@, decimal_text(reported.key.texture_key as nat));
    let b4 = field_text("textureType"@, texture_type);
    let b6 = field_text("resourceSamplerOverride"@, truth_text(!shape.combined));
    let b7 = field_text("samplerYcbcrConversion"@, "true"@);
    let b8 = field_text("combinedImageSampler"@, truth_text(shape.combined));
    let b9 = field_text("immutableSampler"@, truth_text(shape.combined));
    let c1 = field_text("effectiveYcbcrModel"@, model);
    let c2 = field_text("effectiveYcbcrRange"@, range);
    let c3 = field_text("conversionMode"@, mode);
    let a1 = a + b1;
    let a4 = a1 + b2 + b3 + b4;
    let a5 = a4 + shape.texture_text();
    let a9 = a5 + b6 + b7 + b8 + b9;
    let e = a9 + shape.mode_text();
    lemma_append(a, b1);
    lemma_append(a1, b2);
    lemma_append(a1 + b2, b3);
    lemma_append(a1 + b2 + b3, b4);
    lemma_append(a4, shape.texture_text());
    lemma_append(a5, b6);
    lemma_append(a5 + b6, b7);
    lemma_append(a5 + b6 + b7, b8);
    lemma_append(a5 + b6 + b7 + b8, b9);
    lemma_append(a9, shape.mode_text());
    lemma_append(e, c1);
    lemma_append(e + c1, c2);
    lemma_append(e + c1 + c2, c3);
    lemma_append(e + c1 + c2 + c3, shape.sampling_text());
}

} // verus!
