//! What tells pipelines apart.

use vstd::prelude::*;

use crate::text::decimal;
#[allow(unused_imports)]
use crate::text::decimal_text;
use crate::vulkan::draw_packet::{lookup_remap, ShaderBindings, TextureSlot};
#[allow(unused_imports)]
use crate::vulkan::draw_packet::combined_remap;
use crate::vulkan::render_pass::VulkanRenderPassKey;
#[allow(unused_imports)]
use crate::vulkan::render_pass::same_key;

verus! {

/// A video texture's binding and the sampler that is built into it.
#[derive(Clone, Copy, PartialEq, Eq, Structural, Debug)]
pub struct VulkanVideoCombinedImmutableSamplerKey {
    pub texture_binding: u32,
    pub sampler: u64,
}

/// What tells a pipeline from the others.
pub struct VulkanPipelineKey {
    pub shader_index: usize,
    pub shader_variant: usize,
    pub render_pass: VulkanRenderPassKey,
    pub alpha_blend: bool,
    pub backface_culling: bool,
    pub video_combined_immutable_samplers: Vec<VulkanVideoCombinedImmutableSamplerKey>,
}

/// Two keys ask for the same pipeline.
pub open spec fn same_pipeline(a: VulkanPipelineKey, b: VulkanPipelineKey) -> bool {
    &&& a.shader_index == b.shader_index
    &&& a.shader_variant == b.shader_variant
    &&& same_key(a.render_pass, b.render_pass)
    &&& a.alpha_blend == b.alpha_blend
    &&& a.backface_culling == b.backface_culling
    &&& a.video_combined_immutable_samplers@ =~= b.video_combined_immutable_samplers@
}

/// By binding, then by sampler.
pub open spec fn sampler_before(
    a: VulkanVideoCombinedImmutableSamplerKey,
    b: VulkanVideoCombinedImmutableSamplerKey,
) -> bool {
    a.texture_binding < b.texture_binding || (a.texture_binding == b.texture_binding && a.sampler
        < b.sampler)
}

/// In order, and nothing twice.
pub open spec fn samplers_sorted(list: Seq<VulkanVideoCombinedImmutableSamplerKey>) -> bool {
    forall|i: int, j: int|
        0 <= i < j < list.len() ==> sampler_before(#[trigger] list[i], #[trigger] list[j])
}

/// Both lists hold the same samplers.
pub open spec fn same_samplers(
    a: Seq<VulkanVideoCombinedImmutableSamplerKey>,
    b: Seq<VulkanVideoCombinedImmutableSamplerKey>,
) -> bool {
    forall|entry: VulkanVideoCombinedImmutableSamplerKey|
        #[trigger] a.contains(entry) == b.contains(entry)
}

/// Puts the samplers of a key in order, each of them once.
pub fn pipeline_video_sampler_key(samplers: &Vec<VulkanVideoCombinedImmutableSamplerKey>) -> (key:
    Vec<VulkanVideoCombinedImmutableSamplerKey>)
    ensures
        samplers_sorted(key@),
        same_samplers(key@, samplers@),
{
    let mut key: Vec<VulkanVideoCombinedImmutableSamplerKey> = Vec::new();
    let mut i: usize = 0;
    while i < samplers.len()
        invariant
            i <= samplers@.len(),
            key@.len() <= i,
            samplers_sorted(key@),
            same_samplers(key@, samplers@.take(i as int)),
        decreases samplers@.len() - i,
    {
        let entry: VulkanVideoCombinedImmutableSamplerKey = samplers[i];
        let ghost before = key@;
        let ghost seen = samplers@.take(i as int);
        let mut place: usize = 0;
        while place < key.len() && (key[place].texture_binding < entry.texture_binding || (
        key[place].texture_binding == entry.texture_binding && key[place].sampler < entry.sampler))
            invariant
                place <= key@.len(),
                key@ == before,
                forall|k: int| 0 <= k < place ==> sampler_before(#[trigger] before[k], entry),
            decreases key@.len() - place,
        {
            place = place + 1;
        }
        let taken: bool = place < key.len() && key[place].texture_binding == entry.texture_binding
            && key[place].sampler == entry.sampler;
        if !taken {
            key.insert(place, entry);
        }
        proof {
            assert(samplers@.take(i + 1) =~= seen.push(entry));
            lemma_sampler_step(before, seen, entry, place as int, taken);
            assert(key@ =~= (if taken {
                before
            } else {
                before.insert(place as int, entry)
            }));
        }
        i = i + 1;
    }
    assert(samplers@.take(i as int) =~= samplers@);
    key
}

proof fn lemma_sampler_step(
    before: Seq<VulkanVideoCombinedImmutableSamplerKey>,
    seen: Seq<VulkanVideoCombinedImmutableSamplerKey>,
    entry: VulkanVideoCombinedImmutableSamplerKey,
    place: int,
    taken: bool,
)
    requires
        samplers_sorted(before),
        same_samplers(before, seen),
        0 <= place <= before.len(),
        forall|k: int| 0 <= k < place ==> sampler_before(#[trigger] before[k], entry),
        place < before.len() ==> !sampler_before(before[place], entry),
        taken == (place < before.len() && before[place] == entry),
    ensures
        ({
            let after = if taken {
                before
            } else {
                before.insert(place, entry)
            };
            &&& samplers_sorted(after)
            &&& same_samplers(after, seen.push(entry))
        }),
{
    let after = if taken {
        before
    } else {
        before.insert(place, entry)
    };
    let now = seen.push(entry);
    if !taken {
        assert forall|k: int| place <= k < before.len() implies sampler_before(
            entry,
            #[trigger] before[k],
        ) by {
            if k > place {
                assert(sampler_before(before[place], before[k]));
            }
        }
    }
    assert forall|x: VulkanVideoCombinedImmutableSamplerKey| #[trigger]
        after.contains(x) == now.contains(x) by {
        assert(before.contains(x) == seen.contains(x));
        if after.contains(x) {
            let k = choose|k: int| 0 <= k < after.len() && after[k] == x;
            if taken || k < place {
                assert(before[k] == x);
            } else if k > place {
                assert(before[k - 1] == x);
            }
            if x == entry {
                assert(now[seen.len() as int] == x);
            } else {
                assert(seen.contains(x));
                let i = choose|i: int| 0 <= i < seen.len() && seen[i] == x;
                assert(now[i] == x);
            }
        }
        if now.contains(x) {
            let i = choose|i: int| 0 <= i < now.len() && now[i] == x;
            if i < seen.len() {
                assert(seen[i] == x);
                assert(before.contains(x));
                let k = choose|k: int| 0 <= k < before.len() && before[k] == x;
                if taken || k < place {
                    assert(after[k] == x);
                } else {
                    assert(after[k + 1] == x);
                }
            } else {
                assert(after[place] == x);
            }
        }
    }
}

/// The order of samplers is determined by which samplers there are.
pub proof fn law_sampler_key_ignores_order(
    a: Seq<VulkanVideoCombinedImmutableSamplerKey>,
    b: Seq<VulkanVideoCombinedImmutableSamplerKey>,
)
    requires
        samplers_sorted(a),
        samplers_sorted(b),
        same_samplers(a, b),
    ensures
        a == b,
    decreases a.len(),
{
    if a.len() == 0 {
        if b.len() > 0 {
            assert(b.contains(b[0]));
            assert(a.contains(b[0]));
        }
        assert(a =~= b);
    } else {
        let x = a.last();
        assert(a.contains(x));
        assert(b.contains(x));
        let k = choose|k: int| 0 <= k < b.len() && b[k] == x;
        let y = b.last();
        assert(b.contains(y));
        assert(a.contains(y));
        let m = choose|m: int| 0 <= m < a.len() && a[m] == y;
        if k != b.len() - 1 {
            assert(sampler_before(b[k], b[b.len() - 1]));
            assert(m == a.len() - 1 || sampler_before(a[m], a[a.len() - 1]));
        }
        assert(x == y);
        let a1 = a.drop_last();
        let b1 = b.drop_last();
        assert forall|e: VulkanVideoCombinedImmutableSamplerKey| #[trigger]
            a1.contains(e) == b1.contains(e) by {
            assert(a.contains(e) == b.contains(e));
            if a1.contains(e) {
                let i = choose|i: int| 0 <= i < a1.len() && a1[i] == e;
                assert(a[i] == e);
                assert(sampler_before(a[i], a[a.len() - 1]));
                let j = choose|j: int| 0 <= j < b.len() && b[j] == e;
                assert(b1[j] == e);
            }
            if b1.contains(e) {
                let i = choose|i: int| 0 <= i < b1.len() && b1[i] == e;
                assert(b[i] == e);
                assert(sampler_before(b[i], b[b.len() - 1]));
                let j = choose|j: int| 0 <= j < a.len() && a[j] == e;
                assert(a1[j] == e);
            }
        }
        law_sampler_key_ignores_order(a1, b1);
        assert(a =~= a1.push(x));
        assert(b =~= b1.push(y));
    }
}

/// The samplers that the video textures of the first `n` slots bring, in the order of
/// the slots.
pub open spec fn video_samplers(
    shader: ShaderBindings,
    slots: Seq<TextureSlot>,
    n: int,
) -> Seq<VulkanVideoCombinedImmutableSamplerKey>
    decreases n,
{
    if n <= 0 {
        seq![]
    } else {
        let before = video_samplers(shader, slots, n - 1);
        if combined_remap(shader, slots, n - 1) is Some {
            before.push(
                VulkanVideoCombinedImmutableSamplerKey {
                    texture_binding: (shader.texture_base + n - 1) as u32,
                    sampler: slots[n - 1].texture->0.sampler->0,
                },
            )
        } else {
            before
        }
    }
}

/// Where each sampler of `video_samplers` comes from.
pub proof fn lemma_video_samplers(shader: ShaderBindings, slots: Seq<TextureSlot>, n: int)
    requires
        0 <= n <= slots.len(),
        shader.texture_base + slots.len() <= u32::MAX,
    ensures
        samplers_sorted(video_samplers(shader, slots, n)),
        forall|k: int|
            0 <= k < video_samplers(shader, slots, n).len() ==> shader.texture_base <= (
            #[trigger] video_samplers(shader, slots, n)[k]).texture_binding < shader.texture_base
                + n,
    decreases n,
{
    if n > 0 {
        lemma_video_samplers(shader, slots, n - 1);
    }
}

/// The message for a shader that lacks something.
pub open spec fn shader_missing_text(shader_index: usize, what: Seq<char>) -> Seq<char> {
    "shader "@ + decimal_text(shader_index as nat) + " missing "@ + what
}

/// Builds the message for a shader that lacks something.
pub fn shader_missing(shader_index: usize, what: &str) -> (message: String)
    ensures
        message@ == shader_missing_text(shader_index, what@),
{
    let mut message: String = "shader ".to_owned();
    let index: String = decimal(shader_index as u64);
    message.append(index.as_str());
    message.append(" missing ");
    message.append(what);
    message
}

/// Collects the samplers that are built into the pipeline of a packet. `shader` is
/// nothing where the shader has no Vulkan binary.
pub fn collect_packet_video_combined_immutable_samplers(
    shader_index: usize,
    has_os_shader: bool,
    shader: Option<&ShaderBindings>,
    slots: &Vec<TextureSlot>,
) -> (result: Result<Vec<VulkanVideoCombinedImmutableSamplerKey>, String>)
    requires
        shader matches Some(shader) ==> shader.texture_base + slots@.len() <= u32::MAX,
    ensures
        if !has_os_shader {
            result matches Err(message) && message@ == shader_missing_text(
                shader_index,
                "os_shader_id"@,
            )
        } else {
            match shader {
                None => result matches Err(message) && message@ == shader_missing_text(
                    shader_index,
                    "Vulkan binary"@,
                ),
                Some(shader) => result matches Ok(samplers) && samplers@ == video_samplers(
                    *shader,
                    slots@,
                    slots@.len() as int,
                ),
            }
        },
{
    if !has_os_shader {
        return Err(shader_missing(shader_index, "os_shader_id"));
    }
    match shader {
        None => Err(shader_missing(shader_index, "Vulkan binary")),
        Some(shader) => {
            let mut samplers: Vec<VulkanVideoCombinedImmutableSamplerKey> = Vec::new();
            let mut i: usize = 0;
            while i < slots.len()
                invariant
                    i <= slots@.len(),
                    shader.texture_base + slots@.len() <= u32::MAX,
                    samplers@ == video_samplers(*shader, slots@, i as int),
                decreases slots@.len() - i,
            {
                let binding: u32 = shader.texture_base + i as u32;
                match slots[i].texture {
                    Some(texture) => {
                        if texture.ycbcr && lookup_remap(&shader.remaps, binding).is_some() {
                            match texture.sampler {
                                Some(sampler) => {
                                    samplers.push(
                                        VulkanVideoCombinedImmutableSamplerKey {
                                            texture_binding: binding,
                                            sampler,
                                        },
                                    );
                                },
                                None => {},
                            }
                        }
                    },
                    None => {},
                }
                i = i + 1;
            }
            let key: Vec<VulkanVideoCombinedImmutableSamplerKey> = pipeline_video_sampler_key(
                &samplers,
            );
            proof {
                lemma_video_samplers(*shader, slots@, slots@.len() as int);
                law_sampler_key_ignores_order(key@, samplers@);
            }
            Ok(key)
        },
    }
}

fn same_sampler_lists(
    a: &Vec<VulkanVideoCombinedImmutableSamplerKey>,
    b: &Vec<VulkanVideoCombinedImmutableSamplerKey>,
) -> (same: bool)
    ensures
        same == (a@ =~= b@),
{
    if a.len() != b.len() {
        return false;
    }
    let mut i: usize = 0;
    while i < a.len()
        invariant
            i <= a@.len(),
            a@.len() == b@.len(),
            forall|j: int| 0 <= j < i ==> a@[j] == b@[j],
        decreases a@.len() - i,
    {
        if a[i].texture_binding != b[i].texture_binding || a[i].sampler != b[i].sampler {
            assert(a@[i as int] != b@[i as int]);
            return false;
        }
        i = i + 1;
    }
    assert(a@ =~= b@);
    true
}

impl VulkanPipelineKey {
    /// Whether two keys ask for the same pipeline.
    pub fn same_as(&self, other: &VulkanPipelineKey) -> (same: bool)
        ensures
            same == same_pipeline(*self, *other),
    {
        self.shader_index == other.shader_index && self.shader_variant == other.shader_variant
            && self.render_pass.same_as(&other.render_pass) && self.alpha_blend
            == other.alpha_blend && self.backface_culling == other.backface_culling
            && same_sampler_lists(
            &self.video_combined_immutable_samplers,
            &other.video_combined_immutable_samplers,
        )
    }
}

/// Keys that ask for the same pipeline agree in every field, and a key that differs from
/// another in any one of them asks for another pipeline.
pub proof fn law_same_pipeline_has_same_fields(a: VulkanPipelineKey, b: VulkanPipelineKey)
    ensures
        same_pipeline(a, b) ==> a.shader_index == b.shader_index,
        same_pipeline(a, b) ==> a.shader_variant == b.shader_variant,
        same_pipeline(a, b) ==> a.render_pass.color_formats@ == b.render_pass.color_formats@,
        same_pipeline(a, b) ==> a.render_pass.depth_format == b.render_pass.depth_format,
        same_pipeline(a, b) ==> a.alpha_blend == b.alpha_blend,
        same_pipeline(a, b) ==> a.backface_culling == b.backface_culling,
        same_pipeline(a, b) ==> a.video_combined_immutable_samplers@
            == b.video_combined_immutable_samplers@,
        same_pipeline(a, a),
        same_pipeline(a, b) == same_pipeline(b, a),
{
}

/// The samplers that a packet builds in are those of the video textures that are sampled
/// through a combined binding, each at the binding of its slot.
pub proof fn law_built_in_samplers_are_those_of_video(
    shader: ShaderBindings,
    slots: Seq<TextureSlot>,
    n: int,
    slot: int,
)
    requires
        0 <= slot < n <= slots.len(),
        shader.texture_base + slots.len() <= u32::MAX,
    ensures
        combined_remap(shader, slots, slot) is Some ==> video_samplers(shader, slots, n).contains(
            VulkanVideoCombinedImmutableSamplerKey {
                texture_binding: (shader.texture_base + slot) as u32,
                sampler: slots[slot].texture->0.sampler->0,
            },
        ),
        combined_remap(shader, slots, slot) is None ==> forall|k: int|
            0 <= k < video_samplers(shader, slots, n).len() ==> (
            #[trigger] video_samplers(shader, slots, n)[k]).texture_binding != shader.texture_base
                + slot,
    decreases n,
{
    let all = video_samplers(shader, slots, n);
    let before = video_samplers(shader, slots, n - 1);
    let entry = VulkanVideoCombinedImmutableSamplerKey {
        texture_binding: (shader.texture_base + slot) as u32,
        sampler: slots[slot].texture->0.sampler->0,
    };
    lemma_video_samplers(shader, slots, n - 1);
    if slot < n - 1 {
        law_built_in_samplers_are_those_of_video(shader, slots, n - 1, slot);
        if combined_remap(shader, slots, slot) is Some {
            let k = choose|k: int| 0 <= k < before.len() && before[k] == entry;
            assert(all[k] == entry);
        } else {
            assert forall|k: int| 0 <= k < all.len() implies (
            #[trigger] all[k]).texture_binding != shader.texture_base + slot by {
                if k < before.len() {
                    assert(all[k] == before[k]);
                }
            }
        }
    } else if combined_remap(shader, slots, slot) is Some {
        assert(all[all.len() - 1] == entry);
    } else {
        assert(all == before);
    }
}

/// Samplers are in order by their bindings first.
pub proof fn law_samplers_are_ordered_by_binding(
    a: VulkanVideoCombinedImmutableSamplerKey,
    b: VulkanVideoCombinedImmutableSamplerKey,
)
    ensures
        a.texture_binding < b.texture_binding ==> sampler_before(a, b),
        a.texture_binding == b.texture_binding && a.sampler < b.sampler ==> sampler_before(a, b),
        sampler_before(a, b) ==> !sampler_before(b, a),
        !sampler_before(a, a),
        sampler_before(a, b) || sampler_before(b, a) || a == b,
{
}

/// A shader that lacks something is named by its number, before what it lacks.
pub proof fn law_incomplete_shaders_are_named(shader_index: usize, what: Seq<char>)
    ensures
        ({
            let text = shader_missing_text(shader_index, what);
            let start = "shader "@ + decimal_text(shader_index as nat);
            &&& text.len() >= start.len() + what.len()
            &&& text.take(start.len() as int) == start
            &&& text.skip(text.len() - what.len()) == what
        }),
{
    let text = shader_missing_text(shader_index, what);
    let start = "shader "@ + decimal_text(shader_index as nat);
    assert(text.take(start.len() as int) =~= start);
    assert(text.skip(text.len() - what.len()) =~= what);
}

} // verus!
