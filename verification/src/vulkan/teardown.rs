//! In which order textures and samplers are given back.

use vstd::prelude::*;

use crate::vulkan::failure::subject_failed;
#[allow(unused_imports)]
use crate::vulkan::failure::subject_failed_text;

verus! {

/// A texture on the device, by a number of its own. One that does not own its image
/// looks at the image of another.
#[derive(Clone, Copy, PartialEq, Eq, Structural, Debug)]
pub struct TextureResource {
    pub id: u64,
    pub owns_image: bool,
}

/// All textures of a backend.
pub struct AllTextures {
    pub retired: Vec<TextureResource>,
    pub cached: Vec<TextureResource>,
    pub textures: Vec<TextureResource>,
    pub xr_depth_dummy: Option<TextureResource>,
    pub xr_depth_dummy_multiview: Option<TextureResource>,
}

/// The textures of a list that own their image, or those that do not.
pub open spec fn owners(list: Seq<TextureResource>, owns: bool) -> Seq<TextureResource>
    decreases list.len(),
{
    if list.len() == 0 {
        seq![]
    } else {
        let before = owners(list.drop_last(), owns);
        if list.last().owns_image == owns {
            before.push(list.last())
        } else {
            before
        }
    }
}

/// A texture, if there is one.
pub open spec fn optional_texture(texture: Option<TextureResource>) -> Seq<TextureResource> {
    match texture {
        Some(texture) => seq![texture],
        None => seq![],
    }
}

/// The textures in the order in which they are given back: those that were retired,
/// those that are cached, those in use with the ones first that only look at images of
/// others, and the two that stand for missing depth.
pub open spec fn teardown_order(all: AllTextures) -> Seq<TextureResource> {
    all.retired@ + all.cached@ + owners(all.textures@, false) + owners(all.textures@, true)
        + optional_texture(all.xr_depth_dummy) + optional_texture(all.xr_depth_dummy_multiview)
}

fn append_owners(order: &mut Vec<TextureResource>, list: &Vec<TextureResource>, owns: bool)
    ensures
        final(order)@ == old(order)@ + owners(list@, owns),
{
    let ghost start = order@;
    let mut i: usize = 0;
    assert(order@ =~= start + owners(list@.take(0), owns));
    while i < list.len()
        invariant
            i <= list@.len(),
            order@ == start + owners(list@.take(i as int), owns),
        decreases list@.len() - i,
    {
        proof {
            let next = list@.take(i + 1);
            assert(next.drop_last() =~= list@.take(i as int));
            assert(next.last() == list@[i as int]);
        }
        if list[i].owns_image == owns {
            order.push(list[i]);
        }
        i = i + 1;
        assert(order@ =~= start + owners(list@.take(i as int), owns));
    }
    assert(list@.take(i as int) =~= list@);
}

/// Gives all textures up, and lists them in the order in which they go back.
pub fn destroy_texture_resources(all: AllTextures) -> (order: Vec<TextureResource>)
    ensures
        order@ == teardown_order(all),
{
    let mut order: Vec<TextureResource> = all.retired;
    let mut cached: Vec<TextureResource> = all.cached;
    order.append(&mut cached);
    append_owners(&mut order, &all.textures, false);
    append_owners(&mut order, &all.textures, true);
    match all.xr_depth_dummy {
        Some(texture) => {
            order.push(texture);
        },
        None => {},
    }
    match all.xr_depth_dummy_multiview {
        Some(texture) => {
            order.push(texture);
        },
        None => {},
    }
    assert(order@ =~= teardown_order(all));
    order
}

proof fn lemma_owners(list: Seq<TextureResource>, owns: bool)
    ensures
        forall|i: int|
            0 <= i < owners(list, owns).len() ==> (#[trigger] owners(list, owns)[i]).owns_image
                == owns,
        owners(list, owns).len() <= list.len(),
    decreases list.len(),
{
    if list.len() > 0 {
        lemma_owners(list.drop_last(), owns);
    }
}

proof fn lemma_owners_split(list: Seq<TextureResource>)
    ensures
        (owners(list, false) + owners(list, true)).to_multiset() == list.to_multiset(),
    decreases list.len(),
{
    broadcast use vstd::seq_lib::group_to_multiset_ensures;

    let views = owners(list, false);
    let images = owners(list, true);
    if list.len() == 0 {
        assert(views + images =~= list);
    } else {
        let before = list.drop_last();
        lemma_owners_split(before);
        assert(list =~= before.push(list.last()));
        vstd::seq_lib::lemma_multiset_commutative(owners(before, false), owners(before, true));
        vstd::seq_lib::lemma_multiset_commutative(views, images);
        assert((views + images).to_multiset() =~= list.to_multiset());
    }
}

/// Of the textures in use, none that only looks at an image goes back after one that
/// owns its image.
pub proof fn law_views_go_before_images(list: Seq<TextureResource>, i: int, j: int)
    requires
        0 <= i < j < (owners(list, false) + owners(list, true)).len(),
    ensures
        ({
            let order = owners(list, false) + owners(list, true);
            order[i].owns_image ==> order[j].owns_image
        }),
{
    lemma_owners(list, false);
    lemma_owners(list, true);
}

/// Every texture goes back exactly once.
pub proof fn law_every_texture_goes_back_once(all: AllTextures)
    ensures
        teardown_order(all).to_multiset() == (all.retired@ + all.cached@ + all.textures@
            + optional_texture(all.xr_depth_dummy) + optional_texture(
            all.xr_depth_dummy_multiview,
        )).to_multiset(),
{
    let head = all.retired@ + all.cached@;
    let used = owners(all.textures@, false) + owners(all.textures@, true);
    let dummy = optional_texture(all.xr_depth_dummy);
    let both = optional_texture(all.xr_depth_dummy_multiview);
    lemma_owners_split(all.textures@);
    assert(teardown_order(all) =~= head + used + dummy + both);
    vstd::seq_lib::lemma_multiset_commutative(head, used);
    vstd::seq_lib::lemma_multiset_commutative(head, all.textures@);
    vstd::seq_lib::lemma_multiset_commutative(head + used, dummy);
    vstd::seq_lib::lemma_multiset_commutative(head + all.textures@, dummy);
    vstd::seq_lib::lemma_multiset_commutative(head + used + dummy, both);
    vstd::seq_lib::lemma_multiset_commutative(head + all.textures@ + dummy, both);
}

/// A sampler that converts colors.
#[derive(Clone, Copy, PartialEq, Eq, Structural, Debug)]
pub struct VulkanExternalYcbcrSampler {
    pub sampler: u64,
    pub conversion: u64,
}

/// A part of such a sampler that goes back.
#[derive(Clone, Copy, PartialEq, Eq, Structural, Debug)]
pub enum YcbcrRelease {
    Sampler(u64),
    Conversion(u64),
}

/// The parts of the first `n` samplers, each sampler before its conversion.
pub open spec fn ycbcr_releases(samplers: Seq<VulkanExternalYcbcrSampler>, n: int) -> Seq<
    YcbcrRelease,
>
    decreases n,
{
    if n <= 0 {
        seq![]
    } else {
        ycbcr_releases(samplers, n - 1).push(YcbcrRelease::Sampler(samplers[n - 1].sampler)).push(
            YcbcrRelease::Conversion(samplers[n - 1].conversion),
        )
    }
}

/// Gives the samplers up that convert colors.
pub fn destroy_external_ycbcr_samplers(samplers: Vec<VulkanExternalYcbcrSampler>) -> (releases: Vec<
    YcbcrRelease,
>)
    ensures
        releases@ == ycbcr_releases(samplers@, samplers@.len() as int),
{
    let mut releases: Vec<YcbcrRelease> = Vec::new();
    let mut i: usize = 0;
    while i < samplers.len()
        invariant
            i <= samplers@.len(),
            releases@ == ycbcr_releases(samplers@, i as int),
        decreases samplers@.len() - i,
    {
        releases.push(YcbcrRelease::Sampler(samplers[i].sampler));
        releases.push(YcbcrRelease::Conversion(samplers[i].conversion));
        i = i + 1;
    }
    releases
}

/// Takes what came of waiting for the frame of the window. Without a fence nothing is
/// waited for.
pub fn wait_for_window_frame_fence(fence: u64, waited: Result<(), i32>, reason: &str) -> (result:
    Result<(), String>)
    ensures
        match waited {
            Err(code) => if fence == 0 {
                result == Ok::<(), String>(())
            } else {
                result matches Err(message) && message@ == subject_failed_text(
                    "wait_for_fences"@,
                    reason@,
                    code,
                )
            },
            Ok(_) => result == Ok::<(), String>(()),
        },
{
    if fence == 0 {
        return Ok(());
    }
    match waited {
        Ok(_) => Ok(()),
        Err(code) => Err(subject_failed("wait_for_fences", reason, code)),
    }
}

/// Every sampler goes back, and its conversion right behind it.
pub proof fn law_every_conversion_follows_its_sampler(
    samplers: Seq<VulkanExternalYcbcrSampler>,
    n: int,
    i: int,
)
    requires
        0 <= i < n <= samplers.len(),
    ensures
        ycbcr_releases(samplers, n).len() == 2 * n,
        ycbcr_releases(samplers, n)[2 * i] == YcbcrRelease::Sampler(samplers[i].sampler),
        ycbcr_releases(samplers, n)[2 * i + 1] == YcbcrRelease::Conversion(samplers[i].conversion),
    decreases n,
{
    if n > 1 {
        if i < n - 1 {
            law_every_conversion_follows_its_sampler(samplers, n - 1, i);
        } else {
            law_every_conversion_follows_its_sampler(samplers, n - 1, 0);
        }
    } else {
        assert(ycbcr_releases(samplers, 0) =~= seq![]);
    }
}

} // verus!
