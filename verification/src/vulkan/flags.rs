//! Sets of Vulkan flags.

use ash::vk;
use vstd::prelude::*;

verus! {

/// Every flag of `wanted` is in `available`.
pub open spec fn has_flags(available: u32, wanted: u32) -> bool {
    available & wanted == wanted
}

/// `vk::QueueFlags::contains`: every bit of `wanted` is set in `available`.
#[verifier::external_body]
pub(crate) fn queue_flags_contain(available: u32, wanted: u32) -> (contained: bool)
    ensures
        contained == has_flags(available, wanted),
{
    vk::QueueFlags::from_raw(available).contains(vk::QueueFlags::from_raw(wanted))
}

/// `vk::ImageUsageFlags::contains`: every bit of `wanted` is set in `available`.
#[verifier::external_body]
pub(crate) fn image_usage_contains(available: u32, wanted: u32) -> (contained: bool)
    ensures
        contained == has_flags(available, wanted),
{
    vk::ImageUsageFlags::from_raw(available).contains(vk::ImageUsageFlags::from_raw(wanted))
}

/// `vk::SurfaceTransformFlagsKHR::contains`: every bit of `wanted` is set in
/// `available`.
#[verifier::external_body]
pub(crate) fn transforms_contain(available: u32, wanted: u32) -> (contained: bool)
    ensures
        contained == has_flags(available, wanted),
{
    vk::SurfaceTransformFlagsKHR::from_raw(available).contains(
        vk::SurfaceTransformFlagsKHR::from_raw(wanted),
    )
}

/// `vk::CompositeAlphaFlagsKHR::contains`: every bit of `wanted` is set in
/// `available`.
#[verifier::external_body]
pub(crate) fn composite_alpha_contains(available: u32, wanted: u32) -> (contained: bool)
    ensures
        contained == has_flags(available, wanted),
{
    vk::CompositeAlphaFlagsKHR::from_raw(available).contains(
        vk::CompositeAlphaFlagsKHR::from_raw(wanted),
    )
}

/// `vk::FormatFeatureFlags::contains`: every bit of `wanted` is set in `available`.
#[verifier::external_body]
pub(crate) fn format_features_contain(available: u32, wanted: u32) -> (contained: bool)
    ensures
        contained == has_flags(available, wanted),
{
    vk::FormatFeatureFlags::from_raw(available).contains(vk::FormatFeatureFlags::from_raw(wanted))
}

/// Flags are there exactly where adding them changes nothing: what has some flags has
/// fewer, all has itself, and nothing has only nothing.
pub proof fn law_flags_are_there_each(available: u32, wanted: u32, fewer: u32)
    requires
        has_flags(wanted, fewer),
    ensures
        has_flags(available, wanted) <==> available | wanted == available,
        has_flags(available, available),
        has_flags(available, wanted) ==> has_flags(available, fewer),
        has_flags(available, 0),
        wanted != 0 ==> !has_flags(0, wanted),
{
    assert(available & wanted == wanted <==> available | wanted == available) by (bit_vector);
    assert(available & available == available) by (bit_vector);
    assert(available & 0 == 0) by (bit_vector);
    assert(0 & wanted == 0) by (bit_vector);
    assert(wanted & fewer == fewer && available & wanted == wanted ==> available & fewer == fewer)
        by (bit_vector);
}

} // verus!
