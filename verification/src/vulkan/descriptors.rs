//! Descriptor types of shader resources.

use vstd::prelude::*;

use crate::vulkan::codes::{
    DESCRIPTOR_COMBINED_IMAGE_SAMPLER, DESCRIPTOR_SAMPLED_IMAGE, DESCRIPTOR_SAMPLER,
    DESCRIPTOR_STORAGE_BUFFER, DESCRIPTOR_STORAGE_IMAGE, DESCRIPTOR_UNIFORM_BUFFER,
};

verus! {

/// What a shader binds.
#[derive(Clone, Copy, PartialEq, Eq, Structural, Debug)]
pub enum CxVulkanShaderDescriptorKind {
    UniformBuffer,
    StorageBuffer,
    SampledImage,
    DepthImage,
    ExternalImage,
    StorageImage,
    Sampler,
    ComparisonSampler,
    OtherHandle,
}

/// A binding that a shader declares. `name` is the stable name of its kind.
#[derive(Clone, Copy)]
pub struct ReflectedBinding {
    pub binding: u32,
    pub kind: CxVulkanShaderDescriptorKind,
    pub name: &'static str,
}

/// The descriptor type for what a shader binds.
pub open spec fn descriptor_type_of(kind: CxVulkanShaderDescriptorKind) -> Option<i32> {
    match kind {
        CxVulkanShaderDescriptorKind::UniformBuffer => Some(DESCRIPTOR_UNIFORM_BUFFER),
        CxVulkanShaderDescriptorKind::StorageBuffer => Some(DESCRIPTOR_STORAGE_BUFFER),
        CxVulkanShaderDescriptorKind::SampledImage
        | CxVulkanShaderDescriptorKind::DepthImage
        | CxVulkanShaderDescriptorKind::ExternalImage => Some(DESCRIPTOR_SAMPLED_IMAGE),
        CxVulkanShaderDescriptorKind::StorageImage => Some(DESCRIPTOR_STORAGE_IMAGE),
        CxVulkanShaderDescriptorKind::Sampler
        | CxVulkanShaderDescriptorKind::ComparisonSampler => Some(DESCRIPTOR_SAMPLER),
        CxVulkanShaderDescriptorKind::OtherHandle => None,
    }
}

/// Finds the descriptor type for what a shader binds.
pub fn vulkan_descriptor_type_for_shader_kind(kind: CxVulkanShaderDescriptorKind) -> (descriptor:
    Option<i32>)
    ensures
        descriptor == descriptor_type_of(kind),
{
    match kind {
        CxVulkanShaderDescriptorKind::UniformBuffer => Some(DESCRIPTOR_UNIFORM_BUFFER),
        CxVulkanShaderDescriptorKind::StorageBuffer => Some(DESCRIPTOR_STORAGE_BUFFER),
        CxVulkanShaderDescriptorKind::SampledImage
        | CxVulkanShaderDescriptorKind::DepthImage
        | CxVulkanShaderDescriptorKind::ExternalImage => Some(DESCRIPTOR_SAMPLED_IMAGE),
        CxVulkanShaderDescriptorKind::StorageImage => Some(DESCRIPTOR_STORAGE_IMAGE),
        CxVulkanShaderDescriptorKind::Sampler
        | CxVulkanShaderDescriptorKind::ComparisonSampler => Some(DESCRIPTOR_SAMPLER),
        CxVulkanShaderDescriptorKind::OtherHandle => None,
    }
}

/// The name of a descriptor type.
pub open spec fn descriptor_type_name(descriptor: i32) -> Seq<char> {
    if descriptor == DESCRIPTOR_SAMPLER {
        "SAMPLER"@
    } else if descriptor == DESCRIPTOR_COMBINED_IMAGE_SAMPLER {
        "COMBINED_IMAGE_SAMPLER"@
    } else if descriptor == DESCRIPTOR_SAMPLED_IMAGE {
        "SAMPLED_IMAGE"@
    } else if descriptor == DESCRIPTOR_STORAGE_IMAGE {
        "STORAGE_IMAGE"@
    } else if descriptor == DESCRIPTOR_UNIFORM_BUFFER {
        "UNIFORM_BUFFER"@
    } else if descriptor == DESCRIPTOR_STORAGE_BUFFER {
        "STORAGE_BUFFER"@
    } else {
        "OTHER"@
    }
}

/// Names a descriptor type.
pub fn vulkan_descriptor_type_name(descriptor: i32) -> (name: &'static str)
    ensures
        name@ == descriptor_type_name(descriptor),
{
    if descriptor == DESCRIPTOR_SAMPLER {
        "SAMPLER"
    } else if descriptor == DESCRIPTOR_COMBINED_IMAGE_SAMPLER {
        "COMBINED_IMAGE_SAMPLER"
    } else if descriptor == DESCRIPTOR_SAMPLED_IMAGE {
        "SAMPLED_IMAGE"
    } else if descriptor == DESCRIPTOR_STORAGE_IMAGE {
        "STORAGE_IMAGE"
    } else if descriptor == DESCRIPTOR_UNIFORM_BUFFER {
        "UNIFORM_BUFFER"
    } else if descriptor == DESCRIPTOR_STORAGE_BUFFER {
        "STORAGE_BUFFER"
    } else {
        "OTHER"
    }
}

/// The first declaration of a binding.
pub open spec fn find_binding(interface: Seq<ReflectedBinding>, binding: u32) -> Option<
    ReflectedBinding,
>
    decreases interface.len(),
{
    if interface.len() == 0 {
        None
    } else {
        match find_binding(interface.drop_last(), binding) {
            Some(found) => Some(found),
            None => if interface.last().binding == binding {
                Some(interface.last())
            } else {
                None
            },
        }
    }
}

proof fn lemma_find_binding_prefix(interface: Seq<ReflectedBinding>, binding: u32, n: int)
    requires
        0 <= n <= interface.len(),
        find_binding(interface.take(n), binding) is Some,
    ensures
        find_binding(interface, binding) == find_binding(interface.take(n), binding),
    decreases interface.len() - n,
{
    if n == interface.len() {
        assert(interface.take(n) =~= interface);
    } else {
        assert(interface.take(n + 1).drop_last() =~= interface.take(n));
        lemma_find_binding_prefix(interface, binding, n + 1);
    }
}

fn lookup_binding(interface: &Vec<ReflectedBinding>, binding: u32) -> (found: Option<
    ReflectedBinding,
>)
    ensures
        found == find_binding(interface@, binding),
{
    let mut i: usize = 0;
    while i < interface.len()
        invariant
            i <= interface@.len(),
            find_binding(interface@.take(i as int), binding) is None,
        decreases interface@.len() - i,
    {
        proof {
            let next = interface@.take(i + 1);
            assert(next.drop_last() =~= interface@.take(i as int));
            assert(next.last() == interface@[i as int]);
        }
        if interface[i].binding == binding {
            proof {
                lemma_find_binding_prefix(interface@, binding, i + 1);
            }
            return Some(interface[i]);
        }
        i = i + 1;
    }
    assert(interface@.take(i as int) =~= interface@);
    None
}

/// The descriptor type that a shader declares for a binding, or the fallback where it
/// declares none.
pub open spec fn reflected_type(
    interface: Seq<ReflectedBinding>,
    binding: u32,
    fallback: i32,
) -> i32 {
    match find_binding(interface, binding) {
        Some(found) => match descriptor_type_of(found.kind) {
            Some(descriptor) => descriptor,
            None => fallback,
        },
        None => fallback,
    }
}

/// Finds the descriptor type that a shader declares for a binding.
pub fn reflected_vulkan_descriptor_type(
    interface: &Vec<ReflectedBinding>,
    binding: u32,
    fallback: i32,
) -> (descriptor: i32)
    ensures
        descriptor == reflected_type(interface@, binding, fallback),
{
    match lookup_binding(interface, binding) {
        Some(found) => match vulkan_descriptor_type_for_shader_kind(found.kind) {
            Some(descriptor) => descriptor,
            None => fallback,
        },
        None => fallback,
    }
}

/// The name of what a shader declares for a binding.
pub open spec fn kind_name(interface: Seq<ReflectedBinding>, binding: u32) -> Seq<char> {
    match find_binding(interface, binding) {
        Some(found) => found.name@,
        None => "missing"@,
    }
}

/// Names what a shader declares for a binding.
pub fn reflected_shader_descriptor_kind_name(
    interface: &Vec<ReflectedBinding>,
    binding: u32,
) -> (name: &'static str)
    ensures
        name@ == kind_name(interface@, binding),
{
    match lookup_binding(interface, binding) {
        Some(found) => found.name,
        None => "missing",
    }
}

/// A binding has the type of what its first declaration says, and the fallback only where
/// that says nothing.
pub proof fn law_declared_bindings_have_their_type(
    interface: Seq<ReflectedBinding>,
    binding: u32,
    fallback: i32,
    i: int,
)
    requires
        0 <= i < interface.len(),
        interface[i].binding == binding,
        forall|j: int| 0 <= j < i ==> (#[trigger] interface[j]).binding != binding,
    ensures
        find_binding(interface, binding) == Some(interface[i]),
        kind_name(interface, binding) == interface[i].name@,
        interface[i].kind is UniformBuffer ==> reflected_type(interface, binding, fallback) == 6,
        interface[i].kind is StorageBuffer ==> reflected_type(interface, binding, fallback) == 7,
        interface[i].kind is SampledImage || interface[i].kind is DepthImage
            || interface[i].kind is ExternalImage ==> reflected_type(interface, binding, fallback)
            == 2,
        interface[i].kind is StorageImage ==> reflected_type(interface, binding, fallback) == 3,
        interface[i].kind is Sampler || interface[i].kind is ComparisonSampler ==> reflected_type(
            interface,
            binding,
            fallback,
        ) == 0,
        interface[i].kind is OtherHandle ==> reflected_type(interface, binding, fallback)
            == fallback,
    decreases interface.len(),
{
    let before = interface.drop_last();
    if i < interface.len() - 1 {
        assert(before[i] == interface[i]);
        assert(forall|j: int| 0 <= j < i ==> before[j] == interface[j]);
        law_declared_bindings_have_their_type(before, binding, fallback, i);
    } else {
        lemma_not_declared(before, binding);
    }
}

proof fn lemma_not_declared(interface: Seq<ReflectedBinding>, binding: u32)
    requires
        forall|j: int| 0 <= j < interface.len() ==> (#[trigger] interface[j]).binding != binding,
    ensures
        find_binding(interface, binding) is None,
    decreases interface.len(),
{
    if interface.len() > 0 {
        let before = interface.drop_last();
        assert(interface[interface.len() - 1].binding != binding);
        assert(forall|j: int| 0 <= j < before.len() ==> before[j] == interface[j]);
        lemma_not_declared(before, binding);
    }
}

/// A binding that is not declared has the fallback's type, and is called missing.
pub proof fn law_missing_bindings_fall_back(
    interface: Seq<ReflectedBinding>,
    binding: u32,
    fallback: i32,
)
    requires
        forall|j: int| 0 <= j < interface.len() ==> (#[trigger] interface[j]).binding != binding,
    ensures
        reflected_type(interface, binding, fallback) == fallback,
        kind_name(interface, binding) == "missing"@,
{
    lemma_not_declared(interface, binding);
}

/// Types that are told apart have names that are.
pub proof fn law_type_names_are_distinct(a: i32, b: i32)
    requires
        0 <= a <= 3 || a == 6 || a == 7,
        0 <= b <= 3 || b == 6 || b == 7,
    ensures
        descriptor_type_name(a) == descriptor_type_name(b) ==> a == b,
        descriptor_type_name(0) == "SAMPLER"@,
        descriptor_type_name(1) == "COMBINED_IMAGE_SAMPLER"@,
        descriptor_type_name(2) == "SAMPLED_IMAGE"@,
        descriptor_type_name(6) == "UNIFORM_BUFFER"@,
{
    reveal_strlit("SAMPLER");
    reveal_strlit("COMBINED_IMAGE_SAMPLER");
    reveal_strlit("SAMPLED_IMAGE");
    reveal_strlit("STORAGE_IMAGE");
    reveal_strlit("UNIFORM_BUFFER");
    reveal_strlit("STORAGE_BUFFER");
    assert("SAMPLER"@.len() == 7 && "COMBINED_IMAGE_SAMPLER"@.len() == 22);
    assert("SAMPLED_IMAGE"@.len() == 13 && "STORAGE_IMAGE"@.len() == 13);
    assert("SAMPLED_IMAGE"@[1] == 'A' && "STORAGE_IMAGE"@[1] == 'T');
    assert("UNIFORM_BUFFER"@.len() == 14 && "STORAGE_BUFFER"@.len() == 14);
    assert("UNIFORM_BUFFER"@[0] == 'U' && "STORAGE_BUFFER"@[0] == 'S');
}

} // verus!
