use ash::vk;
use makepad_platform::vulkan::codes;
use makepad_platform::vulkan::descriptors::{
    reflected_shader_descriptor_kind_name, reflected_vulkan_descriptor_type,
    vulkan_descriptor_type_for_shader_kind, vulkan_descriptor_type_name,
    CxVulkanShaderDescriptorKind, ReflectedBinding,
};
use makepad_platform::vulkan::failure::{call_failed, subject_failed};

#[test]
fn formats_are_those_of_the_interface() {
    let pairs = [
        (codes::FORMAT_UNDEFINED, vk::Format::UNDEFINED),
        (codes::FORMAT_R8G8_UNORM, vk::Format::R8G8_UNORM),
        (codes::FORMAT_R8G8B8A8_UNORM, vk::Format::R8G8B8A8_UNORM),
        (codes::FORMAT_R8G8B8A8_SRGB, vk::Format::R8G8B8A8_SRGB),
        (codes::FORMAT_B8G8R8A8_UNORM, vk::Format::B8G8R8A8_UNORM),
        (codes::FORMAT_B8G8R8A8_SRGB, vk::Format::B8G8R8A8_SRGB),
        (codes::FORMAT_R32_UINT, vk::Format::R32_UINT),
        (codes::FORMAT_R32_SINT, vk::Format::R32_SINT),
        (codes::FORMAT_R32_SFLOAT, vk::Format::R32_SFLOAT),
        (codes::FORMAT_R32G32_UINT, vk::Format::R32G32_UINT),
        (codes::FORMAT_R32G32_SINT, vk::Format::R32G32_SINT),
        (codes::FORMAT_R32G32_SFLOAT, vk::Format::R32G32_SFLOAT),
        (codes::FORMAT_R32G32B32_UINT, vk::Format::R32G32B32_UINT),
        (codes::FORMAT_R32G32B32_SINT, vk::Format::R32G32B32_SINT),
        (codes::FORMAT_R32G32B32_SFLOAT, vk::Format::R32G32B32_SFLOAT),
        (codes::FORMAT_R32G32B32A32_UINT, vk::Format::R32G32B32A32_UINT),
        (codes::FORMAT_R32G32B32A32_SINT, vk::Format::R32G32B32A32_SINT),
        (
            codes::FORMAT_R32G32B32A32_SFLOAT,
            vk::Format::R32G32B32A32_SFLOAT,
        ),
        (codes::FORMAT_D16_UNORM, vk::Format::D16_UNORM),
        (codes::FORMAT_D32_SFLOAT, vk::Format::D32_SFLOAT),
    ];
    for (code, format) in pairs {
        assert_eq!(code, format.as_raw());
    }
}

#[test]
fn layouts_and_modes_are_those_of_the_interface() {
    let layouts = [
        (codes::LAYOUT_UNDEFINED, vk::ImageLayout::UNDEFINED),
        (
            codes::LAYOUT_COLOR_ATTACHMENT,
            vk::ImageLayout::COLOR_ATTACHMENT_OPTIMAL,
        ),
        (
            codes::LAYOUT_DEPTH_ATTACHMENT,
            vk::ImageLayout::DEPTH_STENCIL_ATTACHMENT_OPTIMAL,
        ),
        (
            codes::LAYOUT_SHADER_READ_ONLY,
            vk::ImageLayout::SHADER_READ_ONLY_OPTIMAL,
        ),
        (codes::LAYOUT_PRESENT, vk::ImageLayout::PRESENT_SRC_KHR),
        (
            codes::LAYOUT_FRAGMENT_DENSITY_MAP,
            vk::ImageLayout::FRAGMENT_DENSITY_MAP_OPTIMAL_EXT,
        ),
    ];
    for (code, layout) in layouts {
        assert_eq!(code, layout.as_raw());
    }
    assert_eq!(
        codes::COLOR_SPACE_SRGB_NONLINEAR,
        vk::ColorSpaceKHR::SRGB_NONLINEAR.as_raw()
    );
    assert_eq!(codes::PRESENT_MODE_FIFO, vk::PresentModeKHR::FIFO.as_raw());
    assert_eq!(codes::FILTER_NEAREST, vk::Filter::NEAREST.as_raw());
    assert_eq!(codes::FILTER_LINEAR, vk::Filter::LINEAR.as_raw());
    assert_eq!(
        codes::ADDRESS_REPEAT,
        vk::SamplerAddressMode::REPEAT.as_raw()
    );
    assert_eq!(
        codes::ADDRESS_MIRRORED_REPEAT,
        vk::SamplerAddressMode::MIRRORED_REPEAT.as_raw()
    );
    assert_eq!(
        codes::ADDRESS_CLAMP_TO_EDGE,
        vk::SamplerAddressMode::CLAMP_TO_EDGE.as_raw()
    );
    assert_eq!(
        codes::ADDRESS_CLAMP_TO_BORDER,
        vk::SamplerAddressMode::CLAMP_TO_BORDER.as_raw()
    );
}

#[test]
fn flags_are_those_of_the_interface() {
    assert_eq!(
        codes::IMAGE_USAGE_TRANSFER_DST,
        vk::ImageUsageFlags::TRANSFER_DST.as_raw()
    );
    assert_eq!(
        codes::IMAGE_USAGE_COLOR_ATTACHMENT,
        vk::ImageUsageFlags::COLOR_ATTACHMENT.as_raw()
    );
    assert_eq!(
        codes::SURFACE_TRANSFORM_IDENTITY,
        vk::SurfaceTransformFlagsKHR::IDENTITY.as_raw()
    );
    assert_eq!(
        codes::COMPOSITE_ALPHA_OPAQUE,
        vk::CompositeAlphaFlagsKHR::OPAQUE.as_raw()
    );
    assert_eq!(
        codes::COMPOSITE_ALPHA_PRE_MULTIPLIED,
        vk::CompositeAlphaFlagsKHR::PRE_MULTIPLIED.as_raw()
    );
    assert_eq!(
        codes::COMPOSITE_ALPHA_POST_MULTIPLIED,
        vk::CompositeAlphaFlagsKHR::POST_MULTIPLIED.as_raw()
    );
    assert_eq!(
        codes::COMPOSITE_ALPHA_INHERIT,
        vk::CompositeAlphaFlagsKHR::INHERIT.as_raw()
    );
    assert_eq!(codes::QUEUE_GRAPHICS, vk::QueueFlags::GRAPHICS.as_raw());
    assert_eq!(
        codes::STAGE_EARLY_FRAGMENT_TESTS,
        vk::PipelineStageFlags::EARLY_FRAGMENT_TESTS.as_raw()
    );
    assert_eq!(
        codes::STAGE_COLOR_ATTACHMENT_OUTPUT,
        vk::PipelineStageFlags::COLOR_ATTACHMENT_OUTPUT.as_raw()
    );
    assert_eq!(
        codes::STAGE_FRAGMENT_DENSITY_PROCESS,
        vk::PipelineStageFlags::FRAGMENT_DENSITY_PROCESS_EXT.as_raw()
    );
    assert_eq!(
        codes::ACCESS_COLOR_ATTACHMENT_WRITE,
        vk::AccessFlags::COLOR_ATTACHMENT_WRITE.as_raw()
    );
    assert_eq!(
        codes::ACCESS_DEPTH_ATTACHMENT_WRITE,
        vk::AccessFlags::DEPTH_STENCIL_ATTACHMENT_WRITE.as_raw()
    );
    assert_eq!(
        codes::ACCESS_FRAGMENT_DENSITY_MAP_READ,
        vk::AccessFlags::FRAGMENT_DENSITY_MAP_READ_EXT.as_raw()
    );
    assert_eq!(
        codes::FORMAT_FEATURE_FRAGMENT_DENSITY_MAP,
        vk::FormatFeatureFlags::FRAGMENT_DENSITY_MAP_EXT.as_raw()
    );
}

#[test]
fn descriptor_types_are_those_of_the_interface() {
    let pairs = [
        (codes::DESCRIPTOR_SAMPLER, vk::DescriptorType::SAMPLER, "SAMPLER"),
        (
            codes::DESCRIPTOR_COMBINED_IMAGE_SAMPLER,
            vk::DescriptorType::COMBINED_IMAGE_SAMPLER,
            "COMBINED_IMAGE_SAMPLER",
        ),
        (
            codes::DESCRIPTOR_SAMPLED_IMAGE,
            vk::DescriptorType::SAMPLED_IMAGE,
            "SAMPLED_IMAGE",
        ),
        (
            codes::DESCRIPTOR_STORAGE_IMAGE,
            vk::DescriptorType::STORAGE_IMAGE,
            "STORAGE_IMAGE",
        ),
        (
            codes::DESCRIPTOR_UNIFORM_BUFFER,
            vk::DescriptorType::UNIFORM_BUFFER,
            "UNIFORM_BUFFER",
        ),
        (
            codes::DESCRIPTOR_STORAGE_BUFFER,
            vk::DescriptorType::STORAGE_BUFFER,
            "STORAGE_BUFFER",
        ),
    ];
    for (code, descriptor, name) in pairs {
        assert_eq!(code, descriptor.as_raw());
        assert_eq!(vulkan_descriptor_type_name(code), name);
    }
    assert_eq!(vulkan_descriptor_type_name(99), "OTHER");
}

#[test]
fn results_are_those_of_the_interface() {
    assert_eq!(codes::RESULT_SUCCESS, vk::Result::SUCCESS.as_raw());
    assert_eq!(codes::RESULT_NOT_READY, vk::Result::NOT_READY.as_raw());
    assert_eq!(
        codes::RESULT_FRAGMENTED_POOL,
        vk::Result::ERROR_FRAGMENTED_POOL.as_raw()
    );
    assert_eq!(
        codes::RESULT_SURFACE_LOST,
        vk::Result::ERROR_SURFACE_LOST_KHR.as_raw()
    );
    assert_eq!(
        codes::RESULT_OUT_OF_DATE,
        vk::Result::ERROR_OUT_OF_DATE_KHR.as_raw()
    );
    assert_eq!(
        codes::RESULT_OUT_OF_POOL_MEMORY,
        vk::Result::ERROR_OUT_OF_POOL_MEMORY.as_raw()
    );
}

#[test]
fn messages_name_the_result() {
    assert_eq!(
        call_failed("create_sampler", vk::Result::ERROR_DEVICE_LOST.as_raw()),
        "create_sampler failed: ERROR_DEVICE_LOST"
    );
    assert_eq!(
        subject_failed(
            "create_fence",
            "openxr inflight",
            vk::Result::ERROR_OUT_OF_HOST_MEMORY.as_raw()
        ),
        "create_fence(openxr inflight) failed: ERROR_OUT_OF_HOST_MEMORY"
    );
}

#[test]
fn shader_kinds_have_descriptor_types() {
    assert_eq!(
        vulkan_descriptor_type_for_shader_kind(CxVulkanShaderDescriptorKind::UniformBuffer),
        Some(6)
    );
    assert_eq!(
        vulkan_descriptor_type_for_shader_kind(CxVulkanShaderDescriptorKind::ExternalImage),
        Some(2)
    );
    assert_eq!(
        vulkan_descriptor_type_for_shader_kind(CxVulkanShaderDescriptorKind::ComparisonSampler),
        Some(0)
    );
    assert_eq!(
        vulkan_descriptor_type_for_shader_kind(CxVulkanShaderDescriptorKind::OtherHandle),
        None
    );
}

#[test]
fn reflected_bindings_are_found() {
    let interface = vec![
        ReflectedBinding {
            binding: 3,
            kind: CxVulkanShaderDescriptorKind::StorageBuffer,
            name: "storage_buffer",
        },
        ReflectedBinding {
            binding: 4,
            kind: CxVulkanShaderDescriptorKind::OtherHandle,
            name: "other",
        },
    ];
    assert_eq!(reflected_vulkan_descriptor_type(&interface, 3, 2), 7);
    assert_eq!(reflected_vulkan_descriptor_type(&interface, 4, 2), 2);
    assert_eq!(reflected_vulkan_descriptor_type(&interface, 5, 0), 0);
    assert_eq!(
        reflected_shader_descriptor_kind_name(&interface, 3),
        "storage_buffer"
    );
    assert_eq!(
        reflected_shader_descriptor_kind_name(&interface, 9),
        "missing"
    );
}

#[test]
fn pipeline_values_are_those_of_the_interface() {
    let values = [
        (codes::TOPOLOGY_TRIANGLE_LIST, vk::PrimitiveTopology::TRIANGLE_LIST.as_raw()),
        (codes::POLYGON_FILL, vk::PolygonMode::FILL.as_raw()),
        (codes::FRONT_COUNTER_CLOCKWISE, vk::FrontFace::COUNTER_CLOCKWISE.as_raw()),
        (codes::BLEND_ONE, vk::BlendFactor::ONE.as_raw()),
        (codes::BLEND_ONE_MINUS_SOURCE_ALPHA, vk::BlendFactor::ONE_MINUS_SRC_ALPHA.as_raw()),
        (codes::BLEND_OP_ADD, vk::BlendOp::ADD.as_raw()),
        (codes::COMPARE_LESS_OR_EQUAL, vk::CompareOp::LESS_OR_EQUAL.as_raw()),
        (codes::BORDER_TRANSPARENT_BLACK, vk::BorderColor::FLOAT_TRANSPARENT_BLACK.as_raw()),
        (codes::MIPMAP_LINEAR, vk::SamplerMipmapMode::LINEAR.as_raw()),
        (codes::INDEX_UINT32, vk::IndexType::UINT32.as_raw()),
    ];
    for (code, value) in values {
        assert_eq!(code, value);
    }
    let flags = [
        (codes::CULL_NONE, vk::CullModeFlags::NONE.as_raw()),
        (codes::CULL_BACK, vk::CullModeFlags::BACK.as_raw()),
        (codes::SAMPLES_ONE, vk::SampleCountFlags::TYPE_1.as_raw()),
        (codes::COLOR_COMPONENTS_RGBA, vk::ColorComponentFlags::RGBA.as_raw()),
        (codes::STAGE_FRAGMENT_SHADER, vk::PipelineStageFlags::FRAGMENT_SHADER.as_raw()),
        (codes::ACCESS_SHADER_READ, vk::AccessFlags::SHADER_READ.as_raw()),
        (codes::ACCESS_COLOR_ATTACHMENT_READ, vk::AccessFlags::COLOR_ATTACHMENT_READ.as_raw()),
        (codes::ACCESS_DEPTH_ATTACHMENT_READ, vk::AccessFlags::DEPTH_STENCIL_ATTACHMENT_READ.as_raw()),
        (codes::SHADER_STAGE_VERTEX, vk::ShaderStageFlags::VERTEX.as_raw()),
        (codes::SHADER_STAGE_FRAGMENT, vk::ShaderStageFlags::FRAGMENT.as_raw()),
    ];
    for (code, value) in flags {
        assert_eq!(code, value);
    }
    assert_eq!(codes::LOD_CLAMP_NONE, vk::LOD_CLAMP_NONE.to_bits());
}
