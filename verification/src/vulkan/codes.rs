//! Numbers of the Vulkan interface, as ash's `as_raw` gives them.

use vstd::prelude::*;

verus! {

/// `vk::Format::UNDEFINED`.
pub const FORMAT_UNDEFINED: i32 = 0;

/// `vk::Format::R8G8_UNORM`.
pub const FORMAT_R8G8_UNORM: i32 = 16;

/// `vk::Format::R8G8B8A8_UNORM`.
pub const FORMAT_R8G8B8A8_UNORM: i32 = 37;

/// `vk::Format::R8G8B8A8_SRGB`.
pub const FORMAT_R8G8B8A8_SRGB: i32 = 43;

/// `vk::Format::B8G8R8A8_UNORM`.
pub const FORMAT_B8G8R8A8_UNORM: i32 = 44;

/// `vk::Format::B8G8R8A8_SRGB`.
pub const FORMAT_B8G8R8A8_SRGB: i32 = 50;

/// `vk::Format::R32_UINT`.
pub const FORMAT_R32_UINT: i32 = 98;

/// `vk::Format::R32_SINT`.
pub const FORMAT_R32_SINT: i32 = 99;

/// `vk::Format::R32_SFLOAT`.
pub const FORMAT_R32_SFLOAT: i32 = 100;

/// `vk::Format::R32G32_UINT`.
pub const FORMAT_R32G32_UINT: i32 = 101;

/// `vk::Format::R32G32_SINT`.
pub const FORMAT_R32G32_SINT: i32 = 102;

/// `vk::Format::R32G32_SFLOAT`.
pub const FORMAT_R32G32_SFLOAT: i32 = 103;

/// `vk::Format::R32G32B32_UINT`.
pub const FORMAT_R32G32B32_UINT: i32 = 104;

/// `vk::Format::R32G32B32_SINT`.
pub const FORMAT_R32G32B32_SINT: i32 = 105;

/// `vk::Format::R32G32B32_SFLOAT`.
pub const FORMAT_R32G32B32_SFLOAT: i32 = 106;

/// `vk::Format::R32G32B32A32_UINT`.
pub const FORMAT_R32G32B32A32_UINT: i32 = 107;

/// `vk::Format::R32G32B32A32_SINT`.
pub const FORMAT_R32G32B32A32_SINT: i32 = 108;

/// `vk::Format::R32G32B32A32_SFLOAT`.
pub const FORMAT_R32G32B32A32_SFLOAT: i32 = 109;

/// `vk::Format::D16_UNORM`.
pub const FORMAT_D16_UNORM: i32 = 124;

/// `vk::Format::D32_SFLOAT`.
pub const FORMAT_D32_SFLOAT: i32 = 126;

/// `vk::ImageLayout::UNDEFINED`.
pub const LAYOUT_UNDEFINED: i32 = 0;

/// `vk::ImageLayout::COLOR_ATTACHMENT_OPTIMAL`.
pub const LAYOUT_COLOR_ATTACHMENT: i32 = 2;

/// `vk::ImageLayout::DEPTH_STENCIL_ATTACHMENT_OPTIMAL`.
pub const LAYOUT_DEPTH_ATTACHMENT: i32 = 3;

/// `vk::ImageLayout::SHADER_READ_ONLY_OPTIMAL`.
pub const LAYOUT_SHADER_READ_ONLY: i32 = 5;

/// `vk::ImageLayout::PRESENT_SRC_KHR`.
pub const LAYOUT_PRESENT: i32 = 1_000_001_002;

/// `vk::ImageLayout::FRAGMENT_DENSITY_MAP_OPTIMAL_EXT`.
pub const LAYOUT_FRAGMENT_DENSITY_MAP: i32 = 1_000_218_000;

/// `vk::PipelineStageFlags::EARLY_FRAGMENT_TESTS`.
pub const STAGE_EARLY_FRAGMENT_TESTS: u32 = 0x100;

/// `vk::PipelineStageFlags::COLOR_ATTACHMENT_OUTPUT`.
pub const STAGE_COLOR_ATTACHMENT_OUTPUT: u32 = 0x400;

/// `vk::PipelineStageFlags::FRAGMENT_DENSITY_PROCESS_EXT`.
pub const STAGE_FRAGMENT_DENSITY_PROCESS: u32 = 0x80_0000;

/// `vk::AccessFlags::COLOR_ATTACHMENT_WRITE`.
pub const ACCESS_COLOR_ATTACHMENT_WRITE: u32 = 0x100;

/// `vk::AccessFlags::DEPTH_STENCIL_ATTACHMENT_WRITE`.
pub const ACCESS_DEPTH_ATTACHMENT_WRITE: u32 = 0x400;

/// `vk::AccessFlags::FRAGMENT_DENSITY_MAP_READ_EXT`.
pub const ACCESS_FRAGMENT_DENSITY_MAP_READ: u32 = 0x100_0000;

/// `vk::FormatFeatureFlags::FRAGMENT_DENSITY_MAP_EXT`.
pub const FORMAT_FEATURE_FRAGMENT_DENSITY_MAP: u32 = 0x100_0000;

/// `vk::ColorSpaceKHR::SRGB_NONLINEAR`.
pub const COLOR_SPACE_SRGB_NONLINEAR: i32 = 0;

/// `vk::PresentModeKHR::FIFO`.
pub const PRESENT_MODE_FIFO: i32 = 2;

/// `vk::ImageUsageFlags::TRANSFER_DST`.
pub const IMAGE_USAGE_TRANSFER_DST: u32 = 0x2;

/// `vk::ImageUsageFlags::COLOR_ATTACHMENT`.
pub const IMAGE_USAGE_COLOR_ATTACHMENT: u32 = 0x10;

/// `vk::SurfaceTransformFlagsKHR::IDENTITY`.
pub const SURFACE_TRANSFORM_IDENTITY: u32 = 0x1;

/// `vk::CompositeAlphaFlagsKHR::OPAQUE`.
pub const COMPOSITE_ALPHA_OPAQUE: u32 = 0x1;

/// `vk::CompositeAlphaFlagsKHR::PRE_MULTIPLIED`.
pub const COMPOSITE_ALPHA_PRE_MULTIPLIED: u32 = 0x2;

/// `vk::CompositeAlphaFlagsKHR::POST_MULTIPLIED`.
pub const COMPOSITE_ALPHA_POST_MULTIPLIED: u32 = 0x4;

/// `vk::CompositeAlphaFlagsKHR::INHERIT`.
pub const COMPOSITE_ALPHA_INHERIT: u32 = 0x8;

/// `vk::QueueFlags::GRAPHICS`.
pub const QUEUE_GRAPHICS: u32 = 0x1;

/// `vk::DescriptorType::SAMPLER`.
pub const DESCRIPTOR_SAMPLER: i32 = 0;

/// `vk::DescriptorType::COMBINED_IMAGE_SAMPLER`.
pub const DESCRIPTOR_COMBINED_IMAGE_SAMPLER: i32 = 1;

/// `vk::DescriptorType::SAMPLED_IMAGE`.
pub const DESCRIPTOR_SAMPLED_IMAGE: i32 = 2;

/// `vk::DescriptorType::STORAGE_IMAGE`.
pub const DESCRIPTOR_STORAGE_IMAGE: i32 = 3;

/// `vk::DescriptorType::UNIFORM_BUFFER`.
pub const DESCRIPTOR_UNIFORM_BUFFER: i32 = 6;

/// `vk::DescriptorType::STORAGE_BUFFER`.
pub const DESCRIPTOR_STORAGE_BUFFER: i32 = 7;

/// `vk::Filter::NEAREST`.
pub const FILTER_NEAREST: i32 = 0;

/// `vk::Filter::LINEAR`.
pub const FILTER_LINEAR: i32 = 1;

/// `vk::SamplerAddressMode::REPEAT`.
pub const ADDRESS_REPEAT: i32 = 0;

/// `vk::SamplerAddressMode::MIRRORED_REPEAT`.
pub const ADDRESS_MIRRORED_REPEAT: i32 = 1;

/// `vk::SamplerAddressMode::CLAMP_TO_EDGE`.
pub const ADDRESS_CLAMP_TO_EDGE: i32 = 2;

/// `vk::SamplerAddressMode::CLAMP_TO_BORDER`.
pub const ADDRESS_CLAMP_TO_BORDER: i32 = 3;

/// `vk::Result::SUCCESS`.
pub const RESULT_SUCCESS: i32 = 0;

/// `vk::Result::NOT_READY`.
pub const RESULT_NOT_READY: i32 = 1;

/// `vk::Result::ERROR_FRAGMENTED_POOL`.
pub const RESULT_FRAGMENTED_POOL: i32 = -12;

/// `vk::Result::ERROR_SURFACE_LOST_KHR`.
pub const RESULT_SURFACE_LOST: i32 = -1_000_000_000;

/// `vk::Result::ERROR_OUT_OF_DATE_KHR`.
pub const RESULT_OUT_OF_DATE: i32 = -1_000_001_004;

/// `vk::Result::ERROR_OUT_OF_POOL_MEMORY`.
pub const RESULT_OUT_OF_POOL_MEMORY: i32 = -1_000_069_000;

/// `vk::PrimitiveTopology::TRIANGLE_LIST`.
pub const TOPOLOGY_TRIANGLE_LIST: i32 = 3;

/// `vk::PolygonMode::FILL`.
pub const POLYGON_FILL: i32 = 0;

/// `vk::FrontFace::COUNTER_CLOCKWISE`.
pub const FRONT_COUNTER_CLOCKWISE: i32 = 0;

/// `vk::CullModeFlags::NONE`.
pub const CULL_NONE: u32 = 0;

/// `vk::CullModeFlags::BACK`.
pub const CULL_BACK: u32 = 0x2;

/// `vk::SampleCountFlags::TYPE_1`.
pub const SAMPLES_ONE: u32 = 0x1;

/// `vk::BlendFactor::ONE`.
pub const BLEND_ONE: i32 = 1;

/// `vk::BlendFactor::ONE_MINUS_SRC_ALPHA`.
pub const BLEND_ONE_MINUS_SOURCE_ALPHA: i32 = 7;

/// `vk::BlendOp::ADD`.
pub const BLEND_OP_ADD: i32 = 0;

/// `vk::ColorComponentFlags::RGBA`.
pub const COLOR_COMPONENTS_RGBA: u32 = 0xF;

/// `vk::CompareOp::LESS_OR_EQUAL`.
pub const COMPARE_LESS_OR_EQUAL: i32 = 3;

/// `vk::BorderColor::FLOAT_TRANSPARENT_BLACK`.
pub const BORDER_TRANSPARENT_BLACK: i32 = 0;

/// `vk::SamplerMipmapMode::LINEAR`.
pub const MIPMAP_LINEAR: i32 = 1;

/// `vk::IndexType::UINT32`.
pub const INDEX_UINT32: i32 = 1;

/// `vk::ShaderStageFlags::VERTEX`.
pub const SHADER_STAGE_VERTEX: u32 = 0x1;

/// `vk::ShaderStageFlags::FRAGMENT`.
pub const SHADER_STAGE_FRAGMENT: u32 = 0x10;

/// `vk::PipelineStageFlags::FRAGMENT_SHADER`.
pub const STAGE_FRAGMENT_SHADER: u32 = 0x80;

/// `vk::AccessFlags::SHADER_READ`.
pub const ACCESS_SHADER_READ: u32 = 0x20;

/// `vk::AccessFlags::COLOR_ATTACHMENT_READ`.
pub const ACCESS_COLOR_ATTACHMENT_READ: u32 = 0x80;

/// `vk::AccessFlags::DEPTH_STENCIL_ATTACHMENT_READ`.
pub const ACCESS_DEPTH_ATTACHMENT_READ: u32 = 0x200;

/// The bits of `vk::LOD_CLAMP_NONE`.
pub const LOD_CLAMP_NONE: u32 = 0x447A_0000;

/// A draw takes its indices from the first one on.
pub const DRAW_FIRST_INDEX: u32 = 0;

/// A draw adds nothing to its indices.
pub const DRAW_VERTEX_OFFSET: i32 = 0;

/// A draw takes its instances from the first one on.
pub const DRAW_FIRST_INSTANCE: u32 = 0;

} // verus!
