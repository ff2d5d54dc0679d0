use makepad_platform::vulkan::descriptors::{CxVulkanShaderDescriptorKind, ReflectedBinding};
use makepad_platform::vulkan::draw_packet::{
    BoundTexture, CombinedRemap, ShaderBindings, TextureSlot,
};
use makepad_platform::vulkan::pipeline::{
    plan_sampler, plan_set_layout, LayoutBinding, SamplerAddress, SamplerCoord,
    SamplerDeclaration, SamplerFilter, ShaderDeclaration, TextureDeclaration,
};
use makepad_platform::vulkan::pipeline_build::{
    FRAGMENT_ENTRY, VERTEX_ENTRY,
    ensure_pipeline, pick_pipeline, pipeline_key, BuildStage, PipelineBuild, PipelineCache,
    PipelineRelease, PipelinesResult,
};
use makepad_platform::vulkan::pipeline_key::{
    collect_packet_video_combined_immutable_samplers, pipeline_video_sampler_key,
    VulkanVideoCombinedImmutableSamplerKey,
};
use makepad_platform::vulkan::render_pass::{RenderPassCache, VulkanRenderPassKey};
use makepad_platform::vulkan::vertex_input::{
    collect_attribute_chunk_formats, plan_vertex_attributes, vk_vertex_format,
    DrawShaderAttrFormat, VertexAttribute,
};

fn key(texture_binding: u32, sampler: u64) -> VulkanVideoCombinedImmutableSamplerKey {
    VulkanVideoCombinedImmutableSamplerKey {
        texture_binding,
        sampler,
    }
}

fn bindings() -> ShaderBindings {
    ShaderBindings {
        texture_base: 10,
        sampler_base: 20,
        xr_depth: 30,
        remaps: vec![CombinedRemap {
            texture_binding: 10,
            sampler_binding: 20,
        }],
        interface: vec![ReflectedBinding {
            binding: 1,
            kind: CxVulkanShaderDescriptorKind::StorageBuffer,
            name: "storage_buffer",
        }],
    }
}

fn sampler() -> SamplerDeclaration {
    SamplerDeclaration {
        filter: SamplerFilter::Linear,
        address: SamplerAddress::ClampToZero,
        coord: SamplerCoord::Pixel,
    }
}

fn shader() -> ShaderDeclaration {
    ShaderDeclaration {
        uniform_bindings: vec![1, 0],
        has_dynamic: true,
        dynamic_binding: 2,
        has_scope: true,
        scope_binding: None,
        textures: vec![
            TextureDeclaration { is_video: true },
            TextureDeclaration { is_video: false },
        ],
        samplers: vec![sampler(), sampler()],
        bindings: bindings(),
        geometry_slots: 5,
        instance_slots: 6,
        has_vertex_code: true,
        has_fragment_code: true,
    }
}

fn pass() -> VulkanRenderPassKey {
    VulkanRenderPassKey::new(&[44], Some(126))
}

#[test]
fn sampler_keys_do_not_depend_on_order() {
    let one = pipeline_video_sampler_key(&vec![key(2, 1), key(1, 9), key(2, 1), key(1, 3)]);
    let other = pipeline_video_sampler_key(&vec![key(1, 3), key(2, 1), key(1, 9)]);
    assert_eq!(one, vec![key(1, 3), key(1, 9), key(2, 1)]);
    assert_eq!(one, other);
}

#[test]
fn video_samplers_of_a_packet_are_collected() {
    let texture = |sampler, ycbcr| {
        Some(BoundTexture {
            view: 1,
            layout: 5,
            sampler,
            ycbcr,
        })
    };
    let slots = vec![
        TextureSlot {
            texture: texture(Some(7), true),
            sampler_index: 0,
        },
        TextureSlot {
            texture: texture(Some(8), true),
            sampler_index: 0,
        },
    ];
    let shader = bindings();
    assert_eq!(
        collect_packet_video_combined_immutable_samplers(4, true, Some(&shader), &slots),
        Ok(vec![key(10, 7)])
    );
    assert_eq!(
        collect_packet_video_combined_immutable_samplers(4, false, Some(&shader), &slots),
        Err("shader 4 missing os_shader_id".to_string())
    );
    assert_eq!(
        collect_packet_video_combined_immutable_samplers(4, true, None, &slots),
        Err("shader 4 missing Vulkan binary".to_string())
    );
}

#[test]
fn vertex_formats_by_component_count() {
    assert_eq!(vk_vertex_format(DrawShaderAttrFormat::Float, 0), 100);
    assert_eq!(vk_vertex_format(DrawShaderAttrFormat::Float, 3), 106);
    assert_eq!(vk_vertex_format(DrawShaderAttrFormat::Float, 9), 109);
    assert_eq!(vk_vertex_format(DrawShaderAttrFormat::UInt, 2), 101);
    assert_eq!(vk_vertex_format(DrawShaderAttrFormat::SInt, 4), 108);
    assert_eq!(collect_attribute_chunk_formats(9).len(), 3);
    assert!(collect_attribute_chunk_formats(0).is_empty());
}

#[test]
fn attributes_cover_vertices_and_instances() {
    let attribute = |location, binding, format, offset| VertexAttribute {
        location,
        binding,
        format,
        offset,
    };
    assert_eq!(
        plan_vertex_attributes(5, 6),
        vec![
            attribute(0, 0, 109, 0),
            attribute(1, 0, 100, 16),
            attribute(2, 1, 109, 0),
            attribute(3, 1, 103, 16),
        ]
    );
}

#[test]
fn samplers_are_planned() {
    let made = plan_sampler(sampler());
    assert_eq!((made.mipmap_mode, made.border_color), (1, 0));
    assert_eq!((made.min_lod, made.max_lod), (0, 1000.0f32.to_bits()));
    assert!(!made.compares);
    let plan = plan_sampler(sampler());
    assert_eq!(plan.filter, 1);
    assert_eq!(plan.address_mode, 3);
    assert!(plan.unnormalized);
}

#[test]
fn set_layout_follows_the_shader() {
    let binding = |binding, descriptor, sampler| LayoutBinding {
        binding,
        descriptor,
        sampler,
    };
    assert_eq!(
        plan_set_layout(&shader(), &Vec::new()),
        vec![
            binding(0, 6, None),
            binding(1, 7, None),
            binding(2, 6, None),
            binding(10, 2, None),
            binding(11, 2, None),
            binding(20, 0, None),
            binding(21, 0, None),
            binding(30, 2, None),
        ]
    );
    assert_eq!(
        plan_set_layout(&shader(), &vec![key(10, 77)]),
        vec![
            binding(0, 6, None),
            binding(1, 7, None),
            binding(2, 6, None),
            binding(10, 1, Some(77)),
            binding(11, 2, None),
            binding(21, 0, None),
            binding(30, 2, None),
        ]
    );
}

#[test]
fn pipelines_are_planned_once() {
    let mut cache = PipelineCache::new();
    let shader = shader();
    let samplers = Vec::new();
    let wanted = pipeline_key(3, 0, pass(), true, false, &samplers);
    let plan = match ensure_pipeline(&cache, true, Some(&shader), &wanted, &samplers) {
        Ok(Some(plan)) => plan,
        _ => panic!("it is not built yet"),
    };
    assert!(plan.has_descriptors && plan.alpha_blend);
    assert_eq!(plan.cull_mode, 0);
    assert_eq!((plan.fixed.topology, plan.fixed.front_face), (3, 0));
    assert_eq!((plan.fixed.source_factor, plan.fixed.destination_factor), (1, 7));
    assert_eq!(plan.fixed.depth_compare, 3);
    assert_eq!(plan.fixed.line_width, 1.0f32.to_bits());
    assert_eq!((VERTEX_ENTRY, FRAGMENT_ENTRY), ("vertex_main", "fragment_main"));
    assert_eq!(plan.geometry_stride, 20);
    assert_eq!(plan.instance_stride, 24);
    assert_eq!(plan.depth_writes, [true, false]);
    assert!(matches!(
        cache.get(&wanted),
        Err(message) if message == "missing Vulkan pipeline for shader 3"
    ));

    let mut build = PipelineBuild::new(&plan);
    for handle in 1..=5 {
        build.created(handle);
    }
    assert_eq!(build.stage, BuildStage::Pipelines);
    let modules = match build.pipelines_created(PipelinesResult {
        pipelines: vec![60, 61],
        error: None,
    }) {
        Ok(modules) => modules,
        Err(failure) => panic!("{}", failure.message),
    };
    assert_eq!(
        modules,
        vec![
            PipelineRelease::ShaderModule(3),
            PipelineRelease::ShaderModule(4)
        ]
    );
    build.created(80);
    build.created(81);
    assert_eq!(build.stage, BuildStage::Done);
    cache.insert(wanted, build.finish());

    let again = pipeline_key(3, 0, pass(), true, false, &samplers);
    assert!(matches!(
        ensure_pipeline(&cache, true, Some(&shader), &again, &samplers),
        Ok(None)
    ));
    let other = pipeline_key(3, 0, pass(), true, true, &samplers);
    assert!(cache.get(&other).is_err());
    match cache.get(&again) {
        Ok(pipeline) => {
            assert_eq!(pick_pipeline(pipeline, true), 60);
            assert_eq!(pick_pipeline(pipeline, false), 61);
        }
        Err(message) => panic!("{message}"),
    }

    let mut passes = RenderPassCache::new();
    passes.insert(pass(), 90);
    assert_eq!(
        cache.destroy_pipelines(&mut passes),
        vec![
            PipelineRelease::Sampler(80),
            PipelineRelease::Sampler(81),
            PipelineRelease::Pipeline(60),
            PipelineRelease::Pipeline(61),
            PipelineRelease::PipelineLayout(2),
            PipelineRelease::SetLayout(1),
            PipelineRelease::RenderPass(90),
        ]
    );
}

#[test]
fn shaders_without_their_parts_are_reported() {
    let cache = PipelineCache::new();
    let samplers = Vec::new();
    let wanted = pipeline_key(3, 0, pass(), true, false, &samplers);
    let message = |result: Result<_, String>| match result {
        Ok(None) | Ok(Some(_)) => panic!("something is missing"),
        Err(message) => message,
    };
    let whole = shader();
    assert_eq!(
        message(ensure_pipeline(&cache, false, Some(&whole), &wanted, &samplers)),
        "shader 3 missing os_shader_id"
    );
    assert_eq!(
        message(ensure_pipeline(&cache, true, None, &wanted, &samplers)),
        "shader 3 missing Vulkan binary"
    );
    let no_vertex = ShaderDeclaration {
        has_vertex_code: false,
        ..shader()
    };
    assert_eq!(
        message(ensure_pipeline(&cache, true, Some(&no_vertex), &wanted, &samplers)),
        "shader 3 missing vertex SPIR-V"
    );
    let no_fragment = ShaderDeclaration {
        has_fragment_code: false,
        ..shader()
    };
    assert_eq!(
        message(ensure_pipeline(&cache, true, Some(&no_fragment), &wanted, &samplers)),
        "shader 3 missing fragment SPIR-V"
    );
}

#[test]
fn failed_builds_give_back_what_they_hold() {
    let cache = PipelineCache::new();
    let shader = shader();
    let samplers = Vec::new();
    let wanted = pipeline_key(3, 0, pass(), true, false, &samplers);
    let plan = match ensure_pipeline(&cache, true, Some(&shader), &wanted, &samplers) {
        Ok(Some(plan)) => plan,
        _ => panic!("it is not built yet"),
    };
    let mut build = PipelineBuild::new(&plan);
    assert_eq!(
        build.failed(-2).message,
        "create_descriptor_set_layout failed: ERROR_OUT_OF_DEVICE_MEMORY"
    );
    build.created(1);
    assert_eq!(
        build.failed(-2).releases,
        vec![PipelineRelease::SetLayout(1)]
    );
    build.created(2);
    build.created(3);
    let failure = build.failed(-2);
    assert_eq!(
        failure.releases,
        vec![
            PipelineRelease::ShaderModule(3),
            PipelineRelease::PipelineLayout(2),
            PipelineRelease::SetLayout(1),
        ]
    );
    assert_eq!(
        failure.message,
        "create_shader_module(fragment) failed: ERROR_OUT_OF_DEVICE_MEMORY"
    );
    build.created(4);
    assert!(build
        .render_pass_failed("no pass".to_string())
        .releases
        .is_empty());
    build.created(5);
    let few = build.pipelines_created(PipelinesResult {
        pipelines: vec![60],
        error: None,
    });
    match few {
        Ok(_) => panic!("one pipeline is missing"),
        Err(failure) => {
            assert_eq!(
                failure.message,
                "create_graphics_pipelines returned fewer than 2 pipelines"
            );
            assert_eq!(failure.releases.len(), 5);
            assert_eq!(failure.releases[2], PipelineRelease::Pipeline(60));
        }
    }
    assert!(build
        .pipelines_created(PipelinesResult {
            pipelines: vec![60, 61],
            error: None,
        })
        .is_ok());
    build.created(80);
    let failure = build.failed(-1);
    assert_eq!(failure.releases.len(), 5);
    assert_eq!(failure.releases[0], PipelineRelease::Sampler(80));
    assert_eq!(
        failure.message,
        "create_sampler failed: ERROR_OUT_OF_HOST_MEMORY"
    );
}
