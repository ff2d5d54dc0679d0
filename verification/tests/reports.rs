use makepad_platform::event::video_playback::VideoTextureYcbcrConversionMetadata;
use makepad_platform::vulkan::descriptors::{CxVulkanShaderDescriptorKind, ReflectedBinding};
use makepad_platform::vulkan::draw_packet::{
    BoundTexture, CombinedRemap, ShaderBindings, TextureSlot,
};
use makepad_platform::vulkan::pipeline::{ShaderDeclaration, TextureDeclaration};
use makepad_platform::vulkan::pipeline_key::VulkanVideoCombinedImmutableSamplerKey;
use makepad_platform::vulkan::video_report::{
    find_text, is_software_device, report_interface, slot_mismatch, ReportedShapes, ShapeKey, SOFTWARE_VENDOR,
};

fn shader() -> ShaderBindings {
    ShaderBindings {
        texture_base: 10,
        sampler_base: 20,
        xr_depth: 0,
        remaps: vec![CombinedRemap {
            texture_binding: 11,
            sampler_binding: 23,
        }],
        interface: vec![ReflectedBinding {
            binding: 10,
            kind: CxVulkanShaderDescriptorKind::ExternalImage,
            name: "external-image",
        }],
    }
}

fn slot(sampler: Option<u64>, ycbcr: bool, sampler_index: usize) -> TextureSlot {
    TextureSlot {
        texture: Some(BoundTexture {
            view: 1,
            layout: 5,
            sampler,
            ycbcr,
        }),
        sampler_index,
    }
}

#[test]
fn software_devices_are_recognised() {
    assert!(is_software_device("Google SwiftShader Device", 1));
    assert!(is_software_device("other", SOFTWARE_VENDOR));
    assert!(!is_software_device("Swift Shader", 1));
    assert!(!is_software_device("", 1));
}

#[test]
fn text_is_found_wherever_it_stands() {
    assert!(find_text("abc", ""));
    assert!(find_text("abc", "c"));
    assert!(find_text("aab", "ab"));
    assert!(!find_text("ab", "abc"));
    assert!(!find_text("abab", "ba "));
}

#[test]
fn slots_that_differ_are_warned_of() {
    assert_eq!(slot_mismatch(4, 3, 3, 5, 5), None);
    assert_eq!(
        slot_mismatch(4, 3, 2, 5, 6).as_deref(),
        Some(
            "Android Vulkan slot mismatch: shader=4, wgsl_geom_slots=3, map_geom_slots=2, wgsl_inst_slots=5, map_inst_slots=6"
        )
    );
}

#[test]
fn video_textures_are_reported_once() {
    let mut shapes = ReportedShapes::new();
    let slots = vec![
        slot(Some(9), true, 1),
        slot(Some(9), true, 0),
        slot(None, true, 0),
        slot(Some(9), false, 0),
    ];
    let keys = vec![100, 101, 102, 103];
    let found = shapes.report_packet(&shader(), 7, &slots, &keys);
    assert_eq!(found.len(), 2);
    assert_eq!(
        found[0].key,
        ShapeKey {
            shader_index: 7,
            slot: 0,
            texture_key: 100,
            sampler_index: 1
        }
    );
    assert!(!found[0].shape.combined);
    assert_eq!((found[0].shape.texture_binding, found[0].shape.sampler_binding), (10, 21));
    assert_eq!(found[0].shape.remapped_sampler_binding, 21);
    assert_eq!(found[0].shape.texture_kind, "external-image");
    assert_eq!(found[0].shape.texture_descriptor, "SAMPLED_IMAGE");
    assert_eq!(found[0].shape.sampler_kind, "missing");
    assert_eq!(found[0].shape.sampler_descriptor, "SAMPLER");
    assert!(found[1].shape.combined);
    assert_eq!(found[1].shape.remapped_sampler_binding, 23);
    assert_eq!(found[1].shape.sampler_kind, "remapped-sampler-same-binding");
    assert_eq!(found[1].shape.texture_descriptor, "COMBINED_IMAGE_SAMPLER");
    assert!(shapes.report_packet(&shader(), 7, &slots, &keys).is_empty());
    assert_eq!(shapes.report_packet(&shader(), 8, &slots, &keys).len(), 2);
}

#[test]
fn shader_interface_is_reported() {
    let declaration = ShaderDeclaration {
        uniform_bindings: Vec::new(),
        has_dynamic: false,
        dynamic_binding: 0,
        has_scope: false,
        scope_binding: None,
        textures: vec![
            TextureDeclaration { is_video: true },
            TextureDeclaration { is_video: true },
            TextureDeclaration { is_video: false },
        ],
        samplers: Vec::new(),
        bindings: shader(),
        geometry_slots: 3,
        instance_slots: 4,
        has_vertex_code: true,
        has_fragment_code: true,
    };
    let samplers = vec![VulkanVideoCombinedImmutableSamplerKey {
        texture_binding: 11,
        sampler: 9,
    }];
    let shapes = report_interface(&declaration, &samplers, &vec![2]);
    assert_eq!(shapes.len(), 2);
    assert!(!shapes[0].combined && shapes[1].combined);
    assert_eq!((shapes[0].sampler_binding, shapes[1].sampler_binding), (22, 20));
    assert_eq!(
        shapes[1].interface_report(7, 1),
        "RUSTY_XR_MAKEPAD_VULKAN_VIDEO_SHADER_INTERFACE schema=rusty.xr.makepad-vulkan-video-shader-interface.v1 shaderIndex=7 shaderVariant=1 slot=1 textureBinding=11 shaderTextureResourceKind=missing textureDescriptorType=COMBINED_IMAGE_SAMPLER samplerIndex=0 samplerBinding=20 remappedSamplerBinding=23 shaderSamplerResourceKind=remapped-sampler-same-binding samplerDescriptorType=COMBINED_IMAGE_SAMPLER combinedImageSamplerExpected=true immutableSamplerExpected=true samplerBindingMode=combined-immutable-sampler samplerBindingCompliance=pure-hwb-reference-combined-immutable wgslTextureType=texture_2d_f32 shaderSampleLowering=textureSampleLevel_combined_image_sampler_same_binding colorFixAttempt=hwb-external-combined-immutable-v4-default-sampler-remap"
    );
    let plain = report_interface(&declaration, &Vec::new(), &Vec::new());
    assert!(!plain[1].combined);
    assert_eq!(plain[1].remapped_sampler_binding, 23);
}

#[test]
fn nothing_is_reported_behind_a_missing_texture() {
    let mut shapes = ReportedShapes::new();
    let missing = TextureSlot {
        texture: None,
        sampler_index: 0,
    };
    let slots = vec![slot(Some(9), true, 0), missing, slot(Some(9), true, 0)];
    assert_eq!(
        shapes.report_packet(&shader(), 7, &slots, &vec![1, 2, 3]).len(),
        1
    );
}

#[test]
fn shape_is_written_out() {
    let mut shapes = ReportedShapes::new();
    let slots = vec![slot(None, false, 0), slot(Some(9), true, 0)];
    let found = shapes.report_packet(&shader(), 7, &slots, &vec![1, 2]);
    let metadata = VideoTextureYcbcrConversionMetadata {
        effective_model: "601".to_string(),
        effective_range: "narrow".to_string(),
        conversion_mode: "external".to_string(),
        ..Default::default()
    };
    assert_eq!(
        found[0].report("Some(TextureVideo)", Some(&metadata)),
        "RUSTY_XR_MAKEPAD_VULKAN_VIDEO_DESCRIPTOR_SHAPE schema=rusty.xr.makepad-vulkan-video-descriptor-shape.v1 shaderIndex=7 slot=1 textureKey=2 textureType=Some(TextureVideo) textureBinding=11 shaderTextureResourceKind=missing textureDescriptorType=COMBINED_IMAGE_SAMPLER samplerIndex=0 samplerBinding=20 remappedSamplerBinding=23 shaderSamplerResourceKind=remapped-sampler-same-binding samplerDescriptorType=COMBINED_IMAGE_SAMPLER resourceSamplerOverride=false samplerYcbcrConversion=true combinedImageSampler=true immutableSampler=true samplerBindingMode=combined-immutable-sampler samplerBindingCompliance=pure-hwb-reference-combined-immutable effectiveYcbcrModel=601 effectiveYcbcrRange=narrow conversionMode=external shaderSampleLowering=textureSampleLevel_combined_image_sampler_same_binding colorFixAttempt=hwb-external-combined-immutable-v4-default-sampler-remap"
    );
    assert!(found[0]
        .report("None", None)
        .contains("effectiveYcbcrModel=unspecified effectiveYcbcrRange=unspecified"));
}
