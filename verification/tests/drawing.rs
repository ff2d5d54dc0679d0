use makepad_platform::vulkan::binding_order::{order_by_binding, Bound};
use makepad_platform::vulkan::buffers::{
    align_device_size, create_host_buffer, create_host_buffer_with_data, destroy_buffer,
    find_memory_type, BufferRelease, HostBufferEvent, HostBufferRequest, VulkanBuffer,
};
use makepad_platform::vulkan::draw_list::{
    DrawCallState,
    drawn_index_count, DrawCall, DrawItem, DrawList, DrawPlan,
};
use makepad_platform::vulkan::draw_packet::{
    collect_texture_requests, descriptor_write_type, dynamic_uniform_len, lay_out_packet,
    packet_instances, plan_packet, record_draw_packet, resolve_texture, BoundTexture,
    CombinedRemap, DescriptorWrite, DrawCommand, PacketDescriptors, PacketDraw, PacketUniforms,
    PlacedUniform, ShaderBindings, TextureRequest, TextureSlot, UniformSource, UniformUpload,
};
use makepad_platform::vulkan::frame_resources::{
    frame_pool_sizes, set_allocated, DescriptorSetRequest, FrameResources, SlicePlan,
    FRAME_POOL_SETS,
};
use makepad_platform::vulkan::geometry::{
    geometry_id_is_live, GeometryCache, GeometryId, GeometryPlan, GeometryState,
    VulkanGeometryResource,
};
use makepad_platform::vulkan::pipeline_build::VulkanPipeline;
use makepad_platform::vulkan::power::checked_next_power_of_two;

fn buffer(id: u64, size: u64) -> VulkanBuffer {
    VulkanBuffer {
        buffer: id,
        memory: id + 1,
        size,
    }
}

fn call(id: u64) -> DrawCall {
    DrawCall {
        id,
        has_os_shader: true,
        has_vulkan_shader: true,
        has_spirv: true,
        instance_slots: 4,
        instance_len: Some(8),
        has_geometry: true,
        geometry_vertices: 4,
        geometry_indices: 6,
        uses_time: false,
    }
}

fn shader() -> ShaderBindings {
    ShaderBindings {
        texture_base: 10,
        sampler_base: 20,
        xr_depth: 30,
        remaps: vec![CombinedRemap {
            texture_binding: 11,
            sampler_binding: 21,
        }],
        interface: Vec::new(),
    }
}

fn texture(view: u64, sampler: Option<u64>, ycbcr: bool) -> BoundTexture {
    BoundTexture {
        view,
        layout: 5,
        sampler,
        ycbcr,
    }
}

#[test]
fn sizes_are_aligned() {
    assert_eq!(align_device_size(0, 256), 0);
    assert_eq!(align_device_size(1, 256), 256);
    assert_eq!(align_device_size(512, 256), 512);
    assert_eq!(align_device_size(7, 0), 7);
    assert_eq!(align_device_size(7, 1), 7);
}

#[test]
fn powers_of_two_are_found() {
    assert_eq!(checked_next_power_of_two(0), Some(1));
    assert_eq!(checked_next_power_of_two(5), Some(8));
    assert_eq!(checked_next_power_of_two(1 << 63), Some(1 << 63));
    assert_eq!(checked_next_power_of_two((1 << 63) + 1), None);
}

#[test]
fn first_fitting_memory_type_is_used() {
    assert_eq!(find_memory_type(&[1, 6, 7], 0b111, 6), Ok(1));
    assert_eq!(find_memory_type(&[1, 6, 7], 0b100, 6), Ok(2));
    let error = find_memory_type(&[1], 0b1, 6).expect_err("no such memory");
    assert!(error.contains("HOST_VISIBLE"));
}

#[test]
fn host_buffer_is_made_step_by_step() {
    let (run, request) = create_host_buffer(100);
    assert!(matches!(request, HostBufferRequest::Create { size: 100 }));
    let (run, request) = run.advance(HostBufferEvent::Created(5));
    assert!(matches!(
        request,
        HostBufferRequest::QueryRequirements { buffer: 5 }
    ));
    let (run, request) = run.advance(HostBufferEvent::Requirements {
        memory_types: vec![6],
        type_bits: 1,
        size: 128,
    });
    assert!(matches!(
        request,
        HostBufferRequest::Allocate {
            size: 128,
            memory_type: 0
        }
    ));
    let (run, request) = run.advance(HostBufferEvent::Allocated(9));
    assert!(matches!(
        request,
        HostBufferRequest::Bind {
            buffer: 5,
            memory: 9
        }
    ));
    let (_, request) = run.advance(HostBufferEvent::Bound);
    let made = match request {
        HostBufferRequest::Ready(made) => made,
        _ => panic!("the buffer is bound"),
    };
    let upload = create_host_buffer_with_data(made, 100).expect("there are bytes");
    assert_eq!(upload.memory, 9);
    assert_eq!(upload.copy_len, 100);
    assert_eq!(
        destroy_buffer(made),
        vec![
            BufferRelease::DestroyBuffer(5),
            BufferRelease::FreeMemory(9)
        ]
    );
}

#[test]
fn failed_binding_gives_back_buffer_and_memory() {
    let (run, _) = create_host_buffer(16);
    let (run, _) = run.advance(HostBufferEvent::Created(5));
    let (run, _) = run.advance(HostBufferEvent::Requirements {
        memory_types: vec![6],
        type_bits: 1,
        size: 16,
    });
    let (run, _) = run.advance(HostBufferEvent::Allocated(9));
    let (_, request) = run.advance(HostBufferEvent::Failed(-2));
    match request {
        HostBufferRequest::Failed { releases, message } => {
            assert_eq!(releases.len(), 2);
            assert!(message.ends_with("ERROR_OUT_OF_DEVICE_MEMORY"));
        }
        _ => panic!("binding failed"),
    }
}

#[test]
fn slices_share_a_buffer_until_it_is_full() {
    let mut frame = FrameResources::new();
    let plan = frame.alloc_frame_packet_slice(100, 256);
    let size = match plan {
        SlicePlan::Grow { replaced, size } => {
            assert!(replaced.is_none());
            size
        }
        _ => panic!("there is no buffer yet"),
    };
    assert_eq!(size, 0x1_0000);
    assert_eq!(frame.packets.take_grown(buffer(1, size), 100), 0);
    assert_eq!(
        frame.alloc_frame_packet_slice(100, 256),
        SlicePlan::Ready {
            buffer: buffer(1, size),
            offset: 256
        }
    );
    let releases = frame.recycle_owned_frame_resources();
    assert!(releases.is_empty());
    assert_eq!(frame.packets.used, 0);
    let releases = frame.destroy_owned_frame_resources();
    assert_eq!(releases.buffers, vec![buffer(1, size)]);
}

#[test]
fn uploads_keep_a_full_buffer_until_the_frame_is_over() {
    let mut frame = FrameResources::new();
    let size = match frame.alloc_frame_texture_upload_slice(10) {
        SlicePlan::Grow { size, .. } => size,
        _ => panic!("there is no buffer yet"),
    };
    assert_eq!(size, 0x80_0000);
    frame.uploads.take_grown(buffer(1, size), 10);
    match frame.alloc_frame_texture_upload_slice(size) {
        SlicePlan::Grow { replaced, .. } => assert!(replaced.is_none()),
        _ => panic!("the buffer is full"),
    }
    assert_eq!(frame.buffers, vec![buffer(1, size)]);
}

#[test]
fn full_pool_is_answered_with_a_new_one_once() {
    let mut frame = FrameResources::new();
    assert_eq!(
        frame.alloc_frame_descriptor_set(),
        DescriptorSetRequest::CreatePool { retry: false }
    );
    assert_eq!(
        frame.pool_created(false, Ok(7)),
        Ok(DescriptorSetRequest::Allocate {
            pool: 7,
            retry: false
        })
    );
    assert_eq!(
        set_allocated(false, Err(-1_000_069_000)),
        Ok(DescriptorSetRequest::CreatePool { retry: true })
    );
    assert!(set_allocated(true, Err(-1_000_069_000)).is_err());
    assert!(set_allocated(false, Err(-4)).is_err());
    assert_eq!(
        set_allocated(false, Ok(3)),
        Ok(DescriptorSetRequest::Ready(3))
    );
    assert_eq!(FRAME_POOL_SETS, 2048);
    assert_eq!(frame_pool_sizes().len(), 4);
}

#[test]
fn geometry_is_uploaded_and_dropped() {
    let id = GeometryId {
        slot: 1,
        generation: 4,
    };
    assert!(geometry_id_is_live(&[0, 4], id));
    assert!(!geometry_id_is_live(&[0, 5], id));
    assert!(!geometry_id_is_live(&[0], id));
    let mut cache = GeometryCache::new();
    let mut state = GeometryState {
        vertices: 12,
        indices: 6,
        dirty_vertices: true,
        dirty_indices: true,
        dirty: true,
    };
    let existing = match cache.ensure_geometry_resource(id, &mut state) {
        GeometryPlan::Upload {
            existing,
            vertices,
            indices,
        } => {
            assert!(vertices && indices);
            existing
        }
        GeometryPlan::Empty { .. } => panic!("there are vertices"),
    };
    let replaced = cache
        .geometry_uploaded(
            id,
            &mut state,
            existing,
            Some(buffer(1, 48)),
            Some(buffer(3, 24)),
        )
        .expect("both buffers are there");
    assert!(replaced.is_empty());
    assert!(!state.dirty);
    let resource = cache.get(id).expect("it was uploaded");
    assert_eq!(resource.index_buffer, buffer(3, 24));
    let gone = cache.prune_stale_geometry_resources(&[0, 5]);
    assert_eq!(gone, vec![resource]);
    assert!(cache.get(id).is_none());
    assert!(cache.destroy_geometry_resources().is_empty());
}

#[test]
fn draw_lists_are_walked() {
    let list = DrawList {
        reset_zbias: false,
        items: vec![
            DrawItem::Call(call(1)),
            DrawItem::SubList(DrawList {
                reset_zbias: false,
                items: vec![
                    DrawItem::Call(DrawCall {
                        has_spirv: false,
                        ..call(2)
                    }),
                    DrawItem::Call(call(3)),
                ],
            }),
            DrawItem::Call(DrawCall {
                instance_len: Some(3),
                ..call(4)
            }),
            DrawItem::Call(DrawCall {
                uses_time: true,
                ..call(5)
            }),
        ],
    };
    let mut plan = DrawPlan::new();
    plan.record_draw_list(&list);
    let drawn: Vec<u64> = plan
        .visited
        .iter()
        .filter(|visited| visited.drawn)
        .map(|visited| visited.id)
        .collect();
    assert_eq!(drawn, vec![1, 3, 5]);
    assert_eq!(plan.stats.packets_recorded, 3);
    assert_eq!(plan.stats.instances, 6);
    assert_eq!(plan.stats.skipped_missing_spirv, 1);
    assert_eq!(plan.stats.skipped_instances_too_short, 1);
    assert!(plan.uses_time);
}

#[test]
fn entries_are_ordered_by_binding_and_the_first_counts() {
    let entry = |binding, value| Bound { binding, value };
    let list = vec![entry(3, 'a'), entry(1, 'b'), entry(3, 'c'), entry(0, 'd')];
    let ordered = order_by_binding(&list);
    assert_eq!(ordered, vec![entry(0, 'd'), entry(1, 'b'), entry(3, 'a')]);
}

#[test]
fn packets_are_planned() {
    let uniforms = PacketUniforms {
        bindings: vec![
            (UniformSource::DrawCall, 2),
            (UniformSource::Pass, 0),
            (UniformSource::Unknown, 1),
        ],
        pass_len: 16,
        draw_list_len: 0,
        draw_call_len: 4,
        dynamic_binding: 2,
        dynamic_len: 8,
        scope_binding: Some(5),
        scope_len: 1,
    };
    let plan = plan_packet(&uniforms, 3, 4, 9, 6, 64).expect("it draws");
    assert_eq!(plan.instance_count, 2);
    assert_eq!(plan.alignment, 64);
    assert_eq!(plan.layout.instances_bytes, 36);
    let placed: Vec<(u32, u64, u64)> = plan
        .layout
        .uniforms
        .iter()
        .map(|uniform| (uniform.binding, uniform.offset, uniform.size))
        .collect();
    assert_eq!(placed, vec![(0, 64, 64), (2, 128, 16), (5, 192, 4)]);
    assert_eq!(plan.layout.uniforms[1].source, UniformSource::DrawCall);
    assert_eq!(plan.layout.span, 196);
    assert!(plan_packet(&uniforms, 0, 4, 9, 6, 64).is_none());
    assert!(plan_packet(&uniforms, 3, 4, 3, 6, 64).is_none());
    assert!(plan_packet(&uniforms, 3, 4, 9, 0, 64).is_none());
    assert_eq!(packet_instances(1, 1, 7, 3), Some(7));
}

#[test]
fn empty_packets_have_four_bytes() {
    let uploads: Vec<Bound<UniformUpload>> = Vec::new();
    assert_eq!(lay_out_packet(0, &uploads, 4).span, 4);
}

#[test]
fn descriptors_of_a_packet_are_written() {
    let slots = vec![
        TextureSlot {
            texture: Some(texture(100, None, false)),
            sampler_index: 0,
        },
        TextureSlot {
            texture: Some(texture(101, Some(55), true)),
            sampler_index: 1,
        },
    ];
    let uniforms = vec![PlacedUniform {
        binding: 0,
        source: UniformSource::Pass,
        offset: 64,
        size: 16,
    }];
    let samplers = vec![70, 71, 72];
    let result = record_draw_packet(&shader(), 9, true, &uniforms, 256, &slots, &samplers);
    let writes = match result {
        Ok(PacketDescriptors::Write(writes)) => writes,
        _ => panic!("everything is there"),
    };
    assert_eq!(
        writes,
        vec![
            DescriptorWrite::Uniform {
                binding: 0,
                offset: 320,
                range: 16
            },
            DescriptorWrite::Texture {
                binding: 10,
                descriptor: 2,
                view: 100,
                layout: 5,
                sampler: 0
            },
            DescriptorWrite::Texture {
                binding: 11,
                descriptor: 1,
                view: 101,
                layout: 5,
                sampler: 55
            },
            DescriptorWrite::Sampler {
                binding: 20,
                sampler: 70
            },
            DescriptorWrite::Sampler {
                binding: 22,
                sampler: 72
            },
            DescriptorWrite::XrDepth { binding: 30 },
        ]
    );
    assert_eq!(descriptor_write_type(&writes[0]), 6);
    assert_eq!(descriptor_write_type(&writes[2]), 1);
}

#[test]
fn video_sampler_takes_the_place_of_a_pipelines_own() {
    let slots = vec![TextureSlot {
        texture: Some(texture(100, Some(55), false)),
        sampler_index: 0,
    }];
    let result = record_draw_packet(&shader(), 9, true, &Vec::new(), 0, &slots, &vec![70]);
    match result {
        Ok(PacketDescriptors::Write(writes)) => assert_eq!(
            writes[1],
            DescriptorWrite::Sampler {
                binding: 20,
                sampler: 55
            }
        ),
        _ => panic!("everything is there"),
    }
}

#[test]
fn packets_without_descriptors_or_textures() {
    let missing = vec![TextureSlot {
        texture: None,
        sampler_index: 0,
    }];
    assert!(matches!(
        record_draw_packet(&shader(), 9, true, &Vec::new(), 0, &missing, &Vec::new()),
        Ok(PacketDescriptors::Skip)
    ));
    assert!(matches!(
        record_draw_packet(&shader(), 9, false, &Vec::new(), 0, &Vec::new(), &Vec::new()),
        Ok(PacketDescriptors::Unbound)
    ));
    assert!(matches!(
        record_draw_packet(&shader(), 9, true, &Vec::new(), 0, &Vec::new(), &Vec::new()),
        Err(message) if message
            == "shader 9 expects descriptors but no descriptor payloads were built"
    ));
}

#[test]
fn null_textures_fill_in_by_shape() {
    let flat = Some(texture(1, None, false));
    let cube = Some(texture(2, None, false));
    let own = Some(texture(3, None, false));
    assert_eq!(resolve_texture(own, true, flat, cube), own);
    assert_eq!(resolve_texture(None, true, flat, cube), cube);
    assert_eq!(resolve_texture(None, false, flat, cube), flat);
}

#[test]
fn packet_commands_come_in_order() {
    let draw = PacketDraw {
        pipeline: 1,
        pipeline_layout: 2,
        set: Some(3),
        vertex_buffer: 4,
        packet_buffer: 5,
        packet_offset: 256,
        index_buffer: 6,
        index_count: 12,
        instance_count: 2,
    };
    assert_eq!(
        draw.list_commands(),
        vec![
            DrawCommand::BindPipeline { pipeline: 1 },
            DrawCommand::BindSet { layout: 2, set: 3 },
            DrawCommand::BindVertexBuffers {
                vertices: 4,
                instances: 5,
                instances_offset: 256
            },
            DrawCommand::BindIndexBuffer {
                indices: 6,
                index_type: 1
            },
            DrawCommand::DrawIndexed {
                index_count: 12,
                instance_count: 2,
                first_index: 0,
                vertex_offset: 0,
                first_instance: 0
            },
        ]
    );
}

#[test]
fn textures_are_asked_for_by_slot() {
    let requests = collect_texture_requests(
        &vec![Some(5), None, None, Some(9)],
        &vec![true, true, false],
        &vec![2, 1],
        100,
        200,
    );
    assert_eq!(
        requests,
        [
            TextureRequest {
                texture_key: 5,
                is_cube: true,
                sampler_index: 2
            },
            TextureRequest {
                texture_key: 200,
                is_cube: true,
                sampler_index: 1
            },
            TextureRequest {
                texture_key: 100,
                is_cube: false,
                sampler_index: 0
            },
        ]
    );
}

#[test]
fn dynamic_uniforms_are_cut_to_what_is_declared() {
    assert_eq!(dynamic_uniform_len(4, 9), 4);
    assert_eq!(dynamic_uniform_len(9, 4), 4);
    assert_eq!(dynamic_uniform_len(0, 4), 0);
}

#[test]
fn indices_are_counted_in_32_bits() {
    assert_eq!(drawn_index_count(6), 6);
    assert_eq!(drawn_index_count(0x1_0000_0005), 5);
    let mut plan = DrawPlan::new();
    let mut large = call(1);
    large.geometry_indices = 0x1_0000_0000;
    large.uses_time = true;
    plan.record_draw_list(&DrawList {
        reset_zbias: false,
        items: vec![DrawItem::Call(large), DrawItem::Call(call(2))],
    });
    assert_eq!(plan.stats.packets_recorded, 2);
    assert_eq!(plan.stats.indices, 6);
    assert!(plan.visited[0].uses_time && !plan.visited[1].uses_time);
}

#[test]
fn packet_is_drawn_with_what_was_planned() {
    let uniforms = PacketUniforms {
        bindings: Vec::new(),
        pass_len: 0,
        draw_list_len: 0,
        draw_call_len: 0,
        dynamic_binding: 0,
        dynamic_len: 0,
        scope_binding: None,
        scope_len: 0,
    };
    let plan = plan_packet(&uniforms, 3, 4, 8, 6, 16).expect("it draws");
    let pipeline = VulkanPipeline {
        pipeline_write: 1,
        pipeline_no_write: 2,
        layout: 3,
        descriptor_set_layout: 4,
        has_descriptors: true,
        sampler_handles: Vec::new(),
    };
    let geometry = VulkanGeometryResource {
        vertex_buffer: buffer(10, 64),
        index_buffer: buffer(20, 64),
    };
    let draw = PacketDraw::new(
        &plan,
        &pipeline,
        false,
        Some(7),
        geometry,
        buffer(30, 256),
        64,
        6,
    );
    assert_eq!((draw.pipeline, draw.pipeline_layout, draw.set), (2, 3, Some(7)));
    assert_eq!((draw.vertex_buffer, draw.index_buffer), (10, 20));
    assert_eq!((draw.packet_buffer, draw.packet_offset), (30, 64));
    assert_eq!((draw.index_count, draw.instance_count), (6, 2));
}

#[test]
fn visited_call_has_its_depth_and_no_marks() {
    let mut state = DrawCallState {
        zbias: 0,
        instance_dirty: true,
        uniforms_dirty: true,
    };
    state.visited_at(0.25f32.to_bits());
    assert_eq!(
        state,
        DrawCallState {
            zbias: 0.25f32.to_bits(),
            instance_dirty: false,
            uniforms_dirty: false,
        }
    );
}

#[test]
fn every_item_of_a_list_is_counted_once() {
    let mut unshaded = call(2);
    unshaded.has_os_shader = false;
    let list = DrawList {
        reset_zbias: false,
        items: vec![
            DrawItem::Call(call(1)),
            DrawItem::Missing,
            DrawItem::SubList(DrawList {
                reset_zbias: true,
                items: vec![DrawItem::Call(unshaded), DrawItem::Other],
            }),
        ],
    };
    let mut plan = DrawPlan::new();
    plan.record_draw_list(&list);
    let stats = plan.stats;
    assert_eq!(stats.draw_calls, 2);
    assert_eq!(
        stats.draw_calls,
        stats.packets_recorded + stats.skipped_no_os_shader
    );
    assert_eq!(
        stats.draw_items,
        stats.draw_calls + stats.skipped_non_draw_call + 1
    );
}
