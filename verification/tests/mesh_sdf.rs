use makepad_platform::vulkan::buffers::VulkanBuffer;
use makepad_platform::vulkan::mesh_sdf_buffers::{
    write_xr_f32_mesh_sdf_host_buffer, xr_f32_mesh_sdf_capacity_byte_len, BufferPlan,
    MeshSdfBuffers,
};
use makepad_platform::vulkan::mesh_sdf_probe::{
    complete_xr_f32_mesh_sdf_probe, mesh_sdf_scripts, submit_xr_f32_mesh_sdf_probe_async,
    MeshSdfDetail, XrGpuF32MeshSdfProbeGrid,
};
use makepad_platform::vulkan::pending::PendingProbes;
use makepad_platform::vulkan::probe_program::{EnsureProgram, ProgramCache};
use makepad_platform::vulkan::script::{Acquired, Release, Slot};
use makepad_platform::vulkan::serials::SubmitSerials;

fn buffer(id: u64, size: u64) -> VulkanBuffer {
    VulkanBuffer {
        buffer: id,
        memory: id + 1,
        size,
    }
}

fn grid() -> XrGpuF32MeshSdfProbeGrid {
    XrGpuF32MeshSdfProbeGrid {
        dimensions: [4, 3, 2],
        origin_voxel_size: [0, 0, 0, 0.5f32.to_bits()],
    }
}

#[test]
fn mesh_sdf_derived_capacity_rounds_small_growth_to_same_buffer_size() {
    assert_eq!(xr_f32_mesh_sdf_capacity_byte_len(5_808), 8_192);
    assert_eq!(xr_f32_mesh_sdf_capacity_byte_len(6_292), 8_192);
}

#[test]
fn mesh_sdf_derived_capacity_handles_exact_powers_and_overflow() {
    assert_eq!(xr_f32_mesh_sdf_capacity_byte_len(8_192), 8_192);
    assert_eq!(xr_f32_mesh_sdf_capacity_byte_len(8_193), 16_384);
    assert_eq!(xr_f32_mesh_sdf_capacity_byte_len(u64::MAX), u64::MAX);
}

#[test]
fn derived_buffers_serve_a_mesh_that_grows_a_little() {
    let mut buffers = MeshSdfBuffers::new();
    let plan = buffers.prepare_xr_f32_mesh_sdf_derived_buffers(false, 5_808, 96);
    let generation = match plan {
        BufferPlan::Rebuild {
            generation,
            release,
        } => {
            assert!(release.is_none());
            generation
        }
        _ => panic!("nothing is resident yet"),
    };
    assert_eq!(generation, 1);
    buffers.install_derived(generation, 5_808, 96, buffer(10, 8_192), buffer(20, 128));
    let again = buffers.prepare_xr_f32_mesh_sdf_derived_buffers(false, 6_292, 96);
    assert!(matches!(again, BufferPlan::Reuse));
    let used = buffers
        .derived_use(again, 6_292, 96)
        .expect("the buffers are there");
    assert!(used.resident && used.reused);
    assert_eq!(used.generation, 1);
    let grown = buffers.prepare_xr_f32_mesh_sdf_derived_buffers(false, 8_193, 96);
    match grown {
        BufferPlan::Rebuild {
            generation,
            release,
        } => {
            assert_eq!(generation, 2);
            assert_eq!(release, Some((buffer(20, 128), buffer(10, 8_192))));
        }
        _ => panic!("the buffer is too small"),
    }
}

#[test]
fn pending_reader_gets_buffers_of_its_own() {
    let mut buffers = MeshSdfBuffers::new();
    let plan = buffers.prepare_xr_f32_mesh_sdf_source_mesh_buffers(true, 640, 320);
    assert!(matches!(plan, BufferPlan::Owned));
    let used = buffers.source_use(plan, 640, 320).expect("owned buffers");
    assert!(!used.resident && !used.reused);
    assert!(buffers
        .destroy_xr_f32_mesh_sdf_probe_source_mesh_buffers()
        .is_none());
}

#[test]
fn host_buffer_writes_must_fit() {
    let small = buffer(7, 16);
    assert!(write_xr_f32_mesh_sdf_host_buffer(small, 17, "vertices").is_err());
    let upload = write_xr_f32_mesh_sdf_host_buffer(small, 16, "vertices")
        .expect("it fits")
        .expect("there are bytes");
    assert_eq!(upload.memory, 8);
    assert_eq!(upload.copy_len, 16);
}

#[test]
fn mesh_sdf_probe_refuses_what_it_cannot_run() {
    assert!(submit_xr_f32_mesh_sdf_probe_async(0, 1, grid(), &[0], 1, 0).is_err());
    assert!(submit_xr_f32_mesh_sdf_probe_async(3, 0, grid(), &[0], 1, 0).is_err());
    let flat = XrGpuF32MeshSdfProbeGrid {
        dimensions: [0, 3, 2],
        origin_voxel_size: [0, 0, 0, 0.5f32.to_bits()],
    };
    assert!(submit_xr_f32_mesh_sdf_probe_async(3, 1, flat, &[0], 1, 0).is_err());
}

#[test]
fn mesh_sdf_probe_runs_to_its_result() {
    let plan = match submit_xr_f32_mesh_sdf_probe_async(3, 1, grid(), &[0, 5], 2, 0) {
        Ok(plan) => plan,
        Err(message) => panic!("{message}"),
    };
    assert_eq!(plan.voxel_count, 24);
    assert_eq!(plan.distance_bytes, 96);
    assert_eq!(plan.sample_indices[..2], [0, 5]);
    let (mut setup, mut commands) = mesh_sdf_scripts(&plan, false, 3 * 64, 16);
    let mut handle = 100;
    while setup.next().is_some() {
        setup.succeed(handle, 0);
        handle += 1;
    }
    let mut serials = SubmitSerials {
        submitted: 6,
        completed: 6,
    };
    while commands.next().is_some() {
        commands.succeed(&mut serials);
    }
    assert_eq!(serials.submitted, 7);

    let mut cache = ProgramCache::new();
    let program = match cache.ensure_xr_f32_mesh_sdf_probe_program() {
        EnsureProgram::Build(mut build) => {
            while build.next().is_some() {
                build.succeed(handle, 0);
                handle += 1;
            }
            cache.install(build.acquired)
        }
        EnsureProgram::Reuse(_) => panic!("no program was built"),
    };
    assert!(!program.program_reused && program.pipeline_created_this_submit);
    assert!(matches!(
        cache.ensure_xr_f32_mesh_sdf_probe_program(),
        EnsureProgram::Reuse(used) if used.program_reused
    ));

    let mut buffers = MeshSdfBuffers::new();
    let source = buffers
        .source_use(BufferPlan::Owned, 3 * 64, 16)
        .expect("owned");
    let derived = buffers
        .derived_use(BufferPlan::Owned, plan.position_bytes, plan.distance_bytes)
        .expect("owned");
    assert!(buffers
        .destroy_xr_f32_mesh_sdf_probe_derived_buffers()
        .is_none());
    let sample_count = plan.sample_count;
    let mut pending = PendingProbes::new();
    let ticket = pending.submit(
        7,
        setup.acquired,
        MeshSdfDetail {
            vertex_count: plan.vertex_count,
            triangle_count: plan.triangle_count,
            voxel_count: plan.voxel_count,
            sample_count,
            sample_indices: plan.sample_indices,
            expected_distances: vec![1.0f32.to_bits(); sample_count],
            tolerance: plan.tolerance,
            program,
            source,
            derived,
        },
    );
    assert_eq!(ticket.queue_submit_serial, 7);
    let index = pending.poll(ticket.request_id).expect("it is pending");
    let dense = vec![1.0f32.to_bits(); 24];
    let differences = vec![0u32; sample_count];
    let result =
        match complete_xr_f32_mesh_sdf_probe(&mut pending, index, true, &dense, &differences) {
            Ok(result) => result,
            Err(message) => panic!("{message}"),
        };
    assert_eq!(result.mismatched_samples, 0);
    assert_eq!(result.voxel_count, 24);
    assert_eq!(result.output_distances[0], 1.0f32.to_bits());
    assert!(pending.poll(ticket.request_id).is_none() || !pending.has_pending());
}

#[test]
fn program_cache_gives_its_program_back() {
    let mut cache = ProgramCache::new();
    cache.install(vec![Acquired {
        slot: Slot::Module,
        release: Release::ShaderModule,
        handle: 4,
        memory: 0,
    }]);
    let releases = cache.take_releases();
    assert_eq!(releases.len(), 1);
    assert_eq!(releases[0].handle, 4);
    assert!(cache.take_releases().is_empty());
}
