use makepad_platform::float_bits::{
    equal_f64, is_at_least_f64, is_below_half_f64, is_finite_f32, is_finite_positive_f32,
    is_zero_f64, sanitize_tolerance, tally_differences,
};
use makepad_platform::text::{decimal, upper_hex};
use makepad_platform::vulkan::compute_probe::{
    expected_xr_gpu_f32_force_probe_accelerations, expected_xr_gpu_u32_compute_probe_words,
    finish_xr_f32_force_probe, finish_xr_storage_buffer_probe, finish_xr_u32_compute_probe,
    submit_xr_f32_force_probe, submit_xr_storage_buffer_probe, submit_xr_u32_compute_probe,
    ForceReadback, Readback, XrGpuF32ForceProbeSample,
};
use makepad_platform::vulkan::field_force_probe::{
    finish_xr_f32_field_force_sample_probe, submit_xr_f32_field_force_sample_probe, FieldForceRun,
    ResidentField, XrGpuF32FieldForceSampleProbeResult,
};
use makepad_platform::vulkan::pending::{start_wait, PendingProbes};
use makepad_platform::vulkan::probe_program::{EnsureProgram, ProgramCache, ProgramUse};
use makepad_platform::vulkan::programs::{entry_point, wgsl};
use makepad_platform::vulkan::retained::RetainedProbes;
use makepad_platform::vulkan::script::{
    Acquired, CommandRun, ComputeProgram, DeviceOp, Release, Setup, Slot, StepFailure,
};
use makepad_platform::vulkan::serials::SubmitSerials;
use makepad_platform::vulkan::skinning_probe::{
    complete_xr_f32_skinning_mesh_probe, select_sample_indices,
    submit_xr_f32_skinning_mesh_probe_async, workgroups,
};

fn run_setup(mut setup: Setup) -> Vec<Acquired> {
    let mut handle = 1;
    while setup.next().is_some() {
        setup.succeed(handle, handle + 1000);
        handle += 1;
    }
    setup.acquired
}

fn run_commands(commands: &mut CommandRun, serials: &mut SubmitSerials) {
    while commands.next().is_some() {
        commands.succeed(serials);
    }
}

fn sample(acceleration: [f32; 4]) -> XrGpuF32ForceProbeSample {
    XrGpuF32ForceProbeSample {
        position_radius: [0; 4],
        distance_target_strength: [0; 4],
        outward: [0; 4],
        expected_acceleration: acceleration.map(f32::to_bits),
    }
}

#[test]
fn numbers_are_written_out() {
    assert_eq!(decimal(0), "0");
    assert_eq!(decimal(18_446_744_073_709_551_615), "18446744073709551615");
    assert_eq!(upper_hex(0), "0");
    assert_eq!(upper_hex(0xdead_beef), "DEADBEEF");
}

#[test]
fn float_questions_agree_with_floats() {
    let values = [
        0.0f64, -0.0, 0.25, 0.5, 0.49999999999999994, 1.0, -1.0, 859.9, 860.0, 1e300, -1e300,
        f64::INFINITY, f64::NEG_INFINITY, f64::NAN,
    ];
    for a in values {
        assert_eq!(is_below_half_f64(a.to_bits()), a < 0.5);
        assert_eq!(is_zero_f64(a.to_bits()), a == 0.0);
        assert_eq!(is_at_least_f64(a.to_bits(), 860.0f64.to_bits()), a >= 860.0);
        for b in values {
            assert_eq!(equal_f64(a.to_bits(), b.to_bits()), a == b);
        }
    }
    let singles = [
        0.0f32, -0.0, 1e-40, 1.0, -1.0, f32::MAX, f32::INFINITY, f32::NEG_INFINITY, f32::NAN,
    ];
    for a in singles {
        assert_eq!(is_finite_f32(a.to_bits()), a.is_finite());
        assert_eq!(
            is_finite_positive_f32(a.to_bits()),
            a.is_finite() && a > 0.0
        );
        let wanted = if a.is_finite() && a >= 0.0 { a } else { 0.0 };
        assert_eq!(f32::from_bits(sanitize_tolerance(a.to_bits())), wanted);
    }
}

#[test]
fn differences_are_tallied() {
    let differences = [0.0f32, 0.5, 0.25, f32::NAN].map(f32::to_bits);
    let tally = tally_differences(&differences, 0.3f32.to_bits());
    assert_eq!(tally.mismatched, 2);
    let exact = tally_differences(&differences[..3], 0.5f32.to_bits());
    assert_eq!(exact.mismatched, 0);
    assert_eq!(exact.max_abs_error, 0.5f32.to_bits());
}

#[test]
fn failed_setup_gives_back_all_in_reverse() {
    let steps = submit_xr_u32_compute_probe().0.steps.len();
    for failing in 0..steps {
        let mut setup = submit_xr_u32_compute_probe().0;
        for handle in 0..failing {
            setup.succeed(handle as u64 + 1, 0);
        }
        let mut expected: Vec<u64> = setup.acquired.iter().map(|held| held.handle).collect();
        expected.reverse();
        let left = setup.fail(StepFailure::Message("no".to_string()));
        let given: Vec<u64> = left.releases.iter().map(|held| held.handle).collect();
        assert_eq!(given, expected);
        assert_eq!(left.message, "no");
    }
}

#[test]
fn failed_step_names_its_call() {
    let mut setup = submit_xr_u32_compute_probe().0;
    while !matches!(
        setup.next().map(|step| step.op),
        Some(DeviceOp::ShaderModule { .. })
    ) {
        setup.succeed(9, 0);
    }
    let left = setup.fail(StepFailure::Code(-4));
    assert!(left.message.starts_with("create_shader_module("));
    assert!(left.message.ends_with("failed: ERROR_DEVICE_LOST"));
}

#[test]
fn u32_probe_runs_to_its_result() {
    let words = [1, 2, 3, 0xffff_ffff];
    let expected = expected_xr_gpu_u32_compute_probe_words(words);
    let (setup, mut commands) = submit_xr_u32_compute_probe();
    let resources = run_setup(setup);
    let mut serials = SubmitSerials {
        submitted: 4,
        completed: 4,
    };
    run_commands(&mut commands, &mut serials);
    assert_eq!(commands.progress.submit_serial, 5);
    let mut retained = RetainedProbes::new();
    let held = resources.len();
    let result = finish_xr_u32_compute_probe(
        &mut retained,
        resources,
        commands.progress,
        words,
        Readback::Data(expected),
    );
    let result = match result {
        Ok(result) => result,
        Err(message) => panic!("{message}"),
    };
    assert_eq!(result.mismatched_words, 0);
    assert_eq!(result.expected_words, expected);
    assert_eq!(result.queue_submit_serial, 5);
    assert_eq!(result.retained_resource_count, 1);
    let releases = retained.take_releases(77);
    assert_eq!(releases.len(), held);
    assert_eq!(retained.count(), 0);
}

#[test]
fn u32_probe_counts_wrong_words() {
    let words = [5, 6, 7, 8];
    let mut output = expected_xr_gpu_u32_compute_probe_words(words);
    output[2] ^= 1;
    let (setup, mut commands) = submit_xr_u32_compute_probe();
    let resources = run_setup(setup);
    let mut serials = SubmitSerials {
        submitted: 0,
        completed: 0,
    };
    run_commands(&mut commands, &mut serials);
    let mut retained = RetainedProbes::new();
    let result = finish_xr_u32_compute_probe(
        &mut retained,
        resources,
        commands.progress,
        words,
        Readback::Data(output),
    );
    assert!(matches!(result, Ok(result) if result.mismatched_words == 1));
}

#[test]
fn u32_probe_keeps_its_resources_when_reading_fails() {
    let (setup, mut commands) = submit_xr_u32_compute_probe();
    let resources = run_setup(setup);
    let mut serials = SubmitSerials {
        submitted: 0,
        completed: 0,
    };
    run_commands(&mut commands, &mut serials);
    let mut retained = RetainedProbes::new();
    let result = finish_xr_u32_compute_probe(
        &mut retained,
        resources,
        commands.progress,
        [0; 4],
        Readback::MapFailed(-5),
    );
    assert!(matches!(result, Err(message) if message.ends_with("ERROR_MEMORY_MAP_FAILED")));
    assert_eq!(retained.count(), 1);
}

#[test]
fn storage_probe_rounds_to_words() {
    let probe = submit_xr_storage_buffer_probe(10, 0x1234_5678);
    assert_eq!(probe.bytes % 4, 0);
    assert!(probe.bytes >= 10);
    let bytes = probe.bytes;
    let resources = run_setup(probe.setup);
    let mut commands = probe.commands;
    let mut serials = SubmitSerials {
        submitted: 0,
        completed: 0,
    };
    run_commands(&mut commands, &mut serials);
    let mut retained = RetainedProbes::new();
    let words = vec![0x1234_5678u32; (bytes / 4) as usize];
    let result = finish_xr_storage_buffer_probe(
        &mut retained,
        resources,
        10,
        bytes,
        0x1234_5678,
        Readback::Data(words),
    );
    assert!(matches!(
        result,
        Ok(result) if result.mismatched_words == 0 && result.first_word == 0x1234_5678
    ));
}

#[test]
fn force_probe_runs_to_its_result() {
    let samples = [
        sample([0.0, 1.0, 0.0, 0.0]),
        sample([0.5, 0.0, 0.0, 0.0]),
        sample([0.0; 4]),
        sample([0.0, 0.0, 2.0, 0.0]),
    ];
    let expected = expected_xr_gpu_f32_force_probe_accelerations(samples);
    assert_eq!(expected[0], [0.0f32, 1.0, 0.0, 0.0].map(f32::to_bits));
    let probe = submit_xr_f32_force_probe(9, 0.01f32.to_bits());
    assert_eq!(probe.sample_count, 4);
    let resources = run_setup(probe.setup);
    let mut commands = probe.commands;
    let mut serials = SubmitSerials {
        submitted: 0,
        completed: 0,
    };
    run_commands(&mut commands, &mut serials);
    let mut retained = RetainedProbes::new();
    let mut differences = vec![0u32; 12];
    differences[3] = 0.5f32.to_bits();
    let result = finish_xr_f32_force_probe(
        &mut retained,
        resources,
        commands.progress,
        samples,
        probe.sample_count,
        probe.tolerance,
        Readback::Data(ForceReadback {
            output_accelerations: expected,
            differences,
        }),
    );
    let result = match result {
        Ok(result) => result,
        Err(message) => panic!("{message}"),
    };
    assert_eq!(result.mismatched_components, 1);
    assert_eq!(result.max_abs_error, 0.5f32.to_bits());
    assert_eq!(result.component_count, 12);
}

#[test]
fn field_force_probe_needs_a_resident_field() {
    assert!(submit_xr_f32_field_force_sample_probe(None, 4, 0).is_err());
    let field = ResidentField {
        generation: 3,
        dimensions: [2, 2, 2],
        origin_voxel_size: [0, 0, 0, 0.25f32.to_bits()],
        sdf_distance_byte_len: 64,
        logical_voxel_count: Some(8),
        logical_sdf_distance_byte_len: Some(32),
    };
    let probe = match submit_xr_f32_field_force_sample_probe(Some(field), 4, 0) {
        Ok(probe) => probe,
        Err(message) => panic!("{message}"),
    };
    assert_eq!(probe.source_field_generation, 3);
    let resources = run_setup(probe.setup);
    let mut commands = probe.commands;
    let mut serials = SubmitSerials {
        submitted: 1,
        completed: 1,
    };
    run_commands(&mut commands, &mut serials);
    let samples = [sample([0.0; 4]); 4];
    let mut retained = RetainedProbes::new();
    let result = finish_xr_f32_field_force_sample_probe(
        &mut retained,
        resources,
        commands.progress,
        samples,
        FieldForceRun {
            sample_count: probe.sample_count,
            tolerance: probe.tolerance,
            program: ProgramUse {
                generation: 1,
                program_reused: true,
                shader_compiled_this_submit: false,
                pipeline_created_this_submit: false,
            },
            source_field_generation: probe.source_field_generation,
            source_field_buffer_bytes: probe.source_field_buffer_bytes,
        },
        Readback::Data(ForceReadback {
            output_accelerations: [[0; 4]; 4],
            differences: vec![0; 12],
        }),
    );
    assert!(matches!(
        result,
        Ok(result) if result.mismatched_components == 0 && result.source_field_generation == 3
    ));
}

#[test]
fn field_force_probe_refuses_a_flat_grid() {
    let field = ResidentField {
        generation: 1,
        dimensions: [2, 2, 2],
        origin_voxel_size: [0, 0, 0, 0.0f32.to_bits()],
        sdf_distance_byte_len: 64,
        logical_voxel_count: None,
        logical_sdf_distance_byte_len: None,
    };
    assert!(submit_xr_f32_field_force_sample_probe(Some(field), 4, 0).is_err());
}

#[test]
fn workgroups_cover_all_items() {
    assert_eq!(workgroups(1), 1);
    assert_eq!(workgroups(64), 1);
    assert_eq!(workgroups(65), 2);
}

#[test]
fn sample_indices_stay_in_range() {
    let indices = select_sample_indices(&[0, 9, 2], 3, 2);
    assert!(indices.len() <= 3);
    for index in indices {
        assert!(index < 3);
    }
}

#[test]
fn skinning_probe_completes_once() {
    let positions = vec![[0u32; 4]; 3];
    let triangles = vec![[0u32, 1, 2, 0]];
    let probe = match submit_xr_f32_skinning_mesh_probe_async(
        positions.clone(),
        triangles.clone(),
        3 * 64,
        16,
        &[0, 1],
        2,
        0,
    ) {
        Ok(probe) => probe,
        Err(message) => panic!("{message}"),
    };
    let resources = run_setup(probe.setup);
    let mut pending = PendingProbes::new();
    let ticket = pending.submit(1, resources, probe.detail);
    let mut serials = SubmitSerials {
        submitted: 1,
        completed: 0,
    };
    let index = match pending.wait(ticket.request_id, "skinning") {
        Ok(index) => index,
        Err(message) => panic!("{message}"),
    };
    assert_eq!(
        pending.fence_status(index, Ok(false), "skinning", &mut serials),
        Ok(false)
    );
    assert_eq!(serials.completed, 0);
    assert_eq!(
        pending.fence_status(index, Ok(true), "skinning", &mut serials),
        Ok(true)
    );
    assert_eq!(serials.completed, 1);
    let differences = vec![0u32; 9];
    let first = complete_xr_f32_skinning_mesh_probe(
        &mut pending,
        index,
        false,
        &positions,
        &differences,
        &triangles,
    );
    assert!(matches!(
        first,
        Ok(result) if result.mismatched_triangle_indices == 0 && result.vertex_count == 3
    ));
    assert!(!pending.has_pending());
    assert!(pending.wait(ticket.request_id, "skinning").is_err());
}

#[test]
fn empty_meshes_are_not_skinned() {
    assert!(submit_xr_f32_skinning_mesh_probe_async(
        Vec::new(),
        vec![[0; 4]],
        0,
        16,
        &[0],
        1,
        0
    )
    .is_err());
}

#[test]
fn waiting_completes_the_submission() {
    let mut run = start_wait(9, "probe");
    let mut serials = SubmitSerials {
        submitted: 9,
        completed: 2,
    };
    run_commands(&mut run, &mut serials);
    assert_eq!(serials.completed, 9);
    assert_eq!(serials.submitted, 9);
}

#[test]
fn serials_never_go_back() {
    let mut serials = SubmitSerials {
        submitted: u64::MAX,
        completed: 5,
    };
    assert_eq!(serials.record_submit(), u64::MAX);
    serials.record_completion(3);
    assert_eq!(serials.completed, 5);
}

#[test]
fn pending_probes_give_back_what_they_hold() {
    let mut pending: PendingProbes<u8> = PendingProbes::new();
    pending.submit(
        1,
        vec![Acquired {
            slot: Slot::Fence,
            release: Release::Fence,
            handle: 3,
            memory: 0,
        }],
        0,
    );
    assert!(pending.has_pending());
    assert_eq!(pending.count_unfinished(), 1);
    let releases = pending.take_releases(0);
    assert_eq!(releases.len(), 1);
    assert!(!pending.has_pending());
}

fn sample_field(
    cache: &mut ProgramCache,
    serials: &mut SubmitSerials,
    retained: &mut RetainedProbes,
    sample_count: usize,
) -> XrGpuF32FieldForceSampleProbeResult {
    let field = ResidentField {
        generation: 3,
        dimensions: [2, 2, 2],
        origin_voxel_size: [0, 0, 0, 0.25f32.to_bits()],
        sdf_distance_byte_len: 64,
        logical_voxel_count: Some(8),
        logical_sdf_distance_byte_len: Some(32),
    };
    let probe = submit_xr_f32_field_force_sample_probe(Some(field), sample_count, 0)
        .ok()
        .expect("there is a field");
    let program = match cache.ensure_xr_f32_field_force_sample_probe_program() {
        EnsureProgram::Reuse(program) => program,
        EnsureProgram::Build(setup) => cache.install(run_setup(setup)),
    };
    let run = probe.run_with(program);
    let resources = run_setup(probe.setup);
    let mut commands = probe.commands;
    run_commands(&mut commands, serials);
    finish_xr_f32_field_force_sample_probe(
        retained,
        resources,
        commands.progress,
        [sample([0.0; 4]); 4],
        run,
        Readback::Data(ForceReadback {
            output_accelerations: [[0; 4]; 4],
            differences: vec![0; run.sample_count * 3],
        }),
    )
    .expect("it is read")
}

#[test]
fn second_field_force_probe_reuses_the_program() {
    let mut cache = ProgramCache::new();
    let mut retained = RetainedProbes::new();
    let mut serials = SubmitSerials {
        submitted: 4,
        completed: 4,
    };
    let first = sample_field(&mut cache, &mut serials, &mut retained, 1);
    assert!(!first.program.program_reused);
    assert!(first.program.shader_compiled_this_submit);
    let second = sample_field(&mut cache, &mut serials, &mut retained, 9);
    assert!(second.program.program_reused);
    assert!(!second.program.shader_compiled_this_submit);
    assert!(!second.program.pipeline_created_this_submit);
    assert_eq!(second.program.generation, first.program.generation);
    assert!(second.queue_submit_serial > first.queue_submit_serial);
    assert_eq!(second.fence_serial, second.queue_submit_serial);
    assert_eq!((first.sample_count, second.sample_count), (1, 4));
}

#[test]
fn programs_start_where_they_say() {
    for program in [
        ComputeProgram::U32Words,
        ComputeProgram::ForceSamples,
        ComputeProgram::FieldForceSamples,
        ComputeProgram::SkinningMesh,
        ComputeProgram::MeshSdfSkinning,
        ComputeProgram::MeshSdfBuild,
    ] {
        let start = format!("fn {}(", entry_point(program));
        assert!(wgsl(program).contains(&start));
    }
    assert_eq!(entry_point(ComputeProgram::MeshSdfSkinning), "skin_main");
    assert!(wgsl(ComputeProgram::U32Words).contains("1576054257u"));
}

#[test]
fn failed_commands_give_back_the_latest_first() {
    let acquired = |handle| Acquired {
        slot: Slot::Input,
        release: Release::Buffer,
        handle,
        memory: handle + 1,
    };
    let mut pending: PendingProbes<u8> = PendingProbes::new();
    let left = pending
        .commands_ended(
            Err("lost".to_string()),
            1,
            vec![acquired(1), acquired(5)],
            0,
        )
        .err()
        .expect("the commands failed");
    assert_eq!(left.message, "lost");
    assert_eq!(left.releases, vec![acquired(5), acquired(1)]);
    assert!(!pending.has_pending());
    let ticket = pending
        .commands_ended(Ok(()), 7, vec![acquired(1)], 0)
        .ok()
        .expect("the commands succeeded");
    assert_eq!((ticket.request_id, ticket.resource_generation), (7, 1));
    assert!(pending.has_pending());
}
