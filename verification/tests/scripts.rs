use makepad_platform::vulkan::compute_probe::{
    submit_xr_f32_force_probe, submit_xr_storage_buffer_probe, submit_xr_u32_compute_probe,
};
use makepad_platform::vulkan::field_force_probe::{
    submit_xr_f32_field_force_sample_probe, ResidentField,
};
use makepad_platform::vulkan::mesh_sdf_probe::{
    mesh_sdf_scripts, submit_xr_f32_mesh_sdf_probe_async, XrGpuF32MeshSdfProbeGrid,
};
use makepad_platform::vulkan::probe_program::{EnsureProgram, ProgramCache};
use makepad_platform::vulkan::script::{Access, DeviceOp, Slot, Stage, Step};
use makepad_platform::vulkan::serials::SubmitSerials;
use makepad_platform::vulkan::skinning_probe::submit_xr_f32_skinning_mesh_probe_async;

fn used(op: DeviceOp) -> Vec<Slot> {
    match op {
        DeviceOp::ShaderModule { code } => vec![code],
        DeviceOp::PipelineLayout { set_layout } => vec![set_layout],
        DeviceOp::ComputePipeline { module, layout, .. } => vec![module, layout],
        DeviceOp::DescriptorSet { pool, layout } => vec![pool, layout],
        DeviceOp::QueueStorageWrite { buffer, .. } => vec![buffer, Slot::Descriptors],
        DeviceOp::UpdateSets => vec![Slot::Descriptors],
        DeviceOp::QueueBarrier { buffer, .. } => vec![buffer, Slot::Commands],
        DeviceOp::BindPipeline { pipeline } => vec![pipeline, Slot::Commands],
        DeviceOp::BindSet { layout } => vec![layout, Slot::Descriptors, Slot::Commands],
        DeviceOp::FillBuffer { buffer, .. } => vec![buffer, Slot::Commands],
        DeviceOp::CopyBuffer { from, to, .. } => vec![from, to, Slot::Commands],
        DeviceOp::Dispatch { .. } | DeviceOp::BeginCommands | DeviceOp::EndCommands => {
            vec![Slot::Commands]
        }
        DeviceOp::Submit { .. } => vec![Slot::Commands, Slot::Fence],
        DeviceOp::WaitFence { .. } => vec![Slot::Fence],
        _ => Vec::new(),
    }
}

fn leaves_something(op: DeviceOp) -> bool {
    matches!(
        op,
        DeviceOp::CompileShader { .. }
            | DeviceOp::HostBuffer { .. }
            | DeviceOp::HostBufferWithData { .. }
            | DeviceOp::ShaderModule { .. }
            | DeviceOp::StorageSetLayout { .. }
            | DeviceOp::PipelineLayout { .. }
            | DeviceOp::ComputePipeline { .. }
            | DeviceOp::StoragePool { .. }
            | DeviceOp::DescriptorSet { .. }
            | DeviceOp::CommandBuffer
            | DeviceOp::Fence
    )
}

/// Walks the steps, and returns the slots that hold something afterwards.
fn walk(mut held: Vec<Slot>, steps: &[Step]) -> Vec<Slot> {
    for step in steps {
        for slot in used(step.op) {
            assert!(held.contains(&slot), "{slot:?} is not there for {:?}", step.op);
        }
        if leaves_something(step.op) {
            held.push(step.slot);
        }
    }
    held
}

/// The buffers that the host may read after the commands.
fn readable(commands: &[Step]) -> Vec<(Slot, u64)> {
    let mut queued = Vec::new();
    let mut found = Vec::new();
    for step in commands {
        match step.op {
            DeviceOp::QueueBarrier {
                buffer,
                size,
                after: Access::HostRead,
                ..
            } => queued.push((buffer, size)),
            DeviceOp::Barrier {
                second: Stage::Host,
                ..
            } => found.append(&mut queued),
            DeviceOp::Dispatch { .. }
            | DeviceOp::FillBuffer { .. }
            | DeviceOp::CopyBuffer { .. } => found.clear(),
            _ => {}
        }
    }
    found
}

fn place(commands: &[Step], wanted: fn(DeviceOp) -> bool) -> usize {
    let places: Vec<usize> = (0..commands.len())
        .filter(|index| wanted(commands[*index].op))
        .collect();
    assert_eq!(places.len(), 1);
    places[0]
}

fn check_order(commands: &[Step]) {
    let begin = place(commands, |op| op == DeviceOp::BeginCommands);
    let end = place(commands, |op| op == DeviceOp::EndCommands);
    let submit = place(commands, |op| matches!(op, DeviceOp::Submit { .. }));
    assert_eq!(begin, 0);
    assert_eq!(submit, end + 1);
    for (index, step) in commands.iter().enumerate() {
        let waits = matches!(
            step.op,
            DeviceOp::WaitFence { .. } | DeviceOp::WaitIdle { .. } | DeviceOp::CollectRetired
        );
        assert_eq!(waits, index > submit);
    }
}

#[test]
fn compute_scripts_keep_to_their_order() {
    let (setup, commands) = submit_xr_u32_compute_probe();
    walk(walk(Vec::new(), &setup.steps), &commands.steps);
    check_order(&commands.steps);
    assert_eq!(readable(&commands.steps), [(Slot::Output, 16)]);

    let force = submit_xr_f32_force_probe(4, 0);
    walk(walk(Vec::new(), &force.setup.steps), &force.commands.steps);
    check_order(&force.commands.steps);
    assert_eq!(readable(&force.commands.steps), [(Slot::Output, 64)]);
}

#[test]
fn storage_script_keeps_to_its_order() {
    let probe = submit_xr_storage_buffer_probe(10, 7);
    walk(walk(Vec::new(), &probe.setup.steps), &probe.commands.steps);
    check_order(&probe.commands.steps);
    assert_eq!(readable(&probe.commands.steps), [(Slot::Readback, 12)]);
    let mut commands = probe.commands;
    let mut serials = SubmitSerials {
        submitted: 3,
        completed: 2,
    };
    while commands.next().is_some() {
        commands.succeed(&mut serials);
    }
    assert_eq!((serials.submitted, serials.completed), (3, 2));
}

#[test]
fn field_force_script_keeps_to_its_order() {
    let program = match ProgramCache::new().ensure_xr_f32_field_force_sample_probe_program() {
        EnsureProgram::Build(setup) => walk(Vec::new(), &setup.steps),
        EnsureProgram::Reuse(_) => panic!("there is no program yet"),
    };
    let field = ResidentField {
        generation: 3,
        dimensions: [2, 2, 2],
        origin_voxel_size: [0, 0, 0, 0.25f32.to_bits()],
        sdf_distance_byte_len: 64,
        logical_voxel_count: Some(8),
        logical_sdf_distance_byte_len: Some(32),
    };
    let probe = match submit_xr_f32_field_force_sample_probe(Some(field), 4, 0) {
        Ok(probe) => probe,
        Err(message) => panic!("{message}"),
    };
    let mut held = program;
    held.push(Slot::Distances);
    walk(walk(held, &probe.setup.steps), &probe.commands.steps);
    check_order(&probe.commands.steps);
    assert_eq!(readable(&probe.commands.steps), [(Slot::Output, 64)]);
    let mut commands = probe.commands;
    let mut serials = SubmitSerials {
        submitted: 3,
        completed: 2,
    };
    while commands.next().is_some() {
        commands.succeed(&mut serials);
    }
    assert_eq!((serials.submitted, serials.completed), (4, 4));
    assert_eq!(commands.progress.fence_serial, 4);
    assert!(!commands.progress.idle);
}

#[test]
fn skinning_script_keeps_to_its_order() {
    let probe = match submit_xr_f32_skinning_mesh_probe_async(
        vec![[0; 4]; 3],
        vec![[0, 1, 2, 0]],
        3 * 304,
        16,
        &[0],
        1,
        0,
    ) {
        Ok(probe) => probe,
        Err(message) => panic!("{message}"),
    };
    walk(walk(Vec::new(), &probe.setup.steps), &probe.commands.steps);
    check_order(&probe.commands.steps);
    assert_eq!(
        readable(&probe.commands.steps),
        [(Slot::Positions, 48), (Slot::Observations, 16)]
    );
    let mut commands = probe.commands;
    let mut serials = SubmitSerials {
        submitted: 3,
        completed: 2,
    };
    while commands.next().is_some() {
        commands.succeed(&mut serials);
    }
    assert_eq!((serials.submitted, serials.completed), (4, 2));
    assert_eq!(commands.progress.submit_serial, 4);
    assert_eq!(commands.progress.fence_serial, 0);
}

#[test]
fn mesh_sdf_script_keeps_to_its_order() {
    let programs = match ProgramCache::new().ensure_xr_f32_mesh_sdf_probe_program() {
        EnsureProgram::Build(setup) => walk(Vec::new(), &setup.steps),
        EnsureProgram::Reuse(_) => panic!("there are no programs yet"),
    };
    let grid = XrGpuF32MeshSdfProbeGrid {
        dimensions: [2, 2, 2],
        origin_voxel_size: [0, 0, 0, 0.5f32.to_bits()],
    };
    let plan = match submit_xr_f32_mesh_sdf_probe_async(3, 1, grid, &[0], 1, 0) {
        Ok(plan) => plan,
        Err(message) => panic!("{message}"),
    };
    for owned in [true, false] {
        let (setup, commands) = mesh_sdf_scripts(&plan, owned, 912, 16);
        let mut held = programs.clone();
        if !owned {
            held.extend([
                Slot::Vertices,
                Slot::Triangles,
                Slot::Positions,
                Slot::Distances,
            ]);
        }
        walk(walk(held, &setup.steps), &commands.steps);
        check_order(&commands.steps);
        assert_eq!(readable(&commands.steps), [(Slot::Distances, 32)]);
    }
}
