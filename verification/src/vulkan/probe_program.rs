//! Compute programs that are built once and used by every later probe.

use vstd::prelude::*;

use crate::vulkan::retained::append_teardown;
#[allow(unused_imports)]
use crate::vulkan::retained::teardown;
use crate::vulkan::script::{Acquired, ComputeProgram, DeviceOp, Setup, Slot, Step};

verus! {

/// A program that was built.
pub struct ProbeProgram {
    pub generation: u64,
    pub resources: Vec<Acquired>,
}

/// How a probe came by its program.
#[derive(Clone, Copy, PartialEq, Eq, Structural, Debug)]
pub struct ProgramUse {
    pub generation: u64,
    pub program_reused: bool,
    pub shader_compiled_this_submit: bool,
    pub pipeline_created_this_submit: bool,
}

/// The use of a program that is there.
pub open spec fn reused_program(generation: u64) -> ProgramUse {
    ProgramUse {
        generation,
        program_reused: true,
        shader_compiled_this_submit: false,
        pipeline_created_this_submit: false,
    }
}

/// The use of a program that was just built.
pub open spec fn built_program() -> ProgramUse {
    ProgramUse {
        generation: 1,
        program_reused: false,
        shader_compiled_this_submit: true,
        pipeline_created_this_submit: true,
    }
}

/// What has to be done to have a program.
pub enum EnsureProgram {
    Reuse(ProgramUse),
    Build(Setup),
}

/// The place of a program.
pub struct ProgramCache {
    pub program: Option<ProbeProgram>,
}

/// The steps that build the mesh distance program.
pub open spec fn mesh_sdf_program_steps() -> Seq<Step> {
    seq![
        Step {
            slot: Slot::Code,
            op: DeviceOp::CompileShader { program: ComputeProgram::MeshSdfSkinning },
            subject: "f32 mesh SDF skinning program",
        },
        Step {
            slot: Slot::BuildCode,
            op: DeviceOp::CompileShader { program: ComputeProgram::MeshSdfBuild },
            subject: "f32 mesh SDF build program",
        },
        Step {
            slot: Slot::Module,
            op: DeviceOp::ShaderModule { code: Slot::Code },
            subject: "f32 mesh SDF skinning program",
        },
        Step {
            slot: Slot::BuildModule,
            op: DeviceOp::ShaderModule { code: Slot::BuildCode },
            subject: "f32 mesh SDF build program",
        },
        Step {
            slot: Slot::SetLayout,
            op: DeviceOp::StorageSetLayout { bindings: 6 },
            subject: "f32 mesh SDF program",
        },
        Step {
            slot: Slot::PipelineLayout,
            op: DeviceOp::PipelineLayout { set_layout: Slot::SetLayout },
            subject: "f32 mesh SDF program",
        },
        Step {
            slot: Slot::Pipeline,
            op: DeviceOp::ComputePipeline {
                module: Slot::Module,
                layout: Slot::PipelineLayout,
                program: ComputeProgram::MeshSdfSkinning,
            },
            subject: "f32 mesh SDF probe \"skin_main\"",
        },
        Step {
            slot: Slot::BuildPipeline,
            op: DeviceOp::ComputePipeline {
                module: Slot::BuildModule,
                layout: Slot::PipelineLayout,
                program: ComputeProgram::MeshSdfBuild,
            },
            subject: "f32 mesh SDF probe \"sdf_main\"",
        },
    ]
}

/// The steps that build the field sampling program.
pub open spec fn field_force_program_steps() -> Seq<Step> {
    seq![
        Step {
            slot: Slot::Code,
            op: DeviceOp::CompileShader { program: ComputeProgram::FieldForceSamples },
            subject: "f32 field force sample probe",
        },
        Step {
            slot: Slot::Module,
            op: DeviceOp::ShaderModule { code: Slot::Code },
            subject: "f32 field force sample probe",
        },
        Step {
            slot: Slot::SetLayout,
            op: DeviceOp::StorageSetLayout { bindings: 5 },
            subject: "f32 field force sample probe",
        },
        Step {
            slot: Slot::PipelineLayout,
            op: DeviceOp::PipelineLayout { set_layout: Slot::SetLayout },
            subject: "f32 field force sample probe",
        },
        Step {
            slot: Slot::Pipeline,
            op: DeviceOp::ComputePipeline {
                module: Slot::Module,
                layout: Slot::PipelineLayout,
                program: ComputeProgram::FieldForceSamples,
            },
            subject: "f32 field force sample probe",
        },
    ]
}

fn mesh_sdf_program() -> (steps: Vec<Step>)
    ensures
        steps@ == mesh_sdf_program_steps(),
{
    vec![
        Step {
            slot: Slot::Code,
            op: DeviceOp::CompileShader { program: ComputeProgram::MeshSdfSkinning },
            subject: "f32 mesh SDF skinning program",
        },
        Step {
            slot: Slot::BuildCode,
            op: DeviceOp::CompileShader { program: ComputeProgram::MeshSdfBuild },
            subject: "f32 mesh SDF build program",
        },
        Step {
            slot: Slot::Module,
            op: DeviceOp::ShaderModule { code: Slot::Code },
            subject: "f32 mesh SDF skinning program",
        },
        Step {
            slot: Slot::BuildModule,
            op: DeviceOp::ShaderModule { code: Slot::BuildCode },
            subject: "f32 mesh SDF build program",
        },
        Step {
            slot: Slot::SetLayout,
            op: DeviceOp::StorageSetLayout { bindings: 6 },
            subject: "f32 mesh SDF program",
        },
        Step {
            slot: Slot::PipelineLayout,
            op: DeviceOp::PipelineLayout { set_layout: Slot::SetLayout },
            subject: "f32 mesh SDF program",
        },
        Step {
            slot: Slot::Pipeline,
            op: DeviceOp::ComputePipeline {
                module: Slot::Module,
                layout: Slot::PipelineLayout,
                program: ComputeProgram::MeshSdfSkinning,
            },
            subject: "f32 mesh SDF probe \"skin_main\"",
        },
        Step {
            slot: Slot::BuildPipeline,
            op: DeviceOp::ComputePipeline {
                module: Slot::BuildModule,
                layout: Slot::PipelineLayout,
                program: ComputeProgram::MeshSdfBuild,
            },
            subject: "f32 mesh SDF probe \"sdf_main\"",
        },
    ]
}

fn field_force_program() -> (steps: Vec<Step>)
    ensures
        steps@ == field_force_program_steps(),
{
    vec![
        Step {
            slot: Slot::Code,
            op: DeviceOp::CompileShader { program: ComputeProgram::FieldForceSamples },
            subject: "f32 field force sample probe",
        },
        Step {
            slot: Slot::Module,
            op: DeviceOp::ShaderModule { code: Slot::Code },
            subject: "f32 field force sample probe",
        },
        Step {
            slot: Slot::SetLayout,
            op: DeviceOp::StorageSetLayout { bindings: 5 },
            subject: "f32 field force sample probe",
        },
        Step {
            slot: Slot::PipelineLayout,
            op: DeviceOp::PipelineLayout { set_layout: Slot::SetLayout },
            subject: "f32 field force sample probe",
        },
        Step {
            slot: Slot::Pipeline,
            op: DeviceOp::ComputePipeline {
                module: Slot::Module,
                layout: Slot::PipelineLayout,
                program: ComputeProgram::FieldForceSamples,
            },
            subject: "f32 field force sample probe",
        },
    ]
}

impl ProgramCache {
    /// Starts without a program.
    pub fn new() -> (cache: ProgramCache)
        ensures
            cache.program is None,
    {
        ProgramCache { program: None }
    }

    fn ensure(&self, steps: Vec<Step>) -> (result: EnsureProgram)
        ensures
            match self.program {
                Some(program) => result == EnsureProgram::Reuse(reused_program(program.generation)),
                None => result matches EnsureProgram::Build(setup) && setup.wf() && setup.steps@
                    == steps@ && setup.done == 0 && setup.acquired@.len() == 0,
            },
    {
        match &self.program {
            Some(program) => EnsureProgram::Reuse(
                ProgramUse {
                    generation: program.generation,
                    program_reused: true,
                    shader_compiled_this_submit: false,
                    pipeline_created_this_submit: false,
                },
            ),
            None => EnsureProgram::Build(Setup::new(steps)),
        }
    }

    /// What the mesh distance probe has to do for its program.
    pub fn ensure_xr_f32_mesh_sdf_probe_program(&self) -> (result: EnsureProgram)
        ensures
            match self.program {
                Some(program) => result == EnsureProgram::Reuse(reused_program(program.generation)),
                None => result matches EnsureProgram::Build(setup) && setup.wf() && setup.steps@
                    == mesh_sdf_program_steps() && setup.done == 0 && setup.acquired@.len() == 0,
            },
    {
        self.ensure(mesh_sdf_program())
    }

    /// What the field sampling probe has to do for its program.
    pub fn ensure_xr_f32_field_force_sample_probe_program(&self) -> (result: EnsureProgram)
        ensures
            match self.program {
                Some(program) => result == EnsureProgram::Reuse(reused_program(program.generation)),
                None => result matches EnsureProgram::Build(setup) && setup.wf() && setup.steps@
                    == field_force_program_steps() && setup.done == 0 && setup.acquired@.len()
                    == 0,
            },
    {
        self.ensure(field_force_program())
    }

    /// Keeps a program that was built.
    pub fn install(&mut self, resources: Vec<Acquired>) -> (used: ProgramUse)
        ensures
            final(self).program == Some((ProbeProgram { generation: 1, resources })),
            used == built_program(),
    {
        self.program = Some(ProbeProgram { generation: 1, resources });
        ProgramUse {
            generation: 1,
            program_reused: false,
            shader_compiled_this_submit: true,
            pipeline_created_this_submit: true,
        }
    }

    /// Gives the program back: returns what to release, in order.
    pub fn take_releases(&mut self) -> (releases: Vec<Acquired>)
        ensures
            final(self).program is None,
            releases@ == (match old(self).program {
                Some(program) => teardown(program.resources@, 0),
                None => seq![],
            }),
    {
        let mut releases: Vec<Acquired> = Vec::new();
        match self.program.take() {
            Some(program) => {
                append_teardown(&program.resources, 0, &mut releases);
                assert(releases@ =~= teardown(program.resources@, 0));
            },
            None => {},
        }
        releases
    }
}

/// A program that was built is the first of its kind and was not there before.
pub proof fn law_built_programs_are_new()
    ensures
        built_program().generation == 1,
        !built_program().program_reused,
        built_program().shader_compiled_this_submit,
        built_program().pipeline_created_this_submit,
{
}

} // verus!
