//! The programs that the compute probes run.

use vstd::prelude::*;

use crate::vulkan::script::ComputeProgram;

verus! {

/// Mixes words.
pub const U32_WORDS: &'static str = r#"
@group(0) @binding(0) var<storage, read> input_words: array<u32, 4>;
@group(0) @binding(1) var<storage, read_write> output_words: array<u32, 4>;

@compute @workgroup_size(4)
fn compute_main(@builtin(global_invocation_id) id: vec3<u32>) {
    let index = id.x;
    if (index < 4u) {
        let mixed = (input_words[index] ^ 2779077210u) + (index * 17u);
        output_words[index] = mixed ^ 1576054257u;
    }
}
"#;

/// Computes forces from samples of a distance.
pub const FORCE_SAMPLES: &'static str = r#"
struct ForceProbeSample {
    position_radius: vec4<f32>,
    distance_target_strength: vec4<f32>,
    outward: vec4<f32>,
    expected_acceleration: vec4<f32>,
};

@group(0) @binding(0) var<storage, read> input_samples: array<ForceProbeSample, 4>;
@group(0) @binding(1) var<storage, read_write> output_accelerations: array<vec4<f32>, 4>;

@compute @workgroup_size(4)
fn compute_main(@builtin(global_invocation_id) id: vec3<u32>) {
    let index = id.x;
    if (index < 4u) {
        let sample = input_samples[index];
        let distance = sample.distance_target_strength.x;
        let target_distance = sample.distance_target_strength.y;
        let strength = sample.distance_target_strength.z;
        let error = distance - target_distance;
        let scale = -error * strength;
        output_accelerations[index] = vec4<f32>(sample.outward.xyz * scale, 0.0);
    }
}
"#;

/// Samples a distance field, and computes forces from it.
pub const FIELD_FORCE_SAMPLES: &'static str = r#"
struct ForceProbeSample {
    position_radius: vec4<f32>,
    distance_target_strength: vec4<f32>,
    outward: vec4<f32>,
    expected_acceleration: vec4<f32>,
};

@group(0) @binding(0) var<storage, read> sdf_distances: array<f32>;
@group(0) @binding(1) var<storage, read> input_samples: array<ForceProbeSample, 4>;
@group(0) @binding(2) var<storage, read_write> output_accelerations: array<vec4<f32>, 4>;
@group(0) @binding(3) var<storage, read> params: array<vec4<u32>, 1>;
@group(0) @binding(4) var<storage, read> grid: array<vec4<f32>, 1>;

fn round_clamped(value: f32, dimension: u32) -> u32 {
    let rounded = round(value);
    if (rounded <= 0.0) {
        return 0u;
    }
    let maximum = dimension - 1u;
    if (rounded >= f32(maximum)) {
        return maximum;
    }
    return u32(rounded);
}

fn neighbor_minus(value: u32) -> u32 {
    if (value == 0u) {
        return 0u;
    }
    return value - 1u;
}

fn neighbor_plus(value: u32, dimension: u32) -> u32 {
    if (value + 1u >= dimension) {
        return value;
    }
    return value + 1u;
}

fn packed_index(x: u32, y: u32, z: u32, width: u32, height: u32) -> u32 {
    return (z * height + y) * width + x;
}

fn distance_at(x: u32, y: u32, z: u32, width: u32, height: u32) -> f32 {
    return sdf_distances[packed_index(x, y, z, width, height)];
}

fn normalize_or(vector: vec3<f32>, fallback: vec3<f32>) -> vec3<f32> {
    let length_value = length(vector);
    if (length_value <= 0.000001) {
        return fallback;
    }
    return vector / length_value;
}

@compute @workgroup_size(4)
fn force_sample_main(@builtin(global_invocation_id) id: vec3<u32>) {
    let index = id.x;
    let sample_count = params[0].x;
    let width = params[0].y;
    let height = params[0].z;
    let depth = params[0].w;
    if (index >= sample_count) {
        return;
    }

    let sample = input_samples[index];
    let grid_row = grid[0];
    let origin = grid_row.xyz;
    let voxel_size = grid_row.w;
    let local = (sample.position_radius.xyz - origin) / voxel_size - vec3<f32>(0.5, 0.5, 0.5);
    let x = round_clamped(local.x, width);
    let y = round_clamped(local.y, height);
    let z = round_clamped(local.z, depth);
    let dx = distance_at(neighbor_plus(x, width), y, z, width, height) -
        distance_at(neighbor_minus(x), y, z, width, height);
    let dy = distance_at(x, neighbor_plus(y, height), z, width, height) -
        distance_at(x, neighbor_minus(y), z, width, height);
    let dz = distance_at(x, y, neighbor_plus(z, depth), width, height) -
        distance_at(x, y, neighbor_minus(z), width, height);
    let outward = normalize_or(vec3<f32>(dx, dy, dz), vec3<f32>(0.0, 1.0, 0.0));
    let distance = distance_at(x, y, z, width, height);
    let target_distance = sample.distance_target_strength.y;
    let strength = sample.distance_target_strength.z;
    let error = distance - target_distance;
    let scale = -error * strength;
    output_accelerations[index] = vec4<f32>(outward * scale, 0.0);
}
"#;

/// Skins the vertices of a mesh, and observes its triangles.
pub const SKINNING_MESH: &'static str = r#"
struct SkinningMeshVertex {
    bind_position: vec4<f32>,
    joint_weights: vec4<f32>,
    matrix0_row0: vec4<f32>,
    matrix0_row1: vec4<f32>,
    matrix0_row2: vec4<f32>,
    matrix0_row3: vec4<f32>,
    matrix1_row0: vec4<f32>,
    matrix1_row1: vec4<f32>,
    matrix1_row2: vec4<f32>,
    matrix1_row3: vec4<f32>,
    matrix2_row0: vec4<f32>,
    matrix2_row1: vec4<f32>,
    matrix2_row2: vec4<f32>,
    matrix2_row3: vec4<f32>,
    matrix3_row0: vec4<f32>,
    matrix3_row1: vec4<f32>,
    matrix3_row2: vec4<f32>,
    matrix3_row3: vec4<f32>,
    expected_position: vec4<f32>,
};

@group(0) @binding(0) var<storage, read> vertices: array<SkinningMeshVertex>;
@group(0) @binding(1) var<storage, read> triangles: array<vec4<u32>>;
@group(0) @binding(2) var<storage, read_write> output_positions: array<vec4<f32>>;
@group(0) @binding(3) var<storage, read_write> triangle_observations: array<vec4<u32>>;
@group(0) @binding(4) var<storage, read> params: array<vec4<u32>, 1>;

fn skin_vertex(vertex: SkinningMeshVertex) -> vec4<f32> {
    let p = vertex.bind_position;
    let p0 = vec3<f32>(
        dot(vertex.matrix0_row0, p),
        dot(vertex.matrix0_row1, p),
        dot(vertex.matrix0_row2, p)
    );
    let p1 = vec3<f32>(
        dot(vertex.matrix1_row0, p),
        dot(vertex.matrix1_row1, p),
        dot(vertex.matrix1_row2, p)
    );
    let p2 = vec3<f32>(
        dot(vertex.matrix2_row0, p),
        dot(vertex.matrix2_row1, p),
        dot(vertex.matrix2_row2, p)
    );
    let p3 = vec3<f32>(
        dot(vertex.matrix3_row0, p),
        dot(vertex.matrix3_row1, p),
        dot(vertex.matrix3_row2, p)
    );
    let weights = vertex.joint_weights;
    let total_weight = weights.x + weights.y + weights.z + weights.w;
    if (total_weight > 0.0) {
        let weighted = p0 * weights.x + p1 * weights.y + p2 * weights.z + p3 * weights.w;
        return vec4<f32>(weighted / total_weight, 1.0);
    }
    return vertex.bind_position;
}

@compute @workgroup_size(64)
fn compute_main(@builtin(global_invocation_id) id: vec3<u32>) {
    let index = id.x;
    let vertex_count = params[0].x;
    let triangle_count = params[0].y;
    if (index < vertex_count) {
        output_positions[index] = skin_vertex(vertices[index]);
    }
    if (index < triangle_count) {
        let tri = triangles[index];
        triangle_observations[index] = vec4<u32>(tri.x, tri.y, tri.z, tri.x ^ tri.y ^ tri.z);
    }
}
"#;

/// Skins the vertices of a mesh.
pub const MESH_SDF_SKINNING: &'static str = r#"
struct SkinningMeshVertex {
    bind_position: vec4<f32>,
    joint_weights: vec4<f32>,
    matrix0_row0: vec4<f32>,
    matrix0_row1: vec4<f32>,
    matrix0_row2: vec4<f32>,
    matrix0_row3: vec4<f32>,
    matrix1_row0: vec4<f32>,
    matrix1_row1: vec4<f32>,
    matrix1_row2: vec4<f32>,
    matrix1_row3: vec4<f32>,
    matrix2_row0: vec4<f32>,
    matrix2_row1: vec4<f32>,
    matrix2_row2: vec4<f32>,
    matrix2_row3: vec4<f32>,
    matrix3_row0: vec4<f32>,
    matrix3_row1: vec4<f32>,
    matrix3_row2: vec4<f32>,
    matrix3_row3: vec4<f32>,
    expected_position: vec4<f32>,
};

@group(0) @binding(0) var<storage, read> vertices: array<SkinningMeshVertex>;
@group(0) @binding(2) var<storage, read_write> skinned_positions: array<vec4<f32>>;
@group(0) @binding(4) var<storage, read> params: array<vec4<u32>, 2>;

fn skin_vertex(vertex: SkinningMeshVertex) -> vec4<f32> {
    let p = vertex.bind_position;
    let p0 = vec3<f32>(
        dot(vertex.matrix0_row0, p),
        dot(vertex.matrix0_row1, p),
        dot(vertex.matrix0_row2, p)
    );
    let p1 = vec3<f32>(
        dot(vertex.matrix1_row0, p),
        dot(vertex.matrix1_row1, p),
        dot(vertex.matrix1_row2, p)
    );
    let p2 = vec3<f32>(
        dot(vertex.matrix2_row0, p),
        dot(vertex.matrix2_row1, p),
        dot(vertex.matrix2_row2, p)
    );
    let p3 = vec3<f32>(
        dot(vertex.matrix3_row0, p),
        dot(vertex.matrix3_row1, p),
        dot(vertex.matrix3_row2, p)
    );
    let weights = vertex.joint_weights;
    let total_weight = weights.x + weights.y + weights.z + weights.w;
    if (total_weight > 0.0) {
        let weighted = p0 * weights.x + p1 * weights.y + p2 * weights.z + p3 * weights.w;
        return vec4<f32>(weighted / total_weight, 1.0);
    }
    return vertex.bind_position;
}

@compute @workgroup_size(64)
fn skin_main(@builtin(global_invocation_id) id: vec3<u32>) {
    let index = id.x;
    let vertex_count = params[0].x;
    if (index < vertex_count) {
        skinned_positions[index] = skin_vertex(vertices[index]);
    }
}
"#;

/// Builds the distance field of a mesh that was skinned.
pub const MESH_SDF_BUILD: &'static str = r#"
@group(0) @binding(1) var<storage, read> triangles: array<vec4<u32>>;
@group(0) @binding(2) var<storage, read> skinned_positions: array<vec4<f32>>;
@group(0) @binding(3) var<storage, read_write> sdf_distances: array<f32>;
@group(0) @binding(4) var<storage, read> params: array<vec4<u32>, 2>;
@group(0) @binding(5) var<storage, read> grid: array<vec4<f32>, 1>;

fn closest_point_on_triangle(point: vec3<f32>, a: vec3<f32>, b: vec3<f32>, c: vec3<f32>) -> vec3<f32> {
    let ab = b - a;
    let ac = c - a;
    let ap = point - a;
    let d1 = dot(ab, ap);
    let d2 = dot(ac, ap);
    if (d1 <= 0.0 && d2 <= 0.0) {
        return a;
    }

    let bp = point - b;
    let d3 = dot(ab, bp);
    let d4 = dot(ac, bp);
    if (d3 >= 0.0 && d4 <= d3) {
        return b;
    }

    let vc = d1 * d4 - d3 * d2;
    if (vc <= 0.0 && d1 >= 0.0 && d3 <= 0.0) {
        let v = d1 / (d1 - d3);
        return a + ab * v;
    }

    let cp = point - c;
    let d5 = dot(ab, cp);
    let d6 = dot(ac, cp);
    if (d6 >= 0.0 && d5 <= d6) {
        return c;
    }

    let vb = d5 * d2 - d1 * d6;
    if (vb <= 0.0 && d2 >= 0.0 && d6 <= 0.0) {
        let w = d2 / (d2 - d6);
        return a + ac * w;
    }

    let va = d3 * d6 - d5 * d4;
    if (va <= 0.0 && (d4 - d3) >= 0.0 && (d5 - d6) >= 0.0) {
        let w = (d4 - d3) / ((d4 - d3) + (d5 - d6));
        return b + (c - b) * w;
    }

    let denominator = 1.0 / (va + vb + vc);
    let v = vb * denominator;
    let w = vc * denominator;
    return a + ab * v + ac * w;
}

fn cell_center(linear_index: u32) -> vec3<f32> {
    let width = params[0].w;
    let height = params[1].x;
    let plane = width * height;
    let z = linear_index / plane;
    let remainder = linear_index - z * plane;
    let y = remainder / width;
    let x = remainder - y * width;
    let grid_row = grid[0];
    let origin = grid_row.xyz;
    let voxel_size = grid_row.w;
    return origin + vec3<f32>(
        (f32(x) + 0.5) * voxel_size,
        (f32(y) + 0.5) * voxel_size,
        (f32(z) + 0.5) * voxel_size
    );
}

@compute @workgroup_size(64)
fn sdf_main(@builtin(global_invocation_id) id: vec3<u32>) {
    let linear_index = id.x;
    let vertex_count = params[0].x;
    let triangle_count = params[0].y;
    let voxel_count = params[0].z;
    if (linear_index >= voxel_count) {
        return;
    }

    let point = cell_center(linear_index);
    var best_distance_squared = 3.4028234663852886e38;
    var best_closest = vec3<f32>(0.0, 0.0, 0.0);
    var best_normal = vec3<f32>(0.0, 0.0, 1.0);
    var found = false;

    for (var triangle_index = 0u; triangle_index < triangle_count; triangle_index = triangle_index + 1u) {
        let tri = triangles[triangle_index];
        if (tri.x < vertex_count && tri.y < vertex_count && tri.z < vertex_count) {
            let a = skinned_positions[tri.x].xyz;
            let b = skinned_positions[tri.y].xyz;
            let c = skinned_positions[tri.z].xyz;
            let normal_raw = cross(b - a, c - a);
            let normal_length = length(normal_raw);
            if (normal_length > 0.0000001) {
                let normal = normal_raw / normal_length;
                let closest = closest_point_on_triangle(point, a, b, c);
                let delta = point - closest;
                let distance_squared = dot(delta, delta);
                if (distance_squared < best_distance_squared) {
                    best_distance_squared = distance_squared;
                    best_closest = closest;
                    best_normal = normal;
                    found = true;
                }
            }
        }
    }

    if (found) {
        let distance = sqrt(best_distance_squared);
        if (dot(point - best_closest, best_normal) < 0.0) {
            sdf_distances[linear_index] = -distance;
        } else {
            sdf_distances[linear_index] = distance;
        }
    } else {
        sdf_distances[linear_index] = 0.0;
    }
}
"#;

/// The text of a program.
pub fn wgsl(program: ComputeProgram) -> (text: &'static str)
    ensures
        text@ == (match program {
            ComputeProgram::U32Words => U32_WORDS@,
            ComputeProgram::ForceSamples => FORCE_SAMPLES@,
            ComputeProgram::FieldForceSamples => FIELD_FORCE_SAMPLES@,
            ComputeProgram::SkinningMesh => SKINNING_MESH@,
            ComputeProgram::MeshSdfSkinning => MESH_SDF_SKINNING@,
            ComputeProgram::MeshSdfBuild => MESH_SDF_BUILD@,
        }),
{
    match program {
        ComputeProgram::U32Words => U32_WORDS,
        ComputeProgram::ForceSamples => FORCE_SAMPLES,
        ComputeProgram::FieldForceSamples => FIELD_FORCE_SAMPLES,
        ComputeProgram::SkinningMesh => SKINNING_MESH,
        ComputeProgram::MeshSdfSkinning => MESH_SDF_SKINNING,
        ComputeProgram::MeshSdfBuild => MESH_SDF_BUILD,
    }
}

/// Where a program starts.
pub open spec fn entry_name(program: ComputeProgram) -> Seq<char> {
    match program {
        ComputeProgram::U32Words
        | ComputeProgram::ForceSamples
        | ComputeProgram::SkinningMesh => "compute_main"@,
        ComputeProgram::FieldForceSamples => "force_sample_main"@,
        ComputeProgram::MeshSdfSkinning => "skin_main"@,
        ComputeProgram::MeshSdfBuild => "sdf_main"@,
    }
}

/// Says where a program starts.
pub fn entry_point(program: ComputeProgram) -> (name: &'static str)
    ensures
        name@ == entry_name(program),
{
    match program {
        ComputeProgram::U32Words
        | ComputeProgram::ForceSamples
        | ComputeProgram::SkinningMesh => "compute_main",
        ComputeProgram::FieldForceSamples => "force_sample_main",
        ComputeProgram::MeshSdfSkinning => "skin_main",
        ComputeProgram::MeshSdfBuild => "sdf_main",
    }
}

/// A program that stands alone starts at its main function; those of the force field and
/// of the distance field start where their name says.
pub proof fn law_programs_start_where_they_are_named(program: ComputeProgram)
    ensures
        program is U32Words || program is ForceSamples || program is SkinningMesh ==> entry_name(
            program,
        ) == "compute_main"@,
        program is FieldForceSamples ==> entry_name(program) == "force_sample_main"@,
        program is MeshSdfSkinning ==> entry_name(program) == "skin_main"@,
        program is MeshSdfBuild ==> entry_name(program) == "sdf_main"@,
{
}

} // verus!
