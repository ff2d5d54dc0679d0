//! How vertices and instances are read: chunks of up to four numbers.

use vstd::prelude::*;

use crate::vulkan::codes::{
    FORMAT_R32G32B32A32_SFLOAT, FORMAT_R32G32B32A32_SINT, FORMAT_R32G32B32A32_UINT,
    FORMAT_R32G32B32_SFLOAT, FORMAT_R32G32B32_SINT, FORMAT_R32G32B32_UINT, FORMAT_R32G32_SFLOAT,
    FORMAT_R32G32_SINT, FORMAT_R32G32_UINT, FORMAT_R32_SFLOAT, FORMAT_R32_SINT, FORMAT_R32_UINT,
};

verus! {

/// What the numbers of a chunk are.
#[derive(Clone, Copy, PartialEq, Eq, Structural, Debug)]
pub enum DrawShaderAttrFormat {
    Float,
    UInt,
    SInt,
}

/// The format of a chunk of `components` numbers; fewer than one counts as one, more
/// than four as four.
pub open spec fn chunk_format(attr_format: DrawShaderAttrFormat, components: int) -> i32 {
    match attr_format {
        DrawShaderAttrFormat::Float => if components <= 1 {
            FORMAT_R32_SFLOAT
        } else if components == 2 {
            FORMAT_R32G32_SFLOAT
        } else if components == 3 {
            FORMAT_R32G32B32_SFLOAT
        } else {
            FORMAT_R32G32B32A32_SFLOAT
        },
        DrawShaderAttrFormat::UInt => if components <= 1 {
            FORMAT_R32_UINT
        } else if components == 2 {
            FORMAT_R32G32_UINT
        } else if components == 3 {
            FORMAT_R32G32B32_UINT
        } else {
            FORMAT_R32G32B32A32_UINT
        },
        DrawShaderAttrFormat::SInt => if components <= 1 {
            FORMAT_R32_SINT
        } else if components == 2 {
            FORMAT_R32G32_SINT
        } else if components == 3 {
            FORMAT_R32G32B32_SINT
        } else {
            FORMAT_R32G32B32A32_SINT
        },
    }
}

/// Finds the format of a chunk.
pub fn vk_vertex_format(attr_format: DrawShaderAttrFormat, components: usize) -> (format: i32)
    ensures
        format == chunk_format(attr_format, components as int),
{
    let few: bool = components <= 1;
    match attr_format {
        DrawShaderAttrFormat::Float => {
            if few {
                FORMAT_R32_SFLOAT
            } else if components == 2 {
                FORMAT_R32G32_SFLOAT
            } else if components == 3 {
                FORMAT_R32G32B32_SFLOAT
            } else {
                FORMAT_R32G32B32A32_SFLOAT
            }
        },
        DrawShaderAttrFormat::UInt => {
            if few {
                FORMAT_R32_UINT
            } else if components == 2 {
                FORMAT_R32G32_UINT
            } else if components == 3 {
                FORMAT_R32G32B32_UINT
            } else {
                FORMAT_R32G32B32A32_UINT
            }
        },
        DrawShaderAttrFormat::SInt => {
            if few {
                FORMAT_R32_SINT
            } else if components == 2 {
                FORMAT_R32G32_SINT
            } else if components == 3 {
                FORMAT_R32G32B32_SINT
            } else {
                FORMAT_R32G32B32A32_SINT
            }
        },
    }
}

/// How many chunks hold `total_slots` numbers.
pub open spec fn chunk_count(total_slots: int) -> int {
    (total_slots + 3) / 4
}

/// How many numbers the chunk holds.
pub open spec fn chunk_components(total_slots: int, chunk: int) -> int {
    if total_slots - chunk * 4 < 4 {
        total_slots - chunk * 4
    } else {
        4
    }
}

/// The formats of the chunks for `total_slots` numbers.
pub fn collect_attribute_chunk_formats(total_slots: usize) -> (formats: Vec<DrawShaderAttrFormat>)
    requires
        total_slots + 3 <= usize::MAX,
    ensures
        formats@ == Seq::new(
            chunk_count(total_slots as int) as nat,
            |i: int| DrawShaderAttrFormat::Float,
        ),
{
    let count: usize = (total_slots + 3) / 4;
    let mut formats: Vec<DrawShaderAttrFormat> = Vec::new();
    while formats.len() < count
        invariant
            formats@.len() <= count,
            forall|i: int| 0 <= i < formats@.len() ==> formats@[i] == DrawShaderAttrFormat::Float,
        decreases count - formats@.len(),
    {
        formats.push(DrawShaderAttrFormat::Float);
    }
    assert(formats@ =~= Seq::new(
        chunk_count(total_slots as int) as nat,
        |i: int| DrawShaderAttrFormat::Float,
    ));
    formats
}

/// An attribute of a pipeline. `binding` is 0 for vertices and 1 for instances.
#[derive(Clone, Copy, PartialEq, Eq, Structural, Debug)]
pub struct VertexAttribute {
    pub location: u32,
    pub binding: u32,
    pub format: i32,
    pub offset: u32,
}

/// The attribute of the chunk.
pub open spec fn chunk_attribute(
    total_slots: int,
    binding: u32,
    first_location: int,
    chunk: int,
) -> VertexAttribute {
    VertexAttribute {
        location: (first_location + chunk) as u32,
        binding,
        format: chunk_format(DrawShaderAttrFormat::Float, chunk_components(total_slots, chunk)),
        offset: (chunk * 16) as u32,
    }
}

/// The attributes for all chunks of a binding.
pub open spec fn stream_attributes(total_slots: int, binding: u32, first_location: int) -> Seq<
    VertexAttribute,
> {
    Seq::new(
        chunk_count(total_slots) as nat,
        |i: int| chunk_attribute(total_slots, binding, first_location, i),
    )
}

/// The attributes of a pipeline: the vertex chunks, then the instance chunks.
pub open spec fn pipeline_attributes(geometry_slots: int, instance_slots: int) -> Seq<
    VertexAttribute,
> {
    stream_attributes(geometry_slots, 0, 0) + stream_attributes(
        instance_slots,
        1,
        chunk_count(geometry_slots),
    )
}

/// A count of slots whose bytes the device can address.
pub open spec fn slots_fit(total_slots: usize) -> bool {
    total_slots * 4 + 12 <= u32::MAX && total_slots * 4 + 12 <= usize::MAX
}

fn append_stream(
    attributes: &mut Vec<VertexAttribute>,
    total_slots: usize,
    binding: u32,
    first_location: u32,
)
    requires
        slots_fit(total_slots),
        first_location + chunk_count(total_slots as int) <= u32::MAX,
    ensures
        final(attributes)@ == old(attributes)@ + stream_attributes(
            total_slots as int,
            binding,
            first_location as int,
        ),
{
    let formats: Vec<DrawShaderAttrFormat> = collect_attribute_chunk_formats(total_slots);
    let ghost start = attributes@;
    let ghost wanted = stream_attributes(total_slots as int, binding, first_location as int);
    let mut chunk: usize = 0;
    while chunk < formats.len()
        invariant
            chunk <= formats@.len(),
            slots_fit(total_slots),
            first_location + chunk_count(total_slots as int) <= u32::MAX,
            formats@.len() == chunk_count(total_slots as int),
            forall|i: int| 0 <= i < formats@.len() ==> formats@[i] == DrawShaderAttrFormat::Float,
            wanted == stream_attributes(total_slots as int, binding, first_location as int),
            attributes@ == start + wanted.take(chunk as int),
        decreases formats@.len() - chunk,
    {
        let remaining: usize = total_slots - chunk * 4;
        let components: usize = if remaining < 4 {
            remaining
        } else {
            4
        };
        attributes.push(
            VertexAttribute {
                location: first_location + chunk as u32,
                binding,
                format: vk_vertex_format(formats[chunk], components),
                offset: (chunk * 16) as u32,
            },
        );
        chunk = chunk + 1;
        assert(attributes@ =~= start + wanted.take(chunk as int));
    }
    assert(wanted.take(chunk as int) =~= wanted);
}

/// Lists the attributes of a pipeline.
pub fn plan_vertex_attributes(geometry_slots: usize, instance_slots: usize) -> (attributes: Vec<
    VertexAttribute,
>)
    requires
        slots_fit(geometry_slots),
        slots_fit(instance_slots),
    ensures
        attributes@ == pipeline_attributes(geometry_slots as int, instance_slots as int),
{
    let mut attributes: Vec<VertexAttribute> = Vec::new();
    append_stream(&mut attributes, geometry_slots, 0, 0);
    let first: u32 = ((geometry_slots + 3) / 4) as u32;
    append_stream(&mut attributes, instance_slots, 1, first);
    assert(attributes@ =~= pipeline_attributes(geometry_slots as int, instance_slots as int));
    attributes
}

/// The chunks of a binding cover its numbers without gap or overlap: each holds one to
/// four numbers, the next one begins where it ends, and the last one ends with the
/// stride.
pub proof fn law_chunks_cover_the_stride(total_slots: int, binding: u32, first: int, chunk: int)
    requires
        0 <= total_slots,
        total_slots * 4 + 12 <= u32::MAX,
        0 <= chunk < chunk_count(total_slots),
    ensures
        ({
            let attributes = stream_attributes(total_slots, binding, first);
            let end = attributes[chunk].offset + chunk_components(total_slots, chunk) * 4;
            &&& 1 <= chunk_components(total_slots, chunk) <= 4
            &&& attributes[0].offset == 0
            &&& chunk + 1 < attributes.len() ==> attributes[chunk + 1].offset == end
            &&& chunk + 1 == attributes.len() ==> end == total_slots * 4
        }),
{
}

/// No two attributes of a pipeline share a location.
pub proof fn law_locations_are_distinct(geometry_slots: int, instance_slots: int, i: int, j: int)
    requires
        0 <= geometry_slots,
        0 <= instance_slots,
        geometry_slots + instance_slots <= u32::MAX,
        0 <= i < j < pipeline_attributes(geometry_slots, instance_slots).len(),
    ensures
        pipeline_attributes(geometry_slots, instance_slots)[i].location < pipeline_attributes(
            geometry_slots,
            instance_slots,
        )[j].location,
{
    let attributes = pipeline_attributes(geometry_slots, instance_slots);
    assert forall|k: int| 0 <= k < attributes.len() implies (#[trigger] attributes[k]).location
        == k by {
        let vertices = stream_attributes(geometry_slots, 0, 0);
        if k < vertices.len() {
            assert(attributes[k] == vertices[k]);
        } else {
            let instances = stream_attributes(instance_slots, 1, chunk_count(geometry_slots));
            assert(attributes[k] == instances[k - vertices.len()]);
        }
    }
}

/// Attributes hold their numbers in order: the chunks of a stream follow one another
/// without gaps, each but the last has four numbers, and all together have as many as
/// there are.
pub proof fn law_chunks_follow_one_another(total_slots: int, chunk: int)
    requires
        0 <= total_slots,
        0 <= chunk < chunk_count(total_slots),
    ensures
        1 <= chunk_components(total_slots, chunk) <= 4,
        chunk + 1 < chunk_count(total_slots) ==> chunk_components(total_slots, chunk) == 4,
        chunk + 1 == chunk_count(total_slots) ==> chunk * 4 + chunk_components(total_slots, chunk)
            == total_slots,
        chunk_attribute(total_slots, 0, 0, chunk).offset == chunk * 16 || chunk * 16 > u32::MAX,
{
}

/// A format has as many numbers as it is asked for, of the kind that is asked for.
pub proof fn law_formats_have_their_components(components: int)
    requires
        1 <= components <= 4,
    ensures
        chunk_format(DrawShaderAttrFormat::UInt, components) == 98 + 3 * (components - 1),
        chunk_format(DrawShaderAttrFormat::SInt, components) == 99 + 3 * (components - 1),
        chunk_format(DrawShaderAttrFormat::Float, components) == 100 + 3 * (components - 1),
{
}

/// The vertices come first, from the first buffer; the instances follow, from the second,
/// at the locations behind those of the vertices.
pub proof fn law_vertices_come_before_instances(geometry_slots: int, instance_slots: int, i: int)
    requires
        0 <= geometry_slots,
        0 <= instance_slots,
        0 <= i < pipeline_attributes(geometry_slots, instance_slots).len(),
        chunk_count(geometry_slots) + chunk_count(instance_slots) <= u32::MAX,
    ensures
        pipeline_attributes(geometry_slots, instance_slots).len() == (geometry_slots + 3) / 4 + (
        instance_slots + 3) / 4,
        pipeline_attributes(geometry_slots, instance_slots)[i].location == i,
        pipeline_attributes(geometry_slots, instance_slots)[i].binding == if i < (geometry_slots
            + 3) / 4 {
            0u32
        } else {
            1u32
        },
        i < (geometry_slots + 3) / 4 && i * 16 <= u32::MAX ==> pipeline_attributes(
            geometry_slots,
            instance_slots,
        )[i].offset == i * 16,
{
}

} // verus!
