//! What one frame borrows from the device: slices of shared buffers and descriptor
//! sets.

use vstd::prelude::*;

use crate::vulkan::buffers::{align_device_size, VulkanBuffer};
#[allow(unused_imports)]
use crate::vulkan::buffers::{aligned, law_aligned_is_least_multiple};
use crate::vulkan::codes::{
    DESCRIPTOR_COMBINED_IMAGE_SAMPLER,
    DESCRIPTOR_SAMPLED_IMAGE,
    DESCRIPTOR_SAMPLER,
    DESCRIPTOR_UNIFORM_BUFFER,
    RESULT_FRAGMENTED_POOL,
    RESULT_OUT_OF_POOL_MEMORY,
};
use crate::vulkan::failure::call_failed;
#[allow(unused_imports)]
use crate::vulkan::failure::call_failed_text;
use crate::vulkan::power::checked_next_power_of_two;
#[allow(unused_imports)]
use crate::vulkan::power::{law_next_power_is_least, next_power};

verus! {

/// The smallest buffer that packets are written to.
pub const MIN_PACKET_BUFFER: u64 = 0x1_0000;

/// The smallest buffer that texture uploads are written to.
pub const MIN_UPLOAD_BUFFER: u64 = 0x80_0000;

/// How many descriptor sets a pool of a frame holds.
pub const FRAME_POOL_SETS: u32 = 2048;

/// A buffer that is handed out in slices, from the start to the end.
#[derive(Clone, Copy, PartialEq, Eq, Structural, Debug)]
pub struct SliceBuffer {
    pub buffer: Option<VulkanBuffer>,
    pub used: u64,
}

/// Where a slice comes from.
#[derive(Clone, Copy, PartialEq, Eq, Structural, Debug)]
pub enum SlicePlan {
    /// The buffer has room; the slice starts at `offset`.
    Ready { buffer: VulkanBuffer, offset: u64 },
    /// A buffer of `size` bytes has to be made in place of `replaced`.
    Grow { replaced: Option<VulkanBuffer>, size: u64 },
}

/// A number of at least four.
pub open spec fn at_least_four(value: u64) -> u64 {
    if value < 4 {
        4
    } else {
        value
    }
}

fn max_four(value: u64) -> (result: u64)
    ensures
        result == at_least_four(value),
{
    if value < 4 {
        4
    } else {
        value
    }
}

/// Where the next slice would start.
pub open spec fn slice_start(used: u64, alignment: u64) -> int {
    aligned(used as int, at_least_four(alignment) as int)
}

/// Where the next slice would end.
pub open spec fn slice_end(used: u64, size: u64, alignment: u64) -> int {
    slice_start(used, alignment) + at_least_four(size)
}

/// The size of the buffer that replaces one without room.
pub open spec fn grown_size(required: int, minimum: u64) -> int {
    if next_power(required as nat) < minimum {
        minimum as int
    } else {
        next_power(required as nat) as int
    }
}

impl SliceBuffer {
    /// No more of the buffer is used than there is.
    pub open spec fn wf(self) -> bool {
        self.buffer matches Some(buffer) ==> self.used <= buffer.size
    }

    /// There is room for a slice.
    pub open spec fn has_room(self, size: u64, alignment: u64) -> bool {
        self.buffer matches Some(buffer) && slice_end(self.used, size, alignment) <= buffer.size
    }

    /// Starts without a buffer.
    pub fn new() -> (slices: SliceBuffer)
        ensures
            slices.wf(),
            slices.buffer is None,
            slices.used == 0,
    {
        SliceBuffer { buffer: None, used: 0 }
    }

    /// Takes a slice, or says which buffer has to be made for it.
    pub fn take(&mut self, size: u64, alignment: u64, minimum: u64) -> (plan: SlicePlan)
        requires
            old(self).wf(),
            next_power(slice_end(old(self).used, size, alignment) as nat) <= u64::MAX,
        ensures
            final(self).wf(),
            if old(self).has_room(size, alignment) {
                &&& plan == (SlicePlan::Ready {
                    buffer: old(self).buffer->0,
                    offset: slice_start(old(self).used, alignment) as u64,
                })
                &&& final(self).buffer == old(self).buffer
                &&& final(self).used == slice_end(old(self).used, size, alignment)
            } else {
                &&& plan == (SlicePlan::Grow {
                    replaced: old(self).buffer,
                    size: grown_size(slice_end(old(self).used, size, alignment), minimum) as u64,
                })
                &&& final(self).buffer is None
                &&& final(self).used == old(self).used
            },
            slice_start(old(self).used, alignment) <= u64::MAX,
    {
        let size: u64 = max_four(size);
        let alignment: u64 = max_four(alignment);
        proof {
            let start = aligned(self.used as int, alignment as int);
            law_next_power_is_least((start + size) as nat, 0);
            lemma_aligned_above(self.used as int, alignment as int);
        }
        let offset: u64 = align_device_size(self.used, alignment);
        let required: u64 = offset + size;
        match self.buffer {
            Some(buffer) if buffer.size >= required => {
                self.used = required;
                SlicePlan::Ready { buffer, offset }
            },
            _ => {
                let replaced: Option<VulkanBuffer> = self.buffer.take();
                let power: u64 = match checked_next_power_of_two(required) {
                    Some(power) => power,
                    None => u64::MAX,
                };
                SlicePlan::Grow {
                    replaced,
                    size: if power < minimum {
                        minimum
                    } else {
                        power
                    },
                }
            },
        }
    }

    /// Takes the slice at the start of a buffer that was made for it.
    pub fn take_grown(&mut self, buffer: VulkanBuffer, size: u64) -> (offset: u64)
        requires
            at_least_four(size) <= buffer.size,
        ensures
            final(self).wf(),
            offset == 0,
            final(self).buffer == Some(buffer),
            final(self).used == at_least_four(size),
    {
        self.buffer = Some(buffer);
        self.used = max_four(size);
        0
    }
}

proof fn lemma_aligned_above(value: int, alignment: int)
    requires
        0 <= value,
        1 <= alignment,
    ensures
        value <= aligned(value, alignment),
        aligned(value, alignment) % alignment == 0,
{
    let far = alignment * (value + 1);
    assert(far % alignment == 0) by {
        vstd::arithmetic::div_mod::lemma_mod_multiples_basic(value + 1, alignment);
        assert(alignment * (value + 1) == (value + 1) * alignment) by (nonlinear_arith);
    }
    assert(value <= far) by (nonlinear_arith)
        requires
            far == alignment * (value + 1),
            alignment >= 1,
            value >= 0,
    ;
    law_aligned_is_least_multiple(value, alignment, far);
}

/// A slice starts on its alignment, lies within its buffer, and begins after
/// everything that was handed out before, so that no two slices of a buffer overlap.
pub proof fn law_slices_do_not_overlap(slices: SliceBuffer, size: u64, alignment: u64)
    requires
        slices.wf(),
        slices.has_room(size, alignment),
    ensures
        slices.used <= slice_start(slices.used, alignment),
        slice_start(slices.used, alignment) % (at_least_four(alignment) as int) == 0,
        slice_start(slices.used, alignment) + at_least_four(size) == slice_end(
            slices.used,
            size,
            alignment,
        ),
        slice_end(slices.used, size, alignment) <= slices.buffer->0.size,
{
    lemma_aligned_above(slices.used as int, at_least_four(alignment) as int);
}

/// A buffer that was made to grow holds the slice that it was made for.
pub proof fn law_grown_buffer_has_room(used: u64, size: u64, alignment: u64, minimum: u64)
    ensures
        at_least_four(size) <= grown_size(slice_end(used, size, alignment), minimum),
        minimum <= grown_size(slice_end(used, size, alignment), minimum),
{
    lemma_aligned_above(used as int, at_least_four(alignment) as int);
    law_next_power_is_least(slice_end(used, size, alignment) as nat, 0);
}

/// What a frame borrows.
pub struct FrameResources {
    pub buffers: Vec<VulkanBuffer>,
    pub descriptor_pools: Vec<u64>,
    pub packets: SliceBuffer,
    pub uploads: SliceBuffer,
}

/// What a frame gives back: the pools, then the buffers in order.
pub struct FrameReleases {
    pub descriptor_pools: Vec<u64>,
    pub buffers: Vec<VulkanBuffer>,
}

/// How many descriptors of a type a pool holds.
#[derive(Clone, Copy, PartialEq, Eq, Structural, Debug)]
pub struct PoolSize {
    pub descriptor: i32,
    pub count: u32,
}

/// The descriptors that a pool of a frame holds.
pub open spec fn frame_pool_contents() -> Seq<PoolSize> {
    seq![
        PoolSize { descriptor: DESCRIPTOR_UNIFORM_BUFFER, count: 8192 },
        PoolSize { descriptor: DESCRIPTOR_SAMPLED_IMAGE, count: 4096 },
        PoolSize { descriptor: DESCRIPTOR_COMBINED_IMAGE_SAMPLER, count: 1024 },
        PoolSize { descriptor: DESCRIPTOR_SAMPLER, count: 4096 },
    ]
}

/// Lists the descriptors that a pool of a frame holds.
pub fn frame_pool_sizes() -> (sizes: Vec<PoolSize>)
    ensures
        sizes@ == frame_pool_contents(),
{
    let sizes: Vec<PoolSize> = vec![
        PoolSize { descriptor: DESCRIPTOR_UNIFORM_BUFFER, count: 8192 },
        PoolSize { descriptor: DESCRIPTOR_SAMPLED_IMAGE, count: 4096 },
        PoolSize { descriptor: DESCRIPTOR_COMBINED_IMAGE_SAMPLER, count: 1024 },
        PoolSize { descriptor: DESCRIPTOR_SAMPLER, count: 4096 },
    ];
    assert(sizes@ =~= frame_pool_contents());
    sizes
}

/// The next request for a descriptor set.
#[derive(Clone, Copy, PartialEq, Eq, Structural, Debug)]
pub enum DescriptorSetRequest {
    /// Make a pool; `retry` says that an allocation failed for want of room.
    CreatePool { retry: bool },
    Allocate { pool: u64, retry: bool },
    Ready(u64),
}

impl FrameResources {
    /// Neither shared buffer is used beyond its end.
    pub open spec fn wf(&self) -> bool {
        self.packets.wf() && self.uploads.wf()
    }

    /// Starts with nothing borrowed.
    pub fn new() -> (frame: FrameResources)
        ensures
            frame.wf(),
            frame.buffers@.len() == 0,
            frame.descriptor_pools@.len() == 0,
            frame.packets == (SliceBuffer { buffer: None, used: 0 }),
            frame.uploads == (SliceBuffer { buffer: None, used: 0 }),
    {
        FrameResources {
            buffers: Vec::new(),
            descriptor_pools: Vec::new(),
            packets: SliceBuffer::new(),
            uploads: SliceBuffer::new(),
        }
    }

    /// Takes a slice for a packet. A buffer without room is given back at once.
    pub fn alloc_frame_packet_slice(&mut self, size: u64, alignment: u64) -> (plan: SlicePlan)
        requires
            old(self).wf(),
            next_power(slice_end(old(self).packets.used, size, alignment) as nat) <= u64::MAX,
        ensures
            final(self).wf(),
            final(self).buffers@ == old(self).buffers@,
            final(self).descriptor_pools@ == old(self).descriptor_pools@,
            final(self).uploads == old(self).uploads,
            if old(self).packets.has_room(size, alignment) {
                &&& plan == (SlicePlan::Ready {
                    buffer: old(self).packets.buffer->0,
                    offset: slice_start(old(self).packets.used, alignment) as u64,
                })
                &&& final(self).packets.buffer == old(self).packets.buffer
                &&& final(self).packets.used == slice_end(old(self).packets.used, size, alignment)
            } else {
                &&& plan == (SlicePlan::Grow {
                    replaced: old(self).packets.buffer,
                    size: grown_size(
                        slice_end(old(self).packets.used, size, alignment),
                        MIN_PACKET_BUFFER,
                    ) as u64,
                })
                &&& final(self).packets == (SliceBuffer {
                    buffer: None,
                    used: old(self).packets.used,
                })
            },
    {
        self.packets.take(size, alignment, MIN_PACKET_BUFFER)
    }

    /// Takes a slice for a texture upload. A buffer without room is kept until the
    /// frame is over, since uploads may still read it.
    pub fn alloc_frame_texture_upload_slice(&mut self, size: u64) -> (plan: SlicePlan)
        requires
            old(self).wf(),
            next_power(slice_end(old(self).uploads.used, size, 4) as nat) <= u64::MAX,
        ensures
            final(self).wf(),
            final(self).descriptor_pools@ == old(self).descriptor_pools@,
            final(self).packets == old(self).packets,
            if old(self).uploads.has_room(size, 4) {
                &&& plan == (SlicePlan::Ready {
                    buffer: old(self).uploads.buffer->0,
                    offset: slice_start(old(self).uploads.used, 4) as u64,
                })
                &&& final(self).uploads.buffer == old(self).uploads.buffer
                &&& final(self).uploads.used == slice_end(old(self).uploads.used, size, 4)
                &&& final(self).buffers@ == old(self).buffers@
            } else {
                &&& plan == (SlicePlan::Grow {
                    replaced: None,
                    size: grown_size(
                        slice_end(old(self).uploads.used, size, 4),
                        MIN_UPLOAD_BUFFER,
                    ) as u64,
                })
                &&& final(self).uploads == (SliceBuffer {
                    buffer: None,
                    used: old(self).uploads.used,
                })
                &&& final(self).buffers@ == (match old(self).uploads.buffer {
                    Some(buffer) => old(self).buffers@.push(buffer),
                    None => old(self).buffers@,
                })
            },
    {
        match self.uploads.take(size, 4, MIN_UPLOAD_BUFFER) {
            SlicePlan::Ready { buffer, offset } => SlicePlan::Ready { buffer, offset },
            SlicePlan::Grow { replaced, size } => {
                match replaced {
                    Some(buffer) => {
                        self.buffers.push(buffer);
                    },
                    None => {},
                }
                SlicePlan::Grow { replaced: None, size }
            },
        }
    }

    /// Starts to allocate a descriptor set: from the latest pool, or a first one.
    pub fn alloc_frame_descriptor_set(&self) -> (request: DescriptorSetRequest)
        ensures
            request == (if self.descriptor_pools@.len() == 0 {
                DescriptorSetRequest::CreatePool { retry: false }
            } else {
                DescriptorSetRequest::Allocate { pool: self.descriptor_pools@.last(), retry: false }
            }),
    {
        let count: usize = self.descriptor_pools.len();
        if count == 0 {
            DescriptorSetRequest::CreatePool { retry: false }
        } else {
            DescriptorSetRequest::Allocate {
                pool: self.descriptor_pools[count - 1],
                retry: false,
            }
        }
    }

    /// Takes over a pool that was made, or reports why there is none.
    pub fn pool_created(&mut self, retry: bool, pool: Result<u64, i32>) -> (request: Result<
        DescriptorSetRequest,
        String,
    >)
        requires
            old(self).wf(),
        ensures
            final(self).wf(),
            final(self).buffers@ == old(self).buffers@,
            final(self).packets == old(self).packets,
            final(self).uploads == old(self).uploads,
            match pool {
                Ok(handle) => {
                    &&& final(self).descriptor_pools@ == old(self).descriptor_pools@.push(handle)
                    &&& request == Ok::<DescriptorSetRequest, String>(
                        DescriptorSetRequest::Allocate { pool: handle, retry },
                    )
                },
                Err(code) => {
                    &&& final(self).descriptor_pools@ == old(self).descriptor_pools@
                    &&& request matches Err(message)
                    &&& message@ == call_failed_text("create_descriptor_pool"@, code)
                },
            },
    {
        match pool {
            Ok(handle) => {
                self.descriptor_pools.push(handle);
                Ok(DescriptorSetRequest::Allocate { pool: handle, retry })
            },
            Err(code) => Err(call_failed("create_descriptor_pool", code)),
        }
    }

    /// Gives all of it back.
    pub fn destroy_owned_frame_resources(&mut self) -> (releases: FrameReleases)
        requires
            old(self).wf(),
        ensures
            final(self).wf(),
            final(self).buffers@.len() == 0,
            final(self).descriptor_pools@.len() == 0,
            final(self).packets == (SliceBuffer { buffer: None, used: 0 }),
            final(self).uploads == (SliceBuffer { buffer: None, used: 0 }),
            releases.descriptor_pools@ == old(self).descriptor_pools@,
            releases.buffers@ == old(self).buffers@ + optional_buffer(old(self).packets.buffer)
                + optional_buffer(old(self).uploads.buffer),
    {
        let mut pools: Vec<u64> = Vec::new();
        std::mem::swap(&mut pools, &mut self.descriptor_pools);
        let mut buffers: Vec<VulkanBuffer> = Vec::new();
        std::mem::swap(&mut buffers, &mut self.buffers);
        let ghost kept = buffers@;
        match self.packets.buffer {
            Some(buffer) => {
                buffers.push(buffer);
            },
            None => {},
        }
        assert(buffers@ =~= kept + optional_buffer(old(self).packets.buffer));
        let ghost kept = buffers@;
        match self.uploads.buffer {
            Some(buffer) => {
                buffers.push(buffer);
            },
            None => {},
        }
        assert(buffers@ =~= kept + optional_buffer(old(self).uploads.buffer));
        self.packets = SliceBuffer::new();
        self.uploads = SliceBuffer::new();
        FrameReleases { descriptor_pools: pools, buffers }
    }

    /// Makes it ready for the next frame once its pools were reset: the shared buffers
    /// are kept and used from the start. Returns the buffers to give back.
    pub fn recycle_owned_frame_resources(&mut self) -> (releases: Vec<VulkanBuffer>)
        requires
            old(self).wf(),
        ensures
            final(self).wf(),
            final(self).buffers@.len() == 0,
            final(self).descriptor_pools@ == old(self).descriptor_pools@,
            final(self).packets == (SliceBuffer { used: 0, ..old(self).packets }),
            final(self).uploads == (SliceBuffer { used: 0, ..old(self).uploads }),
            releases@ == old(self).buffers@,
    {
        let mut buffers: Vec<VulkanBuffer> = Vec::new();
        std::mem::swap(&mut buffers, &mut self.buffers);
        self.packets.used = 0;
        self.uploads.used = 0;
        buffers
    }
}

/// The buffer, if there is one.
pub open spec fn optional_buffer(buffer: Option<VulkanBuffer>) -> Seq<VulkanBuffer> {
    match buffer {
        Some(buffer) => seq![buffer],
        None => seq![],
    }
}

/// Whether an allocation failed only for want of room in its pool.
pub open spec fn pool_exhausted(code: i32) -> bool {
    code == RESULT_OUT_OF_POOL_MEMORY || code == RESULT_FRAGMENTED_POOL
}

/// Takes what came of an allocation. A pool without room is answered with a new one,
/// once.
pub fn set_allocated(retry: bool, result: Result<u64, i32>) -> (request: Result<
    DescriptorSetRequest,
    String,
>)
    ensures
        match result {
            Ok(set) => request == Ok::<DescriptorSetRequest, String>(
                DescriptorSetRequest::Ready(set),
            ),
            Err(code) => if !retry && pool_exhausted(code) {
                request == Ok::<DescriptorSetRequest, String>(
                    DescriptorSetRequest::CreatePool { retry: true },
                )
            } else {
                request matches Err(message) && message@ == call_failed_text(
                    "allocate_descriptor_sets"@,
                    code,
                )
            },
        },
{
    match result {
        Ok(set) => Ok(DescriptorSetRequest::Ready(set)),
        Err(code) => {
            if !retry && (code == RESULT_OUT_OF_POOL_MEMORY || code == RESULT_FRAGMENTED_POOL) {
                Ok(DescriptorSetRequest::CreatePool { retry: true })
            } else {
                Err(call_failed("allocate_descriptor_sets", code))
            }
        },
    }
}

/// A slice starts on its alignment behind all that is used, ends behind its own bytes, and
/// wastes less than an alignment.
pub proof fn law_slice_starts_behind_what_is_used(used: u64, size: u64, alignment: u64)
    ensures
        slice_start(used, alignment) >= used,
        alignment >= 4 ==> slice_start(used, alignment) % (alignment as int) == 0,
        slice_start(used, alignment) % 4 == 0 || alignment > 4,
        alignment >= 4 ==> slice_start(used, alignment) < used + alignment,
        slice_end(used, size, alignment) >= slice_start(used, alignment) + size,
        slice_end(used, size, alignment) >= slice_start(used, alignment) + 4,
        size >= 4 ==> slice_end(used, size, alignment) == slice_start(used, alignment) + size,
{
    let a = if alignment < 4 {
        4
    } else {
        alignment as int
    };
    let least = ((used + a - 1) / a) * a;
    vstd::arithmetic::div_mod::lemma_mod_multiples_basic((used + a - 1) / a, a);
    vstd::arithmetic::div_mod::lemma_fundamental_div_mod(used + a - 1, a);
    vstd::arithmetic::div_mod::lemma_mod_bound(used + a - 1, a);
    assert(least >= used) by (nonlinear_arith)
        requires
            least == ((used + a - 1) / a) * a,
            used + a - 1 == a * ((used + a - 1) / a) + (used + a - 1) % a,
            (used + a - 1) % a < a,
    ;
    crate::vulkan::buffers::law_aligned_is_least_multiple(used as int, a, least);
}

/// A buffer has room for a slice exactly where the slice ends within it.
pub proof fn law_room_is_within_the_buffer(slices: SliceBuffer, size: u64, alignment: u64)
    ensures
        slices.buffer is None ==> !slices.has_room(size, alignment),
        slices.has_room(size, alignment) ==> slices.used + size <= slices.buffer->0.size,
        slices.buffer is Some && !slices.has_room(size, alignment) && size >= 4 && alignment >= 4
            ==> slices.used + alignment + size > slices.buffer->0.size,
{
    law_slice_starts_behind_what_is_used(slices.used, size, alignment);
}

/// Another pool is tried exactly where the pool is full or in pieces.
pub proof fn law_full_pools_are_told_apart(code: i32)
    ensures
        pool_exhausted(code) <==> code == -1_000_069_000 || code == -12,
{
}

/// A pool of a frame has descriptors of the kinds that draws bind: samplers, images,
/// images with their samplers, and uniform buffers. It has none of another kind.
pub proof fn law_frame_pools_serve_draws(descriptor: i32)
    ensures
        (exists|i: int|
            0 <= i < frame_pool_contents().len() && (
            #[trigger] frame_pool_contents()[i]).descriptor == descriptor
                && frame_pool_contents()[i].count >= 1024) <==> descriptor == 0 || descriptor == 1
            || descriptor == 2 || descriptor == 6,
{
    let sizes = frame_pool_contents();
    assert(sizes[0].descriptor == 6 && sizes[0].count >= 1024);
    assert(sizes[1].descriptor == 2 && sizes[1].count >= 1024);
    assert(sizes[2].descriptor == 1 && sizes[2].count >= 1024);
    assert(sizes[3].descriptor == 0 && sizes[3].count >= 1024);
}

} // verus!
