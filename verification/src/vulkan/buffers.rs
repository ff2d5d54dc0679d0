//! Host-visible buffers: sizes, memory types and the calls that make one.

use ash::vk;
use vstd::prelude::*;

use crate::text::upper_hex;
#[allow(unused_imports)]
use crate::text::hex_text;
use crate::vulkan::failure::call_failed;
#[allow(unused_imports)]
use crate::vulkan::failure::call_failed_text;

verus! {

/// `value` rounded up to a multiple of `alignment`. An alignment of zero or one
/// changes nothing.
pub open spec fn aligned(value: int, alignment: int) -> int {
    if alignment <= 1 {
        value
    } else {
        (value + alignment - 1) / alignment * alignment
    }
}

/// A value rounded up is the least multiple of the alignment that is not below it.
pub proof fn law_aligned_is_least_multiple(value: int, alignment: int, other: int)
    requires
        0 <= value,
        1 <= alignment,
        other % alignment == 0,
        value <= other,
    ensures
        aligned(value, alignment) % alignment == 0,
        value <= aligned(value, alignment) < value + alignment,
        aligned(value, alignment) <= other,
        aligned(aligned(value, alignment), alignment) == aligned(value, alignment),
{
    lemma_aligned(value, alignment);
    lemma_aligned(aligned(value, alignment), alignment);
    let a = aligned(value, alignment);
    if a > other {
        vstd::arithmetic::div_mod::lemma_fundamental_div_mod(a, alignment);
        vstd::arithmetic::div_mod::lemma_fundamental_div_mod(other, alignment);
        assert(a / alignment > other / alignment) by (nonlinear_arith)
            requires
                a > other,
                a == alignment * (a / alignment),
                other == alignment * (other / alignment),
                alignment >= 1,
        ;
        assert(a - other >= alignment) by (nonlinear_arith)
            requires
                a == alignment * (a / alignment),
                other == alignment * (other / alignment),
                a / alignment > other / alignment,
                alignment >= 1,
        ;
    }
}

proof fn lemma_aligned(value: int, alignment: int)
    requires
        0 <= value,
        1 <= alignment,
    ensures
        aligned(value, alignment) % alignment == 0,
        value <= aligned(value, alignment) < value + alignment,
        value % alignment == 0 ==> aligned(value, alignment) == value,
        value % alignment != 0 ==> aligned(value, alignment) == value + (alignment - value
            % alignment),
{
    if alignment > 1 {
        let q = value / alignment;
        let r = value % alignment;
        vstd::arithmetic::div_mod::lemma_fundamental_div_mod(value, alignment);
        vstd::arithmetic::div_mod::lemma_mod_bound(value, alignment);
        assert(alignment * q == q * alignment) by (nonlinear_arith);
        if r == 0 {
            assert((value + alignment - 1) / alignment == q) by {
                vstd::arithmetic::div_mod::lemma_fundamental_div_mod_converse(
                    value + alignment - 1,
                    alignment,
                    q,
                    alignment - 1,
                );
            }
        } else {
            assert(q * alignment + alignment == (q + 1) * alignment) by (nonlinear_arith);
            assert((value + alignment - 1) / alignment == q + 1) by {
                vstd::arithmetic::div_mod::lemma_fundamental_div_mod_converse(
                    value + alignment - 1,
                    alignment,
                    q + 1,
                    r - 1,
                );
            }
        }
        let k = (value + alignment - 1) / alignment;
        vstd::arithmetic::div_mod::lemma_mod_multiples_basic(k, alignment);
        assert((q + 1) * alignment == q * alignment + alignment) by (nonlinear_arith);
    }
}

/// Rounds `value` up to a multiple of `alignment`.
pub fn align_device_size(value: u64, alignment: u64) -> (result: u64)
    requires
        aligned(value as int, alignment as int) <= u64::MAX,
    ensures
        result == aligned(value as int, alignment as int),
{
    if alignment <= 1 {
        value
    } else {
        proof {
            lemma_aligned(value as int, alignment as int);
        }
        let rest: u64 = value % alignment;
        if rest == 0 {
            value
        } else {
            value + (alignment - rest)
        }
    }
}

/// A buffer with the memory that backs it.
#[derive(Clone, Copy, PartialEq, Eq, Structural, Debug)]
pub struct VulkanBuffer {
    pub buffer: u64,
    pub memory: u64,
    pub size: u64,
}

/// One half of a buffer that is given back.
#[derive(Clone, Copy, PartialEq, Eq, Structural, Debug)]
pub enum BufferRelease {
    DestroyBuffer(u64),
    FreeMemory(u64),
}

/// What is given back of a buffer: the buffer, then its memory, each unless null.
pub open spec fn buffer_releases(buffer: VulkanBuffer) -> Seq<BufferRelease> {
    (if buffer.buffer != 0 {
        seq![BufferRelease::DestroyBuffer(buffer.buffer)]
    } else {
        seq![]
    }) + (if buffer.memory != 0 {
        seq![BufferRelease::FreeMemory(buffer.memory)]
    } else {
        seq![]
    })
}

/// Lists what is given back of a buffer.
pub fn destroy_buffer(buffer: VulkanBuffer) -> (releases: Vec<BufferRelease>)
    ensures
        releases@ == buffer_releases(buffer),
{
    let mut releases: Vec<BufferRelease> = Vec::new();
    if buffer.buffer != 0 {
        releases.push(BufferRelease::DestroyBuffer(buffer.buffer));
    }
    if buffer.memory != 0 {
        releases.push(BufferRelease::FreeMemory(buffer.memory));
    }
    assert(releases@ =~= buffer_releases(buffer));
    releases
}

/// `vk::MemoryPropertyFlags::contains`: every bit of `wanted` is set in
/// `available`.
#[verifier::external_body]
fn memory_flags_contain(available: u32, wanted: u32) -> (contained: bool)
    ensures
        contained == (available & wanted == wanted),
{
    vk::MemoryPropertyFlags::from_raw(available).contains(vk::MemoryPropertyFlags::from_raw(wanted))
}

/// The bits of memory that the host can see and that needs no flushing.
pub const HOST_MEMORY: u32 = 6;

/// `vk::MemoryPropertyFlags::HOST_VISIBLE | vk::MemoryPropertyFlags::HOST_COHERENT`
/// as bits: two and four.
#[verifier::external_body]
fn host_memory_flags() -> (flags: u32)
    ensures
        flags == HOST_MEMORY,
{
    (vk::MemoryPropertyFlags::HOST_VISIBLE | vk::MemoryPropertyFlags::HOST_COHERENT).as_raw()
}

/// The text that ash's `Debug` gives for memory property flags.
pub uninterp spec fn memory_flags_debug(flags: u32) -> Seq<char>;

/// `format!("{:?}", ash::vk::MemoryPropertyFlags::from_raw(flags))`: the names of
/// the flags, a function of the bits alone.
#[verifier::external_body]
fn memory_flags_text(flags: u32) -> (text: String)
    ensures
        text@ == memory_flags_debug(flags),
{
    format!("{:?}", vk::MemoryPropertyFlags::from_raw(flags))
}

/// Whether memory type `index` may be used: the filter has its bit, and it has all
/// the wanted properties.
pub open spec fn memory_type_suits(types: Seq<u32>, filter: u32, wanted: u32, index: int) -> bool {
    &&& filter & (1u32 << (index as u32)) != 0
    &&& types[index] & wanted == wanted
}

/// The message where no memory type may be used.
pub open spec fn no_memory_type_text(filter: u32, wanted: u32) -> Seq<char> {
    "failed to find memory type matching "@ + memory_flags_debug(wanted) + " for filter 0x"@
        + hex_text(filter as nat)
}

/// The first memory type from `from` on that may be used.
pub open spec fn first_memory_type(
    types: Seq<u32>,
    filter: u32,
    wanted: u32,
    from: int,
) -> Option<int>
    decreases types.len() - from,
{
    if from < 0 || from >= types.len() {
        None
    } else if memory_type_suits(types, filter, wanted, from) {
        Some(from)
    } else {
        first_memory_type(types, filter, wanted, from + 1)
    }
}

/// The memory type found suits, none before it does, and none is missed.
pub proof fn law_first_memory_type(types: Seq<u32>, filter: u32, wanted: u32, from: int)
    requires
        0 <= from,
    ensures
        match first_memory_type(types, filter, wanted, from) {
            Some(index) => {
                &&& from <= index < types.len()
                &&& memory_type_suits(types, filter, wanted, index)
                &&& forall|i: int|
                    from <= i < index ==> !#[trigger] memory_type_suits(types, filter, wanted, i)
            },
            None => forall|i: int|
                from <= i < types.len() ==> !#[trigger] memory_type_suits(types, filter, wanted, i),
        },
    decreases types.len() - from,
{
    if from < types.len() && !memory_type_suits(types, filter, wanted, from) {
        law_first_memory_type(types, filter, wanted, from + 1);
    }
}

/// Finds the first memory type that may be used. `types` holds the property flags of
/// the device's memory types.
pub fn find_memory_type(types: &[u32], filter: u32, wanted: u32) -> (result: Result<u32, String>)
    requires
        types@.len() <= 32,
    ensures
        match first_memory_type(types@, filter, wanted, 0) {
            Some(index) => result == Ok::<u32, String>(index as u32),
            None => result matches Err(message) && message@ == no_memory_type_text(filter, wanted),
        },
{
    let mut i: usize = 0;
    while i < types.len()
        invariant
            i <= types@.len() <= 32,
            first_memory_type(types@, filter, wanted, 0) == first_memory_type(
                types@,
                filter,
                wanted,
                i as int,
            ),
        decreases types@.len() - i,
    {
        let index: u32 = i as u32;
        let bit: u32 = 1u32 << index;
        if filter & bit != 0 && memory_flags_contain(types[i], wanted) {
            return Ok(index);
        }
        i = i + 1;
    }
    let mut message: String = "failed to find memory type matching ".to_owned();
    let flags: String = memory_flags_text(wanted);
    message.append(flags.as_str());
    message.append(" for filter 0x");
    let hex: String = upper_hex(filter as u64);
    message.append(hex.as_str());
    Err(message)
}

/// The size that a buffer of `byte_len` bytes is made with; the device takes none
/// below four.
pub open spec fn host_buffer_size(byte_len: u64) -> u64 {
    if byte_len < 4 {
        4
    } else {
        byte_len
    }
}

/// Where the making of a buffer stands.
#[derive(Clone, Copy, PartialEq, Eq, Structural, Debug)]
pub enum HostBufferRun {
    Creating { size: u64 },
    Sizing { size: u64, buffer: u64 },
    Allocating { size: u64, buffer: u64 },
    Binding { size: u64, buffer: u64, memory: u64 },
    Ended,
}

/// What came of the last request.
pub enum HostBufferEvent {
    Created(u64),
    /// The buffer's memory requirements, with the property flags of the device's
    /// memory types.
    Requirements { memory_types: Vec<u32>, type_bits: u32, size: u64 },
    Allocated(u64),
    Bound,
    Failed(i32),
}

/// The next request, or the end.
pub enum HostBufferRequest {
    Create { size: u64 },
    QueryRequirements { buffer: u64 },
    Allocate { size: u64, memory_type: u32 },
    Bind { buffer: u64, memory: u64 },
    Ready(VulkanBuffer),
    /// The buffer could not be made: give these back, in order, and report.
    Failed { releases: Vec<BufferRelease>, message: String },
    /// The event does not belong to the request that was made.
    Unexpected,
}

/// Starts the making of a buffer of at least `byte_len` bytes.
pub fn create_host_buffer(byte_len: u64) -> (result: (HostBufferRun, HostBufferRequest))
    ensures
        result.0 == (HostBufferRun::Creating { size: host_buffer_size(byte_len) }),
        result.1 == (HostBufferRequest::Create { size: host_buffer_size(byte_len) }),
{
    let size: u64 = if byte_len < 4 { 4 } else { byte_len };
    (HostBufferRun::Creating { size }, HostBufferRequest::Create { size })
}

/// What a failed making of a buffer gives back and reports.
pub open spec fn host_buffer_failed(
    request: HostBufferRequest,
    releases: Seq<BufferRelease>,
    message: Seq<char>,
) -> bool {
    request matches HostBufferRequest::Failed { releases: r, message: m } && r@ =~= releases && m@
        =~= message
}

impl HostBufferRun {
    /// Takes what came of the last request and gives the next one.
    pub fn advance(self, event: HostBufferEvent) -> (result: (HostBufferRun, HostBufferRequest))
        requires
            event matches HostBufferEvent::Requirements { memory_types, .. } ==> memory_types@.len()
                <= 32,
        ensures
            match (self, event) {
                (HostBufferRun::Creating { size }, HostBufferEvent::Created(buffer)) => {
                    &&& result.0 == (HostBufferRun::Sizing { size, buffer })
                    &&& result.1 == (HostBufferRequest::QueryRequirements { buffer })
                },
                (HostBufferRun::Creating { size }, HostBufferEvent::Failed(code)) => {
                    &&& result.0 == HostBufferRun::Ended
                    &&& host_buffer_failed(
                        result.1,
                        seq![],
                        call_failed_text("create_buffer"@, code),
                    )
                },
                (
                    HostBufferRun::Sizing { size, buffer },
                    HostBufferEvent::Requirements { memory_types, type_bits, size: needed },
                ) => {
                    match first_memory_type(memory_types@, type_bits, HOST_MEMORY, 0) {
                        Some(index) => {
                            &&& result.0 == (HostBufferRun::Allocating { size, buffer })
                            &&& result.1 == (HostBufferRequest::Allocate {
                                size: needed,
                                memory_type: index as u32,
                            })
                        },
                        None => {
                            &&& result.0 == HostBufferRun::Ended
                            &&& host_buffer_failed(
                                result.1,
                                seq![BufferRelease::DestroyBuffer(buffer)],
                                no_memory_type_text(type_bits, HOST_MEMORY),
                            )
                        },
                    }
                },
                (HostBufferRun::Allocating { size, buffer }, HostBufferEvent::Allocated(memory)) => {
                    &&& result.0 == (HostBufferRun::Binding { size, buffer, memory })
                    &&& result.1 == (HostBufferRequest::Bind { buffer, memory })
                },
                (HostBufferRun::Allocating { size, buffer }, HostBufferEvent::Failed(code)) => {
                    &&& result.0 == HostBufferRun::Ended
                    &&& host_buffer_failed(
                        result.1,
                        seq![BufferRelease::DestroyBuffer(buffer)],
                        call_failed_text("allocate_memory"@, code),
                    )
                },
                (HostBufferRun::Binding { size, buffer, memory }, HostBufferEvent::Bound) => {
                    &&& result.0 == HostBufferRun::Ended
                    &&& result.1 == HostBufferRequest::Ready(
                        (VulkanBuffer { buffer, memory, size }),
                    )
                },
                (HostBufferRun::Binding { size, buffer, memory }, HostBufferEvent::Failed(code)) => {
                    &&& result.0 == HostBufferRun::Ended
                    &&& host_buffer_failed(
                        result.1,
                        seq![BufferRelease::FreeMemory(memory), BufferRelease::DestroyBuffer(buffer)],
                        call_failed_text("bind_buffer_memory"@, code),
                    )
                },
                _ => {
                    &&& result.0 == self
                    &&& result.1 == HostBufferRequest::Unexpected
                },
            },
    {
        match (self, event) {
            (HostBufferRun::Creating { size }, HostBufferEvent::Created(buffer)) => {
                (
                    HostBufferRun::Sizing { size, buffer },
                    HostBufferRequest::QueryRequirements { buffer },
                )
            },
            (HostBufferRun::Creating { .. }, HostBufferEvent::Failed(code)) => {
                let releases: Vec<BufferRelease> = Vec::new();
                assert(releases@ =~= seq![]);
                (
                    HostBufferRun::Ended,
                    HostBufferRequest::Failed {
                        releases,
                        message: call_failed("create_buffer", code),
                    },
                )
            },
            (
                HostBufferRun::Sizing { size, buffer },
                HostBufferEvent::Requirements { memory_types, type_bits, size: needed },
            ) => {
                match find_memory_type(memory_types.as_slice(), type_bits, host_memory_flags()) {
                    Ok(memory_type) => (
                        HostBufferRun::Allocating { size, buffer },
                        HostBufferRequest::Allocate { size: needed, memory_type },
                    ),
                    Err(message) => {
                        let releases: Vec<BufferRelease> = vec![
                            BufferRelease::DestroyBuffer(buffer),
                        ];
                        (HostBufferRun::Ended, HostBufferRequest::Failed { releases, message })
                    },
                }
            },
            (HostBufferRun::Allocating { size, buffer }, HostBufferEvent::Allocated(memory)) => {
                (
                    HostBufferRun::Binding { size, buffer, memory },
                    HostBufferRequest::Bind { buffer, memory },
                )
            },
            (HostBufferRun::Allocating { size: _, buffer }, HostBufferEvent::Failed(code)) => {
                let releases: Vec<BufferRelease> = vec![BufferRelease::DestroyBuffer(buffer)];
                (
                    HostBufferRun::Ended,
                    HostBufferRequest::Failed {
                        releases,
                        message: call_failed("allocate_memory", code),
                    },
                )
            },
            (HostBufferRun::Binding { size, buffer, memory }, HostBufferEvent::Bound) => {
                (
                    HostBufferRun::Ended,
                    HostBufferRequest::Ready(VulkanBuffer { buffer, memory, size }),
                )
            },
            (HostBufferRun::Binding { size: _, buffer, memory }, HostBufferEvent::Failed(code)) => {
                let releases: Vec<BufferRelease> = vec![
                    BufferRelease::FreeMemory(memory),
                    BufferRelease::DestroyBuffer(buffer),
                ];
                (
                    HostBufferRun::Ended,
                    HostBufferRequest::Failed {
                        releases,
                        message: call_failed("bind_buffer_memory", code),
                    },
                )
            },
            _ => (self, HostBufferRequest::Unexpected),
        }
    }
}

/// How data reaches a new buffer: the whole of its memory is mapped and
/// `copy_len` bytes are copied to its start.
#[derive(Clone, Copy, PartialEq, Eq, Structural, Debug)]
pub struct DataUpload {
    pub memory: u64,
    pub map_size: u64,
    pub copy_len: u64,
}

/// The upload of `byte_len` bytes into a new buffer; nothing is mapped for no data.
pub fn create_host_buffer_with_data(buffer: VulkanBuffer, byte_len: u64) -> (upload: Option<
    DataUpload,
>)
    ensures
        upload == (if byte_len == 0 {
            None
        } else {
            Some(
                DataUpload { memory: buffer.memory, map_size: buffer.size, copy_len: byte_len },
            )
        }),
{
    if byte_len == 0 {
        None
    } else {
        Some(DataUpload { memory: buffer.memory, map_size: buffer.size, copy_len: byte_len })
    }
}

/// A buffer gives back itself and its memory, in this order, each where it is not null.
pub proof fn law_buffer_gives_back_both_parts(buffer: VulkanBuffer)
    ensures
        buffer_releases(buffer).contains(BufferRelease::DestroyBuffer(buffer.buffer))
            <==> buffer.buffer != 0,
        buffer_releases(buffer).contains(BufferRelease::FreeMemory(buffer.memory)) <==> buffer.memory
            != 0,
        buffer.buffer != 0 ==> buffer_releases(buffer)[0] is DestroyBuffer,
        buffer_releases(buffer).len() <= 2,
{
    let releases = buffer_releases(buffer);
    if buffer.buffer != 0 {
        assert(releases[0] == BufferRelease::DestroyBuffer(buffer.buffer));
    }
    if buffer.memory != 0 {
        assert(releases[releases.len() - 1] == BufferRelease::FreeMemory(buffer.memory));
    }
}

/// A buffer has room for its bytes, and for four at least.
pub proof fn law_host_buffer_has_room(byte_len: u64)
    ensures
        host_buffer_size(byte_len) >= byte_len,
        host_buffer_size(byte_len) >= 4,
        byte_len >= 4 ==> host_buffer_size(byte_len) == byte_len,
{
}

/// A memory type suits exactly where the buffer allows it and it has all properties that
/// are wanted; fewer wishes are met by what met more.
pub proof fn law_memory_type_meets_all_wishes(
    types: Seq<u32>,
    filter: u32,
    wanted: u32,
    fewer: u32,
    index: int,
)
    requires
        0 <= index < types.len(),
        index < 32,
        wanted & fewer == fewer,
    ensures
        memory_type_suits(types, filter, wanted, index) ==> memory_type_suits(
            types,
            filter,
            fewer,
            index,
        ),
        memory_type_suits(types, filter, wanted, index) ==> filter & (1u32 << (index as u32)) != 0
            && types[index] & wanted == wanted,
        filter & (1u32 << (index as u32)) != 0 && types[index] == wanted ==> memory_type_suits(
            types,
            filter,
            wanted,
            index,
        ),
{
    let flags = types[index];
    assert(wanted & fewer == fewer && flags & wanted == wanted ==> flags & fewer == fewer)
        by (bit_vector);
    assert(wanted & wanted == wanted) by (bit_vector);
}

/// The message for memory that is not there begins with what was looked for and ends with
/// the filter.
pub proof fn law_missing_memory_is_named(filter: u32, wanted: u32)
    ensures
        ({
            let text = no_memory_type_text(filter, wanted);
            let start = "failed to find memory type matching "@ + memory_flags_debug(wanted);
            let end = hex_text(filter as nat);
            &&& start.is_prefix_of(text)
            &&& text.len() >= end.len()
            &&& text.skip(text.len() - end.len()) == end
        }),
{
    let text = no_memory_type_text(filter, wanted);
    let start = "failed to find memory type matching "@ + memory_flags_debug(wanted);
    let end = hex_text(filter as nat);
    assert(text.take(start.len() as int) =~= start);
    assert(text.subrange(0, start.len() as int) =~= start);
    assert(text.skip(text.len() - end.len()) =~= end);
}

} // verus!
