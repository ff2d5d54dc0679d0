//! Walking a draw list: which calls are drawn, in which order and at which depth.

use vstd::prelude::*;

verus! {

/// What is known of a draw call.
#[derive(Clone, Copy, PartialEq, Eq, Structural, Debug)]
pub struct DrawCall {
    /// The caller's name for the call.
    pub id: u64,
    pub has_os_shader: bool,
    pub has_vulkan_shader: bool,
    pub has_spirv: bool,
    /// How many numbers one instance has.
    pub instance_slots: usize,
    /// How many numbers the instances have together, if there are any.
    pub instance_len: Option<usize>,
    pub has_geometry: bool,
    pub geometry_vertices: usize,
    pub geometry_indices: usize,
    pub uses_time: bool,
}

/// An item of a draw list.
pub enum DrawItem {
    /// Nothing at this place of the order.
    Missing,
    SubList(DrawList),
    Call(DrawCall),
    /// Neither a list nor a call.
    Other,
}

/// A draw list, in drawing order.
pub struct DrawList {
    /// The list starts its depths anew when it is drawn inside another list.
    pub reset_zbias: bool,
    pub items: Vec<DrawItem>,
}

/// What became of the items.
#[derive(Clone, Copy, PartialEq, Eq, Structural, Debug)]
pub struct VulkanDrawStats {
    pub draw_items: u64,
    pub draw_calls: u64,
    pub packets_recorded: u64,
    pub instances: u64,
    pub indices: u64,
    pub skipped_non_draw_call: u64,
    pub skipped_no_os_shader: u64,
    pub skipped_no_vulkan_shader: u64,
    pub skipped_missing_spirv: u64,
    pub skipped_no_instance_slots: u64,
    pub skipped_no_instances_buffer: u64,
    pub skipped_instances_too_short: u64,
    /// Never raised: a call whose numbers are enough has an instance.
    pub skipped_zero_instances: u64,
    pub skipped_no_geometry_id: u64,
    pub skipped_empty_geometry: u64,
}

/// What becomes of a draw call.
#[derive(Clone, Copy, PartialEq, Eq, Structural, Debug)]
pub enum CallFate {
    NoOsShader,
    NoVulkanShader,
    MissingSpirv,
    NoInstanceSlots,
    NoInstancesBuffer,
    InstancesTooShort,
    NoGeometry,
    EmptyGeometry,
    Drawn,
}

/// A call that took a depth. `zbias` counts the depth steps before it.
#[derive(Clone, Copy, PartialEq, Eq, Structural, Debug)]
pub struct VisitedCall {
    pub id: u64,
    pub zbias: u64,
    pub uses_time: bool,
    pub drawn: bool,
}

/// What is drawn with, and what is still to be taken over, of a call.
#[derive(Clone, Copy, PartialEq, Eq, Structural, Debug)]
pub struct DrawCallState {
    /// The bits of the depth.
    pub zbias: u32,
    pub instance_dirty: bool,
    pub uniforms_dirty: bool,
}

impl DrawCallState {
    /// A call that takes a depth has it, and loses its marks.
    pub fn visited_at(&mut self, zbias: u32)
        ensures
            *final(self) == (DrawCallState {
                zbias,
                instance_dirty: false,
                uniforms_dirty: false,
            }),
    {
        self.zbias = zbias;
        self.instance_dirty = false;
        self.uniforms_dirty = false;
    }
}

/// What becomes of a call: the first thing that is missing decides.
pub open spec fn call_fate(call: DrawCall) -> CallFate {
    if !call.has_os_shader {
        CallFate::NoOsShader
    } else if !call.has_vulkan_shader {
        CallFate::NoVulkanShader
    } else if !call.has_spirv {
        CallFate::MissingSpirv
    } else if call.instance_slots == 0 {
        CallFate::NoInstanceSlots
    } else {
        match call.instance_len {
            None => CallFate::NoInstancesBuffer,
            Some(len) => if len < call.instance_slots {
                CallFate::InstancesTooShort
            } else if !call.has_geometry {
                CallFate::NoGeometry
            } else if call.geometry_indices == 0 || call.geometry_vertices == 0 {
                CallFate::EmptyGeometry
            } else {
                CallFate::Drawn
            },
        }
    }
}

fn find_fate(call: &DrawCall) -> (fate: CallFate)
    ensures
        fate == call_fate(*call),
{
    if !call.has_os_shader {
        CallFate::NoOsShader
    } else if !call.has_vulkan_shader {
        CallFate::NoVulkanShader
    } else if !call.has_spirv {
        CallFate::MissingSpirv
    } else if call.instance_slots == 0 {
        CallFate::NoInstanceSlots
    } else {
        match call.instance_len {
            None => CallFate::NoInstancesBuffer,
            Some(len) => {
                if len < call.instance_slots {
                    CallFate::InstancesTooShort
                } else if !call.has_geometry {
                    CallFate::NoGeometry
                } else if call.geometry_indices == 0 || call.geometry_vertices == 0 {
                    CallFate::EmptyGeometry
                } else {
                    CallFate::Drawn
                }
            },
        }
    }
}

/// The indices of a geometry as they are counted for a draw: in 32 bits.
pub open spec fn index_count(indices: usize) -> int {
    indices as int % 0x1_0000_0000
}

/// Counts the indices of a geometry for a draw.
pub fn drawn_index_count(indices: usize) -> (count: u32)
    ensures
        count == index_count(indices),
{
    let wide: u64 = indices as u64;
    let count: u32 = (wide % 0x1_0000_0000) as u32;
    count
}

/// The instances of a call that has enough numbers for one.
pub open spec fn instance_count(call: DrawCall) -> int {
    match call.instance_len {
        Some(len) => if call.instance_slots == 0 {
            0
        } else {
            (len / call.instance_slots) as int
        },
        None => 0,
    }
}

/// The walk takes a depth step for a call, whether or not its geometry is empty.
pub open spec fn takes_depth(fate: CallFate) -> bool {
    fate is EmptyGeometry || fate is Drawn
}

/// The counts, without bound.
pub ghost struct Counts {
    pub draw_items: int,
    pub draw_calls: int,
    pub packets_recorded: int,
    pub instances: int,
    pub indices: int,
    pub skipped_non_draw_call: int,
    pub skipped_no_os_shader: int,
    pub skipped_no_vulkan_shader: int,
    pub skipped_missing_spirv: int,
    pub skipped_no_instance_slots: int,
    pub skipped_no_instances_buffer: int,
    pub skipped_instances_too_short: int,
    pub skipped_zero_instances: int,
    pub skipped_no_geometry_id: int,
    pub skipped_empty_geometry: int,
}

impl VulkanDrawStats {
    /// The counts.
    pub open spec fn counts(self) -> Counts {
        Counts {
            draw_items: self.draw_items as int,
            draw_calls: self.draw_calls as int,
            packets_recorded: self.packets_recorded as int,
            instances: self.instances as int,
            indices: self.indices as int,
            skipped_non_draw_call: self.skipped_non_draw_call as int,
            skipped_no_os_shader: self.skipped_no_os_shader as int,
            skipped_no_vulkan_shader: self.skipped_no_vulkan_shader as int,
            skipped_missing_spirv: self.skipped_missing_spirv as int,
            skipped_no_instance_slots: self.skipped_no_instance_slots as int,
            skipped_no_instances_buffer: self.skipped_no_instances_buffer as int,
            skipped_instances_too_short: self.skipped_instances_too_short as int,
            skipped_zero_instances: self.skipped_zero_instances as int,
            skipped_no_geometry_id: self.skipped_no_geometry_id as int,
            skipped_empty_geometry: self.skipped_empty_geometry as int,
        }
    }
}

/// Nothing has been counted.
pub open spec fn zero_counts() -> Counts {
    Counts {
        draw_items: 0,
        draw_calls: 0,
        packets_recorded: 0,
        instances: 0,
        indices: 0,
        skipped_non_draw_call: 0,
        skipped_no_os_shader: 0,
        skipped_no_vulkan_shader: 0,
        skipped_missing_spirv: 0,
        skipped_no_instance_slots: 0,
        skipped_no_instances_buffer: 0,
        skipped_instances_too_short: 0,
        skipped_zero_instances: 0,
        skipped_no_geometry_id: 0,
        skipped_empty_geometry: 0,
    }
}

/// Every count of `a` is at most that of `b`.
pub open spec fn at_most(a: Counts, b: Counts) -> bool {
    &&& a.draw_items <= b.draw_items
    &&& a.draw_calls <= b.draw_calls
    &&& a.packets_recorded <= b.packets_recorded
    &&& a.instances <= b.instances
    &&& a.indices <= b.indices
    &&& a.skipped_non_draw_call <= b.skipped_non_draw_call
    &&& a.skipped_no_os_shader <= b.skipped_no_os_shader
    &&& a.skipped_no_vulkan_shader <= b.skipped_no_vulkan_shader
    &&& a.skipped_missing_spirv <= b.skipped_missing_spirv
    &&& a.skipped_no_instance_slots <= b.skipped_no_instance_slots
    &&& a.skipped_no_instances_buffer <= b.skipped_no_instances_buffer
    &&& a.skipped_instances_too_short <= b.skipped_instances_too_short
    &&& a.skipped_zero_instances <= b.skipped_zero_instances
    &&& a.skipped_no_geometry_id <= b.skipped_no_geometry_id
    &&& a.skipped_empty_geometry <= b.skipped_empty_geometry
}

/// Every count can be held.
pub open spec fn countable(counts: Counts) -> bool {
    &&& counts.draw_items <= u64::MAX
    &&& counts.draw_calls <= u64::MAX
    &&& counts.packets_recorded <= u64::MAX
    &&& counts.instances <= u64::MAX
    &&& counts.indices <= u64::MAX
    &&& counts.skipped_non_draw_call <= u64::MAX
    &&& counts.skipped_no_os_shader <= u64::MAX
    &&& counts.skipped_no_vulkan_shader <= u64::MAX
    &&& counts.skipped_missing_spirv <= u64::MAX
    &&& counts.skipped_no_instance_slots <= u64::MAX
    &&& counts.skipped_no_instances_buffer <= u64::MAX
    &&& counts.skipped_instances_too_short <= u64::MAX
    &&& counts.skipped_zero_instances <= u64::MAX
    &&& counts.skipped_no_geometry_id <= u64::MAX
    &&& counts.skipped_empty_geometry <= u64::MAX
}

/// The counts after a call.
pub open spec fn count_call(counts: Counts, call: DrawCall) -> Counts {
    let counts = Counts {
        draw_items: counts.draw_items + 1,
        draw_calls: counts.draw_calls + 1,
        ..counts
    };
    let with_instances = Counts {
        instances: counts.instances + instance_count(call),
        ..counts
    };
    match call_fate(call) {
        CallFate::NoOsShader => Counts {
            skipped_no_os_shader: counts.skipped_no_os_shader + 1,
            ..counts
        },
        CallFate::NoVulkanShader => Counts {
            skipped_no_vulkan_shader: counts.skipped_no_vulkan_shader + 1,
            ..counts
        },
        CallFate::MissingSpirv => Counts {
            skipped_missing_spirv: counts.skipped_missing_spirv + 1,
            ..counts
        },
        CallFate::NoInstanceSlots => Counts {
            skipped_no_instance_slots: counts.skipped_no_instance_slots + 1,
            ..counts
        },
        CallFate::NoInstancesBuffer => Counts {
            skipped_no_instances_buffer: counts.skipped_no_instances_buffer + 1,
            ..counts
        },
        CallFate::InstancesTooShort => Counts {
            skipped_instances_too_short: counts.skipped_instances_too_short + 1,
            ..counts
        },
        CallFate::NoGeometry => Counts {
            skipped_no_geometry_id: with_instances.skipped_no_geometry_id + 1,
            ..with_instances
        },
        CallFate::EmptyGeometry => Counts {
            skipped_empty_geometry: with_instances.skipped_empty_geometry + 1,
            ..with_instances
        },
        CallFate::Drawn => Counts {
            indices: with_instances.indices + index_count(call.geometry_indices),
            packets_recorded: with_instances.packets_recorded + 1,
            ..with_instances
        },
    }
}

/// How far a walk has come.
pub ghost struct Walk {
    pub visited: Seq<VisitedCall>,
    pub zbias: int,
    pub uses_time: bool,
    pub counts: Counts,
}

/// The walk after a call.
pub open spec fn walk_call(walk: Walk, call: DrawCall) -> Walk {
    let fate = call_fate(call);
    if takes_depth(fate) {
        Walk {
            visited: walk.visited.push(
                VisitedCall {
                    id: call.id,
                    zbias: walk.zbias as u64,
                    uses_time: call.uses_time,
                    drawn: fate is Drawn,
                },
            ),
            zbias: walk.zbias + 1,
            uses_time: walk.uses_time || call.uses_time,
            counts: count_call(walk.counts, call),
        }
    } else {
        Walk { counts: count_call(walk.counts, call), ..walk }
    }
}

/// One more item has been seen.
pub open spec fn count_item(walk: Walk) -> Walk {
    Walk { counts: Counts { draw_items: walk.counts.draw_items + 1, ..walk.counts }, ..walk }
}

/// One more item that is neither a list nor a call has been seen.
pub open spec fn count_other(walk: Walk) -> Walk {
    let walk = count_item(walk);
    Walk {
        counts: Counts {
            skipped_non_draw_call: walk.counts.skipped_non_draw_call + 1,
            ..walk.counts
        },
        ..walk
    }
}

/// The walk after the first `n` items of a list.
pub open spec fn walk_items(list: DrawList, n: nat, walk: Walk) -> Walk
    decreases list, n,
{
    if n == 0 || n > list.items@.len() {
        walk
    } else {
        let before = walk_items(list, (n - 1) as nat, walk);
        match list.items@[n - 1] {
            DrawItem::Missing => before,
            DrawItem::Call(call) => walk_call(before, call),
            DrawItem::Other => count_other(before),
            DrawItem::SubList(sub) => {
                let entered = count_item(before);
                if sub.reset_zbias {
                    Walk {
                        zbias: entered.zbias,
                        ..walk_items(sub, sub.items@.len(), Walk { zbias: 0, ..entered })
                    }
                } else {
                    walk_items(sub, sub.items@.len(), entered)
                }
            },
        }
    }
}

/// The walk after a whole list.
pub open spec fn walk_list(list: DrawList, walk: Walk) -> Walk {
    walk_items(list, list.items@.len(), walk)
}

/// A walk that has not started.
pub open spec fn fresh_walk() -> Walk {
    Walk { visited: seq![], zbias: 0, uses_time: false, counts: zero_counts() }
}

/// A walk only counts up, and takes no more depth steps than it sees items.
proof fn lemma_walk_grows(list: DrawList, n: nat, walk: Walk)
    requires
        n <= list.items@.len(),
    ensures
        at_most(walk.counts, walk_items(list, n, walk).counts),
        walk_items(list, n, walk).zbias >= walk.zbias,
        walk_items(list, n, walk).zbias - walk.zbias <= walk_items(list, n, walk).counts.draw_items
            - walk.counts.draw_items,
        walk_items(list, n, walk).visited.len() >= walk.visited.len(),
    decreases list, n,
{
    if n > 0 {
        lemma_walk_grows(list, (n - 1) as nat, walk);
        let before = walk_items(list, (n - 1) as nat, walk);
        match list.items@[n - 1] {
            DrawItem::SubList(sub) => {
                let entered = count_item(before);
                if sub.reset_zbias {
                    lemma_walk_grows(sub, sub.items@.len(), Walk { zbias: 0, ..entered });
                } else {
                    lemma_walk_grows(sub, sub.items@.len(), entered);
                }
            },
            DrawItem::Call(call) => {
                lemma_instances_nonnegative(call);
            },
            _ => {},
        }
    }
}

proof fn lemma_instances_nonnegative(call: DrawCall)
    ensures
        instance_count(call) >= 0,
{
}

/// The walk after `n` items is one that the walk of the whole list goes through.
proof fn lemma_walk_prefix(list: DrawList, n: nat, m: nat, walk: Walk)
    requires
        n <= m <= list.items@.len(),
    ensures
        at_most(walk_items(list, n, walk).counts, walk_items(list, m, walk).counts),
    decreases m - n,
{
    if n < m {
        lemma_walk_prefix(list, n, (m - 1) as nat, walk);
        let before = walk_items(list, (m - 1) as nat, walk);
        match list.items@[m - 1] {
            DrawItem::SubList(sub) => {
                let entered = count_item(before);
                if sub.reset_zbias {
                    lemma_walk_grows(sub, sub.items@.len(), Walk { zbias: 0, ..entered });
                } else {
                    lemma_walk_grows(sub, sub.items@.len(), entered);
                }
            },
            DrawItem::Call(call) => {
                lemma_instances_nonnegative(call);
            },
            _ => {},
        }
    }
}

/// The result of walking a draw list.
pub struct DrawPlan {
    /// The calls that took a depth, in order.
    pub visited: Vec<VisitedCall>,
    pub zbias: u64,
    pub uses_time: bool,
    pub stats: VulkanDrawStats,
}

impl DrawPlan {
    /// The plan as a walk.
    pub open spec fn as_walk(&self) -> Walk {
        Walk {
            visited: self.visited@,
            zbias: self.zbias as int,
            uses_time: self.uses_time,
            counts: self.stats.counts(),
        }
    }

    /// A plan for nothing.
    pub fn new() -> (plan: DrawPlan)
        ensures
            plan.as_walk() == fresh_walk(),
    {
        let plan = DrawPlan {
            visited: Vec::new(),
            zbias: 0,
            uses_time: false,
            stats: VulkanDrawStats {
                draw_items: 0,
                draw_calls: 0,
                packets_recorded: 0,
                instances: 0,
                indices: 0,
                skipped_non_draw_call: 0,
                skipped_no_os_shader: 0,
                skipped_no_vulkan_shader: 0,
                skipped_missing_spirv: 0,
                skipped_no_instance_slots: 0,
                skipped_no_instances_buffer: 0,
                skipped_instances_too_short: 0,
                skipped_zero_instances: 0,
                skipped_no_geometry_id: 0,
                skipped_empty_geometry: 0,
            },
        };
        assert(plan.visited@ =~= seq![]);
        plan
    }

    fn visit_call(&mut self, call: &DrawCall)
        requires
            countable(count_call(old(self).stats.counts(), *call)),
            old(self).zbias <= old(self).stats.draw_items,
        ensures
            final(self).as_walk() == walk_call(old(self).as_walk(), *call),
            final(self).zbias <= final(self).stats.draw_items,
    {
        let fate: CallFate = find_fate(call);
        self.stats.draw_items = self.stats.draw_items + 1;
        self.stats.draw_calls = self.stats.draw_calls + 1;
        match fate {
            CallFate::NoOsShader => {
                self.stats.skipped_no_os_shader = self.stats.skipped_no_os_shader + 1;
            },
            CallFate::NoVulkanShader => {
                self.stats.skipped_no_vulkan_shader = self.stats.skipped_no_vulkan_shader + 1;
            },
            CallFate::MissingSpirv => {
                self.stats.skipped_missing_spirv = self.stats.skipped_missing_spirv + 1;
            },
            CallFate::NoInstanceSlots => {
                self.stats.skipped_no_instance_slots = self.stats.skipped_no_instance_slots + 1;
            },
            CallFate::NoInstancesBuffer => {
                self.stats.skipped_no_instances_buffer = self.stats.skipped_no_instances_buffer + 1;
            },
            CallFate::InstancesTooShort => {
                self.stats.skipped_instances_too_short = self.stats.skipped_instances_too_short + 1;
            },
            _ => {
                let len: usize = match call.instance_len {
                    Some(len) => len,
                    None => 0,
                };
                let count: usize = len / call.instance_slots;
                self.stats.instances = self.stats.instances + count as u64;
                match fate {
                    CallFate::NoGeometry => {
                        self.stats.skipped_no_geometry_id = self.stats.skipped_no_geometry_id + 1;
                    },
                    CallFate::EmptyGeometry => {
                        self.take_depth(call, false);
                        self.stats.skipped_empty_geometry = self.stats.skipped_empty_geometry + 1;
                    },
                    _ => {
                        self.take_depth(call, true);
                        let drawn: u32 = drawn_index_count(call.geometry_indices);
                        self.stats.indices = self.stats.indices + drawn as u64;
                        self.stats.packets_recorded = self.stats.packets_recorded + 1;
                    },
                }
            },
        }
    }

    fn take_depth(&mut self, call: &DrawCall, drawn: bool)
        requires
            old(self).zbias < u64::MAX,
        ensures
            final(self).visited@ == old(self).visited@.push(
                (VisitedCall {
                    id: call.id,
                    zbias: old(self).zbias,
                    uses_time: call.uses_time,
                    drawn,
                }),
            ),
            final(self).zbias == old(self).zbias + 1,
            final(self).uses_time == (old(self).uses_time || call.uses_time),
            final(self).stats == old(self).stats,
    {
        self.visited.push(
            VisitedCall { id: call.id, zbias: self.zbias, uses_time: call.uses_time, drawn },
        );
        self.zbias = self.zbias + 1;
        self.uses_time = self.uses_time || call.uses_time;
    }

    /// Walks a draw list, and the lists in it, in drawing order.
    pub fn record_draw_list(&mut self, list: &DrawList)
        requires
            countable(walk_list(*list, old(self).as_walk()).counts),
            old(self).zbias <= old(self).stats.draw_items,
        ensures
            final(self).as_walk() == walk_list(*list, old(self).as_walk()),
            final(self).zbias <= final(self).stats.draw_items,
        decreases list,
    {
        let ghost start = self.as_walk();
        let mut i: usize = 0;
        while i < list.items.len()
            invariant
                i <= list.items@.len(),
                countable(walk_list(*list, start).counts),
                self.as_walk() == walk_items(*list, i as nat, start),
                self.zbias <= self.stats.draw_items,
            decreases list.items@.len() - i,
        {
            proof {
                lemma_walk_prefix(*list, (i + 1) as nat, list.items@.len(), start);
            }
            let ghost before = self.as_walk();
            match &list.items[i] {
                DrawItem::Missing => {},
                DrawItem::Call(call) => {
                    self.visit_call(call);
                },
                DrawItem::Other => {
                    self.stats.draw_items = self.stats.draw_items + 1;
                    self.stats.skipped_non_draw_call = self.stats.skipped_non_draw_call + 1;
                },
                DrawItem::SubList(sub) => {
                    proof {
                        let entered = count_item(before);
                        lemma_walk_grows(*sub, sub.items@.len(), entered);
                        lemma_walk_grows(
                            *sub,
                            sub.items@.len(),
                            Walk { zbias: 0, ..entered },
                        );
                        assert(list.items@[i as int] == DrawItem::SubList(*sub));
                        assert(decreases_to!(*list => *sub));
                    }
                    self.stats.draw_items = self.stats.draw_items + 1;
                    assert(self.as_walk() == count_item(before));
                    if sub.reset_zbias {
                        let outer: u64 = self.zbias;
                        self.zbias = 0;
                        assert(self.as_walk() == (Walk { zbias: 0, ..count_item(before) }));
                        self.record_draw_list(sub);
                        self.zbias = outer;
                    } else {
                        self.record_draw_list(sub);
                    }
                },
            }
            i = i + 1;
            assert(self.as_walk() == walk_items(*list, i as nat, start));
        }
    }
}

/// Every call that took a depth is either drawn or has an empty geometry, and what is
/// counted as recorded is what is drawn.
pub proof fn law_recorded_are_drawn(list: DrawList, n: nat, walk: Walk)
    requires
        n <= list.items@.len(),
    ensures
        drawn_count(walk_items(list, n, walk).visited) - drawn_count(walk.visited) == walk_items(
            list,
            n,
            walk,
        ).counts.packets_recorded - walk.counts.packets_recorded,
        walk_items(list, n, walk).visited.len() - walk.visited.len() == (walk_items(
            list,
            n,
            walk,
        ).counts.packets_recorded - walk.counts.packets_recorded) + (walk_items(
            list,
            n,
            walk,
        ).counts.skipped_empty_geometry - walk.counts.skipped_empty_geometry),
    decreases list, n,
{
    if n > 0 {
        law_recorded_are_drawn(list, (n - 1) as nat, walk);
        let before = walk_items(list, (n - 1) as nat, walk);
        match list.items@[n - 1] {
            DrawItem::SubList(sub) => {
                let entered = count_item(before);
                if sub.reset_zbias {
                    law_recorded_are_drawn(sub, sub.items@.len(), Walk { zbias: 0, ..entered });
                } else {
                    law_recorded_are_drawn(sub, sub.items@.len(), entered);
                }
            },
            DrawItem::Call(call) => {
                let after = walk_call(before, call);
                if takes_depth(call_fate(call)) {
                    assert(after.visited.drop_last() =~= before.visited);
                }
            },
            _ => {},
        }
    }
}

/// The calls that were not drawn.
pub open spec fn skipped_calls(counts: Counts) -> int {
    counts.skipped_no_os_shader + counts.skipped_no_vulkan_shader + counts.skipped_missing_spirv
        + counts.skipped_no_instance_slots + counts.skipped_no_instances_buffer
        + counts.skipped_instances_too_short + counts.skipped_zero_instances
        + counts.skipped_no_geometry_id
        + counts.skipped_empty_geometry
}

/// How many lists are entered from the first `n` items of a list, and from the lists
/// in them.
pub open spec fn lists_entered(list: DrawList, n: nat) -> int
    decreases list, n,
{
    if n == 0 || n > list.items@.len() {
        0
    } else {
        lists_entered(list, (n - 1) as nat) + match list.items@[n - 1] {
            DrawItem::SubList(sub) => 1 + lists_entered(sub, sub.items@.len()),
            _ => 0,
        }
    }
}

/// Every call that a walk counts is either recorded or skipped for one reason, and
/// every item that it counts is a call, a list that it entered, or neither of them.
pub proof fn law_every_item_is_counted_once(list: DrawList, n: nat, walk: Walk)
    requires
        n <= list.items@.len(),
    ensures
        ({
            let after = walk_items(list, n, walk).counts;
            &&& after.draw_calls - walk.counts.draw_calls == (after.packets_recorded
                - walk.counts.packets_recorded) + (skipped_calls(after) - skipped_calls(
                walk.counts,
            ))
            &&& after.draw_items - walk.counts.draw_items == (after.draw_calls
                - walk.counts.draw_calls) + (after.skipped_non_draw_call
                - walk.counts.skipped_non_draw_call) + lists_entered(list, n)
        }),
    decreases list, n,
{
    if n > 0 {
        law_every_item_is_counted_once(list, (n - 1) as nat, walk);
        let before = walk_items(list, (n - 1) as nat, walk);
        match list.items@[n - 1] {
            DrawItem::SubList(sub) => {
                let entered = count_item(before);
                if sub.reset_zbias {
                    law_every_item_is_counted_once(
                        sub,
                        sub.items@.len(),
                        Walk { zbias: 0, ..entered },
                    );
                } else {
                    law_every_item_is_counted_once(sub, sub.items@.len(), entered);
                }
            },
            _ => {},
        }
    }
}

/// How many of the calls are drawn.
pub open spec fn drawn_count(visited: Seq<VisitedCall>) -> int
    decreases visited.len(),
{
    if visited.len() == 0 {
        0
    } else {
        drawn_count(visited.drop_last()) + if visited.last().drawn {
            1int
        } else {
            0int
        }
    }
}

/// Everything that a call needs to be drawn is there: shader and code, the numbers of at
/// least one instance, and a geometry that is not empty.
pub open spec fn is_complete(call: DrawCall) -> bool {
    &&& call.has_os_shader && call.has_vulkan_shader && call.has_spirv
    &&& call.instance_slots > 0
    &&& call.instance_len matches Some(len) && len / call.instance_slots >= 1
    &&& call.has_geometry && call.geometry_vertices > 0 && call.geometry_indices > 0
}

/// A call is drawn exactly where all that it needs is there, counts as too short exactly
/// where its numbers do not make one instance, and otherwise is skipped for the first
/// thing that it lacks.
pub proof fn law_complete_calls_are_drawn(call: DrawCall)
    ensures
        call_fate(call) is Drawn <==> is_complete(call),
        call_fate(call) is NoOsShader <==> !call.has_os_shader,
        call_fate(call) is NoVulkanShader <==> call.has_os_shader && !call.has_vulkan_shader,
        call_fate(call) is MissingSpirv <==> call.has_os_shader && call.has_vulkan_shader
            && !call.has_spirv,
        call_fate(call) is NoInstanceSlots ==> call.instance_slots == 0,
        call_fate(call) is NoInstancesBuffer ==> call.instance_len is None,
        call_fate(call) is InstancesTooShort ==> call.instance_slots > 0 && (
        call.instance_len matches Some(len) && len / call.instance_slots == 0),
        call_fate(call) is NoGeometry ==> !call.has_geometry,
        call_fate(call) is EmptyGeometry ==> call.has_geometry && (call.geometry_vertices == 0
            || call.geometry_indices == 0),
{
    match call.instance_len {
        Some(len) => {
            if call.instance_slots > 0 {
                lemma_division(len as int, call.instance_slots as int);
            }
        },
        None => {},
    }
}

proof fn lemma_division(len: int, slots: int)
    requires
        len >= 0,
        slots > 0,
    ensures
        len / slots >= 1 <==> len >= slots,
        len / slots == 0 <==> len < slots,
{
    vstd::arithmetic::div_mod::lemma_fundamental_div_mod(len, slots);
    vstd::arithmetic::div_mod::lemma_mod_bound(len, slots);
    vstd::arithmetic::div_mod::lemma_div_pos_is_pos(len, slots);
    let q = len / slots;
    assert(q >= 1 ==> slots * q >= slots) by (nonlinear_arith)
        requires
            slots > 0,
    ;
    assert(q == 0 ==> slots * q == 0) by (nonlinear_arith);
}

/// A list that holds one complete call draws it: it takes the depth of the walk, it is
/// recorded once, and its instances and indices are counted. One that lacks something
/// before its geometry takes no depth, and one with an empty geometry takes a depth
/// without being drawn.
pub proof fn law_call_alone(list: DrawList, call: DrawCall, walk: Walk)
    requires
        list.items@ == seq![DrawItem::Call(call)],
        0 <= walk.zbias <= u64::MAX,
    ensures
        ({
            let after = walk_list(list, walk);
            let visited = after.visited;
            &&& is_complete(call) ==> {
                &&& visited.len() == walk.visited.len() + 1
                &&& visited.last().id == call.id
                &&& visited.last().zbias == walk.zbias
                &&& visited.last().drawn
                &&& visited.last().uses_time == call.uses_time
                &&& after.zbias == walk.zbias + 1
                &&& after.uses_time == (walk.uses_time || call.uses_time)
                &&& after.counts.packets_recorded == walk.counts.packets_recorded + 1
                &&& after.counts.instances == walk.counts.instances + call.instance_len->0
                    / call.instance_slots
                &&& after.counts.indices == walk.counts.indices + (
                call.geometry_indices as int) % 0x1_0000_0000
            }
            &&& !is_complete(call) ==> {
                &&& after.counts.packets_recorded == walk.counts.packets_recorded
                &&& after.counts.indices == walk.counts.indices
                &&& call_fate(call) is EmptyGeometry ==> visited.len() == walk.visited.len() + 1
                    && !visited.last().drawn && after.zbias == walk.zbias + 1
                &&& !(call_fate(call) is EmptyGeometry) ==> visited == walk.visited && after.zbias
                    == walk.zbias && after.uses_time == walk.uses_time
            }
            &&& after.counts.draw_calls == walk.counts.draw_calls + 1
            &&& after.counts.draw_items == walk.counts.draw_items + 1
        }),
{
    law_complete_calls_are_drawn(call);
    assert(list.items@.len() == 1);
    assert(walk_items(list, 0, walk) == walk);
    assert(walk_items(list, 1, walk) == walk_call(walk, call));
}

/// What was visited stays visited, in its order, whatever the list holds behind it.
pub proof fn law_walk_only_appends(list: DrawList, n: nat, walk: Walk)
    requires
        n <= list.items@.len(),
    ensures
        walk.visited.len() <= walk_items(list, n, walk).visited.len(),
        forall|i: int|
            0 <= i < walk.visited.len() ==> #[trigger] walk_items(list, n, walk).visited[i]
                == walk.visited[i],
        walk.uses_time ==> walk_items(list, n, walk).uses_time,
    decreases list, n,
{
    if n > 0 {
        law_walk_only_appends(list, (n - 1) as nat, walk);
        let before = walk_items(list, (n - 1) as nat, walk);
        match list.items@[n - 1] {
            DrawItem::SubList(sub) => {
                let entered = count_item(before);
                if sub.reset_zbias {
                    law_walk_only_appends(sub, sub.items@.len(), Walk { zbias: 0, ..entered });
                } else {
                    law_walk_only_appends(sub, sub.items@.len(), entered);
                }
            },
            _ => {},
        }
    }
}

/// A list that starts its depths anew takes none from the list around it: the depth goes
/// on behind it as if it were not there, and the first call in it is at the bottom. Any
/// other list takes its depths from those around it.
pub proof fn law_reset_list_takes_no_depth(outer: DrawList, inner: DrawList, walk: Walk)
    requires
        outer.items@ == seq![DrawItem::SubList(inner)],
    ensures
        inner.reset_zbias ==> walk_list(outer, walk).zbias == walk.zbias,
        inner.reset_zbias ==> walk_list(outer, walk).visited == walk_list(
            inner,
            (Walk { zbias: 0, ..walk }),
        ).visited,
        !inner.reset_zbias ==> walk_list(outer, walk).zbias == walk_list(inner, walk).zbias,
        !inner.reset_zbias ==> walk_list(outer, walk).visited == walk_list(inner, walk).visited,
        walk_list(outer, walk).uses_time == walk_list(inner, walk).uses_time,
{
    assert(outer.items@.len() == 1);
    assert(outer.items@[0] == DrawItem::SubList(inner));
    assert(walk_items(outer, 0, walk) == walk);
    let n = inner.items@.len();
    let counted = count_item(walk);
    lemma_counts_do_not_matter(
        inner,
        n,
        Walk { zbias: 0, ..counted },
        Walk { zbias: 0, ..walk },
    );
    lemma_counts_do_not_matter(inner, n, counted, walk);
    lemma_time_goes_on(inner, n, Walk { zbias: 0, ..counted }, walk);
    lemma_time_goes_on(inner, n, counted, walk);
}

proof fn lemma_counts_do_not_matter(list: DrawList, n: nat, a: Walk, b: Walk)
    requires
        n <= list.items@.len(),
        a.zbias == b.zbias,
        a.visited == b.visited,
    ensures
        walk_items(list, n, a).zbias == walk_items(list, n, b).zbias,
        walk_items(list, n, a).visited == walk_items(list, n, b).visited,
    decreases list, n,
{
    if n > 0 {
        lemma_counts_do_not_matter(list, (n - 1) as nat, a, b);
        let x = walk_items(list, (n - 1) as nat, a);
        let y = walk_items(list, (n - 1) as nat, b);
        match list.items@[n - 1] {
            DrawItem::SubList(sub) => {
                let m = sub.items@.len();
                lemma_counts_do_not_matter(
                    sub,
                    m,
                    Walk { zbias: 0, ..count_item(x) },
                    Walk { zbias: 0, ..count_item(y) },
                );
                lemma_counts_do_not_matter(sub, m, count_item(x), count_item(y));
            },
            _ => {},
        }
    }
}

proof fn lemma_time_goes_on(list: DrawList, n: nat, a: Walk, b: Walk)
    requires
        n <= list.items@.len(),
        a.uses_time == b.uses_time,
    ensures
        walk_items(list, n, a).uses_time == walk_items(list, n, b).uses_time,
    decreases list, n,
{
    if n > 0 {
        lemma_time_goes_on(list, (n - 1) as nat, a, b);
        let x = walk_items(list, (n - 1) as nat, a);
        let y = walk_items(list, (n - 1) as nat, b);
        match list.items@[n - 1] {
            DrawItem::SubList(sub) => {
                let m = sub.items@.len();
                lemma_time_goes_on(
                    sub,
                    m,
                    Walk { zbias: 0, ..count_item(x) },
                    Walk { zbias: 0, ..count_item(y) },
                );
                lemma_time_goes_on(
                    sub,
                    m,
                    Walk { zbias: 0, ..count_item(x) },
                    count_item(y),
                );
                lemma_time_goes_on(sub, m, count_item(x), count_item(y));
                lemma_time_goes_on(sub, m, count_item(x), Walk { zbias: 0, ..count_item(y) });
            },
            _ => {},
        }
    }
}

/// A list without lists in it takes its depths one after the other: the calls that it
/// visits lie one step above one another, in the order of the list.
pub proof fn law_depths_go_up_by_one(list: DrawList, n: nat, walk: Walk, k: int)
    requires
        n <= list.items@.len(),
        forall|i: int|
            0 <= i < list.items@.len() ==> !(#[trigger] list.items@[i] is SubList),
        0 <= walk.zbias,
        walk.zbias + n <= u64::MAX,
        walk.visited.len() <= k < walk_items(list, n, walk).visited.len(),
    ensures
        walk_items(list, n, walk).visited[k].zbias == walk.zbias + (k - walk.visited.len()),
        walk_items(list, n, walk).zbias - walk.zbias == walk_items(list, n, walk).visited.len()
            - walk.visited.len(),
    decreases n,
{
    lemma_depths(list, n, walk);
    lemma_depth_of(list, n, walk, k);
}

proof fn lemma_depths(list: DrawList, n: nat, walk: Walk)
    requires
        n <= list.items@.len(),
        forall|i: int|
            0 <= i < list.items@.len() ==> !(#[trigger] list.items@[i] is SubList),
    ensures
        walk_items(list, n, walk).zbias - walk.zbias == walk_items(list, n, walk).visited.len()
            - walk.visited.len(),
        walk.zbias <= walk_items(list, n, walk).zbias <= walk.zbias + n,
    decreases n,
{
    if n > 0 {
        lemma_depths(list, (n - 1) as nat, walk);
        assert(!(list.items@[n - 1] is SubList));
    }
}

proof fn lemma_depth_of(list: DrawList, n: nat, walk: Walk, k: int)
    requires
        n <= list.items@.len(),
        forall|i: int|
            0 <= i < list.items@.len() ==> !(#[trigger] list.items@[i] is SubList),
        0 <= walk.zbias,
        walk.zbias + n <= u64::MAX,
        walk.visited.len() <= k < walk_items(list, n, walk).visited.len(),
    ensures
        walk_items(list, n, walk).visited[k].zbias == walk.zbias + (k - walk.visited.len()),
    decreases n,
{
    if n > 0 {
        lemma_depths(list, (n - 1) as nat, walk);
        assert(!(list.items@[n - 1] is SubList));
        let before = walk_items(list, (n - 1) as nat, walk);
        if k < before.visited.len() {
            lemma_depth_of(list, (n - 1) as nat, walk, k);
        }
    }
}

/// Indices are counted as they are where they fit in 32 bits.
pub proof fn law_few_indices_are_counted_as_they_are(indices: usize)
    ensures
        indices <= 0xffff_ffff ==> index_count(indices) == indices,
        0 <= index_count(indices) <= 0xffff_ffff,
{
}

/// Two complete calls are visited in the order of their list.
pub proof fn law_calls_keep_their_order(list: DrawList, first: DrawCall, second: DrawCall, walk: Walk)
    requires
        list.items@ == seq![DrawItem::Call(first), DrawItem::Call(second)],
        is_complete(first),
        is_complete(second),
        0 <= walk.zbias < u64::MAX,
    ensures
        ({
            let visited = walk_list(list, walk).visited;
            let n = walk.visited.len() as int;
            &&& visited.len() == n + 2
            &&& visited[n].id == first.id && visited[n + 1].id == second.id
            &&& visited[n].zbias == walk.zbias && visited[n + 1].zbias == walk.zbias + 1
        }),
{
    law_complete_calls_are_drawn(first);
    law_complete_calls_are_drawn(second);
    assert(list.items@.len() == 2);
    assert(walk_items(list, 0, walk) == walk);
    assert(walk_items(list, 1, walk) == walk_call(walk, first));
    assert(walk_items(list, 2, walk) == walk_call(walk_call(walk, first), second));
}

/// A walk that begins has seen and counted nothing, and a plan is a walk with what it
/// holds.
pub proof fn law_walks_begin_with_nothing(plan: DrawPlan)
    ensures
        fresh_walk().visited.len() == 0 && fresh_walk().zbias == 0 && !fresh_walk().uses_time,
        fresh_walk().counts.draw_items == 0 && fresh_walk().counts.draw_calls == 0,
        fresh_walk().counts.packets_recorded == 0 && fresh_walk().counts.instances == 0
            && fresh_walk().counts.indices == 0,
        plan.as_walk().visited == plan.visited@ && plan.as_walk().zbias == plan.zbias,
        plan.as_walk().uses_time == plan.uses_time,
        plan.as_walk().counts.draw_items == plan.stats.draw_items,
        plan.as_walk().counts.draw_calls == plan.stats.draw_calls,
        plan.as_walk().counts.packets_recorded == plan.stats.packets_recorded,
        plan.as_walk().counts.instances == plan.stats.instances,
        plan.as_walk().counts.indices == plan.stats.indices,
{
}

/// Counts that are at most each other are the same, in every one of them.
pub proof fn law_counts_are_ordered(a: Counts, b: Counts, c: Counts)
    ensures
        at_most(a, a),
        at_most(a, b) && at_most(b, a) ==> a == b,
        at_most(a, b) && at_most(b, c) ==> at_most(a, c),
        at_most(a, b) && countable(b) ==> countable(a),
{
}

} // verus!
