//! Geometries on the device.

use vstd::prelude::*;

use crate::vulkan::buffers::VulkanBuffer;

verus! {

/// A geometry: a slot and the generation that the slot had when it was taken.
#[derive(Clone, Copy, PartialEq, Eq, Structural, Debug)]
pub struct GeometryId {
    pub slot: usize,
    pub generation: u64,
}

/// The buffers of a geometry.
#[derive(Clone, Copy, PartialEq, Eq, Structural, Debug)]
pub struct VulkanGeometryResource {
    pub vertex_buffer: VulkanBuffer,
    pub index_buffer: VulkanBuffer,
}

/// A geometry with its buffers.
#[derive(Clone, Copy, PartialEq, Eq, Structural, Debug)]
pub struct GeometryEntry {
    pub id: GeometryId,
    pub resource: VulkanGeometryResource,
}

/// The sizes of a geometry and what of it has changed since it was uploaded.
#[derive(Clone, Copy, PartialEq, Eq, Structural, Debug)]
pub struct GeometryState {
    pub vertices: usize,
    pub indices: usize,
    pub dirty_vertices: bool,
    pub dirty_indices: bool,
    pub dirty: bool,
}

impl GeometryState {
    /// Nothing has changed.
    pub open spec fn clean(self) -> GeometryState {
        GeometryState { dirty_vertices: false, dirty_indices: false, dirty: false, ..self }
    }

    fn mark_clean(&mut self)
        ensures
            *final(self) == old(self).clean(),
    {
        self.dirty_vertices = false;
        self.dirty_indices = false;
        self.dirty = false;
    }
}

/// What has to be uploaded.
#[derive(Clone, Copy, PartialEq, Eq, Structural, Debug)]
pub enum GeometryPlan {
    /// The geometry is empty; its buffers, if any, are given back.
    Empty { release: Option<VulkanGeometryResource> },
    /// Upload what is named. `existing` are the buffers so far, which are kept only if
    /// the upload comes to its end or the indices fail.
    Upload { existing: Option<VulkanGeometryResource>, vertices: bool, indices: bool },
}

/// Whether a geometry still is the one that its slot holds. `generations` are the
/// generations of the slots.
pub open spec fn is_live(generations: Seq<u64>, id: GeometryId) -> bool {
    id.slot < generations.len() && generations[id.slot as int] == id.generation
}

/// Whether a geometry is still there.
pub fn geometry_id_is_live(generations: &[u64], id: GeometryId) -> (live: bool)
    ensures
        live == is_live(generations@, id),
{
    id.slot < generations.len() && generations[id.slot] == id.generation
}

/// No geometry occurs twice.
pub open spec fn distinct_ids(entries: Seq<GeometryEntry>) -> bool {
    forall|i: int, j: int|
        0 <= i < j < entries.len() ==> (#[trigger] entries[i]).id != (#[trigger] entries[j]).id
}

/// The buffers of a geometry, if it has any.
pub open spec fn find_geometry(entries: Seq<GeometryEntry>, id: GeometryId) -> Option<
    VulkanGeometryResource,
>
    decreases entries.len(),
{
    if entries.len() == 0 {
        None
    } else if entries.last().id == id {
        Some(entries.last().resource)
    } else {
        find_geometry(entries.drop_last(), id)
    }
}

/// The entries without those of a geometry.
pub open spec fn without_geometry(entries: Seq<GeometryEntry>, id: GeometryId) -> Seq<GeometryEntry>
    decreases entries.len(),
{
    if entries.len() == 0 {
        seq![]
    } else {
        let before = without_geometry(entries.drop_last(), id);
        if entries.last().id == id {
            before
        } else {
            before.push(entries.last())
        }
    }
}

/// The entries of geometries that are still there.
pub open spec fn live_entries(entries: Seq<GeometryEntry>, generations: Seq<u64>) -> Seq<
    GeometryEntry,
>
    decreases entries.len(),
{
    if entries.len() == 0 {
        seq![]
    } else {
        let before = live_entries(entries.drop_last(), generations);
        if is_live(generations, entries.last().id) {
            before.push(entries.last())
        } else {
            before
        }
    }
}

/// The buffers of geometries that are gone.
pub open spec fn stale_resources(entries: Seq<GeometryEntry>, generations: Seq<u64>) -> Seq<
    VulkanGeometryResource,
>
    decreases entries.len(),
{
    if entries.len() == 0 {
        seq![]
    } else {
        let before = stale_resources(entries.drop_last(), generations);
        if is_live(generations, entries.last().id) {
            before
        } else {
            before.push(entries.last().resource)
        }
    }
}

/// The geometries on the device.
pub struct GeometryCache {
    pub entries: Vec<GeometryEntry>,
}

impl GeometryCache {
    /// No geometry occurs twice.
    pub open spec fn wf(&self) -> bool {
        distinct_ids(self.entries@)
    }

    /// Starts without geometries.
    pub fn new() -> (cache: GeometryCache)
        ensures
            cache.wf(),
            cache.entries@.len() == 0,
    {
        GeometryCache { entries: Vec::new() }
    }

    /// The buffers of a geometry.
    pub fn get(&self, id: GeometryId) -> (resource: Option<VulkanGeometryResource>)
        requires
            self.wf(),
        ensures
            resource == find_geometry(self.entries@, id),
    {
        let mut i: usize = self.entries.len();
        assert(self.entries@.take(i as int) =~= self.entries@);
        while i > 0
            invariant
                i <= self.entries@.len(),
                find_geometry(self.entries@, id) == find_geometry(self.entries@.take(i as int), id),
            decreases i,
        {
            let ghost now = self.entries@.take(i as int);
            i = i - 1;
            assert(now.drop_last() =~= self.entries@.take(i as int));
            assert(now.last() == self.entries@[i as int]);
            if self.entries[i].id == id {
                return Some(self.entries[i].resource);
            }
        }
        None
    }

    fn remove(&mut self, id: GeometryId) -> (removed: Option<VulkanGeometryResource>)
        requires
            old(self).wf(),
        ensures
            final(self).wf(),
            removed == find_geometry(old(self).entries@, id),
            final(self).entries@ == without_geometry(old(self).entries@, id),
            find_geometry(final(self).entries@, id) is None,
    {
        let removed: Option<VulkanGeometryResource> = self.get(id);
        let mut kept: Vec<GeometryEntry> = Vec::new();
        let mut i: usize = 0;
        while i < self.entries.len()
            invariant
                i <= self.entries@.len(),
                self.entries@ == old(self).entries@,
                kept@ == without_geometry(self.entries@.take(i as int), id),
            decreases self.entries@.len() - i,
        {
            let ghost next = self.entries@.take(i + 1);
            assert(next.drop_last() =~= self.entries@.take(i as int));
            assert(next.last() == self.entries@[i as int]);
            if self.entries[i].id != id {
                kept.push(self.entries[i]);
            }
            i = i + 1;
        }
        assert(self.entries@.take(i as int) =~= self.entries@);
        proof {
            lemma_without(self.entries@, id);
        }
        self.entries = kept;
        removed
    }

    fn insert(&mut self, id: GeometryId, resource: VulkanGeometryResource)
        requires
            old(self).wf(),
            find_geometry(old(self).entries@, id) is None,
        ensures
            final(self).wf(),
            final(self).entries@ == old(self).entries@.push((GeometryEntry { id, resource })),
    {
        proof {
            lemma_absent(self.entries@, id);
        }
        self.entries.push(GeometryEntry { id, resource });
    }

    /// Decides what of a geometry is uploaded. Its buffers leave the cache; a geometry
    /// that is to be drawn gets them back by `geometry_uploaded`.
    pub fn ensure_geometry_resource(&mut self, id: GeometryId, geometry: &mut GeometryState) -> (
        plan: GeometryPlan)
        requires
            old(self).wf(),
        ensures
            final(self).wf(),
            final(self).entries@ == without_geometry(old(self).entries@, id),
            find_geometry(final(self).entries@, id) is None,
            ({
                let existing = find_geometry(old(self).entries@, id);
                if old(geometry).vertices == 0 || old(geometry).indices == 0 {
                    &&& plan == (GeometryPlan::Empty { release: existing })
                    &&& *final(geometry) == old(geometry).clean()
                } else {
                    &&& plan == (GeometryPlan::Upload {
                        existing,
                        vertices: existing is None || old(geometry).dirty_vertices,
                        indices: existing is None || old(geometry).dirty_indices,
                    })
                    &&& *final(geometry) == *old(geometry)
                }
            }),
    {
        let existing: Option<VulkanGeometryResource> = self.remove(id);
        if geometry.vertices == 0 || geometry.indices == 0 {
            geometry.mark_clean();
            return GeometryPlan::Empty { release: existing };
        }
        GeometryPlan::Upload {
            existing,
            vertices: existing.is_none() || geometry.dirty_vertices,
            indices: existing.is_none() || geometry.dirty_indices,
        }
    }

    /// Gives the buffers so far back to the cache after the indices could not be
    /// uploaded. Returns the vertex buffer to give back, if one was made.
    pub fn index_upload_failed(
        &mut self,
        id: GeometryId,
        existing: Option<VulkanGeometryResource>,
        new_vertices: Option<VulkanBuffer>,
    ) -> (release: Option<VulkanBuffer>)
        requires
            old(self).wf(),
            find_geometry(old(self).entries@, id) is None,
        ensures
            final(self).wf(),
            release == new_vertices,
            final(self).entries@ == (match existing {
                Some(resource) => old(self).entries@.push((GeometryEntry { id, resource })),
                None => old(self).entries@,
            }),
    {
        match existing {
            Some(resource) => {
                self.insert(id, resource);
            },
            None => {},
        }
        new_vertices
    }

    /// Takes over what was uploaded; what was not keeps its buffer. Returns the
    /// buffers to give back, or reports a buffer that is missing.
    pub fn geometry_uploaded(
        &mut self,
        id: GeometryId,
        geometry: &mut GeometryState,
        existing: Option<VulkanGeometryResource>,
        new_vertices: Option<VulkanBuffer>,
        new_indices: Option<VulkanBuffer>,
    ) -> (result: Result<Vec<VulkanBuffer>, String>)
        requires
            old(self).wf(),
            find_geometry(old(self).entries@, id) is None,
        ensures
            final(self).wf(),
            match uploaded_resource(existing, new_vertices, new_indices) {
                Some(resource) => {
                    &&& result matches Ok(releases)
                    &&& releases@ == replaced_buffers(existing, new_vertices, new_indices)
                    &&& final(self).entries@ == old(self).entries@.push(
                        (GeometryEntry { id, resource }),
                    )
                    &&& *final(geometry) == old(geometry).clean()
                },
                None => {
                    &&& result matches Err(message)
                    &&& message@ == (if new_vertices is None {
                        "missing Vulkan vertex buffer upload"@
                    } else {
                        "missing Vulkan index buffer upload"@
                    })
                    &&& final(self).entries@ == old(self).entries@
                    &&& *final(geometry) == *old(geometry)
                },
            },
    {
        let mut releases: Vec<VulkanBuffer> = Vec::new();
        let resource: VulkanGeometryResource = match existing {
            Some(held) => {
                let vertex_buffer: VulkanBuffer = match new_vertices {
                    Some(buffer) => {
                        releases.push(held.vertex_buffer);
                        buffer
                    },
                    None => held.vertex_buffer,
                };
                let index_buffer: VulkanBuffer = match new_indices {
                    Some(buffer) => {
                        releases.push(held.index_buffer);
                        buffer
                    },
                    None => held.index_buffer,
                };
                VulkanGeometryResource { vertex_buffer, index_buffer }
            },
            None => {
                let vertex_buffer: VulkanBuffer = match new_vertices {
                    Some(buffer) => buffer,
                    None => {
                        return Err("missing Vulkan vertex buffer upload".to_owned());
                    },
                };
                let index_buffer: VulkanBuffer = match new_indices {
                    Some(buffer) => buffer,
                    None => {
                        return Err("missing Vulkan index buffer upload".to_owned());
                    },
                };
                VulkanGeometryResource { vertex_buffer, index_buffer }
            },
        };
        assert(releases@ =~= replaced_buffers(existing, new_vertices, new_indices));
        self.insert(id, resource);
        geometry.mark_clean();
        Ok(releases)
    }

    /// Drops all geometries and returns their buffers, to give back.
    pub fn destroy_geometry_resources(&mut self) -> (releases: Vec<VulkanGeometryResource>)
        ensures
            final(self).wf(),
            final(self).entries@.len() == 0,
            releases@ == Seq::new(
                old(self).entries@.len(),
                |i: int| old(self).entries@[i].resource,
            ),
    {
        let ghost wanted = Seq::new(self.entries@.len(), |i: int| self.entries@[i].resource);
        let mut releases: Vec<VulkanGeometryResource> = Vec::new();
        let mut i: usize = 0;
        while i < self.entries.len()
            invariant
                i <= self.entries@.len(),
                *self == *old(self),
                wanted == Seq::new(self.entries@.len(), |i: int| self.entries@[i].resource),
                releases@ == wanted.take(i as int),
            decreases self.entries@.len() - i,
        {
            releases.push(self.entries[i].resource);
            i = i + 1;
            assert(releases@ =~= wanted.take(i as int));
        }
        assert(wanted.take(i as int) =~= wanted);
        self.entries = Vec::new();
        releases
    }

    /// Drops the geometries that are gone and returns their buffers, to give back.
    pub fn prune_stale_geometry_resources(&mut self, generations: &[u64]) -> (releases: Vec<
        VulkanGeometryResource,
    >)
        requires
            old(self).wf(),
        ensures
            final(self).wf(),
            final(self).entries@ == live_entries(old(self).entries@, generations@),
            releases@ == stale_resources(old(self).entries@, generations@),
    {
        let mut kept: Vec<GeometryEntry> = Vec::new();
        let mut releases: Vec<VulkanGeometryResource> = Vec::new();
        let mut i: usize = 0;
        while i < self.entries.len()
            invariant
                i <= self.entries@.len(),
                self.entries@ == old(self).entries@,
                kept@ == live_entries(self.entries@.take(i as int), generations@),
                releases@ == stale_resources(self.entries@.take(i as int), generations@),
            decreases self.entries@.len() - i,
        {
            let ghost next = self.entries@.take(i + 1);
            assert(next.drop_last() =~= self.entries@.take(i as int));
            assert(next.last() == self.entries@[i as int]);
            let entry: GeometryEntry = self.entries[i];
            if geometry_id_is_live(generations, entry.id) {
                kept.push(entry);
            } else {
                releases.push(entry.resource);
            }
            i = i + 1;
        }
        assert(self.entries@.take(i as int) =~= self.entries@);
        proof {
            lemma_live(self.entries@, generations@);
        }
        self.entries = kept;
        releases
    }
}

/// The buffers of a geometry after an upload; nothing where one is missing.
pub open spec fn uploaded_resource(
    existing: Option<VulkanGeometryResource>,
    new_vertices: Option<VulkanBuffer>,
    new_indices: Option<VulkanBuffer>,
) -> Option<VulkanGeometryResource> {
    match existing {
        Some(held) => Some(
            VulkanGeometryResource {
                vertex_buffer: match new_vertices {
                    Some(buffer) => buffer,
                    None => held.vertex_buffer,
                },
                index_buffer: match new_indices {
                    Some(buffer) => buffer,
                    None => held.index_buffer,
                },
            },
        ),
        None => match (new_vertices, new_indices) {
            (Some(vertex_buffer), Some(index_buffer)) => Some(
                VulkanGeometryResource { vertex_buffer, index_buffer },
            ),
            _ => None,
        },
    }
}

/// The buffers that an upload replaced.
pub open spec fn replaced_buffers(
    existing: Option<VulkanGeometryResource>,
    new_vertices: Option<VulkanBuffer>,
    new_indices: Option<VulkanBuffer>,
) -> Seq<VulkanBuffer> {
    match existing {
        Some(held) => (if new_vertices is Some {
            seq![held.vertex_buffer]
        } else {
            seq![]
        }) + (if new_indices is Some {
            seq![held.index_buffer]
        } else {
            seq![]
        }),
        None => seq![],
    }
}

proof fn lemma_absent(entries: Seq<GeometryEntry>, id: GeometryId)
    requires
        find_geometry(entries, id) is None,
    ensures
        forall|i: int| 0 <= i < entries.len() ==> (#[trigger] entries[i]).id != id,
    decreases entries.len(),
{
    if entries.len() > 0 {
        let before = entries.drop_last();
        lemma_absent(before, id);
        assert forall|i: int| 0 <= i < entries.len() implies (#[trigger] entries[i]).id != id by {
            if i < before.len() {
                assert(before[i] == entries[i]);
            }
        }
    }
}

proof fn lemma_without(entries: Seq<GeometryEntry>, id: GeometryId)
    requires
        distinct_ids(entries),
    ensures
        distinct_ids(without_geometry(entries, id)),
        find_geometry(without_geometry(entries, id), id) is None,
        forall|i: int|
            0 <= i < without_geometry(entries, id).len() ==> entries.contains(
                #[trigger] without_geometry(entries, id)[i],
            ),
    decreases entries.len(),
{
    if entries.len() > 0 {
        let before = entries.drop_last();
        let last = entries.last();
        assert(distinct_ids(before));
        lemma_without(before, id);
        let kept = without_geometry(before, id);
        let now = without_geometry(entries, id);
        assert forall|i: int| 0 <= i < kept.len() implies entries.contains(
            #[trigger] kept[i],
        ) && kept[i].id != last.id by {
            assert(before.contains(kept[i]));
            let j = choose|j: int| 0 <= j < before.len() && before[j] == kept[i];
            assert(entries[j] == kept[i]);
            assert(entries[entries.len() - 1] == last);
        }
        if last.id != id {
            assert(now =~= kept.push(last));
            assert(now.drop_last() =~= kept);
            assert(entries[entries.len() - 1] == last);
            assert forall|i: int| 0 <= i < now.len() implies entries.contains(
                #[trigger] now[i],
            ) by {
                if i < kept.len() {
                    assert(now[i] == kept[i]);
                }
            }
        }
    }
}

proof fn lemma_live(entries: Seq<GeometryEntry>, generations: Seq<u64>)
    requires
        distinct_ids(entries),
    ensures
        distinct_ids(live_entries(entries, generations)),
        forall|i: int|
            0 <= i < live_entries(entries, generations).len() ==> entries.contains(
                #[trigger] live_entries(entries, generations)[i],
            ),
    decreases entries.len(),
{
    if entries.len() > 0 {
        let before = entries.drop_last();
        let last = entries.last();
        assert(distinct_ids(before));
        lemma_live(before, generations);
        let kept = live_entries(before, generations);
        let now = live_entries(entries, generations);
        assert forall|i: int| 0 <= i < kept.len() implies entries.contains(
            #[trigger] kept[i],
        ) && kept[i].id != last.id by {
            assert(before.contains(kept[i]));
            let j = choose|j: int| 0 <= j < before.len() && before[j] == kept[i];
            assert(entries[j] == kept[i]);
            assert(entries[entries.len() - 1] == last);
        }
        if is_live(generations, last.id) {
            assert(now =~= kept.push(last));
            assert(entries[entries.len() - 1] == last);
            assert forall|i: int| 0 <= i < now.len() implies entries.contains(
                #[trigger] now[i],
            ) by {
                if i < kept.len() {
                    assert(now[i] == kept[i]);
                }
            }
        }
    }
}

/// Pruning leaves every geometry that is still there, leaves none that is gone, and
/// changes no buffers.
pub proof fn law_prune_keeps_the_live(
    entries: Seq<GeometryEntry>,
    generations: Seq<u64>,
    id: GeometryId,
)
    ensures
        find_geometry(live_entries(entries, generations), id) == (if is_live(generations, id) {
            find_geometry(entries, id)
        } else {
            None
        }),
        live_entries(entries, generations).len() + stale_resources(entries, generations).len()
            == entries.len(),
    decreases entries.len(),
{
    if entries.len() > 0 {
        let before = entries.drop_last();
        law_prune_keeps_the_live(before, generations, id);
        let kept = live_entries(before, generations);
        if is_live(generations, entries.last().id) {
            assert(kept.push(entries.last()).drop_last() =~= kept);
        }
    }
}

/// A geometry that was uploaded is found with its new buffers, and no other geometry
/// is touched.
pub proof fn law_uploaded_geometry_is_found(
    entries: Seq<GeometryEntry>,
    id: GeometryId,
    resource: VulkanGeometryResource,
    other: GeometryId,
)
    requires
        other != id,
    ensures
        find_geometry(entries.push((GeometryEntry { id, resource })), id) == Some(resource),
        find_geometry(entries.push((GeometryEntry { id, resource })), other) == find_geometry(
            entries,
            other,
        ),
{
    let now = entries.push((GeometryEntry { id, resource }));
    assert(now.drop_last() =~= entries);
}

/// A geometry is live exactly where its place exists and has its generation: a place that
/// was used again does not bring an old geometry back.
pub proof fn law_live_geometry_has_its_generation(generations: Seq<u64>, id: GeometryId, other: u64)
    ensures
        is_live(generations, id) ==> id.slot < generations.len(),
        id.slot < generations.len() && generations[id.slot as int] == id.generation ==> is_live(
            generations,
            id,
        ),
        is_live(generations, id) && other != id.generation ==> !is_live(
            generations,
            (GeometryId { generation: other, ..id }),
        ),
        id.slot >= generations.len() ==> !is_live(generations, id),
{
}

/// What is found for a geometry was kept for it.
pub proof fn law_found_geometry_was_kept(entries: Seq<GeometryEntry>, id: GeometryId)
    ensures
        match find_geometry(entries, id) {
            Some(resource) => exists|i: int|
                0 <= i < entries.len() && (#[trigger] entries[i]).id == id && entries[i].resource
                    == resource,
            None => forall|i: int| 0 <= i < entries.len() ==> (#[trigger] entries[i]).id != id,
        },
    decreases entries.len(),
{
    if entries.len() > 0 {
        let before = entries.drop_last();
        law_found_geometry_was_kept(before, id);
        assert(forall|i: int| 0 <= i < before.len() ==> before[i] == entries[i]);
        assert(entries[entries.len() - 1] == entries.last());
        if entries.last().id != id && find_geometry(before, id) is Some {
            let resource = find_geometry(before, id)->0;
            let i = choose|i: int|
                0 <= i < before.len() && (#[trigger] before[i]).id == id && before[i].resource
                    == resource;
            assert(entries[i].id == id && entries[i].resource == resource);
        }
    }
}

/// A geometry that is taken out is not found any more, and every other is found as
/// before.
pub proof fn law_taken_geometry_is_gone(entries: Seq<GeometryEntry>, id: GeometryId, other: GeometryId)
    ensures
        find_geometry(without_geometry(entries, id), id) is None,
        other != id ==> find_geometry(without_geometry(entries, id), other) == find_geometry(
            entries,
            other,
        ),
    decreases entries.len(),
{
    if entries.len() > 0 {
        law_taken_geometry_is_gone(entries.drop_last(), id, other);
        let before = without_geometry(entries.drop_last(), id);
        if entries.last().id != id {
            assert(without_geometry(entries, id).drop_last() =~= before);
        }
    }
}

/// Pruning keeps exactly the live geometries and gives back the buffers of all others.
pub proof fn law_pruning_splits_the_geometries(entries: Seq<GeometryEntry>, generations: Seq<u64>)
    ensures
        live_entries(entries, generations).len() + stale_resources(entries, generations).len()
            == entries.len(),
        forall|i: int|
            0 <= i < entries.len() && is_live(generations, (#[trigger] entries[i]).id)
                ==> live_entries(entries, generations).contains(entries[i]),
        forall|i: int|
            0 <= i < entries.len() && !is_live(generations, (#[trigger] entries[i]).id)
                ==> stale_resources(entries, generations).contains(entries[i].resource),
        forall|i: int|
            0 <= i < live_entries(entries, generations).len() ==> is_live(
                generations,
                (#[trigger] live_entries(entries, generations)[i]).id,
            ),
    decreases entries.len(),
{
    if entries.len() > 0 {
        let before = entries.drop_last();
        law_pruning_splits_the_geometries(before, generations);
        let live = live_entries(entries, generations);
        let stale = stale_resources(entries, generations);
        let live_before = live_entries(before, generations);
        let stale_before = stale_resources(before, generations);
        let n = entries.len() - 1;
        assert forall|i: int|
            0 <= i < entries.len() && is_live(generations, (
            #[trigger] entries[i]).id) implies live.contains(entries[i]) by {
            if i < n {
                assert(before[i] == entries[i]);
                assert(live_before.contains(before[i]));
                let k = choose|k: int| 0 <= k < live_before.len() && live_before[k] == before[i];
                assert(live[k] == before[i]);
            } else {
                assert(live[live.len() - 1] == entries[i]);
            }
        }
        assert forall|i: int|
            0 <= i < entries.len() && !is_live(generations, (
            #[trigger] entries[i]).id) implies stale.contains(entries[i].resource) by {
            if i < n {
                assert(before[i] == entries[i]);
                assert(stale_before.contains(before[i].resource));
                let k = choose|k: int|
                    0 <= k < stale_before.len() && stale_before[k] == before[i].resource;
                assert(stale[k] == before[i].resource);
            } else {
                assert(stale[stale.len() - 1] == entries[i].resource);
            }
        }
        assert forall|i: int| 0 <= i < live.len() implies is_live(
            generations,
            (#[trigger] live[i]).id,
        ) by {
            if i < live_before.len() {
                assert(live[i] == live_before[i]);
            }
        }
    }
}

/// An upload takes the place of the buffer it is for and gives that one back; a buffer
/// that was not uploaded stays and is not given back. A geometry without buffers needs
/// both.
pub proof fn law_uploads_take_the_place_of_buffers(
    existing: Option<VulkanGeometryResource>,
    new_vertices: Option<VulkanBuffer>,
    new_indices: Option<VulkanBuffer>,
)
    ensures
        ({
            let after = uploaded_resource(existing, new_vertices, new_indices);
            let given_back = replaced_buffers(existing, new_vertices, new_indices);
            &&& after is Some <==> existing is Some || (new_vertices is Some && new_indices is Some)
            &&& after is Some && new_vertices is Some ==> after->0.vertex_buffer == new_vertices->0
            &&& after is Some && new_indices is Some ==> after->0.index_buffer == new_indices->0
            &&& existing is Some && new_vertices is None ==> after->0.vertex_buffer
                == existing->0.vertex_buffer
            &&& existing is Some && new_indices is None ==> after->0.index_buffer
                == existing->0.index_buffer
            &&& existing is Some && new_vertices is Some ==> given_back.contains(
                existing->0.vertex_buffer,
            )
            &&& existing is Some && new_indices is Some ==> given_back.contains(
                existing->0.index_buffer,
            )
            &&& given_back.len() == if existing is Some {
                (if new_vertices is Some {
                    1int
                } else {
                    0
                }) + (if new_indices is Some {
                    1int
                } else {
                    0
                })
            } else {
                0
            }
        }),
{
    let given_back = replaced_buffers(existing, new_vertices, new_indices);
    if existing is Some && new_vertices is Some {
        assert(given_back[0] == existing->0.vertex_buffer);
    }
    if existing is Some && new_indices is Some {
        assert(given_back[given_back.len() - 1] == existing->0.index_buffer);
    }
}

/// A geometry that was taken over has no marks left, and the same numbers.
pub proof fn law_clean_geometry_has_no_marks(state: GeometryState)
    ensures
        !state.clean().dirty && !state.clean().dirty_vertices && !state.clean().dirty_indices,
        state.clean().vertices == state.vertices && state.clean().indices == state.indices,
{
}

} // verus!
