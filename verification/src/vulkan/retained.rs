//! Probe resources that stay alive until the device is torn down.

use vstd::prelude::*;

use crate::vulkan::script::{Acquired, Release};

verus! {

/// Whether something held is given back at teardown. A null handle is not, and a
/// command buffer is not once its pool is gone; a buffer decides for itself which
/// of its two parts exist.
pub open spec fn is_released(item: Acquired, command_pool: u64) -> bool {
    match item.release {
        Release::Buffer => true,
        Release::Commands => item.handle != 0 && command_pool != 0,
        _ => item.handle != 0,
    }
}

fn needs_release(item: &Acquired, command_pool: u64) -> (needed: bool)
    ensures
        needed == is_released(*item, command_pool),
{
    match item.release {
        Release::Buffer => true,
        Release::Commands => item.handle != 0 && command_pool != 0,
        _ => item.handle != 0,
    }
}

/// What is given back of `resources`, the latest acquired first.
pub open spec fn teardown(resources: Seq<Acquired>, command_pool: u64) -> Seq<Acquired>
    decreases resources.len(),
{
    if resources.len() == 0 {
        seq![]
    } else {
        let rest = teardown(resources.drop_last(), command_pool);
        if is_released(resources.last(), command_pool) {
            seq![resources.last()] + rest
        } else {
            rest
        }
    }
}

/// What is given back of several probes, one probe after the other.
pub open spec fn teardown_all(probes: Seq<Seq<Acquired>>, command_pool: u64) -> Seq<Acquired>
    decreases probes.len(),
{
    if probes.len() == 0 {
        seq![]
    } else {
        teardown_all(probes.drop_last(), command_pool) + teardown(probes.last(), command_pool)
    }
}

/// Appends to `releases` what is given back of `resources`.
pub fn append_teardown(resources: &Vec<Acquired>, command_pool: u64, releases: &mut Vec<Acquired>)
    ensures
        final(releases)@ == old(releases)@ + teardown(resources@, command_pool),
{
    let mut i: usize = resources.len();
    assert(resources@.take(i as int) =~= resources@);
    while i > 0
        invariant
            i <= resources@.len(),
            releases@ + teardown(resources@.take(i as int), command_pool) == old(releases)@
                + teardown(resources@, command_pool),
        decreases i,
    {
        let ghost now = resources@.take(i as int);
        let ghost held = releases@;
        i = i - 1;
        let item: Acquired = resources[i];
        assert(now.drop_last() =~= resources@.take(i as int));
        assert(now.last() == item);
        if needs_release(&item, command_pool) {
            releases.push(item);
            assert(releases@ + teardown(resources@.take(i as int), command_pool) =~= held
                + teardown(now, command_pool));
        }
    }
    assert(resources@.take(0) =~= Seq::<Acquired>::empty());
    assert(releases@ + teardown(resources@.take(0), command_pool) =~= releases@);
}

/// The resources of probes that have run, one list per probe in the order in which
/// they were acquired.
pub struct RetainedProbes {
    pub probes: Vec<Vec<Acquired>>,
}

impl View for RetainedProbes {
    type V = Seq<Seq<Acquired>>;

    open spec fn view(&self) -> Seq<Seq<Acquired>> {
        self.probes@.map_values(|resources: Vec<Acquired>| resources@)
    }
}

impl RetainedProbes {
    /// Starts with nothing retained.
    pub fn new() -> (retained: RetainedProbes)
        ensures
            retained@ == Seq::<Seq<Acquired>>::empty(),
    {
        let retained = RetainedProbes { probes: Vec::new() };
        assert(retained@ =~= Seq::<Seq<Acquired>>::empty());
        retained
    }

    /// How many probes are retained.
    pub fn count(&self) -> (count: usize)
        ensures
            count == self@.len(),
    {
        self.probes.len()
    }

    /// Keeps the resources of one more probe and returns its generation, counted
    /// from one.
    pub fn retain(&mut self, resources: Vec<Acquired>) -> (generation: u64)
        requires
            old(self)@.len() < usize::MAX,
        ensures
            final(self)@ == old(self)@.push(resources@),
            generation == old(self)@.len() + 1,
    {
        let generation: u64 = self.probes.len() as u64 + 1;
        let ghost added = resources@;
        self.probes.push(resources);
        assert(self@ =~= old(self)@.push(added));
        generation
    }

    /// Gives everything back: returns what to release, in order, and retains
    /// nothing.
    pub fn take_releases(&mut self, command_pool: u64) -> (releases: Vec<Acquired>)
        ensures
            final(self)@ == Seq::<Seq<Acquired>>::empty(),
            releases@ == teardown_all(old(self)@, command_pool),
    {
        let mut releases: Vec<Acquired> = Vec::new();
        let ghost all = self@;
        let mut i: usize = 0;
        while i < self.probes.len()
            invariant
                i <= self.probes@.len(),
                self@ == all,
                releases@ == teardown_all(all.take(i as int), command_pool),
            decreases self.probes@.len() - i,
        {
            append_teardown(&self.probes[i], command_pool, &mut releases);
            proof {
                let next = all.take(i + 1);
                assert(next.drop_last() =~= all.take(i as int));
                assert(next.last() == self.probes@[i as int]@);
            }
            i = i + 1;
        }
        assert(all.take(i as int) =~= all);
        self.probes = Vec::new();
        assert(self@ =~= Seq::<Seq<Acquired>>::empty());
        releases
    }
}

/// Teardown gives back every live resource exactly as often as it was acquired, and
/// nothing else.
pub proof fn law_teardown_counts(resources: Seq<Acquired>, command_pool: u64, item: Acquired)
    ensures
        teardown(resources, command_pool).to_multiset().count(item) == (if is_released(
            item,
            command_pool,
        ) {
            resources.to_multiset().count(item)
        } else {
            0
        }),
    decreases resources.len(),
{
    broadcast use vstd::seq_lib::group_to_multiset_ensures;

    if resources.len() > 0 {
        let before = resources.drop_last();
        let last = resources.last();
        law_teardown_counts(before, command_pool, item);
        assert(resources =~= before.push(last));
        if is_released(last, command_pool) {
            let rest = teardown(before, command_pool);
            vstd::seq_lib::lemma_multiset_commutative(seq![last], rest);
            assert(seq![last] =~= Seq::<Acquired>::empty().push(last));
            assert(seq![last].to_multiset().count(item) == if item == last {
                1nat
            } else {
                0nat
            });
        }
    }
}

/// Of what is held, all that is not null goes back, the latest first: an object that was
/// acquired after another goes back before it. Buffers always go back, and commands only to
/// a pool that is there.
pub proof fn law_teardown_goes_backwards(first: Seq<Acquired>, second: Seq<Acquired>, pool: u64)
    ensures
        teardown(first + second, pool) == teardown(second, pool) + teardown(first, pool),
        first.len() == 1 ==> teardown(first, pool) == if is_released(first[0], pool) {
            first
        } else {
            seq![]
        },
    decreases second.len(),
{
    if first.len() == 1 {
        assert(first.drop_last() =~= seq![]);
        assert(teardown(first.drop_last(), pool) =~= seq![]);
        assert(seq![first.last()] + Seq::<Acquired>::empty() =~= first);
        assert(teardown(first, pool) =~= if is_released(first[0], pool) {
            first
        } else {
            seq![]
        });
    }
    if second.len() == 0 {
        assert(first + second =~= first);
        assert(teardown(second, pool) + teardown(first, pool) =~= teardown(first, pool));
    } else {
        law_teardown_goes_backwards(first, second.drop_last(), pool);
        assert((first + second).drop_last() =~= first + second.drop_last());
        assert((first + second).last() == second.last());
        assert(teardown(first + second, pool) =~= teardown(second, pool) + teardown(first, pool));
    }
}

/// What is given back is what is not null.
pub proof fn law_only_null_objects_stay(item: Acquired, pool: u64)
    ensures
        item.release is Buffer ==> is_released(item, pool),
        item.handle != 0 && pool != 0 ==> is_released(item, pool),
        item.handle == 0 && !(item.release is Buffer) ==> !is_released(item, pool),
        item.release is Commands && pool == 0 ==> !is_released(item, pool),
        !(item.release is Commands) && !(item.release is Buffer) ==> (is_released(item, pool)
            <==> item.handle != 0),
{
}

/// All that each of the probes holds and that can be given back is given back, those of the
/// first probe first.
pub proof fn law_every_probe_is_torn_down(probes: Seq<Seq<Acquired>>, pool: u64, k: int)
    requires
        0 <= k < probes.len(),
    ensures
        teardown_all(probes, pool) == teardown_all(probes.take(k), pool) + teardown(
            probes[k],
            pool,
        ) + teardown_all(probes.skip(k + 1), pool),
    decreases probes.len(),
{
    let init = probes.drop_last();
    if k == probes.len() - 1 {
        assert(probes.take(k) =~= init);
        assert(probes.skip(k + 1) =~= Seq::empty());
        assert(teardown_all(probes, pool) =~= teardown_all(init, pool) + teardown(probes[k], pool)
            + Seq::empty());
    } else {
        law_every_probe_is_torn_down(init, pool, k);
        assert(init.take(k) =~= probes.take(k));
        let rest = probes.skip(k + 1);
        assert(rest.drop_last() =~= init.skip(k + 1));
        assert(rest.last() == probes.last());
        assert(teardown_all(rest, pool) == teardown_all(rest.drop_last(), pool) + teardown(
            rest.last(),
            pool,
        ));
        assert(teardown_all(probes, pool) =~= teardown_all(probes.take(k), pool) + teardown(
            probes[k],
            pool,
        ) + teardown_all(rest, pool));
    }
}

} // verus!
