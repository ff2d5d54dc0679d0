//! Lists of entries ordered by their bindings.

use vstd::prelude::*;

verus! {

/// Something that belongs to a binding.
#[derive(Clone, Copy, PartialEq, Eq, Debug)]
pub struct Bound<P> {
    pub binding: u32,
    pub value: P,
}

/// Sorted by binding, and no binding twice.
pub open spec fn strictly_sorted<P>(list: Seq<Bound<P>>) -> bool {
    forall|i: int, j: int|
        0 <= i < j < list.len() ==> (#[trigger] list[i]).binding < (
        #[trigger] list[j]).binding
}

/// The entry at `i` is the first one for its binding.
pub open spec fn is_first<P>(list: Seq<Bound<P>>, i: int) -> bool {
    forall|j: int| 0 <= j < i ==> (#[trigger] list[j]).binding != list[i].binding
}

/// The entry is the first one for its binding somewhere in the list.
pub open spec fn is_a_first<P>(list: Seq<Bound<P>>, entry: Bound<P>) -> bool {
    exists|i: int| 0 <= i < list.len() && #[trigger] is_first(list, i) && list[i] == entry
}

/// `ordered` holds exactly the first entry for each binding.
pub open spec fn holds_firsts<P>(ordered: Seq<Bound<P>>, list: Seq<Bound<P>>) -> bool {
    &&& forall|k: int| 0 <= k < ordered.len() ==> is_a_first(list, #[trigger] ordered[k])
    &&& forall|i: int|
        0 <= i < list.len() && is_first(list, i) ==> ordered.contains(#[trigger] list[i])
}

/// Orders the entries by their bindings and keeps the first one for each.
pub fn order_by_binding<P: Copy>(list: &Vec<Bound<P>>) -> (ordered: Vec<Bound<P>>)
    ensures
        strictly_sorted(ordered@),
        holds_firsts(ordered@, list@),
{
    let mut ordered: Vec<Bound<P>> = Vec::new();
    let mut i: usize = 0;
    while i < list.len()
        invariant
            i <= list@.len(),
            strictly_sorted(ordered@),
            holds_firsts(ordered@, list@.take(i as int)),
            ordered@.len() <= i,
        decreases list@.len() - i,
    {
        let entry: Bound<P> = list[i];
        let ghost before = ordered@;
        let ghost seen = list@.take(i as int);
        let ghost now = list@.take(i + 1);
        let mut place: usize = 0;
        while place < ordered.len() && ordered[place].binding < entry.binding
            invariant
                place <= ordered@.len(),
                ordered@ == before,
                strictly_sorted(before),
                forall|k: int| 0 <= k < place ==> (#[trigger] before[k]).binding < entry.binding,
            decreases ordered@.len() - place,
        {
            place = place + 1;
        }
        let taken: bool = place < ordered.len() && ordered[place].binding == entry.binding;
        if !taken {
            ordered.insert(place, entry);
        }
        proof {
            assert(now =~= seen.push(entry));
            lemma_order_step(before, seen, entry, place as int, taken);
            assert(ordered@ =~= (if taken {
                before
            } else {
                before.insert(place as int, entry)
            }));
        }
        i = i + 1;
    }
    assert(list@.take(i as int) =~= list@);
    ordered
}

proof fn lemma_order_step<P>(
    before: Seq<Bound<P>>,
    seen: Seq<Bound<P>>,
    entry: Bound<P>,
    place: int,
    taken: bool,
)
    requires
        strictly_sorted(before),
        holds_firsts(before, seen),
        0 <= place <= before.len(),
        forall|k: int| 0 <= k < place ==> (#[trigger] before[k]).binding < entry.binding,
        place < before.len() ==> before[place].binding >= entry.binding,
        taken == (place < before.len() && before[place].binding == entry.binding),
    ensures
        ({
            let after = if taken {
                before
            } else {
                before.insert(place, entry)
            };
            &&& strictly_sorted(after)
            &&& holds_firsts(after, seen.push(entry))
        }),
{
    let now = seen.push(entry);
    let last = seen.len() as int;
    assert forall|i: int| 0 <= i < seen.len() implies (#[trigger] now[i]) == seen[i] && (is_first(
        now,
        i,
    ) == is_first(seen, i)) by {
        if is_first(seen, i) {
            assert forall|j: int| 0 <= j < i implies (#[trigger] now[j]).binding
                != now[i].binding by {
                assert(seen[j].binding != seen[i].binding);
            }
        }
        if is_first(now, i) {
            assert forall|j: int| 0 <= j < i implies (#[trigger] seen[j]).binding
                != seen[i].binding by {
                assert(now[j].binding != now[i].binding);
            }
        }
    }
    if taken {
        let first = choose|i: int|
            0 <= i < seen.len() && #[trigger] is_first(seen, i) && seen[i] == before[place];
        assert(now[first].binding == now[last].binding);
        assert(!is_first(now, last));
        assert forall|k: int| 0 <= k < before.len() implies is_a_first(
            now,
            #[trigger] before[k],
        ) by {
            let i = choose|i: int|
                0 <= i < seen.len() && #[trigger] is_first(seen, i) && seen[i] == before[k];
            assert(now[i] == seen[i] && is_first(now, i));
        }
        assert forall|i: int|
            0 <= i < now.len() && is_first(now, i) implies before.contains(#[trigger] now[i]) by {
            assert(i != last);
            assert(now[i] == seen[i]);
            assert(is_first(seen, i));
        }
    } else {
        let after = before.insert(place, entry);
        assert forall|k: int| place <= k < before.len() implies (#[trigger] before[k]).binding
            > entry.binding by {
            if k > place {
                assert(before[place].binding < before[k].binding);
            }
        }
        assert forall|j: int| 0 <= j < last implies (#[trigger] now[j]).binding
            != now[last].binding by {
            if seen[j].binding == entry.binding {
                lemma_first_exists(seen, j);
                let f = choose|f: int|
                    0 <= f <= j && #[trigger] is_first(seen, f) && seen[f].binding
                        == seen[j].binding;
                assert(before.contains(seen[f]));
                let k = choose|k: int| 0 <= k < before.len() && before[k] == seen[f];
                assert(before[k].binding == entry.binding);
            }
        }
        assert(is_first(now, last));
        assert(strictly_sorted(after)) by {
            assert forall|i: int, j: int| 0 <= i < j < after.len() implies (
            #[trigger] after[i]).binding < (#[trigger] after[j]).binding by {
                let source_i = if i < place {
                    i
                } else {
                    i - 1
                };
                let source_j = if j < place {
                    j
                } else {
                    j - 1
                };
                if i == place {
                    assert(after[j] == before[source_j]);
                } else if j == place {
                    assert(after[i] == before[source_i]);
                } else {
                    assert(after[i] == before[source_i] && after[j] == before[source_j]);
                }
            }
        }
        assert forall|k: int| 0 <= k < after.len() implies is_a_first(
            now,
            #[trigger] after[k],
        ) by {
            if k == place {
                assert(is_first(now, last) && now[last] == after[k]);
            } else {
                let source = if k < place {
                    k
                } else {
                    k - 1
                };
                assert(after[k] == before[source]);
                let i = choose|i: int|
                    0 <= i < seen.len() && #[trigger] is_first(seen, i) && seen[i] == before[source];
                assert(now[i] == seen[i] && is_first(now, i));
            }
        }
        assert forall|i: int|
            0 <= i < now.len() && is_first(now, i) implies after.contains(#[trigger] now[i]) by {
            if i == last {
                assert(after[place] == now[i]);
            } else {
                assert(now[i] == seen[i]);
                assert(before.contains(seen[i]));
                let k = choose|k: int| 0 <= k < before.len() && before[k] == seen[i];
                if k < place {
                    assert(after[k] == before[k]);
                } else {
                    assert(after[k + 1] == before[k]);
                }
            }
        }
    }
}

/// Each binding of a list has a first entry.
pub proof fn lemma_first_exists<P>(list: Seq<Bound<P>>, j: int)
    requires
        0 <= j < list.len(),
    ensures
        exists|f: int|
            0 <= f <= j && #[trigger] is_first(list, f) && list[f].binding == list[j].binding,
    decreases j,
{
    if !is_first(list, j) {
        let k = choose|k: int|
            0 <= k < j && (#[trigger] list[k]).binding == list[j].binding;
        lemma_first_exists(list, k);
    }
}

/// The order by bindings is determined: two lists that are both strictly sorted
/// and hold the same firsts are the same.
pub proof fn law_binding_order_is_unique<P>(
    a: Seq<Bound<P>>,
    b: Seq<Bound<P>>,
    list: Seq<Bound<P>>,
)
    requires
        strictly_sorted(a),
        strictly_sorted(b),
        holds_firsts(a, list),
        holds_firsts(b, list),
    ensures
        a == b,
{
    assert forall|x: Bound<P>| a.contains(x) implies b.contains(x) by {
        let k = choose|k: int| 0 <= k < a.len() && a[k] == x;
        let i = choose|i: int|
            0 <= i < list.len() && #[trigger] is_first(list, i) && list[i] == a[k];
        assert(b.contains(list[i]));
    }
    assert forall|x: Bound<P>| b.contains(x) implies a.contains(x) by {
        let k = choose|k: int| 0 <= k < b.len() && b[k] == x;
        let i = choose|i: int|
            0 <= i < list.len() && #[trigger] is_first(list, i) && list[i] == b[k];
        assert(a.contains(list[i]));
    }
    lemma_sorted_same(a, b);
}

proof fn lemma_sorted_same<P>(a: Seq<Bound<P>>, b: Seq<Bound<P>>)
    requires
        strictly_sorted(a),
        strictly_sorted(b),
        forall|x: Bound<P>| a.contains(x) == b.contains(x),
    ensures
        a == b,
    decreases a.len(),
{
    if a.len() == 0 {
        if b.len() > 0 {
            assert(b.contains(b[0]));
        }
        assert(a =~= b);
    } else {
        assert(a.contains(a.last()));
        assert(b.contains(a.last()));
        let k = choose|k: int| 0 <= k < b.len() && b[k] == a.last();
        assert(b.contains(b.last()));
        assert(a.contains(b.last()));
        let m = choose|m: int| 0 <= m < a.len() && a[m] == b.last();
        if k != b.len() - 1 {
            assert(b[k].binding < b[b.len() - 1].binding);
            assert(m == a.len() - 1 || a[m].binding < a[a.len() - 1].binding);
        }
        assert(a.last() == b.last());
        let a1 = a.drop_last();
        let b1 = b.drop_last();
        assert forall|x: Bound<P>| a1.contains(x) == b1.contains(x) by {
            if a1.contains(x) {
                let i = choose|i: int| 0 <= i < a1.len() && a1[i] == x;
                assert(a[i] == x);
                assert(a.contains(x));
                assert(a[i].binding < a[a.len() - 1].binding);
                let j = choose|j: int| 0 <= j < b.len() && b[j] == x;
                assert(j != b.len() - 1);
                assert(b1[j] == x);
            }
            if b1.contains(x) {
                let i = choose|i: int| 0 <= i < b1.len() && b1[i] == x;
                assert(b[i] == x);
                assert(b.contains(x));
                assert(b[i].binding < b[b.len() - 1].binding);
                let j = choose|j: int| 0 <= j < a.len() && a[j] == x;
                assert(j != a.len() - 1);
                assert(a1[j] == x);
            }
        }
        lemma_sorted_same(a1, b1);
        assert(a =~= a1.push(a.last()));
        assert(b =~= b1.push(b.last()));
    }
}

} // verus!
