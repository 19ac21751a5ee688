//! The task queue of a run: the entries that are switched on, in the order
//! of the places they ask for.

use vstd::prelude::*;
use vstd::seq_lib::*;
use crate::entry::{entries_view, ConfigEntry, ConfigEntryView};
use crate::task::TaskQueue;

verus! {

/// `itertools::Itertools::sorted_by_key` on pairs of a place asked for and
/// a position, with the place asked for as the key. The sort is stable:
/// the pairs come back as they went in, in ascending order of their keys,
/// and pairs of one key in the order in which they went in, which for
/// positions that went in ascending is the order of the positions.
#[verifier::external_body]
fn sorted_by_index(keys: Vec<(i64, usize)>) -> (out: Vec<(i64, usize)>)
    requires
        forall|i: int, j: int| 0 <= i < j < keys.len() ==> keys[i].1 < keys[j].1,
    ensures
        out@.to_multiset() == keys@.to_multiset(),
        forall|i: int, j: int| 0 <= i < j < out.len() ==> out[i].0 <= out[j].0,
        forall|i: int, j: int|
            0 <= i < j < out.len() && out[i].0 == out[j].0 ==> out[i].1 < out[j].1,
{
    itertools::Itertools::sorted_by_key(keys.into_iter(), |k| k.0).collect()
}

/// Whether the entry at `p` comes before the entry at `q` in a run: it
/// asks for an earlier place, or for the same place and stands first in
/// the file.
pub open spec fn precedes(entries: Seq<ConfigEntryView>, p: int, q: int) -> bool {
    entries[p].order() < entries[q].order() || (entries[p].order() == entries[q].order() && p
        < q)
}

/// Whether `queue` is the task queue of `entries`, and `picks` the
/// positions in `entries` that its tasks were taken from: the queue holds
/// the name and the JSON text of every entry that is switched on and of no
/// other, each once, an entry before another where it precedes it.
pub open spec fn is_task_queue(
    entries: Seq<ConfigEntryView>,
    picks: Seq<int>,
    queue: Seq<(Seq<char>, Seq<char>)>,
) -> bool {
    &&& queue.len() == picks.len()
    &&& forall|k: int|
        0 <= k < picks.len() ==> {
            &&& 0 <= #[trigger] picks[k] < entries.len()
            &&& entries[picks[k]].enabled()
            &&& queue[k] == (entries[picks[k]].key, entries[picks[k]].json)
        }
    &&& forall|p: int|
        0 <= p < entries.len() && (#[trigger] entries[p]).enabled() ==> picks.contains(p)
    &&& forall|k: int, l: int|
        0 <= k < l < picks.len() ==> precedes(entries, #[trigger] picks[k], #[trigger] picks[l])
}

/// The views of the tasks of a queue.
pub open spec fn queue_view(queue: Seq<(String, String)>) -> Seq<(Seq<char>, Seq<char>)> {
    queue.map_values(|t: (String, String)| (t.0@, t.1@))
}

/// Two lists of positions that hold the same positions, each in the order
/// of a run, are the same list.
proof fn lemma_picks_equal(entries: Seq<ConfigEntryView>, a: Seq<int>, b: Seq<int>)
    requires
        forall|k: int, l: int|
            0 <= k < l < a.len() ==> precedes(entries, #[trigger] a[k], #[trigger] a[l]),
        forall|k: int, l: int|
            0 <= k < l < b.len() ==> precedes(entries, #[trigger] b[k], #[trigger] b[l]),
        forall|x: int| a.contains(x) <==> b.contains(x),
    ensures
        a == b,
    decreases a.len(),
{
    if a.len() == 0 {
        if b.len() > 0 {
            assert(b.contains(b[0]));
            assert(a.contains(b[0]));
        }
        assert(a =~= b);
    } else {
        assert(a.contains(a[0]));
        assert(b.contains(a[0]));
        let j = choose|j: int| 0 <= j < b.len() && b[j] == a[0];
        if j > 0 {
            assert(precedes(entries, b[0], b[j]));
            assert(b.contains(b[0]));
            assert(a.contains(b[0]));
            let i = choose|i: int| 0 <= i < a.len() && a[i] == b[0];
            if i > 0 {
                assert(precedes(entries, a[0], a[i]));
            }
            assert(false);
        }
        assert(a[0] == b[0]);
        let a1 = a.drop_first();
        let b1 = b.drop_first();
        assert forall|x: int| a1.contains(x) <==> b1.contains(x) by {
            if a1.contains(x) {
                let i = choose|i: int| 0 <= i < a1.len() && a1[i] == x;
                assert(a[i + 1] == x);
                assert(precedes(entries, a[0], a[i + 1]));
                assert(a.contains(x));
                assert(b.contains(x));
                let m = choose|m: int| 0 <= m < b.len() && b[m] == x;
                assert(m != 0);
                assert(b1[m - 1] == x);
            }
            if b1.contains(x) {
                let i = choose|i: int| 0 <= i < b1.len() && b1[i] == x;
                assert(b[i + 1] == x);
                assert(precedes(entries, b[0], b[i + 1]));
                assert(b.contains(x));
                assert(a.contains(x));
                let m = choose|m: int| 0 <= m < a.len() && a[m] == x;
                assert(m != 0);
                assert(a1[m - 1] == x);
            }
        }
        assert forall|k: int, l: int| 0 <= k < l < a1.len() implies precedes(
            entries,
            #[trigger] a1[k],
            #[trigger] a1[l],
        ) by {
            assert(precedes(entries, a[k + 1], a[l + 1]));
        }
        assert forall|k: int, l: int| 0 <= k < l < b1.len() implies precedes(
            entries,
            #[trigger] b1[k],
            #[trigger] b1[l],
        ) by {
            assert(precedes(entries, b[k + 1], b[l + 1]));
        }
        lemma_picks_equal(entries, a1, b1);
        assert(a =~= seq![a[0]] + a1);
        assert(b =~= seq![b[0]] + b1);
    }
}

/// The entries of a file have one task queue and no other.
pub proof fn lemma_task_queue_unique(
    entries: Seq<ConfigEntryView>,
    picks1: Seq<int>,
    queue1: Seq<(Seq<char>, Seq<char>)>,
    picks2: Seq<int>,
    queue2: Seq<(Seq<char>, Seq<char>)>,
)
    requires
        is_task_queue(entries, picks1, queue1),
        is_task_queue(entries, picks2, queue2),
    ensures
        picks1 == picks2,
        queue1 == queue2,
{
    assert forall|x: int| picks1.contains(x) <==> picks2.contains(x) by {
        if picks1.contains(x) {
            let k = choose|k: int| 0 <= k < picks1.len() && picks1[k] == x;
            assert(entries[picks1[k]].enabled());
        }
        if picks2.contains(x) {
            let k = choose|k: int| 0 <= k < picks2.len() && picks2[k] == x;
            assert(entries[picks2[k]].enabled());
        }
    }
    lemma_picks_equal(entries, picks1, picks2);
    assert forall|k: int| 0 <= k < queue1.len() implies queue1[k] == queue2[k] by {
        assert(0 <= picks1[k] < entries.len());
        assert(0 <= picks2[k] < entries.len());
    }
    assert(queue1 =~= queue2);
}

/// Every task of a task queue comes from an entry that is switched on,
/// and the places that the tasks ask for do not descend along the queue.
pub proof fn lemma_task_queue_enabled_and_ordered(
    entries: Seq<ConfigEntryView>,
    picks: Seq<int>,
    queue: Seq<(Seq<char>, Seq<char>)>,
)
    requires
        is_task_queue(entries, picks, queue),
    ensures
        forall|k: int| 0 <= k < queue.len() ==> entries[#[trigger] picks[k]].enable == Some(true),
        forall|k: int, l: int|
            0 <= k <= l < queue.len() ==> entries[#[trigger] picks[k]].order()
                <= entries[#[trigger] picks[l]].order(),
{
    assert forall|k: int, l: int| 0 <= k <= l < queue.len() implies entries[#[trigger] picks[k]].order()
        <= entries[#[trigger] picks[l]].order() by {
        if k < l {
            assert(precedes(entries, picks[k], picks[l]));
        }
    }
}

/// The task queue of `entries`: the name and the JSON text of each entry
/// that is switched on, in ascending order of the places they ask for,
/// entries that ask for the same place in the order of the file.
pub fn available_tasks(entries: &Vec<ConfigEntry>) -> (r: TaskQueue)
    ensures
        exists|picks: Seq<int>| is_task_queue(entries_view(entries@), picks, queue_view(r@)),
{
    let ghost all = entries_view(entries@);
    let mut keys: Vec<(i64, usize)> = Vec::new();
    let mut i: usize = 0;
    while i < entries.len()
        invariant
            i <= entries.len(),
            all == entries_view(entries@),
            forall|j: int|
                0 <= j < keys.len() ==> {
                    &&& (#[trigger] keys[j]).1 < i
                    &&& all[keys[j].1 as int].enabled()
                    &&& keys[j].0 == all[keys[j].1 as int].order()
                },
            forall|a: int, b: int| 0 <= a < b < keys.len() ==> keys[a].1 < keys[b].1,
            forall|p: int|
                0 <= p < i && (#[trigger] all[p]).enabled() ==> keys@.contains(
                    (all[p].order() as i64, p as usize),
                ),
        decreases entries.len() - i,
    {
        let entry = &entries[i];
        let enabled = match entry.enable {
            Some(b) => b,
            None => false,
        };
        if enabled {
            let order: i64 = match entry.index {
                Some(x) => x,
                None => 0,
            };
            let ghost before = keys@;
            keys.push((order, i));
            proof {
                assert(keys@[before.len() as int] == (order, i));
                assert forall|p: int| 0 <= p < i + 1 && (#[trigger] all[p]).enabled() implies keys@.contains(
                    (all[p].order() as i64, p as usize),
                ) by {
                    if p < i {
                        let key = (all[p].order() as i64, p as usize);
                        assert(before.contains(key));
                        let j = choose|j: int| 0 <= j < before.len() && before[j] == key;
                        assert(keys@[j] == key);
                    }
                }
            }
        }
        i += 1;
    }
    let ghost keyed = keys@;
    let sorted = sorted_by_index(keys);
    proof {
        assert forall|m: int| 0 <= m < sorted.len() implies keyed.contains(
            #[trigger] sorted[m],
        ) by {
            assert(sorted@.contains(sorted[m]));
            to_multiset_contains(sorted@, sorted[m]);
            to_multiset_contains(keyed, sorted[m]);
        }
    }
    let mut out: TaskQueue = Vec::new();
    let mut k: usize = 0;
    while k < sorted.len()
        invariant
            k <= sorted.len(),
            out.len() == k,
            all == entries_view(entries@),
            forall|m: int| 0 <= m < sorted.len() ==> keyed.contains(#[trigger] sorted[m]),
            forall|j: int|
                0 <= j < keyed.len() ==> {
                    &&& (#[trigger] keyed[j]).1 < entries.len()
                    &&& all[keyed[j].1 as int].enabled()
                    &&& keyed[j].0 == all[keyed[j].1 as int].order()
                },
            forall|m: int|
                0 <= m < k ==> #[trigger] queue_view(out@)[m] == (
                    all[sorted[m].1 as int].key,
                    all[sorted[m].1 as int].json,
                ),
        decreases sorted.len() - k,
    {
        let p = sorted[k].1;
        proof {
            assert(keyed.contains(sorted[k as int]));
            let j = choose|j: int| 0 <= j < keyed.len() && keyed[j] == sorted[k as int];
            assert(keyed[j].1 < entries.len());
        }
        let ghost before = out@;
        out.push((entries[p].key.clone(), entries[p].json.clone()));
        proof {
            assert forall|m: int| 0 <= m < k + 1 implies #[trigger] queue_view(out@)[m] == (
                all[sorted[m].1 as int].key,
                all[sorted[m].1 as int].json,
            ) by {
                if m < k {
                    assert(queue_view(before)[m] == queue_view(out@)[m]);
                }
            }
        }
        k += 1;
    }
    proof {
        let picks = Seq::new(sorted.len() as nat, |m: int| sorted[m].1 as int);
        let queue = queue_view(out@);
        assert forall|m: int| 0 <= m < picks.len() implies {
            &&& 0 <= #[trigger] picks[m] < all.len()
            &&& all[picks[m]].enabled()
            &&& queue[m] == (all[picks[m]].key, all[picks[m]].json)
        } by {
            assert(keyed.contains(sorted[m]));
            let j = choose|j: int| 0 <= j < keyed.len() && keyed[j] == sorted[m];
            assert(keyed[j].1 < entries.len());
        }
        assert forall|p: int| 0 <= p < all.len() && (#[trigger] all[p]).enabled() implies picks.contains(
            p,
        ) by {
            let key = (all[p].order() as i64, p as usize);
            assert(keyed.contains(key));
            to_multiset_contains(sorted@, key);
            to_multiset_contains(keyed, key);
            assert(sorted@.contains(key));
            let m = choose|m: int| 0 <= m < sorted.len() && sorted[m] == key;
            assert(picks[m] == p);
        }
        assert forall|a: int, b: int| 0 <= a < b < picks.len() implies precedes(
            all,
            #[trigger] picks[a],
            #[trigger] picks[b],
        ) by {
            assert(keyed.contains(sorted[a]));
            assert(keyed.contains(sorted[b]));
            let ja = choose|j: int| 0 <= j < keyed.len() && keyed[j] == sorted[a];
            let jb = choose|j: int| 0 <= j < keyed.len() && keyed[j] == sorted[b];
            assert(keyed[ja].0 == all[keyed[ja].1 as int].order());
            assert(keyed[jb].0 == all[keyed[jb].1 as int].order());
        }
        assert(is_task_queue(all, picks, queue));
    }
    out
}

} // verus!
