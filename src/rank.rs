//! Stable ordering of positions by numeric keys.
use crate::num::Num;
use vstd::prelude::*;
use vstd::relations::{sorted_by, total_ordering};

verus! {

/// Orders (key, position) pairs by key, then by position.
pub open spec fn key_leq(a: (int, int), b: (int, int)) -> bool {
    a.0 < b.0 || (a.0 == b.0 && a.1 <= b.1)
}

/// `key_leq` as a relation.
pub open spec fn key_order() -> spec_fn((int, int), (int, int)) -> bool {
    |a: (int, int), b: (int, int)| key_leq(a, b)
}

/// Each key paired with its position.
pub open spec fn keyed(keys: Seq<Num>) -> Seq<(int, int)> {
    Seq::new(keys.len(), |i: int| (keys[i].units as int, i))
}

/// The positions of `keys`, ordered by ascending key; equal keys keep their order.
pub open spec fn rank_positions(keys: Seq<Num>) -> Seq<int> {
    keyed(keys).sort_by(key_order()).map_values(|p: (int, int)| p.1)
}

/// `key_order` is a total order.
pub proof fn lemma_key_order_total()
    ensures
        total_ordering(key_order()),
{
}

/// The positions of `keys` in ascending order of key, ties in order of position.
pub fn sort_positions(keys: &Vec<Num>) -> (r: Vec<usize>)
    ensures
        r@.len() == keys@.len(),
        rank_positions(keys@).len() == keys@.len(),
        forall|k: int| 0 <= k < r@.len() ==> #[trigger] r@[k] as int == rank_positions(keys@)[k],
        forall|k: int| 0 <= k < r@.len() ==> #[trigger] r@[k] < keys@.len(),
{
    let n = keys.len();
    let mut order: Vec<usize> = Vec::new();
    let ghost mut g: Seq<(int, int)> = Seq::empty();
    let mut i: usize = 0;
    assert(keyed(keys@).subrange(0, 0) =~= g);
    while i < n
        invariant
            n == keys.len(),
            i <= n,
            order@.len() == i,
            g.len() == i,
            forall|k: int| 0 <= k < i ==> #[trigger] g[k] == (keys@[order@[k] as int].units as int, order@[k] as int),
            forall|k: int| 0 <= k < i ==> #[trigger] order@[k] < i,
            sorted_by(g, key_order()),
            g.to_multiset() == keyed(keys@).subrange(0, i as int).to_multiset(),
        decreases n - i,
    {
        let key = keys[i].units;
        let mut j: usize = 0;
        while j < order.len() && keys[order[j]].units <= key
            invariant
                n == keys.len(),
                i < n,
                j <= order@.len(),
                order@.len() == i,
                g.len() == i,
                forall|k: int| 0 <= k < i ==> #[trigger] g[k] == (keys@[order@[k] as int].units as int, order@[k] as int),
                forall|k: int| 0 <= k < i ==> #[trigger] order@[k] < i,
                forall|k: int| 0 <= k < j ==> #[trigger] g[k].0 <= key,
            decreases order@.len() - j,
        {
            j = j + 1;
        }
        let ghost old_g = g;
        let ghost item = (key as int, i as int);
        proof {
            assert forall|k: int| j <= k < i implies item.0 < #[trigger] old_g[k].0 by {
                if k > j {
                    assert(key_order()(old_g[j as int], old_g[k]));
                }
            }
            g = g.insert(j as int, item);
            vstd::seq_lib::to_multiset_insert(old_g, j as int, item);
            let pre = keyed(keys@).subrange(0, i as int);
            let next = keyed(keys@).subrange(0, i + 1);
            assert(next =~= pre.push(item));
            vstd::seq_lib::to_multiset_build(pre, item);
        }
        order.insert(j, i);
        proof {
            assert forall|a: int, b: int| 0 <= a < b < g.len() implies #[trigger] key_order()(g[a], g[b]) by {
                if b < j {
                    assert(key_order()(old_g[a], old_g[b]));
                } else if b == j {
                    assert(old_g[a].0 <= key);
                    assert(old_g[a].1 < i);
                } else if a < j {
                    assert(old_g[a].0 <= key);
                    assert(item.0 < old_g[b - 1].0);
                } else if a == j {
                    assert(item.0 < old_g[b - 1].0);
                } else {
                    assert(key_order()(old_g[a - 1], old_g[b - 1]));
                }
            }
        }
        i = i + 1;
    }
    proof {
        assert(keyed(keys@).subrange(0, n as int) =~= keyed(keys@));
        lemma_key_order_total();
        keyed(keys@).lemma_sort_by_ensures(key_order());
        vstd::seq_lib::lemma_sorted_unique(g, keyed(keys@).sort_by(key_order()), key_order());
        assert(g =~= keyed(keys@).sort_by(key_order()));
    }
    order
}

} // verus!
