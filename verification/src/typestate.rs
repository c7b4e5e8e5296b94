//! The state machine behind the request builders.
//!
//! A builder with k mandatory slots walks the subsets of the slot set:
//! the initial configuration has no slot filled, a setter for slot i is
//! available only while i is unfilled and moves the configuration to the
//! one with i filled, and the finalize operation exists only on the
//! configuration with every slot filled — in the builders this is carried
//! by the types themselves, so an incomplete request cannot be expressed.
//! This module states the order-independence of that walk: filling a set
//! of distinct slots reaches the same configuration in every order.

use vstd::prelude::*;
use vstd::seq_lib::group_to_multiset_ensures;

verus! {

/// Each mandatory slot is filled at most once: all slot indices distinct.
pub open spec fn distinct_slots<V>(ops: Seq<(int, V)>) -> bool {
    forall|i: int, j: int|
        0 <= i < j < ops.len() ==> (#[trigger] ops[i]).0 != (#[trigger] ops[j]).0
}

/// Runs a sequence of fill operations over a configuration, each filling
/// one slot with one value.
pub open spec fn apply_fills<V>(m: Map<int, V>, ops: Seq<(int, V)>) -> Map<int, V>
    decreases ops.len(),
{
    if ops.len() == 0 {
        m
    } else {
        apply_fills(m, ops.drop_last()).insert(ops.last().0, ops.last().1)
    }
}

/// Some fill targets slot k.
pub open spec fn has_slot<V>(ops: Seq<(int, V)>, k: int) -> bool {
    exists|i: int| 0 <= i < ops.len() && (#[trigger] ops[i]).0 == k
}

/// The value filled into slot k.
pub open spec fn slot_value<V>(ops: Seq<(int, V)>, k: int) -> V {
    ops[choose|i: int| 0 <= i < ops.len() && (#[trigger] ops[i]).0 == k].1
}

/// The configuration a set of fills describes, independent of any order.
pub open spec fn slots_of<V>(ops: Seq<(int, V)>) -> Map<int, V> {
    Map::new(|k: int| has_slot(ops, k), |k: int| slot_value(ops, k))
}

proof fn lemma_slot_index_unique<V>(ops: Seq<(int, V)>, i: int, j: int)
    requires
        distinct_slots(ops),
        0 <= i < ops.len(),
        0 <= j < ops.len(),
        ops[i].0 == ops[j].0,
    ensures
        i == j,
{
    if i < j {
        assert(ops[i].0 != ops[j].0);
    } else if j < i {
        assert(ops[j].0 != ops[i].0);
    }
}

/// Filling distinct slots from the empty configuration reaches exactly
/// the configuration the fill set describes.
proof fn lemma_apply_characterize<V>(ops: Seq<(int, V)>)
    requires
        distinct_slots(ops),
    ensures
        apply_fills(Map::<int, V>::empty(), ops) == slots_of(ops),
    decreases ops.len(),
{
    if ops.len() == 0 {
        assert(slots_of(ops) =~= Map::<int, V>::empty());
    } else {
        let init = ops.drop_last();
        let last = ops.last();
        assert(distinct_slots(init)) by {
            assert(forall|i: int, j: int|
                0 <= i < j < init.len() ==> (#[trigger] init[i]) == ops[i] && (#[trigger] init[j])
                    == ops[j]);
        }
        lemma_apply_characterize(init);
        let a = slots_of(init).insert(last.0, last.1);
        let b = slots_of(ops);
        assert forall|k: int| #[trigger] b.dom().contains(k) implies a.dom().contains(k) by {
            let i = choose|i: int| 0 <= i < ops.len() && (#[trigger] ops[i]).0 == k;
            if i < ops.len() - 1 {
                assert(init[i] == ops[i]);
                assert(has_slot(init, k));
            }
        }
        assert forall|k: int| #[trigger] a.dom().contains(k) implies b.dom().contains(k) by {
            if k == last.0 {
                assert((ops[ops.len() - 1]).0 == k);
            } else {
                let i = choose|i: int| 0 <= i < init.len() && (#[trigger] init[i]).0 == k;
                assert(ops[i] == init[i]);
            }
        }
        assert forall|k: int| #[trigger] b.dom().contains(k) implies a[k] == b[k] by {
            let i0 = choose|i: int| 0 <= i < ops.len() && (#[trigger] ops[i]).0 == k;
            assert(b[k] == ops[i0].1);
            if k == last.0 {
                lemma_slot_index_unique(ops, i0, ops.len() - 1);
                assert(a[k] == last.1);
            } else {
                assert(i0 != ops.len() - 1);
                assert(init[i0] == ops[i0]);
                assert(has_slot(init, k));
                let i1 = choose|i: int| 0 <= i < init.len() && (#[trigger] init[i]).0 == k;
                assert(init[i1] == ops[i1]);
                lemma_slot_index_unique(ops, i0, i1);
                assert(a[k] == slots_of(init)[k]);
                assert(slots_of(init)[k] == init[i1].1);
            }
        }
        assert(a =~= b);
    }
}

/// Any permutation of the same distinct setter calls reaches the same
/// configuration: running one sequence of fills and any reordering of it
/// from the empty configuration gives equal results. With each builder's
/// setters pinned to one fill each, completing a builder in any order
/// yields the same finalizable value.
pub proof fn lemma_fill_order_irrelevant<V>(ops1: Seq<(int, V)>, ops2: Seq<(int, V)>)
    requires
        distinct_slots(ops1),
        ops1.to_multiset() == ops2.to_multiset(),
    ensures
        apply_fills(Map::<int, V>::empty(), ops1) == apply_fills(Map::<int, V>::empty(), ops2),
{
    broadcast use group_to_multiset_ensures;

    assert(ops1.no_duplicates()) by {
        assert forall|i: int, j: int|
            (0 <= i < ops1.len() && 0 <= j < ops1.len() && i != j) implies ops1[i] != ops1[j] by {
            if ops1[i] == ops1[j] {
                lemma_slot_index_unique(ops1, i, j);
            }
        }
    }
    ops1.lemma_multiset_has_no_duplicates();
    ops2.lemma_multiset_has_no_duplicates_conv();
    assert(distinct_slots(ops2)) by {
        assert forall|i: int, j: int| 0 <= i < j < ops2.len() implies (ops2[i]).0 != (
        ops2[j]).0 by {
            if (ops2[i]).0 == (ops2[j]).0 {
                assert(ops2[i] != ops2[j]);
                assert(ops2.contains(ops2[i]) && ops2.contains(ops2[j]));
                assert(ops2.to_multiset().count(ops2[i]) > 0);
                assert(ops2.to_multiset().count(ops2[j]) > 0);
                assert(ops1.to_multiset().count(ops2[i]) > 0);
                assert(ops1.to_multiset().count(ops2[j]) > 0);
                assert(ops1.contains(ops2[i]) && ops1.contains(ops2[j]));
                let a = choose|k: int| 0 <= k < ops1.len() && ops1[k] == ops2[i];
                let b = choose|k: int| 0 <= k < ops1.len() && ops1[k] == ops2[j];
                assert(ops1[a].0 == ops1[b].0);
                lemma_slot_index_unique(ops1, a, b);
            }
        }
    }
    lemma_apply_characterize(ops1);
    lemma_apply_characterize(ops2);
    assert forall|k: int|
        #[trigger] slots_of(ops1).dom().contains(k) implies slots_of(ops2).dom().contains(k) by {
        let i = choose|i: int| 0 <= i < ops1.len() && (#[trigger] ops1[i]).0 == k;
        assert(ops1.contains(ops1[i]));
        assert(ops1.to_multiset().count(ops1[i]) > 0);
        assert(ops2.to_multiset().count(ops1[i]) > 0);
        assert(ops2.contains(ops1[i]));
        let j = choose|j: int| 0 <= j < ops2.len() && ops2[j] == ops1[i];
        assert((ops2[j]).0 == k);
        assert(has_slot(ops2, k));
    }
    assert forall|k: int|
        #[trigger] slots_of(ops2).dom().contains(k) implies slots_of(ops1).dom().contains(k) by {
        let i = choose|i: int| 0 <= i < ops2.len() && (#[trigger] ops2[i]).0 == k;
        assert(ops2.contains(ops2[i]));
        assert(ops2.to_multiset().count(ops2[i]) > 0);
        assert(ops1.to_multiset().count(ops2[i]) > 0);
        assert(ops1.contains(ops2[i]));
        let j = choose|j: int| 0 <= j < ops1.len() && ops1[j] == ops2[i];
        assert((ops1[j]).0 == k);
        assert(has_slot(ops1, k));
    }
    assert forall|k: int|
        #[trigger] slots_of(ops1).dom().contains(k) implies slots_of(ops1)[k] == slots_of(
        ops2,
    )[k] by {
        let i0 = choose|i: int| 0 <= i < ops1.len() && (#[trigger] ops1[i]).0 == k;
        assert(slots_of(ops1)[k] == ops1[i0].1);
        assert(ops1.contains(ops1[i0]));
        assert(ops1.to_multiset().count(ops1[i0]) > 0);
        assert(ops2.to_multiset().count(ops1[i0]) > 0);
        assert(ops2.contains(ops1[i0]));
        let j = choose|j: int| 0 <= j < ops2.len() && ops2[j] == ops1[i0];
        assert(has_slot(ops2, k));
        let i2 = choose|i: int| 0 <= i < ops2.len() && (#[trigger] ops2[i]).0 == k;
        assert(slots_of(ops2)[k] == ops2[i2].1);
        lemma_slot_index_unique(ops2, j, i2);
    }
    assert(slots_of(ops1) =~= slots_of(ops2));
}

} // verus!
