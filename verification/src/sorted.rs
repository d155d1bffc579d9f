//! Ascending lists without repeats.

use vstd::prelude::*;

verus! {

/// Whether every value of a list is larger than the ones before it.
pub open spec fn is_ascending(list: Seq<i64>) -> bool {
    forall|i: int, j: int| 0 <= i < j < list.len() ==> list[i] < list[j]
}

/// Adds a value to an ascending list, unless it is there.
pub fn insert_ascending(list: &mut Vec<i64>, value: i64)
    requires
        is_ascending(old(list)@),
    ensures
        is_ascending(final(list)@),
        forall|x: i64| #[trigger]
            final(list)@.contains(x) <==> old(list)@.contains(x) || x == value,
{
    let ghost before = list@;
    let mut i: usize = 0;
    while i < list.len() && list[i] < value
        invariant
            i <= list.len(),
            list@ == before,
            forall|j: int| 0 <= j < i ==> #[trigger] before[j] < value,
        decreases list.len() - i,
    {
        i = i + 1;
    }
    if i < list.len() && list[i] == value {
        assert(before[i as int] == value);
        return;
    }
    list.insert(i, value);
    proof {
        let after = list@;
        assert(after =~= before.insert(i as int, value));
        assert forall|a: int, b: int| 0 <= a < b < after.len() implies after[a] < after[b] by {
            if a < i && b > i {
                assert(before[a] < before[b - 1]);
            } else if a > i {
                assert(before[a - 1] < before[b - 1]);
            } else if a == i && b > i {
                assert(before[i as int] > value);
                if b - 1 > i {
                    assert(before[i as int] < before[b - 1]);
                }
            }
        }
        assert forall|x: i64| #[trigger] after.contains(x) <==> before.contains(x) || x
            == value by {
            if before.contains(x) {
                let a = choose|a: int| 0 <= a < before.len() && before[a] == x;
                if a < i {
                    assert(after[a] == x);
                } else {
                    assert(after[a + 1] == x);
                }
            }
            assert(after[i as int] == value);
            if after.contains(x) {
                let a = choose|a: int| 0 <= a < after.len() && after[a] == x;
                if a < i {
                    assert(before[a] == x);
                } else if a > i {
                    assert(before[a - 1] == x);
                }
            }
        }
    }
}

/// An ascending list is determined by what it holds.
pub proof fn lemma_ascending_lists_agree(a: Seq<i64>, b: Seq<i64>)
    requires
        is_ascending(a),
        is_ascending(b),
        forall|x: i64| #[trigger] a.contains(x) <==> b.contains(x),
    ensures
        a == b,
    decreases a.len(),
{
    if a.len() == 0 {
        if b.len() > 0 {
            assert(b.contains(b[0]));
            assert(a.contains(b[0]));
        }
        assert(a =~= b);
    } else {
        assert(a.contains(a.last()));
        assert(b.contains(a.last()));
        assert(b.contains(b.last()));
        assert(a.contains(b.last()));
        let i = choose|i: int| 0 <= i < b.len() && b[i] == a.last();
        let j = choose|j: int| 0 <= j < a.len() && a[j] == b.last();
        assert(a.last() == b.last()) by {
            if i < b.len() - 1 {
                assert(b[i] < b[b.len() - 1]);
            }
            if j < a.len() - 1 {
                assert(a[j] < a[a.len() - 1]);
            }
        }
        let rest_a = a.drop_last();
        let rest_b = b.drop_last();
        assert forall|x: i64| #[trigger] rest_a.contains(x) <==> rest_b.contains(x) by {
            if rest_a.contains(x) {
                let k = choose|k: int| 0 <= k < rest_a.len() && rest_a[k] == x;
                assert(a[k] == x && a[k] < a[a.len() - 1]);
                assert(a.contains(x));
                assert(a.contains(x) == b.contains(x));
                let m = choose|m: int| 0 <= m < b.len() && b[m] == x;
                assert(rest_b[m] == x);
            }
            if rest_b.contains(x) {
                let k = choose|k: int| 0 <= k < rest_b.len() && rest_b[k] == x;
                assert(b[k] == x && b[k] < b[b.len() - 1]);
                assert(b.contains(x));
                assert(a.contains(x) == b.contains(x));
                let m = choose|m: int| 0 <= m < a.len() && a[m] == x;
                assert(rest_a[m] == x);
            }
        }
        lemma_ascending_lists_agree(rest_a, rest_b);
        assert(a =~= rest_a.push(a.last()));
        assert(b =~= rest_b.push(b.last()));
    }
}

} // verus!
