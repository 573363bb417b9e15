//! The bookkeeping of a chart's timeline: its length, the order in which its
//! notes, judge fields and shapes are kept, and how many notes it has.
//! Times are microseconds; the notes, judge fields and shapes themselves are
//! drawn outside the library, which works on their times.
use vstd::prelude::*;
use vstd::set_lib::{lemma_int_range, lemma_subset_equality, set_int_range};

verus! {

/// The largest time in `s`, or `0` where there is none.
pub open spec fn max_time(s: Seq<u128>) -> u128
    decreases s.len(),
{
    if s.len() == 0 {
        0
    } else {
        let m = max_time(s.drop_last());
        if s.last() > m {
            s.last()
        } else {
            m
        }
    }
}

/// The larger of two times.
pub open spec fn later(a: u128, b: u128) -> u128 {
    if a > b {
        a
    } else {
        b
    }
}

/// The largest of `init` and the times in `v`.
fn fold_max(v: &Vec<u128>, init: u128) -> (r: u128)
    ensures
        r == later(init, max_time(v@)),
{
    let mut m = init;
    let mut i: usize = 0;
    while i < v.len()
        invariant
            i <= v.len(),
            m == later(init, max_time(v@.take(i as int))),
        decreases v.len() - i,
    {
        proof {
            assert(v@.take(i as int + 1).drop_last() =~= v@.take(i as int));
        }
        if v[i] > m {
            m = v[i];
        }
        i = i + 1;
    }
    proof {
        assert(v@.take(v@.len() as int) =~= v@);
    }
    m
}

/// The length of a chart: the latest of the times at which its notes are
/// hit, its judge fields end and its shapes end (`0` for an empty chart).
pub fn chart_length(
    note_click_times: &Vec<u128>,
    judge_field_end_times: &Vec<u128>,
    shape_end_times: &Vec<u128>,
) -> (r: u128)
    ensures
        r == later(
            later(max_time(note_click_times@), max_time(judge_field_end_times@)),
            max_time(shape_end_times@),
        ),
{
    let a = fold_max(note_click_times, 0);
    let b = fold_max(judge_field_end_times, a);
    let c = fold_max(shape_end_times, b);
    c
}

/// No time in `s` is later than [`max_time`] of `s`, and where `s` is not
/// empty, [`max_time`] is one of its times: the chart length is the latest
/// time of the chart.
pub proof fn lemma_max_time_is_latest(s: Seq<u128>)
    ensures
        forall|i: int| 0 <= i < s.len() ==> s[i] <= max_time(s),
        s.len() > 0 ==> exists|i: int| 0 <= i < s.len() && s[i] == max_time(s),
    decreases s.len(),
{
    if s.len() > 0 {
        let t = s.drop_last();
        lemma_max_time_is_latest(t);
        assert forall|i: int| 0 <= i < s.len() implies s[i] <= max_time(s) by {
            if i < s.len() - 1 {
                assert(s[i] == t[i]);
            }
        }
        if s.last() > max_time(t) {
            assert(s[s.len() - 1] == max_time(s));
        } else if t.len() == 0 {
            assert(s[0] == max_time(s));
        } else {
            let j = choose|j: int| 0 <= j < t.len() && t[j] == max_time(t);
            assert(s[j] == max_time(s));
        }
    }
}

/// Whether `order` lists the positions `0..keys.len()` of `keys`, each once,
/// from the latest time to the earliest, equal times keeping their order:
/// the order of a stable sort from latest to earliest.
pub open spec fn is_descending_order(keys: Seq<u128>, order: Seq<usize>) -> bool {
    &&& order.len() == keys.len()
    &&& forall|j: int| 0 <= j < order.len() ==> order[j] < keys.len()
    &&& forall|j: int, k: int| 0 <= j < k < order.len() ==> order[j] != order[k]
    &&& forall|j: int, k: int|
        0 <= j < k < order.len() ==> keys[order[j] as int] >= keys[order[k] as int]
    &&& forall|j: int, k: int|
        0 <= j < k < order.len() && keys[order[j] as int] == keys[order[k] as int] ==> order[j]
            < order[k]
}

/// The order in which a chart keeps items with the times `keys`: from the
/// latest to the earliest, items with equal times in the order they had.
pub fn descending_order(keys: &Vec<u128>) -> (order: Vec<usize>)
    ensures
        is_descending_order(keys@, order@),
{
    let n = keys.len();
    let mut order: Vec<usize> = Vec::new();
    let mut i: usize = 0;
    while i < n
        invariant
            n == keys.len(),
            i <= n,
            order.len() == i,
            forall|j: int| 0 <= j < order.len() ==> order[j] < i,
            forall|j: int, k: int| 0 <= j < k < order.len() ==> order[j] != order[k],
            forall|j: int, k: int|
                0 <= j < k < order.len() ==> keys[order[j] as int] >= keys[order[k] as int],
            forall|j: int, k: int|
                0 <= j < k < order.len() && keys[order[j] as int] == keys[order[k] as int]
                    ==> order[j] < order[k],
        decreases n - i,
    {
        let key = keys[i];
        let mut p: usize = 0;
        while p < order.len() && keys[order[p]] >= key
            invariant
                n == keys.len(),
                i < n,
                key == keys[i as int],
                p <= order.len(),
                forall|j: int| 0 <= j < order.len() ==> order[j] < i,
                forall|j: int| 0 <= j < p ==> keys[order[j] as int] >= key,
            decreases order.len() - p,
        {
            p = p + 1;
        }
        let ghost old_order = order@;
        proof {
            assert forall|j: int| p <= j < old_order.len() implies keys[old_order[j] as int] < key by {
                assert(keys[old_order[p as int] as int] < key);
                if j > p {
                    assert(keys[old_order[p as int] as int] >= keys[old_order[j] as int]);
                }
            }
        }
        order.insert(p, i);
        proof {
            assert(order@ == old_order.insert(p as int, i));
            assert forall|j: int| 0 <= j < order.len() implies order[j] < i + 1 by {
                lemma_insert_at(old_order, p as int, i, j);
            }
            assert forall|j: int, k: int| 0 <= j < k < order.len() implies order[j] != order[k] by {
                lemma_insert_at(old_order, p as int, i, j);
                lemma_insert_at(old_order, p as int, i, k);
            }
            assert forall|j: int, k: int| 0 <= j < k < order.len() implies keys[order[j] as int]
                >= keys[order[k] as int] by {
                lemma_insert_at(old_order, p as int, i, j);
                lemma_insert_at(old_order, p as int, i, k);
            }
            assert forall|j: int, k: int|
                0 <= j < k < order.len() && keys[order[j] as int] == keys[order[k] as int]
                implies order[j] < order[k] by {
                lemma_insert_at(old_order, p as int, i, j);
                lemma_insert_at(old_order, p as int, i, k);
            }
        }
        i = i + 1;
    }
    order
}

/// What stands at each place of `s` after `x` is inserted at place `p`.
proof fn lemma_insert_at(s: Seq<usize>, p: int, x: usize, j: int)
    requires
        0 <= p <= s.len(),
        0 <= j <= s.len(),
    ensures
        s.insert(p, x)[j] == (if j < p {
            s[j]
        } else if j == p {
            x
        } else {
            s[j - 1]
        }),
{
}

/// An order of `keys` lists every position of `keys`.
pub proof fn lemma_order_lists_every_position(keys: Seq<u128>, order: Seq<usize>, v: int)
    requires
        is_descending_order(keys, order),
        0 <= v < keys.len(),
    ensures
        exists|j: int| 0 <= j < order.len() && order[j] == v,
{
    let si = order.map_values(|x: usize| x as int);
    assert(si.no_duplicates()) by {
        assert forall|j: int, k: int| 0 <= j < si.len() && 0 <= k < si.len() && j != k implies si[j]
            != si[k] by {
            if j < k {
                assert(order[j] != order[k]);
            } else {
                assert(order[k] != order[j]);
            }
        }
    }
    si.unique_seq_to_set();
    lemma_int_range(0, keys.len() as int);
    assert(si.to_set().subset_of(set_int_range(0, keys.len() as int))) by {
        assert forall|x: int| si.to_set().contains(x) implies set_int_range(0, keys.len() as int).contains(x) by {
            let j = choose|j: int| 0 <= j < si.len() && si[j] == x;
            assert(order[j] < keys.len());
        }
    }
    lemma_subset_equality(si.to_set(), set_int_range(0, keys.len() as int));
    assert(set_int_range(0, keys.len() as int).contains(v));
    assert(si.to_set().contains(v));
    let j = choose|j: int| 0 <= j < si.len() && si[j] == v;
    assert(order[j] == v);
}

/// The order is the order of a stable sort: there is only one order of the
/// latest to the earliest time that keeps equal times in their order.
pub proof fn lemma_descending_order_unique(keys: Seq<u128>, o1: Seq<usize>, o2: Seq<usize>)
    requires
        is_descending_order(keys, o1),
        is_descending_order(keys, o2),
    ensures
        o1 == o2,
{
    if o1 != o2 {
        assert(exists|d: int| 0 <= d < o1.len() && o1[d] != o2[d]) by {
            if forall|d: int| 0 <= d < o1.len() ==> o1[d] == o2[d] {
                assert(o1 =~= o2);
            }
        }
        let d0 = choose|d: int| 0 <= d < o1.len() && o1[d] != o2[d];
        let d = lemma_first_difference(o1, o2, d0);
        let a = o1[d];
        let b = o2[d];
        lemma_order_lists_every_position(keys, o1, b as int);
        lemma_order_lists_every_position(keys, o2, a as int);
        let e = choose|j: int| 0 <= j < o1.len() && o1[j] == b;
        let f = choose|j: int| 0 <= j < o2.len() && o2[j] == a;
        if e < d {
            assert(o2[e] == b);
        }
        if f < d {
            assert(o1[f] == a);
        }
        assert(e != d);
        assert(f != d);
        assert(keys[a as int] >= keys[b as int]);
        assert(keys[b as int] >= keys[a as int]);
        assert(a < b);
        assert(b < a);
    }
}

/// The first position at which two sequences of equal length differ, given
/// one at which they do.
proof fn lemma_first_difference(o1: Seq<usize>, o2: Seq<usize>, d0: int) -> (d: int)
    requires
        o1.len() == o2.len(),
        0 <= d0 < o1.len(),
        o1[d0] != o2[d0],
    ensures
        0 <= d <= d0,
        o1[d] != o2[d],
        forall|j: int| 0 <= j < d ==> o1[j] == o2[j],
    decreases d0,
{
    if forall|j: int| 0 <= j < d0 ==> o1[j] == o2[j] {
        d0
    } else {
        let j = choose|j: int| 0 <= j < d0 && o1[j] != o2[j];
        lemma_first_difference(o1, o2, j)
    }
}

/// The sum of `s`.
pub open spec fn total(s: Seq<usize>) -> int
    decreases s.len(),
{
    if s.len() == 0 {
        0
    } else {
        total(s.drop_last()) + s.last()
    }
}

/// How many notes a chart has, given the number of notes of each of its
/// judge fields.
pub fn note_count(note_list_lengths: &Vec<usize>) -> (r: usize)
    requires
        total(note_list_lengths@) <= usize::MAX,
    ensures
        r == total(note_list_lengths@),
{
    let mut max_note: usize = 0;
    let mut i: usize = 0;
    while i < note_list_lengths.len()
        invariant
            i <= note_list_lengths.len(),
            total(note_list_lengths@) <= usize::MAX,
            max_note == total(note_list_lengths@.take(i as int)),
        decreases note_list_lengths.len() - i,
    {
        proof {
            assert(note_list_lengths@.take(i as int + 1).drop_last() =~= note_list_lengths@.take(i as int));
            lemma_total_prefix(note_list_lengths@, i as int + 1);
        }
        max_note = note_list_lengths[i] + max_note;
        i = i + 1;
    }
    proof {
        assert(note_list_lengths@.take(note_list_lengths@.len() as int) =~= note_list_lengths@);
    }
    max_note
}

/// The sum of a prefix is at most the sum of the whole.
pub proof fn lemma_total_prefix(s: Seq<usize>, k: int)
    requires
        0 <= k <= s.len(),
    ensures
        total(s.take(k)) <= total(s),
    decreases s.len(),
{
    if k < s.len() {
        assert(s.drop_last().take(k) =~= s.take(k));
        lemma_total_prefix(s.drop_last(), k);
    } else {
        assert(s.take(k) =~= s);
    }
}

} // verus!
