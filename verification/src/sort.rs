//! Stable sorting by sample offset.
use vstd::prelude::*;

verus! {

/// Something that happens at a sample offset.
pub trait Timed: Sized {
    spec fn sample_time(self) -> u32;

    fn get_sample_time(&self) -> (time: u32)
        ensures
            time == self.sample_time(),
    ;
}

/// Offsets never decrease along `s`.
pub open spec fn sorted_by_time<T: Timed>(s: Seq<T>) -> bool {
    forall|i: int, j: int|
        0 <= i <= j < s.len() ==> (#[trigger] s[i]).sample_time() <= (
        #[trigger] s[j]).sample_time()
}

pub open spec fn is_at<T: Timed>(time: u32) -> spec_fn(T) -> bool {
    |item: T| item.sample_time() == time
}

/// The items of `s` at one offset, in their order.
pub open spec fn items_at<T: Timed>(s: Seq<T>, time: u32) -> Seq<T> {
    s.filter(is_at(time))
}

/// `sorted` holds the items of `s` by offset, and those with the same offset in the order that
/// they have in `s`.
pub open spec fn is_stable_sort<T: Timed>(s: Seq<T>, sorted: Seq<T>) -> bool {
    &&& sorted.len() == s.len()
    &&& sorted_by_time(sorted)
    &&& forall|time: u32| #[trigger] items_at(sorted, time) == items_at(s, time)
}

proof fn lemma_items_at_insert<T: Timed>(s: Seq<T>, p: int, item: T, time: u32)
    requires
        0 <= p <= s.len(),
        forall|i: int| p <= i < s.len() ==> (#[trigger] s[i]).sample_time() > item.sample_time(),
    ensures
        items_at(s.insert(p, item), time) == items_at(s.push(item), time),
{
    let pred = is_at::<T>(time);
    let head = s.take(p);
    let tail = s.skip(p);
    let one = seq![item];
    assert(s.insert(p, item) =~= head + (one + tail));
    assert(s.push(item) =~= head + (tail + one));
    Seq::filter_distributes_over_add(head, one + tail, pred);
    Seq::filter_distributes_over_add(one, tail, pred);
    Seq::filter_distributes_over_add(head, tail + one, pred);
    Seq::filter_distributes_over_add(tail, one, pred);
    if item.sample_time() == time {
        assert forall|i: int| 0 <= i < tail.len() implies !pred(#[trigger] tail[i]) by {
            assert(tail[i] == s[p + i]);
        }
        lemma_filter_none(tail, pred);
        assert(one.filter(pred) + tail.filter(pred) =~= tail.filter(pred) + one.filter(pred));
    } else {
        lemma_filter_none(one, pred);
        assert(one.filter(pred) + tail.filter(pred) =~= tail.filter(pred) + one.filter(pred));
    }
}

proof fn lemma_filter_none<T>(s: Seq<T>, pred: spec_fn(T) -> bool)
    requires
        forall|i: int| 0 <= i < s.len() ==> !pred(#[trigger] s[i]),
    ensures
        s.filter(pred) == Seq::<T>::empty(),
    decreases s.len(),
{
    reveal(Seq::filter);
    if s.len() > 0 {
        lemma_filter_none(s.drop_last(), pred);
    }
}

proof fn lemma_items_at_push<T: Timed>(s: Seq<T>, item: T, time: u32)
    ensures
        items_at(s.push(item), time) == if item.sample_time() == time {
            items_at(s, time).push(item)
        } else {
            items_at(s, time)
        },
{
    reveal(Seq::filter);
    assert(s.push(item).drop_last() =~= s);
}

/// The items of `s` by offset, and those with the same offset in the order that they have in `s`.
pub open spec fn by_time<T: Timed>(s: Seq<T>) -> Seq<T> {
    choose|sorted: Seq<T>| is_stable_sort(s, sorted)
}

/// Sorts by offset and keeps the order of items with the same offset.
pub fn sort_by_time<T: Timed + Copy>(items: &Vec<T>) -> (sorted: Vec<T>)
    ensures
        is_stable_sort(items@, sorted@),
        sorted@ == by_time(items@),
{
    let mut sorted: Vec<T> = Vec::new();
    let mut done: usize = 0;
    assert(items@.take(0) =~= sorted@);
    while done < items.len()
        invariant
            done <= items@.len(),
            is_stable_sort(items@.take(done as int), sorted@),
        decreases items@.len() - done,
    {
        let item = items[done];
        let ghost earlier = items@.take(done as int);
        let ghost previous = sorted@;
        let mut p: usize = sorted.len();
        while p > 0 && sorted[p - 1].get_sample_time() > item.get_sample_time()
            invariant
                p <= sorted@.len(),
                forall|i: int|
                    p <= i < sorted@.len() ==> (#[trigger] sorted@[i]).sample_time()
                        > item.sample_time(),
            decreases p,
        {
            p -= 1;
        }
        sorted.insert(p, item);
        proof {
            let next = items@.take(done + 1);
            assert(next =~= earlier.push(item));
            assert forall|time: u32| #[trigger] items_at(sorted@, time) == items_at(next, time) by {
                lemma_items_at_insert(previous, p as int, item, time);
                lemma_items_at_push(previous, item, time);
                lemma_items_at_push(earlier, item, time);
                assert(items_at(previous, time) == items_at(earlier, time));
            }
        }
        done += 1;
    }
    assert(items@.take(done as int) =~= items@);
    proof {
        stable_sort_is_unique(items@, sorted@, by_time(items@));
    }
    sorted
}

/// Where an item goes that is behind all items that are not later.
spec fn insertion_point<T: Timed>(sorted: Seq<T>, time: u32) -> int
    decreases sorted.len(),
{
    if sorted.len() == 0 || sorted.last().sample_time() <= time {
        sorted.len() as int
    } else {
        insertion_point(sorted.drop_last(), time)
    }
}

proof fn lemma_insertion_point<T: Timed>(sorted: Seq<T>, time: u32)
    requires
        sorted_by_time(sorted),
    ensures
        0 <= insertion_point(sorted, time) <= sorted.len(),
        forall|i: int|
            0 <= i < insertion_point(sorted, time) ==> (#[trigger] sorted[i]).sample_time()
                <= time,
        forall|i: int|
            insertion_point(sorted, time) <= i < sorted.len() ==> (
            #[trigger] sorted[i]).sample_time() > time,
    decreases sorted.len(),
{
    if sorted.len() > 0 && sorted.last().sample_time() > time {
        lemma_insertion_point(sorted.drop_last(), time);
        assert forall|i: int|
            insertion_point(sorted, time) <= i < sorted.len() implies (
        #[trigger] sorted[i]).sample_time() > time by {
            if i < sorted.len() - 1 {
                assert(sorted.drop_last()[i] == sorted[i]);
            }
        }
        assert forall|i: int| 0 <= i < insertion_point(sorted, time) implies (
        #[trigger] sorted[i]).sample_time() <= time by {
            assert(sorted.drop_last()[i] == sorted[i]);
        }
    }
}

/// All items can be sorted stably.
pub proof fn sorting_keeps_all_items<T: Timed>(s: Seq<T>)
    ensures
        is_stable_sort(s, by_time(s)),
    decreases s.len(),
{
    if s.len() == 0 {
        assert(is_stable_sort(s, s));
    } else {
        let earlier = s.drop_last();
        let item = s.last();
        sorting_keeps_all_items(earlier);
        let previous = by_time(earlier);
        let p = insertion_point(previous, item.sample_time());
        lemma_insertion_point(previous, item.sample_time());
        let sorted = previous.insert(p, item);
        assert(s =~= earlier.push(item));
        assert forall|time: u32| #[trigger] items_at(sorted, time) == items_at(s, time) by {
            lemma_items_at_insert(previous, p, item, time);
            lemma_items_at_push(previous, item, time);
            lemma_items_at_push(earlier, item, time);
            assert(items_at(previous, time) == items_at(earlier, time));
        }
        assert(is_stable_sort(s, sorted));
    }
}

proof fn lemma_last_is_latest<T: Timed>(s: Seq<T>, t: Seq<T>)
    requires
        s.len() > 0,
        sorted_by_time(s),
        sorted_by_time(t),
        forall|time: u32| #[trigger] items_at(s, time) == items_at(t, time),
    ensures
        t.len() > 0,
        s.last().sample_time() <= t.last().sample_time(),
{
    let time = s.last().sample_time();
    lemma_items_at_push(s.drop_last(), s.last(), time);
    assert(s.drop_last().push(s.last()) =~= s);
    assert(items_at(s, time).len() > 0);
    assert(items_at(t, time).len() > 0);
    if t.len() == 0 || t.last().sample_time() < time {
        assert forall|i: int| 0 <= i < t.len() implies !is_at::<T>(time)(#[trigger] t[i]) by {
            assert(t[i].sample_time() <= t[t.len() - 1].sample_time());
        }
        lemma_filter_none(t, is_at::<T>(time));
    }
}

/// There is only one way to sort stably: two stable sorts of the same items are equal.
pub proof fn stable_sort_is_unique<T: Timed>(s: Seq<T>, a: Seq<T>, b: Seq<T>)
    requires
        is_stable_sort(s, a),
        is_stable_sort(s, b),
    ensures
        a == b,
{
    assert forall|time: u32| #[trigger] items_at(a, time) == items_at(b, time) by {
        assert(items_at(b, time) == items_at(s, time));
    }
    lemma_same_items_sorted(a, b);
}

proof fn lemma_same_items_sorted<T: Timed>(a: Seq<T>, b: Seq<T>)
    requires
        sorted_by_time(a),
        sorted_by_time(b),
        forall|time: u32| #[trigger] items_at(a, time) == items_at(b, time),
    ensures
        a == b,
    decreases a.len(),
{
    if a.len() == 0 {
        if b.len() > 0 {
            assert forall|time: u32| #[trigger] items_at(b, time) == items_at(a, time) by {
                assert(items_at(a, time) == items_at(b, time));
            }
            lemma_last_is_latest(b, a);
        }
        assert(a =~= b);
    } else {
        lemma_last_is_latest(a, b);
        assert forall|time: u32| #[trigger] items_at(b, time) == items_at(a, time) by {
            assert(items_at(a, time) == items_at(b, time));
        }
        lemma_last_is_latest(b, a);
        let last = a.last().sample_time();
        let a0 = a.drop_last();
        let b0 = b.drop_last();
        assert(a =~= a0.push(a.last()));
        assert(b =~= b0.push(b.last()));
        lemma_items_at_push(a0, a.last(), last);
        lemma_items_at_push(b0, b.last(), last);
        assert(items_at(a, last) == items_at(b, last));
        assert(items_at(a, last).last() == a.last());
        assert(items_at(b, last).last() == b.last());
        assert forall|time: u32| #[trigger] items_at(a0, time) == items_at(b0, time) by {
            lemma_items_at_push(a0, a.last(), time);
            lemma_items_at_push(b0, b.last(), time);
            assert(items_at(a, time) == items_at(b, time));
            if time == last {
                assert(items_at(a, time).drop_last() =~= items_at(a0, time));
                assert(items_at(b, time).drop_last() =~= items_at(b0, time));
            }
        }
        lemma_same_items_sorted(a0, b0);
    }
}

proof fn lemma_filter_empty<T>(s: Seq<T>, pred: spec_fn(T) -> bool)
    requires
        s.filter(pred).len() == 0,
    ensures
        forall|i: int| 0 <= i < s.len() ==> !pred(#[trigger] s[i]),
    decreases s.len(),
{
    reveal(Seq::filter);
    if s.len() > 0 {
        let fewer = s.drop_last();
        lemma_filter_empty(fewer, pred);
        assert forall|i: int| 0 <= i < s.len() implies !pred(#[trigger] s[i]) by {
            if i < fewer.len() {
                assert(fewer[i] == s[i]);
            }
        }
    }
}

/// Sorting brings up no offset that no item has.
pub proof fn sorting_keeps_bounds<T: Timed>(s: Seq<T>, bound: int)
    requires
        forall|i: int| 0 <= i < s.len() ==> (#[trigger] s[i]).sample_time() < bound,
    ensures
        forall|i: int| 0 <= i < by_time(s).len() ==> (#[trigger] by_time(s)[i]).sample_time() < bound,
{
    sorting_keeps_all_items(s);
    let sorted = by_time(s);
    assert forall|i: int| 0 <= i < sorted.len() implies (#[trigger] sorted[i]).sample_time()
        < bound by {
        let time = sorted[i].sample_time();
        if time >= bound {
            lemma_filter_none(s, is_at::<T>(time));
            assert(items_at(sorted, time) == items_at(s, time));
            lemma_filter_empty(sorted, is_at::<T>(time));
            assert(is_at::<T>(time)(sorted[i]));
        }
    }
}

/// Sorting puts earlier items in front of later ones, and keeps all of them: it holds each item
/// that was there, and those at the same offset in the order that they had.
pub proof fn earlier_items_come_first<T: Timed>(s: Seq<T>, i: int, j: int, time: u32)
    requires
        0 <= i <= j < s.len(),
    ensures
        by_time(s).len() == s.len(),
        by_time(s)[i].sample_time() <= by_time(s)[j].sample_time(),
        by_time(s).filter(|item: T| item.sample_time() == time) == s.filter(
            |item: T| item.sample_time() == time,
        ),
{
    sorting_keeps_all_items(s);
    assert(is_at::<T>(time) =~= (|item: T| item.sample_time() == time));
    assert(items_at(by_time(s), time) == items_at(s, time));
}

} // verus!
