//! Lists: searching, filtering, counting, sorting.

use vstd::prelude::*;

verus! {

/// The first element of a sequence, if it has one.
pub open spec fn first<T>(items: Seq<T>) -> Option<T> {
    if items.len() > 0 {
        Some(items[0])
    } else {
        None
    }
}

/// The first element that satisfies `wanted`, if there is one.
pub open spec fn first_where<T>(items: Seq<T>, wanted: spec_fn(T) -> bool) -> Option<T> {
    first(items.filter(wanted))
}

/// Whether `test` tells of each item what `wanted` says of the item's model.
pub open spec fn decides<T: DeepView, F: Fn(&T) -> bool>(
    test: F,
    wanted: spec_fn(T::V) -> bool,
) -> bool {
    &&& forall|x: &T| #[trigger] call_requires(test, (x,))
    &&& forall|x: &T, b: bool| #[trigger]
        call_ensures(test, (x,), b) ==> b == wanted(x.deep_view())
}

/// Appending an element to a sequence appends it to what a filter keeps, or does not.
pub proof fn lemma_filter_push<T>(items: Seq<T>, x: T, wanted: spec_fn(T) -> bool)
    ensures
        items.push(x).filter(wanted) == if wanted(x) {
            items.filter(wanted).push(x)
        } else {
            items.filter(wanted)
        },
{
    reveal(Seq::filter);
    assert(items.push(x).drop_last() =~= items);
}

/// The filter of a prefix and the next element.
pub proof fn lemma_filter_take<T>(items: Seq<T>, n: int, wanted: spec_fn(T) -> bool)
    requires
        0 <= n < items.len(),
    ensures
        items.take(n + 1).filter(wanted) == if wanted(items[n]) {
            items.take(n).filter(wanted).push(items[n])
        } else {
            items.take(n).filter(wanted)
        },
{
    assert(items.take(n + 1) =~= items.take(n).push(items[n]));
    lemma_filter_push(items.take(n), items[n], wanted);
}

/// The first element that satisfies `wanted` is the one at `n`, where none before it does.
pub proof fn lemma_first_where<T>(items: Seq<T>, n: int, wanted: spec_fn(T) -> bool)
    requires
        0 <= n < items.len(),
        wanted(items[n]),
        items.take(n).filter(wanted).len() == 0,
    ensures
        first_where(items, wanted) == Some(items[n]),
{
    lemma_filter_take(items, n, wanted);
    assert(items =~= items.take(n + 1) + items.skip(n + 1));
    Seq::filter_distributes_over_add(items.take(n + 1), items.skip(n + 1), wanted);
}

/// What a filter keeps is in the sequence and satisfies the predicate.
pub proof fn lemma_first_where_holds<T>(items: Seq<T>, wanted: spec_fn(T) -> bool)
    ensures
        match first_where(items, wanted) {
            Some(x) => wanted(x) && items.contains(x),
            None => forall|i: int| 0 <= i < items.len() ==> !wanted(#[trigger] items[i]),
        },
{
    if items.filter(wanted).len() > 0 {
        items.lemma_filter_pred(wanted, 0);
        let x = items.filter(wanted)[0];
        assert(items.filter(wanted).contains(x));
        items.lemma_filter_contains_rev(wanted, x);
    } else {
        assert forall|i: int| 0 <= i < items.len() implies !wanted(#[trigger] items[i]) by {
            if wanted(items[i]) {
                items.lemma_filter_contains(wanted, i);
            }
        }
    }
}

/// Finds the first item that a test accepts.
pub(crate) fn find<T: DeepView, F: Fn(&T) -> bool>(
    items: &Vec<T>,
    test: F,
    Ghost(wanted): Ghost<spec_fn(T::V) -> bool>,
) -> (r: Option<&T>)
    requires
        decides(test, wanted),
    ensures
        r.deep_view() == first_where(items.deep_view(), wanted),
        r matches Some(x) ==> items@.contains(*x),
{
    let ghost whole = items.deep_view();
    let mut i: usize = 0;
    assert(whole.take(0).filter(wanted) =~= Seq::empty()) by {
        reveal(Seq::filter);
    }
    while i < items.len()
        invariant
            i <= items@.len(),
            whole == items.deep_view(),
            decides(test, wanted),
            whole.take(i as int).filter(wanted).len() == 0,
        decreases items@.len() - i,
    {
        if test(&items[i]) {
            proof {
                lemma_first_where(whole, i as int, wanted);
            }
            return Some(&items[i]);
        }
        proof {
            lemma_filter_take(whole, i as int, wanted);
        }
        i = i + 1;
    }
    assert(whole.take(i as int) =~= whole);
    None
}

/// Counts the items that a test accepts.
pub(crate) fn count<T: DeepView, F: Fn(&T) -> bool>(
    items: &Vec<T>,
    test: F,
    Ghost(wanted): Ghost<spec_fn(T::V) -> bool>,
) -> (r: usize)
    requires
        decides(test, wanted),
    ensures
        r == items.deep_view().filter(wanted).len(),
        r <= items@.len(),
{
    let ghost whole = items.deep_view();
    let mut i: usize = 0;
    let mut n: usize = 0;
    assert(whole.take(0).filter(wanted) =~= Seq::empty()) by {
        reveal(Seq::filter);
    }
    while i < items.len()
        invariant
            n <= i <= items@.len(),
            whole == items.deep_view(),
            decides(test, wanted),
            whole.take(i as int).filter(wanted).len() == n,
        decreases items@.len() - i,
    {
        proof {
            lemma_filter_take(whole, i as int, wanted);
        }
        if test(&items[i]) {
            n = n + 1;
        }
        i = i + 1;
    }
    assert(whole.take(i as int) =~= whole);
    n
}

/// Keeps the items that a test accepts, in their order.
pub(crate) fn retain<T: DeepView, F: Fn(&T) -> bool>(
    items: Vec<T>,
    test: F,
    Ghost(wanted): Ghost<spec_fn(T::V) -> bool>,
) -> (r: Vec<T>)
    requires
        decides(test, wanted),
    ensures
        r.deep_view() == items.deep_view().filter(wanted),
{
    let ghost whole = items.deep_view();
    let mut r: Vec<T> = Vec::new();
    assert(whole.take(0).filter(wanted) =~= Seq::empty()) by {
        reveal(Seq::filter);
    }
    assert(r.deep_view() =~= Seq::empty());
    for x in it: items
        invariant
            it.seq() == items@,
            whole == items.deep_view(),
            decides(test, wanted),
            r.deep_view() =~= whole.take(it.index() as int).filter(wanted),
    {
        proof {
            assert(whole[it.index() as int] == x.deep_view());
            lemma_filter_take(whole, it.index() as int, wanted);
        }
        if test(&x) {
            let ghost before = r.deep_view();
            let ghost model = x.deep_view();
            r.push(x);
            assert(r.deep_view() =~= before.push(model));
        }
    }
    assert(whole.take(items@.len() as int) =~= whole);
    r
}

/// The items in the opposite order.
pub(crate) fn reversed<T: DeepView>(items: Vec<T>) -> (r: Vec<T>)
    ensures
        r.deep_view() == items.deep_view().reverse(),
{
    let mut rest = items;
    let mut r: Vec<T> = Vec::new();
    while rest.len() > 0
        invariant
            r@ + rest@.reverse() =~= items@.reverse(),
        decreases rest@.len(),
    {
        let ghost before = rest@;
        let ghost done = r@;
        match rest.pop() {
            Some(x) => {
                r.push(x);
                assert(before.reverse() =~= seq![x] + rest@.reverse());
                assert(r@ + rest@.reverse() =~= done + before.reverse());
            },
            None => {},
        }
    }
    assert(r@ =~= items@.reverse());
    assert(r.deep_view() =~= items.deep_view().reverse());
    r
}

/// The first `limit` elements of a sequence, or all of them where there are fewer.
pub open spec fn at_most<T>(items: Seq<T>, limit: int) -> Seq<T> {
    if items.len() <= limit {
        items
    } else {
        items.take(limit)
    }
}

/// Keeps at most the first `limit` items.
pub(crate) fn shorten<T: DeepView>(items: Vec<T>, limit: usize) -> (r: Vec<T>)
    ensures
        r.deep_view() == at_most(items.deep_view(), limit as int),
{
    let mut r = items;
    if r.len() > limit {
        r.truncate(limit);
        assert(r.deep_view() =~= items.deep_view().take(limit as int));
    }
    r
}

// ── Sorting ──────────────────────────────────────────────────────────────────

/// A sorted sequence with one more element, placed behind all that come no later.
pub open spec fn placed<T>(items: Seq<T>, x: T, leq: spec_fn(T, T) -> bool) -> Seq<T>
    decreases items.len(),
{
    if items.len() == 0 || leq(items.last(), x) {
        items.push(x)
    } else {
        placed(items.drop_last(), x, leq).push(items.last())
    }
}

/// The elements of a sequence in the order `leq`, equal ones in the order they came in.
pub open spec fn sorted<T>(items: Seq<T>, leq: spec_fn(T, T) -> bool) -> Seq<T>
    decreases items.len(),
{
    if items.len() == 0 {
        items
    } else {
        placed(sorted(items.drop_last(), leq), items.last(), leq)
    }
}

/// Whether `leq` compares any two elements, and is transitive.
pub open spec fn is_order<T>(leq: spec_fn(T, T) -> bool) -> bool {
    &&& forall|a: T, b: T| #[trigger] leq(a, b) || leq(b, a)
    &&& forall|a: T, b: T, c: T| #[trigger] leq(a, b) && #[trigger] leq(b, c) ==> leq(a, c)
}

/// Whether no element comes later than one behind it.
pub open spec fn in_sequence<T>(items: Seq<T>, leq: spec_fn(T, T) -> bool) -> bool {
    forall|i: int, j: int| 0 <= i <= j < items.len() ==> leq(#[trigger] items[i], #[trigger] items[j])
}

/// The predicate of standing level with `k` in the order `leq`.
pub open spec fn level_with<T>(k: T, leq: spec_fn(T, T) -> bool) -> spec_fn(T) -> bool {
    |x: T| leq(x, k) && leq(k, x)
}

proof fn lemma_placed<T>(items: Seq<T>, x: T, leq: spec_fn(T, T) -> bool)
    requires
        is_order(leq),
        in_sequence(items, leq),
    ensures
        in_sequence(placed(items, x, leq), leq),
        placed(items, x, leq).to_multiset() == items.push(x).to_multiset(),
        placed(items, x, leq).len() == items.len() + 1,
        forall|y: T| #[trigger] placed(items, x, leq).contains(y) ==> y == x || items.contains(y),
        forall|k: T| #[trigger]
            placed(items, x, leq).filter(level_with(k, leq)) == items.push(x).filter(
                level_with(k, leq),
            ),
    decreases items.len(),
{
    broadcast use vstd::seq_lib::group_to_multiset_ensures;

    if items.len() == 0 || leq(items.last(), x) {
        let all = items.push(x);
        assert forall|i: int, j: int| 0 <= i <= j < all.len() implies leq(
            #[trigger] all[i],
            #[trigger] all[j],
        ) by {
            if j == items.len() && i < items.len() {
                assert(leq(items[i], items.last()));
                assert(leq(items.last(), x));
            } else if i == items.len() {
                assert(leq(x, x) || leq(x, x));
            }
        }
    } else {
        let front = items.drop_last();
        let last = items.last();
        lemma_placed(front, x, leq);
        let inner = placed(front, x, leq);
        let all = inner.push(last);
        assert(items =~= front.push(last));
        assert forall|i: int, j: int| 0 <= i <= j < all.len() implies leq(
            #[trigger] all[i],
            #[trigger] all[j],
        ) by {
            if j == inner.len() && i < inner.len() {
                assert(inner.contains(inner[i]));
                if inner[i] == x {
                    assert(leq(x, last) || leq(last, x));
                } else {
                    let n = choose|n: int| 0 <= n < front.len() && front[n] == inner[i];
                    assert(leq(items[n], items[items.len() - 1]));
                }
            } else if i == inner.len() {
                assert(leq(last, last) || leq(last, last));
            }
        }
        assert(all.to_multiset() == items.push(x).to_multiset()) by {
            assert(inner.push(last).to_multiset() =~= inner.to_multiset().insert(last));
            assert(front.push(x).to_multiset() =~= front.to_multiset().insert(x));
            assert(front.push(last).to_multiset() =~= front.to_multiset().insert(last));
            assert(items.push(x).to_multiset() =~= items.to_multiset().insert(x));
        }
        assert forall|y: T| #[trigger] all.contains(y) implies y == x || items.contains(y) by {
            let n = choose|n: int| 0 <= n < all.len() && all[n] == y;
            if n < inner.len() {
                assert(inner.contains(y));
                if y != x {
                    let m = choose|m: int| 0 <= m < front.len() && front[m] == y;
                    assert(items[m] == y);
                }
            } else {
                assert(items[items.len() - 1] == y);
            }
        }
        assert forall|k: T| #[trigger]
            all.filter(level_with(k, leq)) == items.push(x).filter(level_with(k, leq)) by {
            let p = level_with(k, leq);
            assert(inner.filter(p) == front.push(x).filter(p));
            lemma_filter_push(inner, last, p);
            lemma_filter_push(front, x, p);
            lemma_filter_push(front, last, p);
            lemma_filter_push(items, x, p);
            if p(last) && p(x) {
                assert(leq(last, k) && leq(k, x));
                assert(false);
            }
        }
    }
}

/// What sorting promises: the result is in order, holds the same elements, and keeps
/// elements that stand level with each other in the order they came in.
pub proof fn lemma_sorted<T>(items: Seq<T>, leq: spec_fn(T, T) -> bool)
    requires
        is_order(leq),
    ensures
        in_sequence(sorted(items, leq), leq),
        sorted(items, leq).to_multiset() == items.to_multiset(),
        sorted(items, leq).len() == items.len(),
        forall|k: T| #[trigger]
            sorted(items, leq).filter(level_with(k, leq)) == items.filter(level_with(k, leq)),
    decreases items.len(),
{
    broadcast use vstd::seq_lib::group_to_multiset_ensures;

    if items.len() > 0 {
        let front = items.drop_last();
        let x = items.last();
        lemma_sorted(front, leq);
        lemma_placed(sorted(front, leq), x, leq);
        assert(items =~= front.push(x));
        assert(front.push(x).to_multiset() =~= front.to_multiset().insert(x));
        assert(sorted(front, leq).push(x).to_multiset() =~= sorted(front, leq).to_multiset().insert(
            x,
        ));
        assert forall|k: T| #[trigger]
            sorted(items, leq).filter(level_with(k, leq)) == items.filter(level_with(k, leq)) by {
            let p = level_with(k, leq);
            assert(sorted(front, leq).filter(p) == front.filter(p));
            lemma_filter_push(sorted(front, leq), x, p);
            lemma_filter_push(front, x, p);
        }
    }
}

/// Whether `test` tells of any two items what `leq` says of their models.
pub open spec fn compares<T: DeepView, F: Fn(&T, &T) -> bool>(
    test: F,
    leq: spec_fn(T::V, T::V) -> bool,
) -> bool {
    &&& forall|x: &T, y: &T| #[trigger] call_requires(test, (x, y))
    &&& forall|x: &T, y: &T, b: bool| #[trigger]
        call_ensures(test, (x, y), b) ==> b == leq(x.deep_view(), y.deep_view())
}

/// Places one item into a list, behind all that come no later.
fn place<T: DeepView, F: Fn(&T, &T) -> bool>(
    items: &mut Vec<T>,
    x: T,
    test: &F,
    Ghost(leq): Ghost<spec_fn(T::V, T::V) -> bool>,
)
    requires
        compares(*test, leq),
    ensures
        final(items).deep_view() == placed(old(items).deep_view(), x.deep_view(), leq),
{
    let ghost whole = items.deep_view();
    let ghost model = x.deep_view();
    let mut at: usize = items.len();
    assert(whole.take(at as int) =~= whole);
    assert(placed(whole, model, leq) =~= placed(whole.take(at as int), model, leq) + whole.skip(
        at as int,
    ));
    while at > 0 && !test(&items[at - 1], &x)
        invariant
            compares(*test, leq),
            at <= items@.len(),
            whole == items.deep_view(),
            model == x.deep_view(),
            placed(whole, model, leq) =~= placed(whole.take(at as int), model, leq) + whole.skip(
                at as int,
            ),
        decreases at,
    {
        assert(whole.take(at as int).last() == items@[at - 1].deep_view());
        assert(whole.take(at as int).drop_last() =~= whole.take(at - 1));
        at = at - 1;
    }
    assert(placed(whole.take(at as int), model, leq) == whole.take(at as int).push(model)) by {
        if at > 0 {
            assert(whole.take(at as int).last() == items@[at - 1].deep_view());
        }
    }
    items.insert(at, x);
    assert(items.deep_view() =~= whole.take(at as int).push(model) + whole.skip(at as int));
}

/// Sorts a list; items that stand level with each other keep their order.
pub(crate) fn sort<T: DeepView, F: Fn(&T, &T) -> bool>(
    items: Vec<T>,
    test: F,
    Ghost(leq): Ghost<spec_fn(T::V, T::V) -> bool>,
) -> (r: Vec<T>)
    requires
        compares(test, leq),
    ensures
        r.deep_view() == sorted(items.deep_view(), leq),
{
    let ghost whole = items.deep_view();
    let mut r: Vec<T> = Vec::new();
    assert(whole.take(0) =~= Seq::empty());
    assert(r.deep_view() =~= Seq::empty());
    for x in it: items
        invariant
            it.seq() == items@,
            whole == items.deep_view(),
            compares(test, leq),
            r.deep_view() =~= sorted(whole.take(it.index() as int), leq),
    {
        assert(whole.take(it.index() + 1).drop_last() =~= whole.take(it.index() as int));
        place(&mut r, x, &test, Ghost(leq));
    }
    assert(whole.take(items@.len() as int) =~= whole);
    r
}

} // verus!
