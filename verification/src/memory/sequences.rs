//! Facts about selecting from sequences of rows and changing them.

use vstd::prelude::*;

verus! {

/// Nothing is selected from no rows.
pub proof fn filter_of_none<A>(keep: spec_fn(A) -> bool)
    ensures
        Seq::<A>::empty().filter(keep) == Seq::<A>::empty(),
{
    reveal(Seq::filter);
}

/// Where no row is wanted, nothing is selected; and where nothing is
/// selected, no row was wanted.
pub proof fn filter_is_empty<A>(rows: Seq<A>, keep: spec_fn(A) -> bool)
    ensures
        rows.filter(keep).len() == 0 <==> forall|i: int|
            0 <= i < rows.len() ==> !#[trigger] keep(rows[i]),
    decreases rows.len(),
{
    if rows.len() == 0 {
        filter_of_none(keep);
    } else {
        let front = rows.drop_last();
        assert(rows =~= front.push(rows.last()));
        front.lemma_filter_push(rows.last(), keep);
        filter_is_empty(front, keep);
        if rows.filter(keep).len() == 0 {
            assert forall|i: int| 0 <= i < rows.len() implies !#[trigger] keep(rows[i]) by {
                if i < front.len() {
                    assert(front[i] == rows[i]);
                }
            }
        } else {
            if forall|i: int| 0 <= i < rows.len() ==> !#[trigger] keep(rows[i]) {
                assert(!keep(rows[rows.len() - 1]));
                assert forall|i: int| 0 <= i < front.len() implies !#[trigger] keep(front[i]) by {
                    assert(front[i] == rows[i]);
                }
            }
        }
    }
}

/// The first selected row is a row that is wanted.
pub proof fn filter_first<A>(rows: Seq<A>, keep: spec_fn(A) -> bool)
    requires
        rows.filter(keep).len() > 0,
    ensures
        keep(rows.filter(keep)[0]),
        rows.contains(rows.filter(keep)[0]),
{
    rows.lemma_filter_pred(keep, 0);
    assert(rows.filter(keep).contains(rows.filter(keep)[0]));
    rows.lemma_filter_contains_rev(keep, rows.filter(keep)[0]);
}

/// Selecting from a selection what the selection has already: selecting
/// once.
pub proof fn filter_within<A>(rows: Seq<A>, keep: spec_fn(A) -> bool, want: spec_fn(A) -> bool)
    requires
        forall|row: A| #[trigger] want(row) ==> keep(row),
    ensures
        rows.filter(keep).filter(want) == rows.filter(want),
    decreases rows.len(),
{
    if rows.len() == 0 {
        filter_of_none(keep);
        filter_of_none(want);
    } else {
        let front = rows.drop_last();
        assert(rows =~= front.push(rows.last()));
        front.lemma_filter_push(rows.last(), keep);
        front.lemma_filter_push(rows.last(), want);
        filter_within(front, keep, want);
        if keep(rows.last()) {
            front.filter(keep).lemma_filter_push(rows.last(), want);
        }
    }
}

/// Selecting from a selection what the selection left out: nothing.
pub proof fn filter_without<A>(rows: Seq<A>, keep: spec_fn(A) -> bool, want: spec_fn(A) -> bool)
    requires
        forall|row: A| #[trigger] want(row) ==> !keep(row),
    ensures
        rows.filter(keep).filter(want) == Seq::<A>::empty(),
    decreases rows.len(),
{
    if rows.len() == 0 {
        filter_of_none(keep);
        filter_of_none(want);
    } else {
        let front = rows.drop_last();
        assert(rows =~= front.push(rows.last()));
        front.lemma_filter_push(rows.last(), keep);
        filter_without(front, keep, want);
        if keep(rows.last()) {
            front.filter(keep).lemma_filter_push(rows.last(), want);
        }
    }
}

/// A selection of a selection is no longer than the selection of all rows.
pub proof fn filter_shrinks<A>(rows: Seq<A>, keep: spec_fn(A) -> bool, want: spec_fn(A) -> bool)
    ensures
        rows.filter(keep).filter(want).len() <= rows.filter(want).len(),
    decreases rows.len(),
{
    if rows.len() == 0 {
        filter_of_none(keep);
        filter_of_none(want);
    } else {
        let front = rows.drop_last();
        assert(rows =~= front.push(rows.last()));
        front.lemma_filter_push(rows.last(), keep);
        front.lemma_filter_push(rows.last(), want);
        filter_shrinks(front, keep, want);
        if keep(rows.last()) {
            front.filter(keep).lemma_filter_push(rows.last(), want);
        }
    }
}

/// Changing rows in a way that a selection does not see: the selection of
/// the changed rows is the changed selection.
pub proof fn filter_of_changed<A>(
    rows: Seq<A>,
    change: spec_fn(A) -> A,
    want: spec_fn(A) -> bool,
)
    requires
        forall|row: A| #[trigger] want(change(row)) == want(row),
    ensures
        rows.map_values(change).filter(want) == rows.filter(want).map_values(change),
    decreases rows.len(),
{
    if rows.len() == 0 {
        filter_of_none(want);
        assert(rows.map_values(change) =~= Seq::<A>::empty());
        assert(rows.filter(want).map_values(change) =~= Seq::<A>::empty());
    } else {
        let front = rows.drop_last();
        let last = rows.last();
        assert(rows =~= front.push(last));
        assert(rows.map_values(change) =~= front.map_values(change).push(change(last)));
        front.map_values(change).lemma_filter_push(change(last), want);
        front.lemma_filter_push(last, want);
        filter_of_changed(front, change, want);
        if want(last) {
            assert(front.filter(want).push(last).map_values(change) =~= front.filter(
                want,
            ).map_values(change).push(change(last)));
        }
    }
}

/// Applying to all rows a function that leaves them as they are: the same
/// rows.
pub proof fn unchanged<A>(rows: Seq<A>, change: spec_fn(A) -> A)
    requires
        forall|i: int| 0 <= i < rows.len() ==> #[trigger] change(rows[i]) == rows[i],
    ensures
        rows.map_values(change) == rows,
{
    assert(rows.map_values(change) =~= rows);
}

/// Selecting from rows that were made from values: making rows from the
/// selected values.
pub proof fn filter_of_made<A, B>(
    values: Seq<A>,
    make: spec_fn(A) -> B,
    want: spec_fn(B) -> bool,
    wanted: spec_fn(A) -> bool,
)
    requires
        forall|value: A| #[trigger] want(make(value)) == wanted(value),
    ensures
        values.map_values(make).filter(want) == values.filter(wanted).map_values(make),
    decreases values.len(),
{
    if values.len() == 0 {
        filter_of_none(want);
        filter_of_none(wanted);
        assert(values.map_values(make) =~= Seq::<B>::empty());
        assert(values.filter(wanted).map_values(make) =~= Seq::<B>::empty());
    } else {
        let front = values.drop_last();
        let last = values.last();
        assert(values =~= front.push(last));
        assert(values.map_values(make) =~= front.map_values(make).push(make(last)));
        front.map_values(make).lemma_filter_push(make(last), want);
        front.lemma_filter_push(last, wanted);
        filter_of_made(front, make, want, wanted);
        if wanted(last) {
            assert(front.filter(wanted).push(last).map_values(make) =~= front.filter(
                wanted,
            ).map_values(make).push(make(last)));
        }
    }
}

/// A selection and what it leaves out hold together what the rows hold.
pub proof fn filter_parts<A>(rows: Seq<A>, keep: spec_fn(A) -> bool, leave: spec_fn(A) -> bool)
    requires
        forall|row: A| #[trigger] leave(row) == !keep(row),
    ensures
        rows.filter(keep).to_multiset().add(rows.filter(leave).to_multiset())
            == rows.to_multiset(),
    decreases rows.len(),
{
    broadcast use vstd::seq_lib::to_multiset_build;

    if rows.len() == 0 {
        filter_of_none(keep);
        filter_of_none(leave);
        assert(rows =~= Seq::<A>::empty());
        Seq::<A>::empty().to_multiset_ensures();
        assert forall|row: A| Seq::<A>::empty().to_multiset().count(row) == 0 by {
            assert(!Seq::<A>::empty().contains(row));
        }
        assert(Seq::<A>::empty().to_multiset().add(Seq::<A>::empty().to_multiset())
            =~= Seq::<A>::empty().to_multiset());
    } else {
        let front = rows.drop_last();
        let last = rows.last();
        assert(rows =~= front.push(last));
        front.lemma_filter_push(last, keep);
        front.lemma_filter_push(last, leave);
        filter_parts(front, keep, leave);
        assert(rows.filter(keep).to_multiset().add(rows.filter(leave).to_multiset())
            =~= front.to_multiset().insert(last));
    }
}

/// Two selections that want the same of the rows select the same.
pub proof fn filter_alike<A>(rows: Seq<A>, one: spec_fn(A) -> bool, other: spec_fn(A) -> bool)
    requires
        forall|i: int| 0 <= i < rows.len() ==> #[trigger] one(rows[i]) == other(rows[i]),
    ensures
        rows.filter(one) == rows.filter(other),
    decreases rows.len(),
{
    if rows.len() == 0 {
        filter_of_none(one);
        filter_of_none(other);
    } else {
        let front = rows.drop_last();
        assert(rows =~= front.push(rows.last()));
        front.lemma_filter_push(rows.last(), one);
        front.lemma_filter_push(rows.last(), other);
        assert(one(rows[rows.len() - 1]) == other(rows[rows.len() - 1]));
        assert forall|i: int| 0 <= i < front.len() implies #[trigger] one(front[i]) == other(
            front[i],
        ) by {
            assert(front[i] == rows[i]);
        }
        filter_alike(front, one, other);
    }
}

/// Where a selection holds at most one row, two rows that are wanted are
/// the same row.
pub proof fn only_one<A>(rows: Seq<A>, want: spec_fn(A) -> bool, i: int, j: int)
    requires
        rows.filter(want).len() <= 1,
        0 <= i < rows.len(),
        0 <= j < rows.len(),
        want(rows[i]),
        want(rows[j]),
    ensures
        rows[i] == rows[j],
{
    rows.lemma_filter_contains(want, i);
    rows.lemma_filter_contains(want, j);
    let found = rows.filter(want);
    let a = choose|a: int| 0 <= a < found.len() && found[a] == rows[i];
    let b = choose|b: int| 0 <= b < found.len() && found[b] == rows[j];
    assert(a == 0 && b == 0);
}

/// Where every row that is wanted is wanted by exactly one of two
/// selections, and they want nothing else, the selection holds as many rows
/// as the two together.
pub proof fn filter_splits<A>(
    rows: Seq<A>,
    want: spec_fn(A) -> bool,
    one: spec_fn(A) -> bool,
    other: spec_fn(A) -> bool,
)
    requires
        forall|i: int|
            0 <= i < rows.len() ==> (#[trigger] want(rows[i])) == (one(rows[i]) || other(rows[i])),
        forall|i: int| 0 <= i < rows.len() ==> !(#[trigger] one(rows[i]) && other(rows[i])),
    ensures
        rows.filter(want).len() == rows.filter(one).len() + rows.filter(other).len(),
    decreases rows.len(),
{
    if rows.len() == 0 {
        filter_of_none(want);
        filter_of_none(one);
        filter_of_none(other);
    } else {
        let front = rows.drop_last();
        let last = rows.last();
        assert(rows =~= front.push(last));
        front.lemma_filter_push(last, want);
        front.lemma_filter_push(last, one);
        front.lemma_filter_push(last, other);
        assert(want(rows[rows.len() - 1]) == (one(rows[rows.len() - 1]) || other(
            rows[rows.len() - 1],
        )));
        assert(!(one(rows[rows.len() - 1]) && other(rows[rows.len() - 1])));
        assert forall|i: int| 0 <= i < front.len() implies (#[trigger] want(front[i])) == (one(
            front[i],
        ) || other(front[i])) by {
            assert(front[i] == rows[i]);
        }
        assert forall|i: int| 0 <= i < front.len() implies !(#[trigger] one(front[i]) && other(
            front[i],
        )) by {
            assert(front[i] == rows[i]);
        }
        filter_splits(front, want, one, other);
    }
}

/// A selection and what it leaves out hold together as many rows as there
/// are.
pub proof fn filter_lengths<A>(rows: Seq<A>, keep: spec_fn(A) -> bool, leave: spec_fn(A) -> bool)
    requires
        forall|i: int| 0 <= i < rows.len() ==> (#[trigger] leave(rows[i])) == !keep(rows[i]),
    ensures
        rows.filter(keep).len() + rows.filter(leave).len() == rows.len(),
    decreases rows.len(),
{
    if rows.len() == 0 {
        filter_of_none(keep);
        filter_of_none(leave);
    } else {
        let front = rows.drop_last();
        let last = rows.last();
        assert(rows =~= front.push(last));
        front.lemma_filter_push(last, keep);
        front.lemma_filter_push(last, leave);
        assert(leave(rows[rows.len() - 1]) == !keep(rows[rows.len() - 1]));
        assert forall|i: int| 0 <= i < front.len() implies (#[trigger] leave(front[i])) == !keep(
            front[i],
        ) by {
            assert(front[i] == rows[i]);
        }
        filter_lengths(front, keep, leave);
    }
}

} // verus!
