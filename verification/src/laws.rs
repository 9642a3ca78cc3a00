use vstd::prelude::*;
use crate::engine::{spec_items, spec_query_filtered, spec_selected, Row};
use crate::predicate::{Predicate, PredicateFilter};
use crate::view::{DataView, QueryFilter};

verus! {

/// `items` thinned by the per-position flags `keep`: the item at each
/// position is kept exactly when the flag at the same position is set,
/// and kept items are left unchanged, in order.
pub open spec fn spec_mask<T>(items: Seq<T>, keep: Seq<bool>) -> Seq<T>
    recommends
        items.len() == keep.len(),
    decreases items.len(),
{
    if items.len() == 0 {
        Seq::empty()
    } else {
        let rest = spec_mask(items.drop_last(), keep.drop_last());
        if keep.last() {
            rest.push(items.last())
        } else {
            rest
        }
    }
}

/// The filter `F`'s per-row verdicts over `rows`, one flag per row, in
/// iteration order.
pub open spec fn spec_flags<S, F: QueryFilter<Source = S>>(rows: Seq<Row<S>>) -> Seq<bool>
    decreases rows.len(),
{
    if rows.len() == 0 {
        Seq::empty()
    } else {
        spec_flags::<S, F>(rows.drop_last()).push(F::spec_filter_fetch(rows.last().record))
    }
}

/// Appending a row appends exactly that row's item to a query's result.
pub proof fn lemma_items_push<S, Q: DataView<Source = S>>(rows: Seq<Row<S>>, row: Row<S>)
    ensures
        spec_items::<S, Q>(rows.push(row)) == spec_items::<S, Q>(rows).push(
            Q::spec_fetch(row.record),
        ),
{
    assert(rows.push(row).drop_last() =~= rows);
    assert(rows.push(row).last() == row);
}

/// Whether `P`'s predicate holds of the item its declared view fetches
/// from the record of `row`.
pub open spec fn spec_passes_row<S, P: PredicateFilter>(row: Row<S>) -> bool where P::Data: DataView<
    Source = S,
> {
    P::spec_filter_predicate(<P::Data as DataView>::spec_fetch(row.record))
}

/// [`spec_passes_row`] as a value, for use with `Seq::filter`.
pub open spec fn spec_passes<S, P: PredicateFilter>() -> spec_fn(Row<S>) -> bool where P::Data: DataView<
    Source = S,
> {
    |row: Row<S>| spec_passes_row::<S, P>(row)
}

/// Equivalence law: a query for item shape `Q` filtered by
/// `Predicate<P>` returns the result of the unfiltered query for `Q`
/// restricted to exactly the rows whose declared-view item satisfies
/// `P`'s predicate, in the engine's iteration order.
pub proof fn lemma_filtered_query_equivalence<
    S,
    Q: DataView<Source = S>,
    P: PredicateFilter,
>(rows: Seq<Row<S>>) where P::Data: DataView<Source = S>
    ensures
        spec_selected::<S, Predicate<P>>(rows) == rows.filter(spec_passes::<S, P>()),
        spec_query_filtered::<S, Q, Predicate<P>>(rows) == spec_items::<S, Q>(
            rows.filter(spec_passes::<S, P>()),
        ),
    decreases rows.len(),
{
    reveal(Seq::filter);
    if rows.len() != 0 {
        lemma_filtered_query_equivalence::<S, Q, P>(rows.drop_last());
        assert(spec_passes::<S, P>()(rows.last()) == spec_passes_row::<S, P>(rows.last()));
    }
}

/// Shape invariance: the filtered query's result is the unfiltered
/// query's result thinned by the filter's per-row verdicts. The item
/// values returned for rows that pass are identical to those the same
/// query returns without the filter; the filter only removes positions.
pub proof fn lemma_shape_invariance<S, Q: DataView<Source = S>, F: QueryFilter<Source = S>>(
    rows: Seq<Row<S>>,
)
    ensures
        spec_query_filtered::<S, Q, F>(rows) == spec_mask(
            spec_items::<S, Q>(rows),
            spec_flags::<S, F>(rows),
        ),
    decreases rows.len(),
{
    if rows.len() != 0 {
        let rest = rows.drop_last();
        let last = rows.last();
        lemma_shape_invariance::<S, Q, F>(rest);
        assert(spec_items::<S, Q>(rows).drop_last() =~= spec_items::<S, Q>(rest));
        assert(spec_flags::<S, F>(rows).drop_last() =~= spec_flags::<S, F>(rest));
        if F::spec_filter_fetch(last.record) {
            lemma_items_push::<S, Q>(spec_selected::<S, F>(rest), last);
        }
    }
}

/// Idempotence of authoring: swapping the predicate `Pa` for `Pb` in a
/// query's filter changes only which rows are selected — both results
/// are the one unfiltered result `spec_items::<S, Q>` thinned by the
/// respective predicate's per-row verdicts. The query's return type does
/// not mention the predicate at all, so the swap cannot change it; that
/// half of the law is enforced by the signatures themselves.
pub proof fn lemma_predicate_swap<
    S,
    Q: DataView<Source = S>,
    Pa: PredicateFilter,
    Pb: PredicateFilter,
>(rows: Seq<Row<S>>) where Pa::Data: DataView<Source = S>, Pb::Data: DataView<Source = S>
    ensures
        spec_query_filtered::<S, Q, Predicate<Pa>>(rows) == spec_mask(
            spec_items::<S, Q>(rows),
            spec_flags::<S, Predicate<Pa>>(rows),
        ),
        spec_query_filtered::<S, Q, Predicate<Pb>>(rows) == spec_mask(
            spec_items::<S, Q>(rows),
            spec_flags::<S, Predicate<Pb>>(rows),
        ),
{
    lemma_shape_invariance::<S, Q, Predicate<Pa>>(rows);
    lemma_shape_invariance::<S, Q, Predicate<Pb>>(rows);
}

/// A predicate that always returns false selects no row: the filtered
/// query's result is empty, whatever the world holds.
pub proof fn lemma_always_false_empty<S, Q: DataView<Source = S>, P: PredicateFilter>(
    rows: Seq<Row<S>>,
) where P::Data: DataView<Source = S>
    requires
        forall|item: <P::Data as DataView>::Item| !P::spec_filter_predicate(item),
    ensures
        spec_selected::<S, Predicate<P>>(rows) == Seq::<Row<S>>::empty(),
        spec_query_filtered::<S, Q, Predicate<P>>(rows) == Seq::<Q::Item>::empty(),
    decreases rows.len(),
{
    if rows.len() != 0 {
        lemma_always_false_empty::<S, Q, P>(rows.drop_last());
    }
}

/// A predicate that always returns true selects every row: the filtered
/// query's result is identical to the unfiltered query's result.
pub proof fn lemma_always_true_unfiltered<S, Q: DataView<Source = S>, P: PredicateFilter>(
    rows: Seq<Row<S>>,
) where P::Data: DataView<Source = S>
    requires
        forall|item: <P::Data as DataView>::Item| P::spec_filter_predicate(item),
    ensures
        spec_selected::<S, Predicate<P>>(rows) == rows,
        spec_query_filtered::<S, Q, Predicate<P>>(rows) == spec_items::<S, Q>(rows),
    decreases rows.len(),
{
    if rows.len() != 0 {
        lemma_always_true_unfiltered::<S, Q, P>(rows.drop_last());
        assert(rows.drop_last().push(rows.last()) =~= rows);
    }
}

/// Identity delegation: as a data view the adapter is indistinguishable
/// from its predicate's declared view — the same declared reads, never
/// more, never less, the same density, and the same item for every
/// record — and as a filter it is never archetypal: its verdict is the
/// predicate applied to the declared view's item, so it must be
/// evaluated per row.
pub proof fn lemma_adapter_pure_delegation<S, P: PredicateFilter>() where P::Data: DataView<
    Source = S,
>
    ensures
        <Predicate<P> as DataView>::spec_reads() == <P::Data as DataView>::spec_reads(),
        <Predicate<P> as DataView>::spec_is_dense() == <P::Data as DataView>::spec_is_dense(),
        forall|src: S| #[trigger] <Predicate<P> as DataView>::spec_fetch(src) == <P::Data as DataView>::spec_fetch(
            src,
        ),
        !<Predicate<P> as QueryFilter>::spec_is_archetypal(),
        forall|src: S| #[trigger] <Predicate<P> as QueryFilter>::spec_filter_fetch(src)
            == P::spec_filter_predicate(<P::Data as DataView>::spec_fetch(src)),
{
}

/// Two filter terms composed in one query behave as the logical AND of
/// their individual selections: the pair passes a row exactly when both
/// terms pass it, and selecting by the pair equals selecting by the
/// first term and then selecting by the second.
pub proof fn lemma_pair_filter_intersection<
    S,
    Q: DataView<Source = S>,
    Fa: QueryFilter<Source = S>,
    Fb: QueryFilter<Source = S>,
>(rows: Seq<Row<S>>)
    ensures
        forall|src: S| #[trigger] <(Fa, Fb) as QueryFilter>::spec_filter_fetch(src) == (
        Fa::spec_filter_fetch(src) && Fb::spec_filter_fetch(src)),
        spec_selected::<S, (Fa, Fb)>(rows) == spec_selected::<S, Fb>(
            spec_selected::<S, Fa>(rows),
        ),
        spec_query_filtered::<S, Q, (Fa, Fb)>(rows) == spec_items::<S, Q>(
            spec_selected::<S, Fb>(spec_selected::<S, Fa>(rows)),
        ),
    decreases rows.len(),
{
    if rows.len() != 0 {
        let rest = rows.drop_last();
        let last = rows.last();
        lemma_pair_filter_intersection::<S, Q, Fa, Fb>(rest);
        let sel_a_rest = spec_selected::<S, Fa>(rest);
        if Fa::spec_filter_fetch(last.record) {
            assert(sel_a_rest.push(last).drop_last() =~= sel_a_rest);
            assert(sel_a_rest.push(last).last() == last);
        }
    }
}

} // verus!
