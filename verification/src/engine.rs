use vstd::prelude::*;
use crate::view::{DataView, QueryFilter};

verus! {

/// One stored row of the host engine: an opaque entity identifier together
/// with the full component record of that row.
pub struct Row<S> {
    pub entity: u64,
    pub record: S,
}

/// The value-level model of the host engine's storage: the rows it
/// iterates, in its natural iteration order. Fetch-state bookkeeping
/// (binding an archetype or table, shrinking item lifetimes) carries no
/// value-level content and is not modelled; a view's item is a function of
/// the row record alone.
pub struct World<S> {
    pub rows: Vec<Row<S>>,
}

/// The rows of `rows` that pass the filter `F`, in order.
pub open spec fn spec_selected<S, F: QueryFilter<Source = S>>(rows: Seq<Row<S>>) -> Seq<Row<S>>
    decreases rows.len(),
{
    if rows.len() == 0 {
        rows
    } else {
        let rest = spec_selected::<S, F>(rows.drop_last());
        if F::spec_filter_fetch(rows.last().record) {
            rest.push(rows.last())
        } else {
            rest
        }
    }
}

/// The items the view `Q` produces for `rows`, one per row, in order:
/// what an unfiltered query for `Q` returns.
pub open spec fn spec_items<S, Q: DataView<Source = S>>(rows: Seq<Row<S>>) -> Seq<Q::Item>
    decreases rows.len(),
{
    if rows.len() == 0 {
        Seq::empty()
    } else {
        spec_items::<S, Q>(rows.drop_last()).push(Q::spec_fetch(rows.last().record))
    }
}

/// What a query for item view `Q` filtered by `F` returns: the items of
/// exactly the rows that pass `F`, in the engine's iteration order.
pub open spec fn spec_query_filtered<S, Q: DataView<Source = S>, F: QueryFilter<Source = S>>(
    rows: Seq<Row<S>>,
) -> Seq<Q::Item> {
    spec_items::<S, Q>(spec_selected::<S, F>(rows))
}

/// Runs an unfiltered query: produces `Q`'s item for every row of the
/// world, in iteration order.
pub fn query<S, Q: DataView<Source = S>>(world: &World<S>) -> (items: Vec<Q::Item>)
    ensures
        items@ == spec_items::<S, Q>(world.rows@),
{
    let mut items: Vec<Q::Item> = Vec::new();
    let mut i: usize = 0;
    while i < world.rows.len()
        invariant
            i <= world.rows.len(),
            items@ == spec_items::<S, Q>(world.rows@.take(i as int)),
        decreases world.rows.len() - i,
    {
        let row = &world.rows[i];
        items.push(Q::fetch(&row.record));
        proof {
            let taken = world.rows@.take(i as int + 1);
            assert(taken.drop_last() =~= world.rows@.take(i as int));
            assert(taken.last() == world.rows@[i as int]);
        }
        i = i + 1;
    }
    proof {
        assert(world.rows@.take(world.rows@.len() as int) =~= world.rows@);
    }
    items
}

/// Runs a query for item view `Q` filtered by `F`: for each row, in
/// iteration order, evaluates the filter's per-row check and produces
/// `Q`'s item only for the rows that pass. Rows failing are excluded
/// before the query's item view is materialized.
pub fn query_filtered<S, Q: DataView<Source = S>, F: QueryFilter<Source = S>>(
    world: &World<S>,
) -> (items: Vec<Q::Item>)
    ensures
        items@ == spec_query_filtered::<S, Q, F>(world.rows@),
{
    let mut items: Vec<Q::Item> = Vec::new();
    let mut i: usize = 0;
    while i < world.rows.len()
        invariant
            i <= world.rows.len(),
            items@ == spec_items::<S, Q>(spec_selected::<S, F>(world.rows@.take(i as int))),
        decreases world.rows.len() - i,
    {
        let row = &world.rows[i];
        if F::filter_fetch(&row.record) {
            items.push(Q::fetch(&row.record));
        }
        proof {
            let taken = world.rows@.take(i as int + 1);
            assert(taken.drop_last() =~= world.rows@.take(i as int));
            assert(taken.last() == world.rows@[i as int]);
            let sel = spec_selected::<S, F>(world.rows@.take(i as int));
            if F::spec_filter_fetch(world.rows@[i as int].record) {
                assert(sel.push(world.rows@[i as int]).drop_last() =~= sel);
            }
        }
        i = i + 1;
    }
    proof {
        assert(world.rows@.take(world.rows@.len() as int) =~= world.rows@);
    }
    items
}

/// Runs a filtered query for the selected entities themselves: the entity
/// identifiers of exactly the rows that pass `F`, in iteration order.
pub fn query_filtered_entities<S, F: QueryFilter<Source = S>>(world: &World<S>) -> (entities: Vec<u64>)
    ensures
        entities@ == spec_selected::<S, F>(world.rows@).map_values(|row: Row<S>| row.entity),
{
    let mut entities: Vec<u64> = Vec::new();
    let mut i: usize = 0;
    while i < world.rows.len()
        invariant
            i <= world.rows.len(),
            entities@ == spec_selected::<S, F>(world.rows@.take(i as int)).map_values(
                |row: Row<S>| row.entity,
            ),
        decreases world.rows.len() - i,
    {
        let row = &world.rows[i];
        if F::filter_fetch(&row.record) {
            entities.push(row.entity);
        }
        proof {
            let taken = world.rows@.take(i as int + 1);
            assert(taken.drop_last() =~= world.rows@.take(i as int));
            assert(taken.last() == world.rows@[i as int]);
            let sel = spec_selected::<S, F>(world.rows@.take(i as int));
            if F::spec_filter_fetch(world.rows@[i as int].record) {
                assert(sel.push(world.rows@[i as int]).map_values(|row: Row<S>| row.entity)
                    =~= sel.map_values(|row: Row<S>| row.entity).push(world.rows@[i as int].entity));
            }
        }
        i = i + 1;
    }
    proof {
        assert(world.rows@.take(world.rows@.len() as int) =~= world.rows@);
    }
    entities
}

} // verus!
