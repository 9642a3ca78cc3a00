use vstd::prelude::*;
use core::marker::PhantomData;
use crate::view::DataView;

verus! {

/// The contract a predicate author implements once per predicate.
///
/// An implementation names one read-only [`DataView`] (`Data`) and gives a
/// pure boolean function over one item of that view. The function may be
/// invoked once or more than once per entity per iteration pass, in
/// unspecified order, so it must not depend on call count or ordering;
/// `spec_filter_predicate` pins its result down as a function of the item
/// alone.
pub trait PredicateFilter {
    /// The set of components to run the predicate over.
    type Data: DataView;

    /// What the predicate decides for one item of the declared view.
    spec fn spec_filter_predicate(item: <Self::Data as DataView>::Item) -> bool;

    /// The predicate that entities have to pass to be selected by a query
    /// using the [`Predicate`] filter.
    fn filter_predicate(item: &<Self::Data as DataView>::Item) -> (keep: bool)
        ensures
            keep == Self::spec_filter_predicate(*item),
    ;
}

/// Filter that selects entities satisfying a predicate.
///
/// This can be used wherever a query accepts a filter term if entities are
/// required to pass some predicate but the caller does not care about the
/// component values themselves and does not want to extend the query's data
/// section. It is a zero-sized marker: as a [`DataView`] it delegates every
/// operation to the predicate's declared view, and as a
/// [`QueryFilter`](crate::view::QueryFilter) it overrides only the terminal
/// per-row check, fetching the declared view's item and applying the
/// predicate to it.
pub struct Predicate<P>(PhantomData<P>);

} // verus!
