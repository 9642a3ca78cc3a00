use vstd::prelude::*;
use crate::predicate::{Predicate, PredicateFilter};
use crate::view::{DataView, QueryFilter};

verus! {

/// The adapter as a filter: the one behaviour that diverges from pure
/// delegation. The terminal per-row check performs exactly the fetch the
/// declared view would perform, applies the predicate to the fetched item
/// and yields the boolean; the item itself never surfaces to the caller.
///
/// The outcome depends on run-time field values, not on archetype
/// membership alone, so the filter is not archetypal and the engine must
/// evaluate it per row.
impl<P: PredicateFilter> QueryFilter for Predicate<P> {
    open spec fn spec_is_archetypal() -> bool {
        false
    }

    open spec fn spec_filter_fetch(src: Self::Source) -> bool {
        P::spec_filter_predicate(<P::Data as DataView>::spec_fetch(src))
    }

    fn filter_fetch(src: &Self::Source) -> bool {
        let item = <Self as DataView>::fetch(src);
        P::filter_predicate(&item)
    }

    fn is_archetypal() -> bool {
        false
    }
}

} // verus!
