use vstd::prelude::*;
use crate::predicate::{Predicate, PredicateFilter};
use crate::view::{Access, DataView};

verus! {

/// The adapter as a data view: every operation is a pure pass-through to
/// the predicate's declared view. The adapter adds no component
/// requirements and no state of its own; in particular it declares exactly
/// the reads of the inner view, never more, never less.
impl<P: PredicateFilter> DataView for Predicate<P> {
    type Source = <P::Data as DataView>::Source;

    type Item = <P::Data as DataView>::Item;

    open spec fn spec_reads() -> Seq<u64> {
        <P::Data as DataView>::spec_reads()
    }

    open spec fn spec_is_dense() -> bool {
        <P::Data as DataView>::spec_is_dense()
    }

    open spec fn spec_fetch(src: Self::Source) -> Self::Item {
        <P::Data as DataView>::spec_fetch(src)
    }

    fn fetch(src: &Self::Source) -> Self::Item {
        <P::Data as DataView>::fetch(src)
    }

    fn update_component_access(access: &mut Access) {
        <P::Data as DataView>::update_component_access(access)
    }

    fn is_dense() -> bool {
        <P::Data as DataView>::is_dense()
    }

    fn matches_component_set(available: &Vec<u64>) -> bool {
        let is_match = <P::Data as DataView>::matches_component_set(available);
        proof {
            assert(Self::spec_reads() == <P::Data as DataView>::spec_reads());
        }
        is_match
    }
}

} // verus!
