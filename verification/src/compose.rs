use vstd::prelude::*;
use crate::view::{Access, DataView, QueryFilter};

verus! {

/// A pair of filter terms in one query, as the host engine composes them:
/// the pair reads the union of the two declared read sets, fetches both
/// items, and its per-row check is the conjunction of the two checks.
impl<F1: QueryFilter, F2: QueryFilter<Source = F1::Source>> DataView for (F1, F2) {
    type Source = F1::Source;

    type Item = (F1::Item, F2::Item);

    open spec fn spec_reads() -> Seq<u64> {
        F1::spec_reads() + F2::spec_reads()
    }

    open spec fn spec_is_dense() -> bool {
        F1::spec_is_dense() && F2::spec_is_dense()
    }

    open spec fn spec_fetch(src: Self::Source) -> Self::Item {
        (F1::spec_fetch(src), F2::spec_fetch(src))
    }

    fn fetch(src: &Self::Source) -> Self::Item {
        (F1::fetch(src), F2::fetch(src))
    }

    fn update_component_access(access: &mut Access) {
        let ghost orig: Seq<u64> = access.reads@;
        F1::update_component_access(access);
        F2::update_component_access(access);
        proof {
            assert(access.reads@ =~= orig + Self::spec_reads());
        }
    }

    fn is_dense() -> bool {
        F1::is_dense() && F2::is_dense()
    }

    fn matches_component_set(available: &Vec<u64>) -> (is_match: bool) {
        let m1 = F1::matches_component_set(available);
        let m2 = F2::matches_component_set(available);
        proof {
            let reads = Self::spec_reads();
            if m1 && m2 {
                assert forall|j: int| 0 <= j < reads.len() implies available@.contains(
                    #[trigger] reads[j],
                ) by {
                    if j < F1::spec_reads().len() {
                        assert(reads[j] == F1::spec_reads()[j]);
                    } else {
                        assert(reads[j] == F2::spec_reads()[j - F1::spec_reads().len()]);
                    }
                }
            }
            if !m1 {
                let j = choose|j: int|
                    0 <= j < F1::spec_reads().len() && !available@.contains(
                        #[trigger] F1::spec_reads()[j],
                    );
                assert(reads[j] == F1::spec_reads()[j]);
            }
            if !m2 {
                let j = choose|j: int|
                    0 <= j < F2::spec_reads().len() && !available@.contains(
                        #[trigger] F2::spec_reads()[j],
                    );
                assert(reads[j + F1::spec_reads().len()] == F2::spec_reads()[j]);
            }
        }
        m1 && m2
    }
}

/// The pair passes a row exactly when both of its terms pass it, and it is
/// archetypal only when both terms are.
impl<F1: QueryFilter, F2: QueryFilter<Source = F1::Source>> QueryFilter for (F1, F2) {
    open spec fn spec_is_archetypal() -> bool {
        F1::spec_is_archetypal() && F2::spec_is_archetypal()
    }

    open spec fn spec_filter_fetch(src: Self::Source) -> bool {
        F1::spec_filter_fetch(src) && F2::spec_filter_fetch(src)
    }

    fn filter_fetch(src: &Self::Source) -> bool {
        F1::filter_fetch(src) && F2::filter_fetch(src)
    }

    fn is_archetypal() -> bool {
        F1::is_archetypal() && F2::is_archetypal()
    }
}

} // verus!
