use vstd::prelude::*;

verus! {

/// The set of component reads a query term declares to the engine's
/// conflict validator, modelled as the sequence of component identifiers
/// in declaration order.
pub struct Access {
    pub reads: Vec<u64>,
}

impl Access {
    pub fn new() -> (access: Access)
        ensures
            access.reads@ == Seq::<u64>::empty(),
    {
        Access { reads: Vec::new() }
    }
}

/// Returns whether `available` holds the component identifier `id`.
pub fn contains_id(available: &Vec<u64>, id: u64) -> (found: bool)
    ensures
        found == available@.contains(id),
{
    let mut i: usize = 0;
    while i < available.len()
        invariant
            i <= available.len(),
            forall|j: int| 0 <= j < i ==> available@[j] != id,
        decreases available.len() - i,
    {
        if available[i] == id {
            assert(available@[i as int] == id);
            return true;
        }
        i = i + 1;
    }
    false
}

/// A read-only projection over the components of a stored record: the
/// engine's data-view protocol, reduced to its value-level content.
///
/// `Source` is the full component record of a row; `Item` is what the view
/// produces for that row. A view also declares, once per query, which
/// component identifiers it reads (`spec_reads`) so that the engine's
/// conflict validator sees every read, and whether it can take the dense
/// table iteration path (`spec_is_dense`).
pub trait DataView {
    type Source;

    type Item;

    /// The component identifiers this view reads, in declaration order.
    spec fn spec_reads() -> Seq<u64>;

    /// Whether the view supports the dense table iteration path.
    spec fn spec_is_dense() -> bool;

    /// The item this view produces for one stored record.
    spec fn spec_fetch(src: Self::Source) -> Self::Item;

    /// Produces the view's item for one stored record.
    fn fetch(src: &Self::Source) -> (item: Self::Item)
        ensures
            item == Self::spec_fetch(*src),
    ;

    /// Declares this view's component reads into the shared access
    /// declaration, exactly `spec_reads()`: never more, never less.
    fn update_component_access(access: &mut Access)
        ensures
            final(access).reads@ == old(access).reads@ + Self::spec_reads(),
    ;

    fn is_dense() -> (dense: bool)
        ensures
            dense == Self::spec_is_dense(),
    ;

    /// Returns whether every component this view reads is present in the
    /// component set `available` of a candidate archetype.
    fn matches_component_set(available: &Vec<u64>) -> (is_match: bool)
        ensures
            is_match == (forall|j: int|
                0 <= j < Self::spec_reads().len() ==> available@.contains(
                    #[trigger] Self::spec_reads()[j],
                )),
    ;
}

/// A query term that narrows the entity set without contributing to the
/// returned item shape: the engine's filter protocol.
///
/// Every filter is also a [`DataView`], so the engine's generic fetch
/// machinery can host it; its own contribution is the per-row check
/// `filter_fetch`.
pub trait QueryFilter: DataView {
    /// Whether the filter's outcome is decided by archetype membership
    /// alone; a value-dependent filter must answer `false` so the engine
    /// evaluates it per row.
    spec fn spec_is_archetypal() -> bool;

    /// Whether the row holding `src` passes the filter.
    spec fn spec_filter_fetch(src: Self::Source) -> bool;

    /// The per-row check: returns whether the row holding `src` passes.
    fn filter_fetch(src: &Self::Source) -> (keep: bool)
        ensures
            keep == Self::spec_filter_fetch(*src),
    ;

    fn is_archetypal() -> (archetypal: bool)
        ensures
            archetypal == Self::spec_is_archetypal(),
    ;
}

} // verus!
