use vstd::prelude::*;
use crate::view::{contains_id, Access, DataView};
use crate::predicate::PredicateFilter;

verus! {

pub const COMPONENT_A: u64 = 0;

pub const COMPONENT_B: u64 = 1;

pub const COMPONENT_FISH_NAME: u64 = 0;

pub const COMPONENT_FISH_SIZE: u64 = 1;

/// A record holding the two numeric components `A` and `B`.
pub struct AB {
    pub a: u64,
    pub b: u64,
}

/// A record holding a fish's name and size components.
pub struct Fish {
    pub name: String,
    pub size: u64,
}

/// The read-only view over component `A` of an [`AB`] record.
pub struct ReadA;

/// The read-only view over component `B` of an [`AB`] record.
pub struct ReadB;

/// The read-only view over the name component of a [`Fish`] record.
pub struct ReadFishName;

/// The read-only view over the size component of a [`Fish`] record.
pub struct ReadFishSize;

impl DataView for ReadA {
    type Source = AB;

    type Item = u64;

    open spec fn spec_reads() -> Seq<u64> {
        seq![COMPONENT_A]
    }

    open spec fn spec_is_dense() -> bool {
        true
    }

    open spec fn spec_fetch(src: AB) -> u64 {
        src.a
    }

    fn fetch(src: &AB) -> u64 {
        src.a
    }

    fn update_component_access(access: &mut Access) {
        let ghost orig: Seq<u64> = access.reads@;
        access.reads.push(COMPONENT_A);
        proof {
            assert(access.reads@ =~= orig + seq![COMPONENT_A]);
        }
    }

    fn is_dense() -> bool {
        true
    }

    fn matches_component_set(available: &Vec<u64>) -> (is_match: bool) {
        let found = contains_id(available, COMPONENT_A);
        proof {
            if found {
                assert forall|j: int| 0 <= j < Self::spec_reads().len() implies available@.contains(
                    #[trigger] Self::spec_reads()[j],
                ) by {
                    assert(Self::spec_reads()[j] == COMPONENT_A);
                }
            } else {
                assert(!available@.contains(Self::spec_reads()[0]));
            }
        }
        found
    }
}

impl DataView for ReadB {
    type Source = AB;

    type Item = u64;

    open spec fn spec_reads() -> Seq<u64> {
        seq![COMPONENT_B]
    }

    open spec fn spec_is_dense() -> bool {
        true
    }

    open spec fn spec_fetch(src: AB) -> u64 {
        src.b
    }

    fn fetch(src: &AB) -> u64 {
        src.b
    }

    fn update_component_access(access: &mut Access) {
        let ghost orig: Seq<u64> = access.reads@;
        access.reads.push(COMPONENT_B);
        proof {
            assert(access.reads@ =~= orig + seq![COMPONENT_B]);
        }
    }

    fn is_dense() -> bool {
        true
    }

    fn matches_component_set(available: &Vec<u64>) -> (is_match: bool) {
        let found = contains_id(available, COMPONENT_B);
        proof {
            if found {
                assert forall|j: int| 0 <= j < Self::spec_reads().len() implies available@.contains(
                    #[trigger] Self::spec_reads()[j],
                ) by {
                    assert(Self::spec_reads()[j] == COMPONENT_B);
                }
            } else {
                assert(!available@.contains(Self::spec_reads()[0]));
            }
        }
        found
    }
}

impl DataView for ReadFishName {
    type Source = Fish;

    type Item = String;

    open spec fn spec_reads() -> Seq<u64> {
        seq![COMPONENT_FISH_NAME]
    }

    open spec fn spec_is_dense() -> bool {
        true
    }

    open spec fn spec_fetch(src: Fish) -> String {
        src.name
    }

    fn fetch(src: &Fish) -> String {
        src.name.clone()
    }

    fn update_component_access(access: &mut Access) {
        let ghost orig: Seq<u64> = access.reads@;
        access.reads.push(COMPONENT_FISH_NAME);
        proof {
            assert(access.reads@ =~= orig + seq![COMPONENT_FISH_NAME]);
        }
    }

    fn is_dense() -> bool {
        true
    }

    fn matches_component_set(available: &Vec<u64>) -> (is_match: bool) {
        let found = contains_id(available, COMPONENT_FISH_NAME);
        proof {
            if found {
                assert forall|j: int| 0 <= j < Self::spec_reads().len() implies available@.contains(
                    #[trigger] Self::spec_reads()[j],
                ) by {
                    assert(Self::spec_reads()[j] == COMPONENT_FISH_NAME);
                }
            } else {
                assert(!available@.contains(Self::spec_reads()[0]));
            }
        }
        found
    }
}

impl DataView for ReadFishSize {
    type Source = Fish;

    type Item = u64;

    open spec fn spec_reads() -> Seq<u64> {
        seq![COMPONENT_FISH_SIZE]
    }

    open spec fn spec_is_dense() -> bool {
        true
    }

    open spec fn spec_fetch(src: Fish) -> u64 {
        src.size
    }

    fn fetch(src: &Fish) -> u64 {
        src.size
    }

    fn update_component_access(access: &mut Access) {
        let ghost orig: Seq<u64> = access.reads@;
        access.reads.push(COMPONENT_FISH_SIZE);
        proof {
            assert(access.reads@ =~= orig + seq![COMPONENT_FISH_SIZE]);
        }
    }

    fn is_dense() -> bool {
        true
    }

    fn matches_component_set(available: &Vec<u64>) -> (is_match: bool) {
        let found = contains_id(available, COMPONENT_FISH_SIZE);
        proof {
            if found {
                assert forall|j: int| 0 <= j < Self::spec_reads().len() implies available@.contains(
                    #[trigger] Self::spec_reads()[j],
                ) by {
                    assert(Self::spec_reads()[j] == COMPONENT_FISH_SIZE);
                }
            } else {
                assert(!available@.contains(Self::spec_reads()[0]));
            }
        }
        found
    }
}

/// Selects rows whose component `B` is not zero.
pub struct BNonZero;

impl PredicateFilter for BNonZero {
    type Data = ReadB;

    open spec fn spec_filter_predicate(item: u64) -> bool {
        item != 0
    }

    fn filter_predicate(item: &u64) -> bool {
        *item != 0
    }
}

/// Selects rows whose component `A` is odd.
pub struct AOdd;

impl PredicateFilter for AOdd {
    type Data = ReadA;

    open spec fn spec_filter_predicate(item: u64) -> bool {
        item % 2 == 1
    }

    fn filter_predicate(item: &u64) -> bool {
        *item % 2 == 1
    }
}

/// Accepts every row, whatever its component `B` holds.
pub struct AcceptAll;

impl PredicateFilter for AcceptAll {
    type Data = ReadB;

    open spec fn spec_filter_predicate(item: u64) -> bool {
        true
    }

    fn filter_predicate(item: &u64) -> bool {
        true
    }
}

/// Rejects every row, whatever its component `B` holds.
pub struct RejectAll;

impl PredicateFilter for RejectAll {
    type Data = ReadB;

    open spec fn spec_filter_predicate(item: u64) -> bool {
        false
    }

    fn filter_predicate(item: &u64) -> bool {
        false
    }
}

/// Selects fish whose size component is above five.
pub struct BigFish;

impl PredicateFilter for BigFish {
    type Data = ReadFishSize;

    open spec fn spec_filter_predicate(item: u64) -> bool {
        item > 5
    }

    fn filter_predicate(item: &u64) -> bool {
        *item > 5
    }
}

} // verus!
