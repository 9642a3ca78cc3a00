use bevy_predicate_filter::engine::{query, query_filtered, query_filtered_entities, Row, World};
use bevy_predicate_filter::examples::{
    AOdd, AcceptAll, BNonZero, BigFish, Fish, ReadA, ReadFishName, RejectAll, AB,
    COMPONENT_FISH_SIZE,
};
use bevy_predicate_filter::prelude::Predicate;
use bevy_predicate_filter::view::{Access, DataView, QueryFilter};

fn fish_world() -> World<Fish> {
    World {
        rows: vec![
            Row { entity: 1, record: Fish { name: String::from("Albert"), size: 3 } },
            Row { entity: 2, record: Fish { name: String::from("Freddy"), size: 8 } },
            Row { entity: 3, record: Fish { name: String::from("Ronny"), size: 10 } },
        ],
    }
}

fn ab_world() -> World<AB> {
    World {
        rows: vec![
            Row { entity: 1, record: AB { a: 1, b: 0 } },
            Row { entity: 2, record: AB { a: 2, b: 1 } },
            Row { entity: 3, record: AB { a: 3, b: 2 } },
        ],
    }
}

#[test]
fn query_predicate_basic() {
    let world = fish_world();
    let values = query_filtered::<Fish, ReadFishName, Predicate<BigFish>>(&world);
    assert_eq!(values, vec![String::from("Freddy"), String::from("Ronny")]);
}

#[test]
fn scenario_nonzero_b_selects_two_of_three() {
    let world = ab_world();
    let values = query_filtered::<AB, ReadA, Predicate<BNonZero>>(&world);
    assert_eq!(values, vec![2, 3]);
}

#[test]
fn scenario_reject_all_yields_empty() {
    let world = ab_world();
    let values = query_filtered::<AB, ReadA, Predicate<RejectAll>>(&world);
    assert_eq!(values, Vec::<u64>::new());
}

#[test]
fn scenario_accept_all_matches_unfiltered() {
    let world = ab_world();
    let filtered = query_filtered::<AB, ReadA, Predicate<AcceptAll>>(&world);
    let unfiltered = query::<AB, ReadA>(&world);
    assert_eq!(filtered, unfiltered);
    assert_eq!(filtered, vec![1, 2, 3]);
}

#[test]
fn scenario_pair_of_predicates_is_logical_and() {
    let world = ab_world();
    let both = query_filtered::<AB, ReadA, (Predicate<AOdd>, Predicate<BNonZero>)>(&world);
    let odd_only = query_filtered::<AB, ReadA, Predicate<AOdd>>(&world);
    let nonzero_only = query_filtered::<AB, ReadA, Predicate<BNonZero>>(&world);
    assert_eq!(odd_only, vec![1, 3]);
    assert_eq!(nonzero_only, vec![2, 3]);
    assert_eq!(both, vec![3]);
}

#[test]
fn equivalence_with_manual_restriction() {
    let world = fish_world();
    let filtered = query_filtered::<Fish, ReadFishName, Predicate<BigFish>>(&world);
    let manual: Vec<String> = world
        .rows
        .iter()
        .filter(|row| row.record.size > 5)
        .map(|row| row.record.name.clone())
        .collect();
    assert_eq!(filtered, manual);
}

#[test]
fn shape_invariance_items_unchanged() {
    let world = ab_world();
    let unfiltered = query::<AB, ReadA>(&world);
    let filtered = query_filtered::<AB, ReadA, Predicate<BNonZero>>(&world);
    let kept: Vec<u64> = world
        .rows
        .iter()
        .zip(unfiltered.iter())
        .filter(|(row, _)| row.record.b != 0)
        .map(|(_, item)| *item)
        .collect();
    assert_eq!(filtered, kept);
}

#[test]
fn predicate_swap_changes_only_the_selection() {
    let world = ab_world();
    let unfiltered = query::<AB, ReadA>(&world);
    let with_odd = query_filtered::<AB, ReadA, Predicate<AOdd>>(&world);
    let with_nonzero = query_filtered::<AB, ReadA, Predicate<BNonZero>>(&world);
    let odd_mask: Vec<u64> = world
        .rows
        .iter()
        .zip(unfiltered.iter())
        .filter(|(row, _)| row.record.a % 2 == 1)
        .map(|(_, item)| *item)
        .collect();
    let nonzero_mask: Vec<u64> = world
        .rows
        .iter()
        .zip(unfiltered.iter())
        .filter(|(row, _)| row.record.b != 0)
        .map(|(_, item)| *item)
        .collect();
    assert_eq!(with_odd, odd_mask);
    assert_eq!(with_nonzero, nonzero_mask);
}

#[test]
fn adapter_is_a_zero_sized_marker() {
    assert_eq!(core::mem::size_of::<Predicate<BigFish>>(), 0);
    assert_eq!(core::mem::size_of::<Predicate<BNonZero>>(), 0);
}

#[test]
fn selected_entities_are_the_passing_ones() {
    let world = ab_world();
    let entities = query_filtered_entities::<AB, Predicate<BNonZero>>(&world);
    assert_eq!(entities, vec![2, 3]);
}

#[test]
fn adapter_declares_exactly_the_inner_reads() {
    let mut adapter_access = Access::new();
    <Predicate<BigFish> as DataView>::update_component_access(&mut adapter_access);
    let mut inner_access = Access::new();
    <bevy_predicate_filter::examples::ReadFishSize as DataView>::update_component_access(
        &mut inner_access,
    );
    assert_eq!(adapter_access.reads, vec![COMPONENT_FISH_SIZE]);
    assert_eq!(adapter_access.reads, inner_access.reads);
}

#[test]
fn filter_fetch_applies_the_predicate() {
    let small = Fish { name: String::from("Albert"), size: 3 };
    let big = Fish { name: String::from("Ronny"), size: 10 };
    assert!(!<Predicate<BigFish> as QueryFilter>::filter_fetch(&small));
    assert!(<Predicate<BigFish> as QueryFilter>::filter_fetch(&big));
}

#[test]
fn predicate_filter_is_never_archetypal() {
    assert!(!<Predicate<BigFish> as QueryFilter>::is_archetypal());
    assert!(!<Predicate<BNonZero> as QueryFilter>::is_archetypal());
}

#[test]
fn adapter_delegates_density_and_matching() {
    assert!(<Predicate<BigFish> as DataView>::is_dense());
    let with_size = vec![0u64, 1u64];
    let without_size = vec![0u64];
    assert!(<Predicate<BigFish> as DataView>::matches_component_set(&with_size));
    assert!(!<Predicate<BigFish> as DataView>::matches_component_set(&without_size));
}
