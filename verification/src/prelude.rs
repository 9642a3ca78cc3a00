pub use crate::predicate::Predicate;
pub use crate::predicate::PredicateFilter;
