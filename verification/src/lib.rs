//! A query filter that gates which entities a query returns by an
//! arbitrary boolean predicate over a read-only view of some components,
//! without adding those components to the query's returned item shape.
//!
//! [`predicate::PredicateFilter`] is the contract a predicate author
//! implements; [`predicate::Predicate`] is the zero-sized filter adapter
//! parameterized by such an implementation. [`engine`] holds the
//! value-level model of the host engine's per-row iteration against which
//! the adapter's selection behaviour is specified, and [`laws`] proves the
//! laws that behaviour obeys.

pub mod compose;
pub mod engine;
pub mod examples;
pub mod laws;
pub mod predicate;
pub mod prelude;
pub mod query_filter_impl;
pub mod view;
pub mod world_query_impl;
