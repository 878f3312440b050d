//! Synthetic one-dimensional signal generation and descriptive statistics.
//!
//! A signal is an ordered sequence of IEEE 754 double-precision samples,
//! carried everywhere as raw bit patterns (`u64`), so that every step of the
//! computation can be pinned down exactly in contracts: each arithmetic
//! operation is named by an uninterpreted spec function, and each statistic's
//! result is stated as a composition of those names.

pub mod ieee;
pub mod signal;
pub mod stats;
