//! Descriptive statistics over observation sequences: the rules that decide
//! whether a sequence is long enough for a statistic, and which divisor a
//! standard deviation uses.
pub mod policy;
pub mod statistic;
