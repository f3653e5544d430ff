//! A batch judge for candidate programs: fixtures pair an input text with the
//! lines a candidate is expected to print, a line-oriented comparator decides
//! whether a run matched, and an evaluation folds the runs of one candidate
//! into a verdict.

pub mod compare;
pub mod fixtures;
pub mod evaluate;
