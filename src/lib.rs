//! Maintenance of local Git working copies: locating them beneath a root,
//! driving the fixed sequence of maintenance steps on each, and phrasing the
//! stash warning that ends each repository's turn.

mod paint;

pub mod count;
pub mod locator;
pub mod plan;
pub mod runner;
pub mod warning;
