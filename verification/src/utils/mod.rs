//! Path rules and the comparison of filesystem snapshots.

pub mod confirm;
pub mod diff_tools;
pub mod filter;
pub mod path;
pub mod path_compare;
pub mod tree;
