//! Display formatting and version-control helpers.

pub mod format;
pub mod git;
