//! An in-memory movie store: a map from string identifier to movie record,
//! offering fetch-by-id and insert-or-replace, shared by concurrent callers
//! through a reader/writer lock.

pub mod laws;
pub mod shared;
pub mod store;
