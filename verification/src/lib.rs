//! A minimal blog-post store: a table of posts with auto-assigned ids,
//! offering fetch-by-id, fetch-all, count and insert, each with a full
//! functional contract over a sequence model of the table.

pub mod laws;
pub mod post;
pub mod store;
