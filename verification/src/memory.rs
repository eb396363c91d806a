//! Long-term memory ("knots"): kinds and states, keywords, cues and excerpts.
pub mod extract;
pub mod inject;
pub mod merge;
pub mod owner;
pub mod search;
pub mod types;
