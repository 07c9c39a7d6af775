//! Cookie and tracker analysis of a fetched web page, with a heuristic
//! privacy score.

pub mod text;
pub mod cookie;
pub mod tracker;
pub mod page;
pub mod score;
pub mod report;
