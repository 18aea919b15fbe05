//! An exercise-progress tracker: evaluates each exercise of a curriculum to a
//! status (not started, failing to compile, failing its tests, or done),
//! remembers statuses per file modification time, detects fresh edits, and
//! decides what a watching session shows.

use vstd::prelude::*;

pub mod cache;
pub mod exercise;
pub mod monitor;
pub mod paths;
pub mod session;
pub mod text;
