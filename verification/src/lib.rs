//! A small library of verified programming exercises.
//!
//! The centrepiece is [`blog_post`], a revision workflow that tracks a
//! post through `Draft -> PendingReview -> Published` and gates what a
//! reader may see on that state. The remaining modules are compact,
//! self-contained exercises — text search, input validation, geometry,
//! and the like — each carrying its full contract.

pub mod articles;
pub mod blog_post;
pub mod cache;
pub mod coins;
pub mod counter;
pub mod exercises;
pub mod generics;
pub mod geometry;
pub mod guessing;
pub mod messages;
pub mod numbers;
pub mod records;
pub mod restaurant;
pub mod search;
pub mod text;
