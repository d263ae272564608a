//! A verified line-oriented text search library.
//!
//! The pipeline is: resolve the invocation arguments into a [`config::SearchConfig`],
//! split the loaded text into a [`content::Content`], scan it with [`search::search`],
//! and format the matches with the functions in [`report`]. Every step is a pure,
//! verified function; reading the input and writing the output are left to the caller.
//!
//! The crate also ships a small collection of verified demonstration functions
//! (ownership transfer, borrowing, slices, structs, enums) in the remaining modules.

pub mod basics;
pub mod borrow;
pub mod coins;
pub mod config;
pub mod content;
pub mod owner;
pub mod rect;
pub mod report;
pub mod search;
pub mod text;
pub mod user;
pub mod words;
