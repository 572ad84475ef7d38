//! Experience-point accounting for tabletop role-playing character sheets.
//!
//! From the traits of a character the library computes how many adventure
//! points were spent: item by item, by category and in total, for comparison
//! with the total that was recorded.
//!
//! - [`character`] holds the character and the rules of accounting;
//! - [`report`] holds what a report shows besides the ledger itself;
//! - [`text`], [`fields`] and [`lexical`] read, write and order texts;
//! - [`sorting`] and [`sequences`] sort, select and sum.

pub mod character;
pub mod fields;
pub mod lexical;
pub mod report;
pub mod sequences;
pub mod sorting;
pub mod text;
