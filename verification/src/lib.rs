//! A vocabulary drill: a list of foreign words with their translations and a
//! mastery level each, and the quiz that raises and lowers those levels
//! until every word is mastered.
//!
//! - [`word`]: a word and its model.
//! - [`text`]: trimming, splitting, joining and comparing text.
//! - [`store`]: the ordered word list and its edits.
//! - [`import`]: reading a word list from plain text.
//! - [`grade`]: judging an answer.
//! - [`random`]: drawing the next word.
//! - [`state`]: the state of the quiz as mathematical values, step by step.
//! - [`quiz`]: the quiz itself.
//! - [`laws`]: what holds of all of it, proved.

pub mod grade;
pub mod import;
pub mod laws;
pub mod quiz;
pub mod random;
pub mod state;
pub mod store;
pub mod text;
pub mod word;
