//! Line-oriented text search: the lines of a text that contain a query,
//! compared exactly or with letter case folded away.
//!
//! [`search`] and [`search_case_insensitive`] are the two searches,
//! [`filter_lines`] chooses between them, and [`run`] does so as a
//! [`Config`] says. What a search returns is defined in [`model`] over
//! sequences of characters; [`laws`] proves what follows from that
//! definition for every query and every text.

pub mod config;
pub mod filter;
pub mod laws;
pub mod model;
pub mod text;

pub use config::{Argument, Config, ConfigError};
pub use filter::{filter_lines, keep_if_found, run, search, search_case_insensitive};
pub use text::fold_case;
