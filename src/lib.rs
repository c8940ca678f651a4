//! Gathers the text files of a directory tree into one annotated text.
//!
//! The library holds the decisions: which walked entries are taken, how each
//! taken file is framed by comment markers of its language, how the pieces are
//! joined and trimmed, and where the result is sent. Walking the tree, reading
//! files and delivering the result are done by the caller, which hands the
//! library plain values.

mod text;
mod style;
mod filter;
mod aggregate;
mod sink;
pub mod laws;

pub use text::{contains_text, same_text, split_text, trim_text};
pub use style::{determine_comment_style, CommentStyle};
pub use filter::{parse_file_types, RunConfig, WalkEntry};
pub use aggregate::{add_file, aggregate_files, Aggregate, AggregateError, Report, WalkedFile};
pub use sink::{select_sink, Sink, DEFAULT_OUTPUT};
