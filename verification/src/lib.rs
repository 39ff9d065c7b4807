//! The command-line core of `qwiki`, a program that prints parts of Wikipedia
//! articles: what an argument list asks for, and what is to be done about it.
//!
//! An argument list is split into flags and parameters by [`get_flags`] and
//! [`get_params`]. A short flag argument spells one flag per character, so
//! that `-se` is the flags `s` and `e`; a long one, such as `--summary`, is the
//! one flag that follows its two dashes. The first argument that is no flag
//! stands in the place of the program's name and is dropped; a title and a
//! section name may follow.
//!
//! The library calls no network. A run is a [`Session`], which the caller takes
//! on step by step: each step hands out an [`Action`], to call the encyclopedia
//! with a [`Request`], to print a text, or to stop, and the caller brings the
//! [`Reply`] of a call to the next step. Flags are served in the order in which
//! they were written, and the first error ends the run.
//!
//! A link to an article is made from its page id, as
//! `http://en.wikipedia.org/?curid=` followed by the id.

pub mod args;
pub mod dispatch;
pub mod error;
pub mod protocol;
pub mod render;
pub mod session;
pub mod text;

pub use args::{get_flags, get_params};
pub use dispatch::{
    categories, find_section, link, matchout, pageid, parse_flags, references, resume,
    search_section, search_summary, table_of_contents, too_few_arguments, Operation,
};
pub use error::QueryError;
pub use protocol::{Pending, Reply, Request, Step};
pub use render::{help, version};
pub use session::{run, Action, Session};
