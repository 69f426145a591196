//! Decisions of a bot that reads an account's notes from a Misskey instance,
//! keeps a local snapshot of them, and posts generated text back.
//!
//! Everything here works on plain values. Reading files, talking to the
//! instance and asking the clock are left to the caller, who hands in what
//! was found and carries out what these functions decide.

pub mod cache;
pub mod post;
pub mod fetch;
pub mod retrieve;
pub mod splice;
pub mod sanitize;
pub mod endpoint;
pub mod publish;
pub mod generate;

pub use crate::cache::{judge, CacheVerdict, PathStat};
pub use crate::fetch::{Fetcher, PageRequest};
pub use crate::generate::Model;
pub use crate::post::{CreatedNote, Post, User};
pub use crate::publish::{create_post, CwConfig, PostingConfig, Publication};
pub use crate::retrieve::{get_posts, Retrieval, Step};
pub use crate::sanitize::{sanitize_mentions, PatternRejected};
