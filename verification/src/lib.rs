//! Keeps an external presence indicator in sync with the currently playing
//! track of a music daemon: track metadata handling, a three-tier artwork
//! resolution pipeline with a memoizing cache, and the sync loop's state
//! machine. Network and tag-file reads happen behind a small set of trusted
//! wrappers; everything that decides is verified.

pub mod cache;
pub mod picture;
pub mod presence;
pub mod resolver;
pub mod sync;
pub mod text;
pub mod track;
pub mod urls;
