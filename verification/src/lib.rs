//! A reading engine for long texts: it takes what was read of a plain-text
//! file or of a zipped book, reflows it into display lines of bounded length,
//! finds its chapters, and keeps a reading cursor that moves by line and by
//! chapter.
//!
//! Every function here is verified against its contract. What the engine has
//! from other crates (the decoder of text encodings, the reading of the pages
//! of a book) it calls through a few declarations whose contracts are taken
//! on trust; each says so where it stands.

pub mod blocks;
pub mod chapter;
pub mod constants;
pub mod container;
pub mod encoding;
pub mod error;
pub mod format;
pub mod heading;
pub mod laws;
pub mod loader;
pub mod paginate;
pub mod plain;
pub mod reader;
pub mod shortcut;
pub mod state;
pub mod store;
pub mod text;
pub mod update;
