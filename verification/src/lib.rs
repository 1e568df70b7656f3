//! Decoder for Tomb Raider 4 era "TRC" binary level files.
//!
//! A level file is one byte stream read front to back: a version tag, image
//! counts, three zlib-compressed image blocks, one zlib-compressed block
//! holding the game world (`LevelData`), and a trailing table of raw audio
//! samples. Every collection's length is determined by data already consumed
//! before it; decoding either produces a fully populated [`model::Level`] or
//! fails with a fatal [`error::DecodeError`].

pub mod bytes;
pub mod codec;
pub mod error;
pub mod level;
pub mod model;
pub mod records;
pub mod varsize;

pub use error::DecodeError;
pub use level::read_level;
pub use model::Level;
