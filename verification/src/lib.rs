//! Persistence core of a desktop text editor: detects the encoding of raw
//! file bytes (UTF-8 with or without a byte-order mark, or Shift_JIS),
//! normalizes them into text plus metadata, and re-encodes text for an
//! atomic temp-file-then-rename commit to disk.

pub mod codec;
pub mod fs_model;
pub mod sjis;
pub mod slot;
pub mod text;
pub mod writer;
