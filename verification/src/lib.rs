//! One field model over three kinds of audio tag: ID3v2 frames, MP4 atoms and
//! Vorbis comments. The tags themselves are read and written by the `id3`,
//! `mp4ameta` and `lofty` crates; what is selected from them, how a list of
//! pictures is edited and what a caller is shown are decided here.
//!
//! - `id3_tag`, `mp4_tag`, `vorbis_tag`: what is read from and written to
//!   the tags of the three crates, each call with its contract.
//! - `frames`: the tag of one file and its flat list of text frames.
//! - `fields`: the snapshot of the canonical fields.
//! - `artwork`, `id3_pictures`, `image`: the list of pictures, the picture
//!   shown by default, and the edits of the list.
//! - `format`, `jpeg`: image formats and the header of a JPEG image.
//! - `cmd`, `files`: the open files, and what opening, closing and saving do
//!   to them.
//! - `text`, `error`: texts, numbers and errors.

pub mod artwork;
pub mod cmd;
pub mod error;
pub mod fields;
pub mod files;
pub mod format;
pub mod frames;
pub mod id3_pictures;
pub mod id3_tag;
pub mod image;
pub mod jpeg;
pub mod mp4_tag;
pub mod text;
pub mod vorbis_tag;
