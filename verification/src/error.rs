//! The ways in which an operation on a tag can fail.

use vstd::prelude::*;
use vstd::string::*;
use crate::text::{decimal, u32_to_string};

verus! {

/// Why an operation on a tag failed.
#[derive(Debug, Clone, PartialEq, Eq)]
pub enum TagError {
    /// The extension of the file names no kind of tag.
    UnsupportedFileType,
    /// The tag of the file is malformed; the text says what the reader found.
    Parse(String),
    /// A picture index outside the list, and not the one position behind it
    /// where a new picture may be added.
    IndexOutOfRange,
    /// The extension of an image file that the tag cannot hold.
    UnsupportedImageType,
    /// A stored picture with a MIME type that is not one of the known ones.
    UnknownMime,
    /// A stored picture without a MIME type.
    NoMime,
    /// A stored picture whose type code is none of the defined ones.
    UndefinedPictureType(u8),
    /// The bytes of an image whose header cannot be read.
    InvalidImage,
    /// Writing the tag failed; the text says why.
    Serialize(String),
    /// There is no current file.
    NoOpenFile,
}

impl TagError {
    /// Errors raised by a stored picture that cannot be shown as it is.
    pub open spec fn is_picture_metadata(self) -> bool {
        self is UnknownMime || self is NoMime || self is UndefinedPictureType
    }

    /// The text of the message for this error.
    pub open spec fn message_text(self) -> Seq<char> {
        match self {
            TagError::UnsupportedFileType => "Unsupported file type"@,
            TagError::Parse(why) => "Error reading tag: "@ + why@,
            TagError::IndexOutOfRange => "Index out of range"@,
            TagError::UnsupportedImageType => "Unsupported image type"@,
            TagError::UnknownMime => "Unknown picture type"@,
            TagError::NoMime => "No picture type"@,
            TagError::UndefinedPictureType(code) => "Undefined type "@ + decimal(code as nat),
            TagError::InvalidImage => "Error reading picture info"@,
            TagError::Serialize(why) => "Error saving file: "@ + why@,
            TagError::NoOpenFile => "Error getting open file"@,
        }
    }

    /// A message for the user.
    pub fn message(&self) -> (out: String)
        ensures
            out@ == self.message_text(),
    {
        match self {
            TagError::UnsupportedFileType => String::from_str("Unsupported file type"),
            TagError::Parse(why) => String::from_str("Error reading tag: ").concat(why.as_str()),
            TagError::IndexOutOfRange => String::from_str("Index out of range"),
            TagError::UnsupportedImageType => String::from_str("Unsupported image type"),
            TagError::UnknownMime => String::from_str("Unknown picture type"),
            TagError::NoMime => String::from_str("No picture type"),
            TagError::UndefinedPictureType(code) => {
                let number = u32_to_string(*code as u32);
                String::from_str("Undefined type ").concat(number.as_str())
            },
            TagError::InvalidImage => String::from_str("Error reading picture info"),
            TagError::Serialize(why) => String::from_str("Error saving file: ").concat(why.as_str()),
            TagError::NoOpenFile => String::from_str("Error getting open file"),
        }
    }
}

} // verus!
