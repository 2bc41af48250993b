//! The image formats that can be attached to a tag, the file extensions they
//! are known by and the MIME types they are stored under.

use vstd::prelude::*;
use vstd::string::*;

verus! {

/// The format of an image that a tag can hold.
#[derive(Clone, Copy, Debug, PartialEq, Eq, Structural)]
pub enum ImageFormat {
    Jpeg,
    Png,
    Bmp,
}

/// The format that a file extension stands for: `jpg` and `jpeg`, `png`,
/// `bmp`. Any other extension stands for none.
pub open spec fn format_of_extension(ext: Seq<char>) -> Option<ImageFormat> {
    if ext == "jpg"@ || ext == "jpeg"@ {
        Some(ImageFormat::Jpeg)
    } else if ext == "png"@ {
        Some(ImageFormat::Png)
    } else if ext == "bmp"@ {
        Some(ImageFormat::Bmp)
    } else {
        None
    }
}

/// The MIME type of a format.
pub open spec fn mime_text(format: ImageFormat) -> Seq<char> {
    match format {
        ImageFormat::Jpeg => "image/jpeg"@,
        ImageFormat::Png => "image/png"@,
        ImageFormat::Bmp => "image/bmp"@,
    }
}

/// True where two texts are the same.
pub fn same_text(a: &str, b: &str) -> (same: bool)
    ensures
        same == (a@ == b@),
{
    let x = String::from_str(a);
    let y = String::from_str(b);
    x == y
}

/// The format of an image file, by the extension of its name.
pub fn image_format(ext: &str) -> (format: Option<ImageFormat>)
    ensures
        format == format_of_extension(ext@),
{
    if same_text(ext, "jpg") || same_text(ext, "jpeg") {
        Some(ImageFormat::Jpeg)
    } else if same_text(ext, "png") {
        Some(ImageFormat::Png)
    } else if same_text(ext, "bmp") {
        Some(ImageFormat::Bmp)
    } else {
        None
    }
}

/// The MIME type under which an image of this format is stored.
pub fn mime_string(format: ImageFormat) -> (mime: String)
    ensures
        mime@ == mime_text(format),
{
    match format {
        ImageFormat::Jpeg => String::from_str("image/jpeg"),
        ImageFormat::Png => String::from_str("image/png"),
        ImageFormat::Bmp => String::from_str("image/bmp"),
    }
}

} // verus!
