//! The list of pictures of a tag as every backend shows it: which picture is
//! shown by default, how a picture type and a MIME type are named.

use vstd::prelude::*;
use vstd::string::*;
use crate::error::TagError;
use crate::format::same_text;
use crate::text::{decimal, u32_to_string};

verus! {

/// A picture of a tag, as far as all three kinds of tag store it.
pub struct PictureView {
    /// The MIME type: as stored, or the one of the stored format.
    pub mime_type: Seq<char>,
    /// The code of the picture type; none where the tag stores no types.
    pub picture_type: Option<u8>,
    /// The description; none where the picture has none.
    pub description: Option<Seq<char>>,
    pub data: Seq<u8>,
}

/// The code of the picture type "front cover".
pub open spec fn front_cover() -> u8 {
    3
}

/// The code of the picture type "other", which a new picture gets.
pub open spec fn other_type() -> u8 {
    0
}

/// True of a picture whose type is "front cover".
pub open spec fn is_front(picture: PictureView) -> bool {
    picture.picture_type == Some(front_cover())
}

/// Position of the first front cover in a list, or its length where it
/// holds none.
pub open spec fn first_front(pictures: Seq<PictureView>) -> int
    decreases pictures.len(),
{
    if pictures.len() == 0 {
        0
    } else if is_front(pictures[0]) {
        0
    } else {
        1 + first_front(pictures.drop_first())
    }
}

/// The picture shown where the caller names none: the first front cover, or
/// where there is none, the first picture. An empty list shows nothing.
pub open spec fn default_picture(pictures: Seq<PictureView>) -> Option<int> {
    if pictures.len() == 0 {
        None
    } else if first_front(pictures) < pictures.len() {
        Some(first_front(pictures))
    } else {
        Some(0)
    }
}

/// The picture that a request selects: the one at the index given, or the
/// default one; none where that position is outside the list.
pub open spec fn selected_picture(pictures: Seq<PictureView>, index: Option<usize>) -> Option<int> {
    match index {
        Some(i) => if i < pictures.len() {
            Some(i as int)
        } else {
            None
        },
        None => default_picture(pictures),
    }
}

/// The first front cover lies in the list or at its end; nothing before it
/// is a front cover, and where it lies in the list it is one.
pub proof fn lemma_first_front_bounds(pictures: Seq<PictureView>)
    ensures
        0 <= first_front(pictures) <= pictures.len(),
        forall|i: int| 0 <= i < first_front(pictures) ==> !is_front(pictures[i]),
        first_front(pictures) < pictures.len() ==> is_front(pictures[first_front(pictures)]),
    decreases pictures.len(),
{
    if pictures.len() != 0 && !is_front(pictures[0]) {
        let rest = pictures.drop_first();
        lemma_first_front_bounds(rest);
        assert forall|i: int| 0 <= i < first_front(pictures) implies !is_front(pictures[i]) by {
            if i > 0 {
                assert(pictures[i] == rest[i - 1]);
            }
        }
    }
}

/// The first front cover is at `k` where `k` holds one and nothing before
/// it does; it is the length where the list holds none.
pub proof fn lemma_first_front_is(pictures: Seq<PictureView>, k: int)
    requires
        0 <= k <= pictures.len(),
        forall|i: int| 0 <= i < k ==> !is_front(pictures[i]),
        k < pictures.len() ==> is_front(pictures[k]),
    ensures
        first_front(pictures) == k,
{
    lemma_first_front_bounds(pictures);
}

/// The picture shown by default is one of the list.
pub proof fn lemma_default_in_range(pictures: Seq<PictureView>)
    ensures
        match default_picture(pictures) {
            Some(k) => 0 <= k < pictures.len(),
            None => pictures.len() == 0,
        },
{
    lemma_first_front_bounds(pictures);
}

/// When the only front cover of a list is removed, the first of the
/// remaining pictures is shown by default, and nothing where none remains.
pub proof fn lemma_default_after_front_removed(pictures: Seq<PictureView>, index: int)
    requires
        0 <= index < pictures.len(),
        is_front(pictures[index]),
        forall|j: int| 0 <= j < pictures.len() && j != index ==> !is_front(pictures[j]),
    ensures
        default_picture(pictures.remove(index)) == if pictures.len() == 1 {
            None::<int>
        } else {
            Some(0int)
        },
{
    let rest = pictures.remove(index);
    assert forall|i: int| 0 <= i < rest.len() implies !is_front(rest[i]) by {}
    lemma_first_front_is(rest, rest.len() as int);
}

/// A list without picture types has no front cover: its first picture is
/// shown by default.
pub proof fn lemma_default_without_types(pictures: Seq<PictureView>)
    requires
        forall|i: int| 0 <= i < pictures.len() ==> (#[trigger] pictures[i]).picture_type is None,
    ensures
        default_picture(pictures) == if pictures.len() == 0 {
            None::<int>
        } else {
            Some(0int)
        },
{
    lemma_first_front_is(pictures, pictures.len() as int);
}

/// The name of a picture type, by its code. The codes above 20 have none.
pub open spec fn picture_type_name(code: u8) -> Option<Seq<char>> {
    if code == 0 {
        Some("Other"@)
    } else if code == 1 {
        Some("Icon"@)
    } else if code == 2 {
        Some("Other icon"@)
    } else if code == 3 {
        Some("Front cover"@)
    } else if code == 4 {
        Some("Back cover"@)
    } else if code == 5 {
        Some("Leaflet"@)
    } else if code == 6 {
        Some("Media"@)
    } else if code == 7 {
        Some("Lead artist"@)
    } else if code == 8 {
        Some("Artist"@)
    } else if code == 9 {
        Some("Conductor"@)
    } else if code == 10 {
        Some("Band"@)
    } else if code == 11 {
        Some("Composer"@)
    } else if code == 12 {
        Some("Lyricist"@)
    } else if code == 13 {
        Some("Recording location"@)
    } else if code == 14 {
        Some("During recording"@)
    } else if code == 15 {
        Some("During performance"@)
    } else if code == 16 {
        Some("Screen capture"@)
    } else if code == 17 {
        Some("Bright fish"@)
    } else if code == 18 {
        Some("Illustration"@)
    } else if code == 19 {
        Some("Band logo"@)
    } else if code == 20 {
        Some("Publisher logo"@)
    } else {
        None
    }
}

/// The name of a picture type, by its code.
pub fn picture_type_label(code: u8) -> (name: Option<String>)
    ensures
        crate::text::opt_view(name) == picture_type_name(code),
{
    if code == 0 {
        Some(String::from_str("Other"))
    } else if code == 1 {
        Some(String::from_str("Icon"))
    } else if code == 2 {
        Some(String::from_str("Other icon"))
    } else if code == 3 {
        Some(String::from_str("Front cover"))
    } else if code == 4 {
        Some(String::from_str("Back cover"))
    } else if code == 5 {
        Some(String::from_str("Leaflet"))
    } else if code == 6 {
        Some(String::from_str("Media"))
    } else if code == 7 {
        Some(String::from_str("Lead artist"))
    } else if code == 8 {
        Some(String::from_str("Artist"))
    } else if code == 9 {
        Some(String::from_str("Conductor"))
    } else if code == 10 {
        Some(String::from_str("Band"))
    } else if code == 11 {
        Some(String::from_str("Composer"))
    } else if code == 12 {
        Some(String::from_str("Lyricist"))
    } else if code == 13 {
        Some(String::from_str("Recording location"))
    } else if code == 14 {
        Some(String::from_str("During recording"))
    } else if code == 15 {
        Some(String::from_str("During performance"))
    } else if code == 16 {
        Some(String::from_str("Screen capture"))
    } else if code == 17 {
        Some(String::from_str("Bright fish"))
    } else if code == 18 {
        Some(String::from_str("Illustration"))
    } else if code == 19 {
        Some(String::from_str("Band logo"))
    } else if code == 20 {
        Some(String::from_str("Publisher logo"))
    } else {
        None
    }
}

/// How a picture type is named where every code has a name: a code
/// without a name of its own is named by its number.
pub open spec fn picture_type_text(code: u8) -> Seq<char> {
    match picture_type_name(code) {
        Some(name) => name,
        None => "Undefined type "@ + decimal(code as nat),
    }
}

/// The name of a picture type where every code has a name.
pub fn picture_type_string(code: u8) -> (name: String)
    ensures
        name@ == picture_type_text(code),
{
    match picture_type_label(code) {
        Some(name) => name,
        None => {
            let number = u32_to_string(code as u32);
            String::from_str("Undefined type ").concat(number.as_str())
        },
    }
}

/// True of the MIME types that a stored picture may have.
pub open spec fn known_mime(mime: Seq<char>) -> bool {
    ||| mime == "image/png"@
    ||| mime == "image/jpeg"@
    ||| mime == "image/tiff"@
    ||| mime == "image/bmp"@
    ||| mime == "image/gif"@
}

/// What is wrong with the MIME type of a stored picture, if anything: it
/// is missing, or it is none of the known ones.
pub open spec fn mime_fault(mime: Seq<char>) -> Option<TagError> {
    if known_mime(mime) {
        None
    } else if mime.len() == 0 {
        Some(TagError::NoMime)
    } else {
        Some(TagError::UnknownMime)
    }
}

/// Checks the MIME type of a stored picture.
pub fn check_mime(mime: &str) -> (fault: Option<TagError>)
    ensures
        fault == mime_fault(mime@),
{
    if same_text(mime, "image/png") || same_text(mime, "image/jpeg") || same_text(
        mime,
        "image/tiff",
    ) || same_text(mime, "image/bmp") || same_text(mime, "image/gif") {
        None
    } else if mime.unicode_len() == 0 {
        Some(TagError::NoMime)
    } else {
        Some(TagError::UnknownMime)
    }
}

} // verus!
