//! Opening, closing and saving files: which kind of tag a file has, what
//! becomes of a file that could not be read, and how the list of open files
//! changes. Reading and writing the files themselves is left to the caller.

use vstd::prelude::*;
use vstd::string::*;
use crate::cmd::{App, File};
use crate::error::TagError;
use crate::format::same_text;
use crate::frames::Metadata;
use crate::id3_tag::{id3_empty_tag, id3_frames};
use crate::mp4_tag::mp4_entries;
use crate::vorbis_tag::{vorbis_empty_tag, vorbis_items, vorbis_pictures};

verus! {

/// The three kinds of tag.
#[derive(Clone, Copy, Debug, PartialEq, Eq, Structural)]
pub enum Backend {
    Id3,
    Mp4,
    Vorbis,
}

/// The kind of tag that files with this extension have: ID3 for `mp3` and
/// `aiff`; MP4 for `m4a`, `mp4`, `m4p`, `m4b`, `m4r` and `m4v`; Vorbis
/// comments for `ogg`, `oga`, `opus`, `spx` and `flac`. Other extensions
/// have none: the content of a file is never looked at to find its kind.
pub open spec fn backend_of_extension(ext: Seq<char>) -> Option<Backend> {
    if ext == "mp3"@ || ext == "aiff"@ {
        Some(Backend::Id3)
    } else if ext == "m4a"@ || ext == "mp4"@ || ext == "m4p"@ || ext == "m4b"@ || ext == "m4r"@
        || ext == "m4v"@ {
        Some(Backend::Mp4)
    } else if ext == "ogg"@ || ext == "oga"@ || ext == "opus"@ || ext == "spx"@ || ext == "flac"@ {
        Some(Backend::Vorbis)
    } else {
        None
    }
}

/// The kind of tag of a file, by the extension of its name.
pub fn backend_for(ext: &str) -> (backend: Result<Backend, TagError>)
    ensures
        backend == match backend_of_extension(ext@) {
            Some(b) => Ok::<Backend, TagError>(b),
            None => Err::<Backend, TagError>(TagError::UnsupportedFileType),
        },
{
    if same_text(ext, "mp3") || same_text(ext, "aiff") {
        Ok(Backend::Id3)
    } else if same_text(ext, "m4a") || same_text(ext, "mp4") || same_text(ext, "m4p") || same_text(
        ext,
        "m4b",
    ) || same_text(ext, "m4r") || same_text(ext, "m4v") {
        Ok(Backend::Mp4)
    } else if same_text(ext, "ogg") || same_text(ext, "oga") || same_text(ext, "opus") || same_text(
        ext,
        "spx",
    ) || same_text(ext, "flac") {
        Ok(Backend::Vorbis)
    } else {
        Err(TagError::UnsupportedFileType)
    }
}

impl Metadata {
    /// The kind of this tag.
    pub open spec fn backend(self) -> Backend {
        match self {
            Metadata::Id3(_) => Backend::Id3,
            Metadata::Mp4(_) => Backend::Mp4,
            Metadata::VorbisComments(_) => Backend::Vorbis,
        }
    }

    /// The kind of this tag.
    pub fn kind(&self) -> (backend: Backend)
        ensures
            backend == self.backend(),
    {
        match self {
            Metadata::Id3(_) => Backend::Id3,
            Metadata::Mp4(_) => Backend::Mp4,
            Metadata::VorbisComments(_) => Backend::Vorbis,
        }
    }

    /// True of a tag that holds nothing.
    pub open spec fn is_empty(self) -> bool {
        match self {
            Metadata::Id3(tag) => id3_frames(tag).len() == 0,
            Metadata::Mp4(tag) => mp4_entries(tag).len() == 0,
            Metadata::VorbisComments(tag) => vorbis_items(tag).len() == 0 && vorbis_pictures(
                tag,
            ).len() == 0,
        }
    }
}

/// What reading the tag of a file gave.
pub enum TagRead {
    /// The tag of the file.
    Tag(Metadata),
    /// The file has no tag.
    NoTag,
    /// The tag of the file is malformed; the text says how.
    Malformed(String),
}

/// What is said of an MP4 file without tag.
pub open spec fn no_tag_text() -> Seq<char> {
    "No tag found"@
}

/// What is said of a tag that is not of the kind of its file.
pub open spec fn other_kind_text() -> Seq<char> {
    "Tag of another kind"@
}

/// The tag with which a file is opened; `backend` is the kind of tag that
/// the extension of the file names. A tag of that kind is taken as it was
/// read, a tag of another kind is refused: the extension alone decides the
/// kind of an open file. A file without tag is opened with an empty tag of
/// its kind, but for MP4 files, where a missing tag is an error like a
/// malformed one.
pub fn get_metadata(backend: Backend, read: TagRead) -> (metadata: Result<Metadata, TagError>)
    ensures
        match read {
            TagRead::Tag(m) => if m.backend() == backend {
                metadata == Ok::<Metadata, TagError>(m)
            } else {
                metadata matches Err(TagError::Parse(why)) && why@ == other_kind_text()
            },
            TagRead::NoTag => match backend {
                Backend::Mp4 => metadata matches Err(TagError::Parse(why)) && why@ == no_tag_text(),
                _ => metadata matches Ok(m) && m.is_empty(),
            },
            TagRead::Malformed(why) => metadata == Err::<Metadata, TagError>(TagError::Parse(why)),
        },
        metadata matches Ok(m) ==> m.backend() == backend,
{
    match read {
        TagRead::Tag(m) => if m.kind() == backend {
            Ok(m)
        } else {
            Err(TagError::Parse(String::from_str("Tag of another kind")))
        },
        TagRead::NoTag => match backend {
            Backend::Id3 => Ok(Metadata::Id3(id3_empty_tag())),
            Backend::Mp4 => Err(TagError::Parse(String::from_str("No tag found"))),
            Backend::Vorbis => Ok(Metadata::VorbisComments(vorbis_empty_tag())),
        },
        TagRead::Malformed(why) => Err(TagError::Parse(why)),
    }
}

/// A file that is to be opened: its path, and its tag or why it has none.
pub struct Opened {
    pub path: String,
    pub metadata: Result<Metadata, TagError>,
}

/// True where one of the files has this path.
pub open spec fn is_open(files: Seq<File>, path: Seq<char>) -> bool {
    exists|k: int| 0 <= k < files.len() && (#[trigger] files[k]).path@ == path
}

/// The list of open files after the given ones have been opened in turn,
/// and the error that stopped it, if one did. A file whose path is open
/// already is passed over. The first other file without tag stops the
/// opening: the files before it stay open, those behind it are not opened.
pub open spec fn admitted(files: Seq<File>, opened: Seq<Opened>) -> (Seq<File>, Option<TagError>)
    decreases opened.len(),
{
    if opened.len() == 0 {
        (files, None)
    } else if is_open(files, opened[0].path@) {
        admitted(files, opened.drop_first())
    } else {
        match opened[0].metadata {
            Ok(m) => admitted(
                files.push(File { path: opened[0].path, dirty: false, metadata: m }),
                opened.drop_first(),
            ),
            Err(e) => (files, Some(e)),
        }
    }
}

impl App {
    /// True where a file with this path is open.
    pub fn has_path(&self, path: &str) -> (yes: bool)
        ensures
            yes == is_open(self.files@, path@),
    {
        let mut i: usize = 0;
        while i < self.files.len()
            invariant
                i <= self.files@.len(),
                forall|k: int| 0 <= k < i ==> (#[trigger] self.files@[k]).path@ != path@,
            decreases self.files@.len() - i,
        {
            if same_text(self.files[i].path.as_str(), path) {
                return true;
            }
            i = i + 1;
        }
        false
    }
}

/// The current position after files have been opened into a store that
/// held `before` files: where it held none, the last file is shown.
pub open spec fn position_after_open(before: nat, now: nat, current: usize) -> usize {
    if before == 0 && now >= 1 {
        (now - 1) as usize
    } else {
        current
    }
}

/// Opens one file: it comes behind the open ones, unchanged since it was
/// read, unless its path is open already. A file without tag is not
/// opened and gives its error. The current position stays.
pub fn add_file(opened: Opened, app: &mut App) -> (done: Result<(), TagError>)
    ensures
        final(app).current_index == old(app).current_index,
        final(app).files@ == admitted(old(app).files@, seq![opened]).0,
        done == match admitted(old(app).files@, seq![opened]).1 {
            Some(e) => Err::<(), TagError>(e),
            None => Ok::<(), TagError>(()),
        },
{
    proof {
        reveal_with_fuel(admitted, 2);
    }
    if app.has_path(opened.path.as_str()) {
        return Ok(());
    }
    match opened.metadata {
        Ok(m) => {
            app.files.push(File { path: opened.path, dirty: false, metadata: m });
            Ok(())
        },
        Err(e) => Err(e),
    }
}

/// Ends an opening that went well: where no file was open before it,
/// `before == 0`, the last file becomes the current one.
pub fn show_last_opened(before: usize, app: &mut App)
    ensures
        final(app).files == old(app).files,
        final(app).current_index == position_after_open(
            before as nat,
            old(app).files@.len(),
            old(app).current_index,
        ),
{
    if before == 0 && app.files.len() >= 1 {
        app.current_index = app.files.len() - 1;
    }
}

/// Opening files one after the other opens them as opening them together
/// does: the files of a first list, then those of a second, stopping at
/// the first error.
pub proof fn lemma_admitted_in_turn(files: Seq<File>, first: Seq<Opened>, second: Seq<Opened>)
    ensures
        admitted(files, first + second) == match admitted(files, first).1 {
            Some(e) => admitted(files, first),
            None => admitted(admitted(files, first).0, second),
        },
    decreases first.len(),
{
    if first.len() > 0 {
        assert((first + second).drop_first() =~= first.drop_first() + second);
        if is_open(files, first[0].path@) {
            lemma_admitted_in_turn(files, first.drop_first(), second);
        } else if let Ok(m) = first[0].metadata {
            lemma_admitted_in_turn(
                files.push(File { path: first[0].path, dirty: false, metadata: m }),
                first.drop_first(),
                second,
            );
        }
    }
}

/// Opens files: each comes behind the open ones, unchanged since it was
/// read, unless its path is open already. A file without tag stops the
/// opening with its error. Where no file was open before and all went
/// well, the last file becomes the current one.
pub fn open_files(opened: Vec<Opened>, app: &mut App) -> (done: Result<(), TagError>)
    ensures
        final(app).files@ == admitted(old(app).files@, opened@).0,
        done == match admitted(old(app).files@, opened@).1 {
            Some(e) => Err::<(), TagError>(e),
            None => Ok::<(), TagError>(()),
        },
        final(app).current_index == if done is Ok {
            position_after_open(
                old(app).files@.len(),
                final(app).files@.len(),
                old(app).current_index,
            )
        } else {
            old(app).current_index
        },
{
    let before = app.files.len();
    let mut rest = opened;
    while rest.len() > 0
        invariant
            app.current_index == old(app).current_index,
            admitted(old(app).files@, opened@) == admitted(app.files@, rest@),
        decreases rest@.len(),
    {
        let ghost ahead = rest@;
        let entry = rest.remove(0);
        proof {
            assert(ahead =~= seq![entry] + rest@);
            lemma_admitted_in_turn(app.files@, seq![entry], rest@);
        }
        match add_file(entry, app) {
            Ok(_) => {},
            Err(e) => {
                return Err(e);
            },
        }
    }
    show_last_opened(before, app);
    Ok(())
}

/// Closes the file at `index`. The current position moves down by one
/// where it is at or behind a closed file that is not the first.
pub fn close_file(index: usize, app: &mut App) -> (done: Result<(), TagError>)
    ensures
        match done {
            Ok(_) => {
                &&& index < old(app).files@.len()
                &&& final(app).files@ == old(app).files@.remove(index as int)
                &&& final(app).current_index == if old(app).current_index >= index && index >= 1 {
                    (old(app).current_index - 1) as usize
                } else {
                    old(app).current_index
                }
            },
            Err(e) => {
                &&& e == TagError::NoOpenFile
                &&& index >= old(app).files@.len()
                &&& old(app).unchanged(*final(app))
            },
        },
{
    if index >= app.files.len() {
        return Err(TagError::NoOpenFile);
    }
    let _ = app.files.remove(index);
    if app.current_index >= index && index >= 1 {
        app.current_index = app.current_index - 1;
    }
    Ok(())
}

/// Records that the file at `index` was written, or that writing it
/// failed. `moved_to` is the new path of a file that was saved under
/// another name; it is kept whether the tag could be written there or not.
/// Only a tag that was written counts as unchanged again.
pub fn save_file(index: usize, moved_to: Option<String>, written: Result<(), String>, app: &mut App) -> (done:
    Result<(), TagError>)
    ensures
        final(app).current_index == old(app).current_index,
        index >= old(app).files@.len() ==> done == Err::<(), TagError>(TagError::NoOpenFile) && final(app).files@ == old(app).files@,
        index < old(app).files@.len() ==> {
            &&& final(app).files@.len() == old(app).files@.len()
            &&& forall|k: int|
                0 <= k < old(app).files@.len() && k != index ==> final(app).files@[k] == old(app).files@[k]
            &&& final(app).files@[index as int].metadata == old(app).files@[index as int].metadata
            &&& final(app).files@[index as int].path == match moved_to {
                Some(p) => p,
                None => old(app).files@[index as int].path,
            }
            &&& final(app).files@[index as int].dirty == match written {
                Ok(_) => false,
                Err(_) => old(app).files@[index as int].dirty,
            }
            &&& done == match written {
                Ok(_) => Ok::<(), TagError>(()),
                Err(why) => Err::<(), TagError>(TagError::Serialize(why)),
            }
        },
{
    if index >= app.files.len() {
        return Err(TagError::NoOpenFile);
    }
    let file = &mut app.files[index];
    match moved_to {
        Some(p) => {
            file.path = p;
        },
        None => {},
    }
    match written {
        Ok(_) => {
            file.dirty = false;
            Ok(())
        },
        Err(why) => Err(TagError::Serialize(why)),
    }
}

} // verus!
