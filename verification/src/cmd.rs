//! The open files and the one that is shown.

use vstd::prelude::*;
use vstd::string::*;
use crate::error::TagError;
use crate::fields::{Fields, FieldsView};
use crate::frames::Metadata;

verus! {

/// An open file: where it is, its tag, and whether the tag has been
/// changed since it was read or written.
pub struct File {
    pub path: String,
    pub dirty: bool,
    pub metadata: Metadata,
}

/// The open files and the position of the current one.
pub struct App {
    pub current_index: usize,
    pub files: Vec<File>,
}

impl Default for App {
    fn default() -> (app: App)
        ensures
            app.current_index == 0,
            app.files@.len() == 0,
    {
        App { current_index: 0, files: Vec::new() }
    }
}

/// What is shown of the current file: its path and the fields of its tag.
#[derive(Debug, Clone, PartialEq, Eq)]
pub struct Page {
    pub path: String,
    pub fields: Fields,
}

pub struct PageView {
    pub path: Seq<char>,
    pub fields: FieldsView,
}

impl View for Page {
    type V = PageView;

    open spec fn view(&self) -> PageView {
        PageView { path: self.path@, fields: self.fields@ }
    }
}

impl App {
    /// True where the current position is that of an open file.
    pub open spec fn has_current(self) -> bool {
        self.current_index < self.files@.len()
    }

    /// The current file.
    pub open spec fn current(self) -> File {
        self.files@[self.current_index as int]
    }

    /// True where `after` holds the same files at the same places, but for
    /// the tag and the dirty flag of the current file, and has the same
    /// current position.
    pub open spec fn edited(self, after: App) -> bool {
        &&& after.current_index == self.current_index
        &&& after.files@.len() == self.files@.len()
        &&& forall|k: int|
            0 <= k < self.files@.len() && k != self.current_index ==> after.files@[k]
                == self.files@[k]
        &&& self.has_current() ==> after.current().path == self.current().path
    }

    /// True where `after` holds the same files and has the same current
    /// position.
    pub open spec fn unchanged(self, after: App) -> bool {
        &&& after.current_index == self.current_index
        &&& after.files@ == self.files@
    }

    /// The current file, to read or to change. Nothing else of the store
    /// changes through it.
    pub fn current_file(&mut self) -> (file: Result<&mut File, TagError>)
        ensures
            match file {
                Ok(f) => {
                    &&& old(self).has_current()
                    &&& *f == old(self).current()
                    &&& final(self).current_index == old(self).current_index
                    &&& final(self).files@ == old(self).files@.update(
                        old(self).current_index as int,
                        *final(f),
                    )
                },
                Err(e) => {
                    &&& e == TagError::NoOpenFile
                    &&& !old(self).has_current()
                    &&& *final(self) == *old(self)
                },
            },
    {
        if self.current_index < self.files.len() {
            let i = self.current_index;
            Ok(&mut self.files[i])
        } else {
            Err(TagError::NoOpenFile)
        }
    }
}

/// True where the tag of a file has been changed and not written since.
pub open spec fn unsaved(files: Seq<File>) -> bool {
    exists|k: int| 0 <= k < files.len() && (#[trigger] files[k]).dirty
}

/// True where the tag of an open file has been changed and not written
/// since: closing now would lose the change.
pub fn has_unsaved_changes(app: &App) -> (yes: bool)
    ensures
        yes == unsaved(app.files@),
{
    let mut i: usize = 0;
    while i < app.files.len()
        invariant
            i <= app.files@.len(),
            forall|k: int| 0 <= k < i ==> !(#[trigger] app.files@[k]).dirty,
        decreases app.files@.len() - i,
    {
        if app.files[i].dirty {
            return true;
        }
        i = i + 1;
    }
    false
}

/// Makes the file at `index` the current one. The index is not checked: a
/// position without a file means that no file is shown.
pub fn show(index: usize, app: &mut App)
    ensures
        final(app).current_index == index,
        final(app).files == old(app).files,
{
    app.current_index = index;
}

/// The page of the current file; none where there is no current file.
pub fn get_page(app: &App) -> (page: Option<Page>)
    ensures
        match page {
            Some(p) => {
                &&& app.has_current()
                &&& p@.path == app.current().path@
                &&& p@.fields == app.current().metadata.field_view()
            },
            None => !app.has_current(),
        },
{
    if app.current_index < app.files.len() {
        let file = &app.files[app.current_index];
        Some(Page { path: file.path.clone(), fields: file.metadata.get_field_view() })
    } else {
        None
    }
}

} // verus!
