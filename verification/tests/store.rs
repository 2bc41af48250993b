use id3::TagLike;
use mr_tagger::cmd::{get_page, has_unsaved_changes, show, App, File};
use mr_tagger::error::TagError;
use mr_tagger::files::{
    add_file, backend_for, close_file, get_metadata, open_files, save_file, show_last_opened,
    Backend, Opened, TagRead,
};
use mr_tagger::frames::Metadata;
use mr_tagger::image::{get_image, remove_image, set_image};

fn titled(title: &str) -> Metadata {
    let mut tag = id3::Tag::new();
    tag.set_title(title);
    Metadata::Id3(tag)
}

fn opened(path: &str, title: &str) -> Opened {
    Opened { path: path.to_string(), metadata: Ok(titled(title)) }
}

fn paths(app: &App) -> Vec<String> {
    app.files.iter().map(|f| f.path.clone()).collect()
}

fn app_with(names: &[&str]) -> App {
    let mut app = App::default();
    let files = names.iter().map(|n| opened(n, n)).collect();
    assert_eq!(open_files(files, &mut app), Ok(()));
    app
}

#[test]
fn extensions_select_the_kind_of_tag() {
    for ext in ["mp3", "aiff"] {
        assert_eq!(backend_for(ext), Ok(Backend::Id3));
    }
    for ext in ["m4a", "mp4", "m4p", "m4b", "m4r", "m4v"] {
        assert_eq!(backend_for(ext), Ok(Backend::Mp4));
    }
    for ext in ["ogg", "oga", "opus", "spx", "flac"] {
        assert_eq!(backend_for(ext), Ok(Backend::Vorbis));
    }
    for ext in ["", "txt", "MP3", "mp", "mp33", "wav"] {
        assert_eq!(backend_for(ext), Err(TagError::UnsupportedFileType));
    }
}

#[test]
fn a_file_without_tag_gets_an_empty_one() {
    let m = get_metadata(Backend::Id3, TagRead::NoTag).unwrap();
    assert_eq!(m.kind(), Backend::Id3);
    assert_eq!(m.get_frames(), vec![]);
    assert_eq!(m.picture_count(), 0);
    let m = get_metadata(Backend::Vorbis, TagRead::NoTag).unwrap();
    assert_eq!(m.kind(), Backend::Vorbis);
    assert_eq!(m.get_frames(), vec![]);
    assert_eq!(m.picture_count(), 0);
}

#[test]
fn an_mp4_file_without_tag_is_an_error() {
    match get_metadata(Backend::Mp4, TagRead::NoTag) {
        Err(e) => {
            assert_eq!(e, TagError::Parse("No tag found".to_string()));
            assert_eq!(e.message(), "Error reading tag: No tag found");
        }
        Ok(_) => panic!("an MP4 file without tag was opened"),
    }
}

#[test]
fn a_malformed_tag_is_an_error() {
    for backend in [Backend::Id3, Backend::Mp4, Backend::Vorbis] {
        match get_metadata(backend, TagRead::Malformed("bad frame".to_string())) {
            Err(e) => assert_eq!(e, TagError::Parse("bad frame".to_string())),
            Ok(_) => panic!("a malformed tag was opened"),
        }
    }
}

#[test]
fn a_tag_of_another_kind_is_refused() {
    let mp4 = || TagRead::Tag(Metadata::Mp4(mp4ameta::Tag::default()));
    let vorbis = || TagRead::Tag(Metadata::VorbisComments(lofty::ogg::VorbisComments::default()));
    let id3 = || TagRead::Tag(titled("Song"));
    let refused = Some(TagError::Parse("Tag of another kind".to_string()));
    assert_eq!(get_metadata(Backend::Id3, mp4()).err(), refused);
    assert_eq!(get_metadata(Backend::Id3, vorbis()).err(), refused);
    assert_eq!(get_metadata(Backend::Mp4, id3()).err(), refused);
    assert_eq!(get_metadata(Backend::Mp4, vorbis()).err(), refused);
    assert_eq!(get_metadata(Backend::Vorbis, id3()).err(), refused);
    assert_eq!(get_metadata(Backend::Vorbis, mp4()).err(), refused);
    assert_eq!(get_metadata(Backend::Mp4, mp4()).unwrap().kind(), Backend::Mp4);
    assert_eq!(get_metadata(Backend::Vorbis, vorbis()).unwrap().kind(), Backend::Vorbis);
    assert_eq!(get_metadata(Backend::Id3, id3()).unwrap().kind(), Backend::Id3);
}

#[test]
fn files_can_be_opened_one_by_one() {
    let mut app = App::default();
    let before = app.files.len();
    assert_eq!(add_file(opened("a.mp3", "a"), &mut app), Ok(()));
    assert_eq!(add_file(opened("b.mp3", "b"), &mut app), Ok(()));
    assert_eq!(add_file(opened("a.mp3", "other"), &mut app), Ok(()));
    assert_eq!(paths(&app), vec!["a.mp3", "b.mp3"]);
    assert_eq!(app.current_index, 0);
    let failed = Opened { path: "c.mp3".to_string(), metadata: Err(TagError::UnsupportedFileType) };
    assert_eq!(add_file(failed, &mut app), Err(TagError::UnsupportedFileType));
    assert_eq!(paths(&app), vec!["a.mp3", "b.mp3"]);
    show_last_opened(before, &mut app);
    assert_eq!(app.current_index, 1);
    show(0, &mut app);
    show_last_opened(2, &mut app);
    assert_eq!(app.current_index, 0);
    let mut empty = App::default();
    show_last_opened(0, &mut empty);
    assert_eq!(empty.current_index, 0);
}

#[test]
fn unsaved_changes_are_noticed() {
    let mut app = app_with(&["a.mp3", "b.mp3"]);
    assert!(!has_unsaved_changes(&app));
    assert!(!has_unsaved_changes(&App::default()));
    show(0, &mut app);
    assert_eq!(set_image(0, vec![1], "png", &mut app), Ok(()));
    assert!(has_unsaved_changes(&app));
    assert_eq!(save_file(0, None, Err("disk full".to_string()), &mut app).is_err(), true);
    assert!(has_unsaved_changes(&app));
    assert_eq!(save_file(0, None, Ok(()), &mut app), Ok(()));
    assert!(!has_unsaved_changes(&app));
}

#[test]
fn a_tag_that_was_read_is_kept() {
    let m = get_metadata(Backend::Id3, TagRead::Tag(titled("Song"))).unwrap();
    assert_eq!(m.get_field_view().title, "Song");
}

#[test]
fn messages() {
    assert_eq!(TagError::UnsupportedFileType.message(), "Unsupported file type");
    assert_eq!(TagError::IndexOutOfRange.message(), "Index out of range");
    assert_eq!(TagError::UnsupportedImageType.message(), "Unsupported image type");
    assert_eq!(TagError::UnknownMime.message(), "Unknown picture type");
    assert_eq!(TagError::NoMime.message(), "No picture type");
    assert_eq!(TagError::UndefinedPictureType(200).message(), "Undefined type 200");
    assert_eq!(TagError::InvalidImage.message(), "Error reading picture info");
    assert_eq!(TagError::Serialize("disk full".to_string()).message(), "Error saving file: disk full");
    assert_eq!(TagError::NoOpenFile.message(), "Error getting open file");
}

#[test]
fn opening_into_an_empty_store_shows_the_last_file() {
    let app = app_with(&["a.mp3", "b.mp3", "c.mp3"]);
    assert_eq!(paths(&app), vec!["a.mp3", "b.mp3", "c.mp3"]);
    assert_eq!(app.current_index, 2);
    assert!(app.files.iter().all(|f| !f.dirty));
}

#[test]
fn opening_more_files_keeps_the_current_one() {
    let mut app = app_with(&["a.mp3", "b.mp3"]);
    show(0, &mut app);
    assert_eq!(open_files(vec![opened("c.mp3", "c")], &mut app), Ok(()));
    assert_eq!(paths(&app), vec!["a.mp3", "b.mp3", "c.mp3"]);
    assert_eq!(app.current_index, 0);
}

#[test]
fn a_path_is_opened_once() {
    let mut app = app_with(&["a.mp3", "b.mp3", "a.mp3"]);
    assert_eq!(paths(&app), vec!["a.mp3", "b.mp3"]);
    assert_eq!(app.current_index, 1);
    assert_eq!(open_files(vec![opened("b.mp3", "other")], &mut app), Ok(()));
    assert_eq!(paths(&app), vec!["a.mp3", "b.mp3"]);
    assert_eq!(get_page(&app).unwrap().fields.title, "b.mp3");
    assert!(app.has_path("a.mp3"));
    assert!(!app.has_path("c.mp3"));
}

#[test]
fn a_file_that_cannot_be_read_stops_the_opening() {
    let mut app = App::default();
    let files = vec![
        opened("a.mp3", "a"),
        Opened { path: "b.mp3".to_string(), metadata: Err(TagError::Parse("bad".to_string())) },
        opened("c.mp3", "c"),
    ];
    assert_eq!(open_files(files, &mut app), Err(TagError::Parse("bad".to_string())));
    assert_eq!(paths(&app), vec!["a.mp3"]);
    assert_eq!(app.current_index, 0);
}

#[test]
fn a_failed_duplicate_is_passed_over() {
    let mut app = app_with(&["a.mp3"]);
    let files = vec![
        Opened { path: "a.mp3".to_string(), metadata: Err(TagError::UnsupportedFileType) },
        opened("b.mp3", "b"),
    ];
    assert_eq!(open_files(files, &mut app), Ok(()));
    assert_eq!(paths(&app), vec!["a.mp3", "b.mp3"]);
}

#[test]
fn opening_nothing_changes_nothing() {
    let mut app = App::default();
    assert_eq!(open_files(vec![], &mut app), Ok(()));
    assert_eq!(app.current_index, 0);
    assert_eq!(app.files.len(), 0);
    assert_eq!(get_page(&app), None);
}

#[test]
fn the_page_shows_the_current_file() {
    let mut app = app_with(&["a.mp3", "b.mp3"]);
    let page = get_page(&app).unwrap();
    assert_eq!(page.path, "b.mp3");
    assert_eq!(page.fields.title, "b.mp3");
    show(0, &mut app);
    assert_eq!(get_page(&app).unwrap().path, "a.mp3");
    show(2, &mut app);
    assert_eq!(get_page(&app), None);
    assert_eq!(get_image(None, &app), Err(TagError::NoOpenFile));
    assert_eq!(app.current_file().err(), Some(TagError::NoOpenFile));
}

#[test]
fn closing_moves_the_current_position() {
    let mut app = app_with(&["a.mp3", "b.mp3", "c.mp3"]);
    assert_eq!(close_file(1, &mut app), Ok(()));
    assert_eq!(paths(&app), vec!["a.mp3", "c.mp3"]);
    assert_eq!(app.current_index, 1);

    let mut app = app_with(&["a.mp3", "b.mp3", "c.mp3"]);
    show(0, &mut app);
    assert_eq!(close_file(2, &mut app), Ok(()));
    assert_eq!(app.current_index, 0);

    let mut app = app_with(&["a.mp3", "b.mp3", "c.mp3"]);
    assert_eq!(close_file(0, &mut app), Ok(()));
    assert_eq!(paths(&app), vec!["b.mp3", "c.mp3"]);
    assert_eq!(app.current_index, 2);
    assert_eq!(get_page(&app), None);
}

#[test]
fn closing_what_is_not_open_is_refused() {
    let mut app = app_with(&["a.mp3"]);
    assert_eq!(close_file(1, &mut app), Err(TagError::NoOpenFile));
    assert_eq!(paths(&app), vec!["a.mp3"]);
    assert_eq!(app.current_index, 0);
}

#[test]
fn picture_edits_mark_the_file_as_changed() {
    let mut app = app_with(&["a.mp3", "b.mp3"]);
    show(0, &mut app);
    assert_eq!(set_image(0, vec![1, 2, 3], "png", &mut app), Ok(()));
    assert!(app.files[0].dirty);
    assert!(!app.files[1].dirty);
    let image = get_image(None, &app).unwrap().unwrap();
    assert_eq!(image.data, "AQID");
    assert_eq!(image.total_images, 1);
    assert_eq!(get_page(&app).unwrap().fields.title, "a.mp3");

    assert_eq!(save_file(0, None, Ok(()), &mut app), Ok(()));
    assert!(!app.files[0].dirty);
    assert_eq!(remove_image(0, &mut app), Ok(()));
    assert!(app.files[0].dirty);
    assert_eq!(get_image(None, &app), Ok(None));
}

#[test]
fn refused_edits_leave_the_file_unchanged() {
    let mut app = app_with(&["a.mp3"]);
    assert_eq!(remove_image(0, &mut app), Err(TagError::IndexOutOfRange));
    assert_eq!(set_image(1, vec![1], "png", &mut app), Err(TagError::IndexOutOfRange));
    assert_eq!(set_image(0, vec![1], "gif", &mut app), Err(TagError::UnsupportedImageType));
    assert!(!app.files[0].dirty);
    show(5, &mut app);
    assert_eq!(remove_image(0, &mut app), Err(TagError::NoOpenFile));
    assert_eq!(set_image(0, vec![1], "png", &mut app), Err(TagError::NoOpenFile));
}

#[test]
fn a_failed_save_keeps_the_file_changed() {
    let mut app = app_with(&["a.mp3"]);
    assert_eq!(set_image(0, vec![1], "jpg", &mut app), Ok(()));
    assert_eq!(
        save_file(0, None, Err("disk full".to_string()), &mut app),
        Err(TagError::Serialize("disk full".to_string()))
    );
    assert!(app.files[0].dirty);
    assert_eq!(save_file(0, Some("b.mp3".to_string()), Ok(()), &mut app), Ok(()));
    assert!(!app.files[0].dirty);
    assert_eq!(app.files[0].path, "b.mp3");
    assert_eq!(save_file(3, None, Ok(()), &mut app), Err(TagError::NoOpenFile));
}

#[test]
fn the_current_file_can_be_changed_in_place() {
    let mut app = App::default();
    app.files.push(File { path: "a.mp3".to_string(), dirty: false, metadata: titled("a") });
    match app.current_file() {
        Ok(file) => file.dirty = true,
        Err(_) => panic!("there is a current file"),
    }
    assert!(app.files[0].dirty);
}
