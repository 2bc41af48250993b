use id3::TagLike;
use lofty::ogg::{OggPictureStorage, VorbisComments};
use mr_tagger::artwork::{check_mime, picture_type_label, picture_type_string};
use mr_tagger::error::TagError;
use mr_tagger::format::{image_format, mime_string, ImageFormat};
use mr_tagger::frames::Metadata;
use mr_tagger::image::Image;
use mr_tagger::vorbis_tag::PictureInfo;

fn id3_picture(kind: id3::frame::PictureType, description: &str, data: &[u8]) -> id3::frame::Picture {
    id3::frame::Picture {
        mime_type: "image/jpeg".to_string(),
        picture_type: kind,
        description: description.to_string(),
        data: data.to_vec(),
    }
}

fn id3_with_pictures() -> Metadata {
    let mut tag = id3::Tag::new();
    tag.add_frame(id3::Frame::text("TIT2", "Song"));
    tag.add_frame(id3_picture(id3::frame::PictureType::Other, "first", b"one"));
    tag.add_frame(id3::Frame::text("TALB", "Album"));
    tag.add_frame(id3_picture(id3::frame::PictureType::CoverFront, "front", b"hello"));
    tag.add_frame(id3_picture(id3::frame::PictureType::CoverBack, "back", b"three"));
    Metadata::Id3(tag)
}

fn mp4_with_artworks() -> Metadata {
    let mut tag = mp4ameta::Tag::default();
    tag.set_title("Song");
    tag.add_artwork(mp4ameta::Img::png(b"one".to_vec()));
    tag.add_artwork(mp4ameta::Img::jpeg(b"hello".to_vec()));
    Metadata::Mp4(tag)
}

fn vorbis_picture(kind: lofty::PictureType, mime: lofty::MimeType, description: Option<&str>, data: &[u8]) -> lofty::Picture {
    lofty::Picture::new_unchecked(kind, mime, description.map(String::from), data.to_vec())
}

fn vorbis_with_pictures() -> Metadata {
    let mut tag = VorbisComments::default();
    tag.push("TITLE".to_string(), "Song".to_string());
    let info = lofty::PictureInformation { width: 1, height: 2, color_depth: 24, num_colors: 0 };
    tag.insert_picture(
        vorbis_picture(lofty::PictureType::Other, lofty::MimeType::Png, Some("first"), b"one"),
        Some(info),
    )
    .unwrap();
    tag.insert_picture(
        vorbis_picture(lofty::PictureType::CoverFront, lofty::MimeType::Jpeg, None, b"hello"),
        Some(info),
    )
    .unwrap();
    Metadata::VorbisComments(tag)
}

fn png_bytes() -> Vec<u8> {
    let mut bytes = vec![0x89, b'P', b'N', b'G', 0x0D, 0x0A, 0x1A, 0x0A];
    bytes.extend_from_slice(&[0, 0, 0, 13, b'I', b'H', b'D', b'R']);
    bytes.extend_from_slice(&[0, 0, 0, 16, 0, 0, 0, 9, 8, 2, 0, 0, 0]);
    bytes.extend_from_slice(&[1, 2, 3, 4]);
    bytes
}

fn jpeg_bytes() -> Vec<u8> {
    let mut bytes = vec![0xFF, 0xD8, 0xFF, 0xE0, 0x00, 0x04, 0xAA, 0xBB];
    bytes.extend_from_slice(&[0xFF, 0xDB, 0x00, 0x03, 0x01]);
    bytes.extend_from_slice(&[0xFF, 0xC0, 0x00, 0x0B, 8, 0x00, 0x20, 0x00, 0x10, 3, 0, 0, 0]);
    bytes
}

fn shown(m: &Metadata, index: Option<usize>) -> Option<Image> {
    m.get_picture(index).unwrap()
}

#[test]
fn id3_default_picture_is_the_front_cover() {
    let m = id3_with_pictures();
    let image = shown(&m, None).unwrap();
    assert_eq!(
        image,
        Image {
            index: 1,
            total_images: 3,
            data: "aGVsbG8=".to_string(),
            mime_type: "image/jpeg".to_string(),
            description: Some("front".to_string()),
            picture_type: Some("Front cover".to_string()),
        }
    );
}

#[test]
fn id3_picture_by_index() {
    let m = id3_with_pictures();
    let image = shown(&m, Some(2)).unwrap();
    assert_eq!(image.index, 2);
    assert_eq!(image.total_images, 3);
    assert_eq!(image.data, "dGhyZWU=");
    assert_eq!(image.picture_type, Some("Back cover".to_string()));
    assert_eq!(image.description, Some("back".to_string()));
    assert_eq!(shown(&m, Some(3)), None);
}

#[test]
fn id3_without_front_cover_shows_the_first() {
    let mut tag = id3::Tag::new();
    tag.add_frame(id3_picture(id3::frame::PictureType::Artist, "a", b"one"));
    tag.add_frame(id3_picture(id3::frame::PictureType::Band, "b", b"two"));
    let m = Metadata::Id3(tag);
    let image = shown(&m, None).unwrap();
    assert_eq!(image.index, 0);
    assert_eq!(image.picture_type, Some("Artist".to_string()));
}

#[test]
fn id3_undefined_picture_type_is_named_by_its_code() {
    let mut tag = id3::Tag::new();
    tag.add_frame(id3_picture(id3::frame::PictureType::Undefined(77), "", b"x"));
    let m = Metadata::Id3(tag);
    let image = shown(&m, Some(0)).unwrap();
    assert_eq!(image.picture_type, Some("Undefined type 77".to_string()));
}

fn id3_kinds() -> Vec<id3::frame::PictureType> {
    vec![
        id3::frame::PictureType::Other,
        id3::frame::PictureType::Icon,
        id3::frame::PictureType::OtherIcon,
        id3::frame::PictureType::CoverFront,
        id3::frame::PictureType::CoverBack,
        id3::frame::PictureType::Leaflet,
        id3::frame::PictureType::Media,
        id3::frame::PictureType::LeadArtist,
        id3::frame::PictureType::Artist,
        id3::frame::PictureType::Conductor,
        id3::frame::PictureType::Band,
        id3::frame::PictureType::Composer,
        id3::frame::PictureType::Lyricist,
        id3::frame::PictureType::RecordingLocation,
        id3::frame::PictureType::DuringRecording,
        id3::frame::PictureType::DuringPerformance,
        id3::frame::PictureType::ScreenCapture,
        id3::frame::PictureType::BrightFish,
        id3::frame::PictureType::Illustration,
        id3::frame::PictureType::BandLogo,
        id3::frame::PictureType::PublisherLogo,
        id3::frame::PictureType::Undefined(21),
        id3::frame::PictureType::Undefined(255),
    ]
}

#[test]
fn id3_picture_types_are_named_as_the_crate_names_them() {
    for kind in id3_kinds() {
        let mut tag = id3::Tag::new();
        tag.add_frame(id3_picture(kind, "", b"x"));
        let image = shown(&Metadata::Id3(tag), Some(0)).unwrap();
        assert_eq!(image.picture_type, Some(kind.to_string()));
        assert_eq!(picture_type_string(u8::from(kind)), kind.to_string());
    }
}

#[test]
fn replacing_an_id3_picture_keeps_every_type() {
    for kind in id3_kinds() {
        let mut tag = id3::Tag::new();
        tag.add_frame(id3::Frame::text("TIT2", "Song"));
        tag.add_frame(id3_picture(kind, "kept", b"old"));
        let mut m = Metadata::Id3(tag);
        assert_eq!(m.set_picture(0, b"new".to_vec(), "png"), Ok(()));
        match &m {
            Metadata::Id3(tag) => {
                assert_eq!(tag.frames().count(), 2);
                let picture = tag.pictures().next().unwrap();
                assert_eq!(picture.picture_type, kind);
                assert_eq!(picture.description, "kept");
                assert_eq!(picture.mime_type, "image/png");
                assert_eq!(picture.data, b"new");
                assert_eq!(tag.frames().nth(1).unwrap().id(), "APIC");
            }
            _ => panic!("the kind of tag changed"),
        }
    }
}

#[test]
fn a_new_id3_picture_is_of_the_type_other() {
    let mut m = Metadata::Id3(id3::Tag::new());
    assert_eq!(m.set_picture(0, b"new".to_vec(), "jpg"), Ok(()));
    match &m {
        Metadata::Id3(tag) => {
            let picture = tag.pictures().next().unwrap();
            assert_eq!(picture.picture_type, id3::frame::PictureType::Other);
            assert_eq!(picture.description, "");
            assert_eq!(picture.mime_type, "image/jpeg");
            assert_eq!(tag.frames().next().unwrap().id(), "APIC");
        }
        _ => panic!("the kind of tag changed"),
    }
}

#[test]
fn an_undefined_id3_type_with_a_defined_code_is_read_as_that_type() {
    let mut tag = id3::Tag::new();
    tag.add_frame(id3_picture(id3::frame::PictureType::Other, "first", b"one"));
    tag.add_frame(id3_picture(id3::frame::PictureType::Undefined(3), "odd", b"hello"));
    let mut m = Metadata::Id3(tag);
    let image = shown(&m, None).unwrap();
    assert_eq!(image.index, 1);
    assert_eq!(image.picture_type, Some("Front cover".to_string()));
    assert_eq!(m.set_picture(1, b"new".to_vec(), "png"), Ok(()));
    match &m {
        Metadata::Id3(tag) => {
            let picture = tag.pictures().nth(1).unwrap();
            assert_eq!(picture.picture_type, id3::frame::PictureType::CoverFront);
            assert_eq!(picture.description, "odd");
        }
        _ => panic!("the kind of tag changed"),
    }
}

#[test]
fn empty_tags_show_nothing() {
    let tags = vec![
        Metadata::Id3(id3::Tag::new()),
        Metadata::Mp4(mp4ameta::Tag::default()),
        Metadata::VorbisComments(VorbisComments::default()),
    ];
    for m in &tags {
        assert_eq!(m.picture_count(), 0);
        assert_eq!(m.get_picture(None), Ok(None));
        assert_eq!(m.get_picture(Some(0)), Ok(None));
    }
}

#[test]
fn mp4_without_artwork_shows_nothing() {
    let mut tag = mp4ameta::Tag::default();
    tag.set_title("Song");
    let m = Metadata::Mp4(tag);
    assert_eq!(m.get_picture(None), Ok(None));
    assert_eq!(m.get_picture(Some(0)), Ok(None));
}

#[test]
fn mp4_default_picture_is_the_first() {
    let m = mp4_with_artworks();
    assert_eq!(
        shown(&m, None).unwrap(),
        Image {
            index: 0,
            total_images: 2,
            data: "b25l".to_string(),
            mime_type: "image/png".to_string(),
            description: None,
            picture_type: None,
        }
    );
    let second = shown(&m, Some(1)).unwrap();
    assert_eq!(second.mime_type, "image/jpeg");
    assert_eq!(second.data, "aGVsbG8=");
    assert_eq!(shown(&m, Some(2)), None);
}

#[test]
fn mp4_bmp_artwork_has_its_mime_type() {
    let mut tag = mp4ameta::Tag::default();
    tag.add_artwork(mp4ameta::Img::bmp(b"bm".to_vec()));
    let m = Metadata::Mp4(tag);
    assert_eq!(shown(&m, None).unwrap().mime_type, "image/bmp");
}

#[test]
fn vorbis_default_picture_is_the_front_cover() {
    let m = vorbis_with_pictures();
    assert_eq!(
        shown(&m, None).unwrap(),
        Image {
            index: 1,
            total_images: 2,
            data: "aGVsbG8=".to_string(),
            mime_type: "image/jpeg".to_string(),
            description: None,
            picture_type: Some("Front cover".to_string()),
        }
    );
    let first = shown(&m, Some(0)).unwrap();
    assert_eq!(first.mime_type, "image/png");
    assert_eq!(first.description, Some("first".to_string()));
    assert_eq!(first.picture_type, Some("Other".to_string()));
}

#[test]
fn vorbis_picture_with_unknown_mime_is_an_error() {
    let mut tag = VorbisComments::default();
    let info = lofty::PictureInformation::default();
    let mime = lofty::MimeType::Unknown("image/webp".to_string());
    tag.insert_picture(vorbis_picture(lofty::PictureType::Other, mime, None, b"x"), Some(info)).unwrap();
    let m = Metadata::VorbisComments(tag);
    assert_eq!(m.get_picture(Some(0)), Err(TagError::UnknownMime));
    assert_eq!(m.get_picture(None), Err(TagError::UnknownMime));
}

#[test]
fn vorbis_picture_without_mime_is_an_error() {
    let mut tag = VorbisComments::default();
    let info = lofty::PictureInformation::default();
    tag.insert_picture(
        vorbis_picture(lofty::PictureType::Other, lofty::MimeType::None, None, b"x"),
        Some(info),
    )
    .unwrap();
    let m = Metadata::VorbisComments(tag);
    assert_eq!(m.get_picture(Some(0)), Err(TagError::NoMime));
}

#[test]
fn vorbis_picture_with_undefined_type_is_an_error() {
    let mut tag = VorbisComments::default();
    let info = lofty::PictureInformation::default();
    tag.insert_picture(
        vorbis_picture(lofty::PictureType::Undefined(99), lofty::MimeType::Gif, None, b"x"),
        Some(info),
    )
    .unwrap();
    let m = Metadata::VorbisComments(tag);
    assert_eq!(m.get_picture(Some(0)), Err(TagError::UndefinedPictureType(99)));
}

#[test]
fn vorbis_tiff_and_gif_are_shown() {
    let mut tag = VorbisComments::default();
    let info = lofty::PictureInformation::default();
    tag.insert_picture(
        vorbis_picture(lofty::PictureType::Leaflet, lofty::MimeType::Tiff, None, b"x"),
        Some(info),
    )
    .unwrap();
    tag.insert_picture(
        vorbis_picture(lofty::PictureType::BrightFish, lofty::MimeType::Gif, None, b"y"),
        Some(info),
    )
    .unwrap();
    let m = Metadata::VorbisComments(tag);
    let first = shown(&m, Some(0)).unwrap();
    assert_eq!(first.mime_type, "image/tiff");
    assert_eq!(first.picture_type, Some("Leaflet".to_string()));
    let second = shown(&m, Some(1)).unwrap();
    assert_eq!(second.mime_type, "image/gif");
    assert_eq!(second.picture_type, Some("Bright fish".to_string()));
}

#[test]
fn removing_the_front_cover_falls_back_to_the_first_picture() {
    for mut m in vec![id3_with_pictures(), vorbis_with_pictures()] {
        let n = m.picture_count();
        assert_eq!(m.remove_picture(1), Ok(()));
        assert_eq!(m.picture_count(), n - 1);
        let image = shown(&m, None).unwrap();
        assert_eq!(image.index, 0);
        assert_eq!(image.data, "b25l");
    }
}

#[test]
fn removing_the_only_picture_leaves_nothing_to_show() {
    let mut tag = id3::Tag::new();
    tag.add_frame(id3_picture(id3::frame::PictureType::CoverFront, "front", b"hello"));
    let mut m = Metadata::Id3(tag);
    assert_eq!(m.remove_picture(0), Ok(()));
    assert_eq!(m.get_picture(None), Ok(None));

    let mut tag = mp4ameta::Tag::default();
    tag.add_artwork(mp4ameta::Img::png(b"one".to_vec()));
    let mut m = Metadata::Mp4(tag);
    assert_eq!(m.remove_picture(0), Ok(()));
    assert_eq!(m.get_picture(None), Ok(None));
    assert_eq!(m.picture_count(), 0);
}

#[test]
fn removing_shifts_later_pictures_down() {
    let mut m = id3_with_pictures();
    assert_eq!(m.remove_picture(0), Ok(()));
    assert_eq!(shown(&m, Some(0)).unwrap().description, Some("front".to_string()));
    assert_eq!(shown(&m, Some(1)).unwrap().description, Some("back".to_string()));
    assert_eq!(shown(&m, Some(1)).unwrap().total_images, 2);

    let mut m = mp4_with_artworks();
    assert_eq!(m.remove_picture(0), Ok(()));
    assert_eq!(shown(&m, Some(0)).unwrap().data, "aGVsbG8=");
    assert_eq!(shown(&m, Some(0)).unwrap().total_images, 1);
}

#[test]
fn removing_keeps_the_other_frames_in_place() {
    let mut m = id3_with_pictures();
    assert_eq!(m.remove_picture(1), Ok(()));
    match &m {
        Metadata::Id3(tag) => {
            let ids: Vec<String> = tag.frames().map(|f| f.id().to_string()).collect();
            assert_eq!(ids, vec!["TIT2", "APIC", "TALB", "APIC"]);
            assert_eq!(tag.title(), Some("Song"));
            assert_eq!(tag.album(), Some("Album"));
        }
        _ => panic!("the kind of tag changed"),
    }
    let mut m = mp4_with_artworks();
    assert_eq!(m.remove_picture(1), Ok(()));
    match &m {
        Metadata::Mp4(tag) => assert_eq!(tag.title(), Some("Song")),
        _ => panic!("the kind of tag changed"),
    }
    let mut m = vorbis_with_pictures();
    assert_eq!(m.remove_picture(0), Ok(()));
    match &m {
        Metadata::VorbisComments(tag) => assert_eq!(tag.get("TITLE"), Some("Song")),
        _ => panic!("the kind of tag changed"),
    }
}

#[test]
fn removing_outside_the_list_is_refused() {
    for mut m in vec![id3_with_pictures(), mp4_with_artworks(), vorbis_with_pictures()] {
        let n = m.picture_count();
        assert_eq!(m.remove_picture(n), Err(TagError::IndexOutOfRange));
        assert_eq!(m.remove_picture(n + 5), Err(TagError::IndexOutOfRange));
        assert_eq!(m.picture_count(), n);
    }
}

#[test]
fn setting_one_past_the_end_appends() {
    for mut m in vec![id3_with_pictures(), mp4_with_artworks(), vorbis_with_pictures()] {
        let n = m.picture_count();
        assert_eq!(m.set_picture(n, png_bytes(), "png"), Ok(()));
        assert_eq!(m.picture_count(), n + 1);
        let image = shown(&m, Some(n)).unwrap();
        assert_eq!(image.index, n);
        assert_eq!(image.mime_type, "image/png");
        assert_eq!(image.data, base64::encode(png_bytes()));
    }
}

#[test]
fn setting_two_past_the_end_is_refused() {
    for mut m in vec![id3_with_pictures(), mp4_with_artworks(), vorbis_with_pictures()] {
        let n = m.picture_count();
        assert_eq!(m.set_picture(n + 1, png_bytes(), "png"), Err(TagError::IndexOutOfRange));
        assert_eq!(m.picture_count(), n);
    }
}

#[test]
fn appended_picture_starts_blank() {
    let mut m = id3_with_pictures();
    assert_eq!(m.set_picture(3, jpeg_bytes(), "jpg"), Ok(()));
    let image = shown(&m, Some(3)).unwrap();
    assert_eq!(image.picture_type, Some("Other".to_string()));
    assert_eq!(image.description, Some(String::new()));
    assert_eq!(image.mime_type, "image/jpeg");

    let mut m = vorbis_with_pictures();
    assert_eq!(m.set_picture(2, jpeg_bytes(), "jpeg"), Ok(()));
    let image = shown(&m, Some(2)).unwrap();
    assert_eq!(image.picture_type, Some("Other".to_string()));
    assert_eq!(image.description, None);
    assert_eq!(image.mime_type, "image/jpeg");
}

#[test]
fn appending_to_id3_keeps_a_picture_of_the_same_type() {
    let mut m = id3_with_pictures();
    assert_eq!(m.set_picture(3, png_bytes(), "png"), Ok(()));
    assert_eq!(m.picture_count(), 4);
    let first = shown(&m, Some(0)).unwrap();
    assert_eq!(first.picture_type, Some("Other".to_string()));
    assert_eq!(first.description, Some("first".to_string()));
}

#[test]
fn replacing_keeps_type_and_description() {
    let mut m = id3_with_pictures();
    assert_eq!(m.set_picture(1, png_bytes(), "png"), Ok(()));
    assert_eq!(m.picture_count(), 3);
    let image = shown(&m, Some(1)).unwrap();
    assert_eq!(image.picture_type, Some("Front cover".to_string()));
    assert_eq!(image.description, Some("front".to_string()));
    assert_eq!(image.mime_type, "image/png");
    assert_eq!(image.data, base64::encode(png_bytes()));
    match &m {
        Metadata::Id3(tag) => {
            let ids: Vec<String> = tag.frames().map(|f| f.id().to_string()).collect();
            assert_eq!(ids, vec!["TIT2", "APIC", "TALB", "APIC", "APIC"]);
        }
        _ => panic!("the kind of tag changed"),
    }

    let mut m = vorbis_with_pictures();
    assert_eq!(m.set_picture(0, png_bytes(), "png"), Ok(()));
    let image = shown(&m, Some(0)).unwrap();
    assert_eq!(image.picture_type, Some("Other".to_string()));
    assert_eq!(image.description, Some("first".to_string()));
    assert_eq!(image.data, base64::encode(png_bytes()));
    assert_eq!(m.set_picture(1, jpeg_bytes(), "jpg"), Ok(()));
    let image = shown(&m, Some(1)).unwrap();
    assert_eq!(image.picture_type, Some("Front cover".to_string()));
    assert_eq!(image.description, None);
    assert_eq!(image.mime_type, "image/jpeg");
    assert_eq!(m.picture_count(), 2);
}

#[test]
fn replacing_an_mp4_artwork_changes_format_and_data() {
    let mut m = mp4_with_artworks();
    assert_eq!(m.set_picture(0, b"bitmap".to_vec(), "bmp"), Ok(()));
    let image = shown(&m, Some(0)).unwrap();
    assert_eq!(image.mime_type, "image/bmp");
    assert_eq!(image.data, base64::encode(b"bitmap"));
    assert_eq!(shown(&m, Some(1)).unwrap().data, "aGVsbG8=");
    match &m {
        Metadata::Mp4(tag) => assert_eq!(tag.title(), Some("Song")),
        _ => panic!("the kind of tag changed"),
    }
}

#[test]
fn gif_is_refused_by_every_kind_of_tag() {
    for mut m in vec![id3_with_pictures(), mp4_with_artworks(), vorbis_with_pictures()] {
        let n = m.picture_count();
        for index in 0..=n {
            assert_eq!(
                m.set_picture(index, b"GIF89a".to_vec(), "gif"),
                Err(TagError::UnsupportedImageType)
            );
        }
        assert_eq!(
            m.set_picture(n + 7, b"GIF89a".to_vec(), "gif"),
            Err(TagError::UnsupportedImageType)
        );
        assert_eq!(m.picture_count(), n);
    }
}

#[test]
fn bmp_is_held_by_id3_and_mp4_but_not_by_vorbis() {
    let mut m = id3_with_pictures();
    assert_eq!(m.set_picture(0, b"bitmap".to_vec(), "bmp"), Ok(()));
    assert_eq!(shown(&m, Some(0)).unwrap().mime_type, "image/bmp");
    let mut m = vorbis_with_pictures();
    assert_eq!(m.set_picture(0, b"bitmap".to_vec(), "bmp"), Err(TagError::UnsupportedImageType));
}

#[test]
fn extension_is_matched_exactly() {
    let mut m = mp4_with_artworks();
    assert_eq!(m.set_picture(0, png_bytes(), "PNG"), Err(TagError::UnsupportedImageType));
    assert_eq!(m.set_picture(0, png_bytes(), ""), Err(TagError::UnsupportedImageType));
    assert_eq!(m.set_picture(0, png_bytes(), "jpeg"), Ok(()));
}

#[test]
fn vorbis_reads_the_header_of_the_image() {
    let mut m = vorbis_with_pictures();
    assert_eq!(m.set_picture(2, png_bytes(), "png"), Ok(()));
    assert_eq!(m.set_picture(3, jpeg_bytes(), "jpg"), Ok(()));
    match &m {
        Metadata::VorbisComments(tag) => {
            let (picture, info) = &tag.pictures()[2];
            assert_eq!(picture.mime_type(), &lofty::MimeType::Png);
            assert_eq!(picture.pic_type(), lofty::PictureType::Other);
            assert_eq!(
                *info,
                lofty::PictureInformation { width: 16, height: 9, color_depth: 24, num_colors: 0 }
            );
            let (picture, info) = &tag.pictures()[3];
            assert_eq!(picture.mime_type(), &lofty::MimeType::Jpeg);
            assert_eq!(
                *info,
                lofty::PictureInformation { width: 16, height: 32, color_depth: 24, num_colors: 0 }
            );
        }
        _ => panic!("the kind of tag changed"),
    }
}

#[test]
fn vorbis_refuses_an_image_without_header() {
    let mut m = vorbis_with_pictures();
    assert_eq!(m.set_picture(2, b"not a picture".to_vec(), "png"), Err(TagError::InvalidImage));
    assert_eq!(m.set_picture(0, b"not a picture".to_vec(), "jpg"), Err(TagError::InvalidImage));
    assert_eq!(m.picture_count(), 2);
    assert_eq!(shown(&m, Some(0)).unwrap().data, "b25l");
}

#[test]
fn id3_and_mp4_do_not_read_the_image() {
    let mut m = id3_with_pictures();
    assert_eq!(m.set_picture(0, b"not a picture".to_vec(), "png"), Ok(()));
    let mut m = mp4_with_artworks();
    assert_eq!(m.set_picture(0, b"not a picture".to_vec(), "jpg"), Ok(()));
}

#[test]
fn the_extension_is_checked_before_the_index() {
    let mut m = mp4_with_artworks();
    assert_eq!(m.set_picture(99, png_bytes(), "gif"), Err(TagError::UnsupportedImageType));
    assert_eq!(m.set_picture(99, png_bytes(), "png"), Err(TagError::IndexOutOfRange));
}

#[test]
fn storing_with_a_given_header() {
    let info = PictureInfo { width: 7, height: 8, color_depth: 9, num_colors: 10 };
    let mut m = vorbis_with_pictures();
    assert_eq!(m.store_picture(2, b"raw".to_vec(), ImageFormat::Png, Some(info)), Ok(()));
    assert_eq!(m.store_picture(0, b"map".to_vec(), ImageFormat::Bmp, Some(info)), Ok(()));
    match &m {
        Metadata::VorbisComments(tag) => {
            let (picture, stored) = &tag.pictures()[2];
            assert_eq!(picture.data(), b"raw");
            assert_eq!(
                *stored,
                lofty::PictureInformation { width: 7, height: 8, color_depth: 9, num_colors: 10 }
            );
            let (picture, _) = &tag.pictures()[0];
            assert_eq!(picture.mime_type(), &lofty::MimeType::Bmp);
            assert_eq!(picture.description(), Some("first"));
        }
        _ => panic!("the kind of tag changed"),
    }
    assert_eq!(m.store_picture(4, b"raw".to_vec(), ImageFormat::Png, Some(info)), Err(TagError::IndexOutOfRange));
    assert_eq!(m.store_picture(4, b"raw".to_vec(), ImageFormat::Png, None), Err(TagError::IndexOutOfRange));
    assert_eq!(m.store_picture(3, b"raw".to_vec(), ImageFormat::Png, None), Err(TagError::InvalidImage));
    assert_eq!(m.picture_count(), 3);

    let mut m = id3_with_pictures();
    assert_eq!(m.store_picture(3, b"raw".to_vec(), ImageFormat::Jpeg, None), Ok(()));
    assert_eq!(shown(&m, Some(3)).unwrap().mime_type, "image/jpeg");
    let mut m = mp4_with_artworks();
    assert_eq!(m.store_picture(2, b"raw".to_vec(), ImageFormat::Jpeg, Some(info)), Ok(()));
    assert_eq!(m.picture_count(), 3);
}

#[test]
fn only_vorbis_tags_read_the_header() {
    let png = PictureInfo { width: 16, height: 9, color_depth: 24, num_colors: 0 };
    let jpeg = PictureInfo { width: 16, height: 32, color_depth: 24, num_colors: 0 };
    let m = vorbis_with_pictures();
    assert_eq!(m.read_header(ImageFormat::Png, &png_bytes()), Some(png));
    assert_eq!(m.read_header(ImageFormat::Jpeg, &jpeg_bytes()), Some(jpeg));
    assert_eq!(m.read_header(ImageFormat::Jpeg, &png_bytes()), None);
    assert_eq!(m.read_header(ImageFormat::Png, &jpeg_bytes()), None);
    assert_eq!(m.read_header(ImageFormat::Bmp, &png_bytes()), None);
    assert_eq!(id3_with_pictures().read_header(ImageFormat::Png, &png_bytes()), None);
    assert_eq!(mp4_with_artworks().read_header(ImageFormat::Png, &png_bytes()), None);
}

#[test]
fn formats_by_extension() {
    assert_eq!(image_format("jpg"), Some(ImageFormat::Jpeg));
    assert_eq!(image_format("jpeg"), Some(ImageFormat::Jpeg));
    assert_eq!(image_format("png"), Some(ImageFormat::Png));
    assert_eq!(image_format("bmp"), Some(ImageFormat::Bmp));
    assert_eq!(image_format("gif"), None);
    assert_eq!(image_format("tiff"), None);
    assert_eq!(mime_string(ImageFormat::Jpeg), "image/jpeg");
    assert_eq!(mime_string(ImageFormat::Png), "image/png");
    assert_eq!(mime_string(ImageFormat::Bmp), "image/bmp");
    assert_eq!(id3_with_pictures().format_for("bmp"), Some(ImageFormat::Bmp));
    assert_eq!(vorbis_with_pictures().format_for("bmp"), None);
    assert_eq!(vorbis_with_pictures().format_for("png"), Some(ImageFormat::Png));
}

#[test]
fn picture_type_names() {
    let names = [
        "Other", "Icon", "Other icon", "Front cover", "Back cover", "Leaflet", "Media",
        "Lead artist", "Artist", "Conductor", "Band", "Composer", "Lyricist",
        "Recording location", "During recording", "During performance", "Screen capture",
        "Bright fish", "Illustration", "Band logo", "Publisher logo",
    ];
    for (code, name) in names.iter().enumerate() {
        assert_eq!(picture_type_label(code as u8), Some(name.to_string()));
    }
    assert_eq!(picture_type_label(21), None);
    assert_eq!(picture_type_label(255), None);
    assert_eq!(check_mime("image/png"), None);
    assert_eq!(check_mime("image/gif"), None);
    assert_eq!(check_mime(""), Some(TagError::NoMime));
    assert_eq!(check_mime("image/webp"), Some(TagError::UnknownMime));
    assert_eq!(check_mime("IMAGE/PNG"), Some(TagError::UnknownMime));
}
