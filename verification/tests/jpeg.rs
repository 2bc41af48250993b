use mr_tagger::jpeg::jpeg_info;
use mr_tagger::vorbis_tag::PictureInfo;

fn header(first_len: u16, rest: &[u8]) -> Vec<u8> {
    let mut bytes = vec![0xFF, 0xD8, 0xFF, 0xE0];
    bytes.extend_from_slice(&first_len.to_be_bytes());
    bytes.extend(std::iter::repeat(0).take(first_len.saturating_sub(2) as usize));
    bytes.extend_from_slice(rest);
    bytes
}

fn frame(marker: u8, precision: u8, height: u16, width: u16, components: u8) -> Vec<u8> {
    let mut bytes = vec![0xFF, marker, 0x00, 0x0B, precision];
    bytes.extend_from_slice(&height.to_be_bytes());
    bytes.extend_from_slice(&width.to_be_bytes());
    bytes.push(components);
    bytes
}

fn same_as_lofty(bytes: &[u8]) {
    let ours = jpeg_info(&bytes.to_vec());
    let theirs = lofty::PictureInformation::from_jpeg(bytes).ok().map(|i| PictureInfo {
        width: i.width,
        height: i.height,
        color_depth: i.color_depth,
        num_colors: i.num_colors,
    });
    assert_eq!(ours, theirs);
}

#[test]
fn reads_a_baseline_frame() {
    let bytes = header(16, &frame(0xC0, 8, 480, 640, 3));
    assert_eq!(
        jpeg_info(&bytes),
        Some(PictureInfo { width: 640, height: 480, color_depth: 24, num_colors: 0 })
    );
    same_as_lofty(&bytes);
}

#[test]
fn reads_a_progressive_frame_behind_other_segments() {
    let mut rest = vec![0xFF, 0xDB, 0x00, 0x05, 1, 2, 3];
    rest.extend_from_slice(&[0xFF, 0xC4, 0x00, 0x02]);
    rest.extend_from_slice(&frame(0xC2, 12, 1, 65535, 1));
    let bytes = header(2, &rest);
    assert_eq!(
        jpeg_info(&bytes),
        Some(PictureInfo { width: 65535, height: 1, color_depth: 12, num_colors: 0 })
    );
    same_as_lofty(&bytes);
}

#[test]
fn refuses_what_is_no_jpeg() {
    assert_eq!(jpeg_info(&vec![]), None);
    assert_eq!(jpeg_info(&vec![0xFF, 0xD8, 0xFF]), None);
    assert_eq!(jpeg_info(&vec![0xFF, 0xD8, 0xFF, 0xE0, 0x00]), None);
    assert_eq!(jpeg_info(&b"\x89PNG\r\n\x1a\n rest of it".to_vec()), None);
    same_as_lofty(b"\x89PNG\r\n\x1a\n rest of it");
    same_as_lofty(&[0xFF, 0xD8, 0xFF]);
}

#[test]
fn refuses_a_first_length_below_two() {
    let bytes = header(1, &frame(0xC0, 8, 1, 1, 3));
    assert_eq!(jpeg_info(&bytes), None);
    same_as_lofty(&bytes);
}

#[test]
fn refuses_scan_data_before_a_frame() {
    let mut rest = vec![0xFF, 0xDA, 0x00, 0x02];
    rest.extend_from_slice(&frame(0xC0, 8, 1, 1, 3));
    let bytes = header(2, &rest);
    assert_eq!(jpeg_info(&bytes), None);
    same_as_lofty(&bytes);
}

#[test]
fn refuses_a_truncated_frame() {
    let mut bytes = header(2, &frame(0xC0, 8, 1, 1, 3));
    bytes.pop();
    assert_eq!(jpeg_info(&bytes), None);
    same_as_lofty(&bytes);
}

#[test]
fn refuses_a_segment_that_runs_past_the_end() {
    let bytes = header(2, &[0xFF, 0xE1, 0x00, 0x40, 1, 2, 3]);
    assert_eq!(jpeg_info(&bytes), None);
    same_as_lofty(&bytes);
    let bytes = header(400, &[])[..20].to_vec();
    assert_eq!(jpeg_info(&bytes), None);
    same_as_lofty(&bytes);
}

#[test]
fn refuses_a_segment_length_below_two() {
    let mut rest = vec![0xFF, 0xE1, 0x00, 0x01];
    rest.extend_from_slice(&frame(0xC0, 8, 1, 1, 3));
    let bytes = header(2, &rest);
    assert_eq!(jpeg_info(&bytes), None);
}

#[test]
fn refuses_bytes_that_begin_no_segment() {
    let bytes = header(2, &[0x00, 0xC0, 0x00, 0x0B, 8, 0, 1, 0, 1, 3]);
    assert_eq!(jpeg_info(&bytes), None);
    same_as_lofty(&bytes);
}

#[test]
fn colour_depth_does_not_wrap() {
    let bytes = header(2, &frame(0xC0, 16, 2, 2, 32));
    assert_eq!(
        jpeg_info(&bytes),
        Some(PictureInfo { width: 2, height: 2, color_depth: 512, num_colors: 0 })
    );
}
