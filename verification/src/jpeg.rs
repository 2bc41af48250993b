//! Reading the size and the colour depth of a JPEG image from its header.
//!
//! A JPEG file is a start marker followed by segments. Each segment begins
//! with the byte `FF`, a marker byte and a two-byte length that counts itself.
//! The frame header, marker `C0` or `C2`, holds the sample precision, the
//! height, the width and the number of components.
//!
//! `lofty` reads this header too, but it subtracts from segment lengths and
//! multiplies the precision by the number of components in 8 and 16 bits
//! without a check, which a crafted file can turn into an overflow. Here
//! every offset and length is checked before it is used, and the colour
//! depth is computed in 32 bits.

use vstd::prelude::*;
use crate::vorbis_tag::PictureInfo;

verus! {

/// The number that two bytes make, the first the more significant.
pub open spec fn be16(hi: u8, lo: u8) -> int {
    hi as int * 256 + lo as int
}

/// What the frame header of the segment at `pos` says of the image.
pub open spec fn frame_info(data: Seq<u8>, pos: int) -> PictureInfo {
    PictureInfo {
        width: be16(data[pos + 7], data[pos + 8]) as u32,
        height: be16(data[pos + 5], data[pos + 6]) as u32,
        color_depth: (data[pos + 4] as int * data[pos + 9] as int) as u32,
        num_colors: 0,
    }
}

/// The length that the segment at `pos` gives for itself; it counts its own
/// two bytes and not the two of the marker.
pub open spec fn segment_len(data: Seq<u8>, pos: int) -> int {
    be16(data[pos + 2], data[pos + 3])
}

/// Walks the segments from `pos` to the first frame header. There is none
/// where the bytes at `pos` begin no segment, where the scan data (marker
/// `DA`) comes first, where a length is below 2, or where the bytes end
/// before a segment does.
pub open spec fn jpeg_scan(data: Seq<u8>, pos: int) -> Option<PictureInfo>
    decreases data.len() - pos,
{
    if pos < 0 || pos + 4 > data.len() || data[pos] != 0xFF {
        None
    } else if data[pos + 1] == 0xDA {
        None
    } else if data[pos + 1] == 0xC0 || data[pos + 1] == 0xC2 {
        if pos + 10 > data.len() {
            None
        } else {
            Some(frame_info(data, pos))
        }
    } else if segment_len(data, pos) < 2 || pos + 2 + segment_len(data, pos) > data.len() {
        None
    } else {
        jpeg_scan(data, pos + 2 + segment_len(data, pos))
    }
}

/// What the header of a JPEG says of the image, or none where the bytes are
/// no JPEG with a frame header. The bytes have to start with `FF D8 FF`; the
/// first segment, whose marker is the fourth byte, is skipped by its length.
pub open spec fn jpeg_information(data: Seq<u8>) -> Option<PictureInfo> {
    if data.len() < 6 || data[0] != 0xFF || data[1] != 0xD8 || data[2] != 0xFF {
        None
    } else if be16(data[4], data[5]) < 2 {
        None
    } else {
        jpeg_scan(data, 4 + be16(data[4], data[5]))
    }
}

fn read_be16(data: &Vec<u8>, at: usize) -> (n: usize)
    requires
        at + 1 < data@.len(),
    ensures
        n == be16(data@[at as int], data@[at + 1]),
        n <= 0xFFFF,
{
    let n: usize = data.len();
    let hi: usize = data[at] as usize;
    let lo: usize = data[at + 1] as usize;
    hi * 256 + lo
}

/// Reads the size and the colour depth of a JPEG image from its header.
pub fn jpeg_info(data: &Vec<u8>) -> (info: Option<PictureInfo>)
    ensures
        info == jpeg_information(data@),
{
    let n: usize = data.len();
    if n < 6 || data[0] != 0xFF || data[1] != 0xD8 || data[2] != 0xFF {
        return None;
    }
    let first: usize = read_be16(data, 4);
    if first < 2 {
        return None;
    }
    if first + 4 > n {
        return None;
    }
    let mut pos: usize = first + 4;
    loop
        invariant
            n == data@.len(),
            pos <= n,
            jpeg_information(data@) == jpeg_scan(data@, pos as int),
        decreases n - pos,
    {
        if n - pos < 4 || data[pos] != 0xFF {
            return None;
        }
        let marker: u8 = data[pos + 1];
        let len: usize = read_be16(data, pos + 2);
        if marker == 0xDA {
            return None;
        }
        if marker == 0xC0 || marker == 0xC2 {
            if n - pos < 10 {
                return None;
            }
            let precision: u32 = data[pos + 4] as u32;
            let components: u32 = data[pos + 9] as u32;
            let height: usize = read_be16(data, pos + 5);
            let width: usize = read_be16(data, pos + 7);
            assert(precision * components <= 255 * 255) by (nonlinear_arith)
                requires
                    precision <= 255,
                    components <= 255,
            ;
            return Some(
                PictureInfo {
                    width: width as u32,
                    height: height as u32,
                    color_depth: precision * components,
                    num_colors: 0,
                },
            );
        }
        if len < 2 {
            return None;
        }
        if n - pos < 2 + len {
            return None;
        }
        pos = pos + 2 + len;
    }
}

} // verus!
