//! The frame header of JPEG content, read ahead of the decoder.
//!
//! The decoder takes one byte for every sample of a frame, or two where the frame has a
//! single component of more than eight bits. A frame of the lossless process may carry
//! samples of any depth from two to sixteen bits, and those that do not fit are more
//! than the decoder has room for. Content with such a frame is told apart here, so that
//! it is refused before it is decoded.

use vstd::prelude::*;

verus! {

/// First byte of every marker.
pub const MARKER_PREFIX: u8 = 0xFF;

/// Code of the marker that starts an image.
pub const START_OF_IMAGE: u8 = 0xD8;

/// Sample depth in bits that every process decodes.
pub const COMMON_PRECISION: u8 = 8;

/// Whether `code` is the code of a marker that starts a frame: one of the sixteen from
/// `0xC0` on but the three that define Huffman tables, an extension and arithmetic
/// conditioning.
pub open spec fn starts_frame(code: u8) -> bool {
    0xC0 <= code <= 0xCF && code != 0xC4 && code != 0xC8 && code != 0xCC
}

/// Whether `code` starts a frame of a lossless process.
pub open spec fn starts_lossless_frame(code: u8) -> bool {
    code == 0xC3 || code == 0xC7 || code == 0xCB || code == 0xCF
}

/// Whether `code` is the code of a segment that may stand before the frame: Huffman or
/// quantization tables, a restart interval, application data or a comment.
pub open spec fn precedes_frame(code: u8) -> bool {
    code == 0xC4 || code == 0xDB || code == 0xDD || code == 0xFE || 0xE0 <= code <= 0xEF
}

/// Where the first frame header stands that a decoder reaches which reads markers from
/// `at` on: the index of the code of its marker.
///
/// Bytes before a marker are passed over, and so are fill bytes before its code and a
/// prefix that a zero follows. A segment that may stand before the frame is skipped by
/// its length. Any other marker ends the search, as does the end of the content.
pub open spec fn frame_header(content: Seq<u8>, at: int) -> Option<int>
    decreases content.len() - at,
{
    if at < 0 || at + 1 >= content.len() {
        None
    } else if content[at] != MARKER_PREFIX {
        frame_header(content, at + 1)
    } else {
        let code = content[at + 1];
        if code == MARKER_PREFIX {
            frame_header(content, at + 1)
        } else if code == 0 {
            frame_header(content, at + 2)
        } else if starts_frame(code) {
            Some(at + 1)
        } else if precedes_frame(code) && at + 3 < content.len() {
            let length = 256 * content[at + 2] + content[at + 3];
            if 2 <= length && at + 2 + length <= content.len() {
                frame_header(content, at + 2 + length)
            } else {
                None
            }
        } else {
            None
        }
    }
}

/// Whether the decoder has room for the samples of a lossless frame with `components`
/// components of `precision` bits each.
pub open spec fn depth_fits(precision: u8, components: u8) -> bool {
    precision == COMMON_PRECISION || (components == 1 && precision > COMMON_PRECISION)
}

/// Whether `content` starts an image.
pub open spec fn starts_image(content: Seq<u8>) -> bool {
    content.len() >= 2 && content[0] == MARKER_PREFIX && content[1] == START_OF_IMAGE
}

/// Whether the decoder has room for what `content` holds. It has not where `content`
/// starts an image whose first frame is lossless, with its header complete up to the
/// number of components, and of a depth that does not fit. The precision stands three
/// bytes behind the code of the frame's marker, the number of components eight.
pub open spec fn frame_supported(content: Seq<u8>) -> bool {
    starts_image(content) ==> match frame_header(content, 2) {
        Some(code) => starts_lossless_frame(content[code]) && code + 8 < content.len()
            ==> depth_fits(content[code + 3], content[code + 8]),
        None => true,
    }
}

/// A frame header that is found lies within the content and behind where the search
/// began.
pub proof fn lemma_frame_header_within(content: Seq<u8>, at: int)
    ensures
        frame_header(content, at) matches Some(code) ==> at < code < content.len()
            && starts_frame(content[code]),
    decreases content.len() - at,
{
    if at < 0 || at + 1 >= content.len() {
    } else if content[at] != MARKER_PREFIX {
        lemma_frame_header_within(content, at + 1);
    } else {
        let code = content[at + 1];
        if code == MARKER_PREFIX {
            lemma_frame_header_within(content, at + 1);
        } else if code == 0 {
            lemma_frame_header_within(content, at + 2);
        } else if starts_frame(code) {
        } else if precedes_frame(code) && at + 3 < content.len() {
            let length = 256 * content[at + 2] + content[at + 3];
            if 2 <= length && at + 2 + length <= content.len() {
                lemma_frame_header_within(content, at + 2 + length);
            }
        }
    }
}

/// Finds the first frame header that a decoder reaches which reads markers from `from`
/// on, and returns the index of the code of its marker.
pub fn find_frame_header(content: &[u8], from: usize) -> (found: Option<usize>)
    ensures
        match found {
            Some(code) => frame_header(content@, from as int) == Some(code as int) && from < code
                < content@.len(),
            None => frame_header(content@, from as int) is None,
        },
{
    let len = content.len();
    let mut at: usize = from;
    loop
        invariant
            len == content@.len(),
            from <= at,
            frame_header(content@, at as int) == frame_header(content@, from as int),
        decreases len - at,
    {
        if at >= len || len - at < 2 {
            return None;
        }
        if content[at] != MARKER_PREFIX {
            at += 1;
            continue;
        }
        let code = content[at + 1];
        if code == MARKER_PREFIX {
            at += 1;
        } else if code == 0 {
            at += 2;
        } else if 0xC0 <= code && code <= 0xCF && code != 0xC4 && code != 0xC8 && code != 0xCC {
            return Some(at + 1);
        } else if (code == 0xC4 || code == 0xDB || code == 0xDD || code == 0xFE || (0xE0 <= code
            && code <= 0xEF)) && len - at > 3 {
            let length: usize = 256 * (content[at + 2] as usize) + (content[at + 3] as usize);
            if length < 2 || length > len - at - 2 {
                return None;
            }
            at = at + 2 + length;
        } else {
            return None;
        }
    }
}

/// Tells whether the decoder has room for what `content` holds.
pub fn is_frame_supported(content: &[u8]) -> (supported: bool)
    ensures
        supported == frame_supported(content@),
{
    if content.len() < 2 || content[0] != MARKER_PREFIX || content[1] != START_OF_IMAGE {
        return true;
    }
    match find_frame_header(content, 2) {
        Some(code) => {
            let lossless = content[code] == 0xC3 || content[code] == 0xC7 || content[code] == 0xCB
                || content[code] == 0xCF;
            if !lossless || content.len() - code <= 8 {
                true
            } else {
                let precision = content[code + 3];
                let components = content[code + 8];
                precision == COMMON_PRECISION || (components == 1 && precision > COMMON_PRECISION)
            }
        },
        None => true,
    }
}

} // verus!
