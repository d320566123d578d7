//! The wire layout of a Cineon header, as a mathematical model.
//!
//! Every header section is a fixed-width record, so each field sits at a
//! fixed offset from the section start. For each section this module gives
//! two spec functions: the error that decoding the section raises, walking
//! its fields in wire order (`None` when the section decodes), and the
//! relation between a decoded record and the bytes it came from. On top of
//! those stand the whole-header model that the public entry points promise,
//! and the row-size formula for the pixel payload.

use vstd::prelude::*;

verus! {

use crate::header::{
    spec_interleave, spec_orientation, spec_packing, DataFormatInfo, FileInformation, FilmInfo,
    Header, ImageChannel, ImageInfo, OriginationInfo, MAGIC_COOKIE, MAX_ELEMENTS,
};
use crate::parser::{
    magic_ok, spec_endian, spec_i32_at, spec_text, spec_u32_at, text_ok, Endian,
};
use crate::CineonError;

// Absolute offsets of the header regions. Each section's size is fixed, so
// the section starts never move: the magic cookie is followed by the file,
// image, data-format and origination sections, then the 1024-byte film
// region and, when present, the user region.
/// Offset of the file-information section.
pub const FILE_INFO_AT: usize = 4;

/// Offset of the image-information section.
pub const IMAGE_INFO_AT: usize = 192;

/// Offset of the data-format section.
pub const DATA_FORMAT_AT: usize = 680;

/// Offset of the origination section.
pub const ORIGINATION_AT: usize = 712;

/// Offset of the 1024-byte film-information region.
pub const FILM_INFO_AT: usize = 1024;

/// Offset of the user-information region; also where the pixel payload
/// starts when the user region is absent.
pub const USER_INFO_AT: usize = 2048;

/// Byte width of one channel record.
pub const CHANNEL_SIZE: usize = 28;

/// The pre-channel header: everything up to the first channel record.
pub const PRE_CHANNEL_SIZE: usize = 196;

// ---------------------------------------------------------------------------
// File information (188 bytes at `at`)
// ---------------------------------------------------------------------------
/// The first failure among the file-information fields, in wire order.
pub open spec fn file_info_err(b: Seq<u8>, e: Endian, at: int) -> Option<CineonError> {
    if b.len() < at + 28 {
        Some(CineonError::ParserError)
    } else if !text_ok(b, at + 20, 8) {
        Some(CineonError::StringConversion)
    } else if b.len() < at + 128 {
        Some(CineonError::ParserError)
    } else if !text_ok(b, at + 28, 100) {
        Some(CineonError::StringConversion)
    } else if b.len() < at + 140 {
        Some(CineonError::ParserError)
    } else if !text_ok(b, at + 128, 12) {
        Some(CineonError::StringConversion)
    } else if b.len() < at + 152 {
        Some(CineonError::ParserError)
    } else if !text_ok(b, at + 140, 12) {
        Some(CineonError::StringConversion)
    } else if b.len() < at + 188 {
        Some(CineonError::ParserError)
    } else {
        None
    }
}

/// How a decoded file-information record relates to the bytes at `at`.
pub open spec fn file_info_matches(fi: FileInformation, b: Seq<u8>, e: Endian, at: int) -> bool {
    &&& fi.magic_number == MAGIC_COOKIE
    &&& fi.image_offset == spec_u32_at(b, at, e)
    &&& fi.generic_size == spec_u32_at(b, at + 4, e)
    &&& fi.industry_size == spec_u32_at(b, at + 8, e)
    &&& fi.user_size == spec_u32_at(b, at + 12, e)
    &&& fi.file_size == spec_u32_at(b, at + 16, e)
    &&& fi.version@ == spec_text(b, at + 20, 8)
    &&& fi.filename@ == spec_text(b, at + 28, 100)
    &&& fi.creation_date@ == spec_text(b, at + 128, 12)
    &&& fi.creation_time@ == spec_text(b, at + 140, 12)
}

// ---------------------------------------------------------------------------
// Image information (488 bytes at `at`); channel k sits at `at + 4 + 28 k`
// ---------------------------------------------------------------------------
/// The first failure among the image-information fields, in wire order.
/// Everything before the label is numeric, so it only truncates.
pub open spec fn image_info_err(b: Seq<u8>, e: Endian, at: int) -> Option<CineonError> {
    if b.len() < at + 260 {
        Some(CineonError::ParserError)
    } else if b.len() < at + 460 {
        Some(CineonError::ParserError)
    } else if !text_ok(b, at + 260, 200) {
        Some(CineonError::StringConversion)
    } else if b.len() < at + 488 {
        Some(CineonError::ParserError)
    } else {
        None
    }
}

/// How a decoded channel record relates to the bytes at `at`.
pub open spec fn channel_matches(c: ImageChannel, b: Seq<u8>, e: Endian, at: int) -> bool {
    &&& c.designator@ =~= seq![b[at], b[at + 1]]
    &&& c.bit_depth == b[at + 2]
    &&& c.pixels_per_line == spec_u32_at(b, at + 4, e)
    &&& c.lines_per_element == spec_u32_at(b, at + 8, e)
    &&& c.min_data == spec_u32_at(b, at + 12, e)
    &&& c.min_quantity == spec_u32_at(b, at + 16, e)
    &&& c.max_data == spec_u32_at(b, at + 20, e)
    &&& c.max_quantity == spec_u32_at(b, at + 24, e)
}

/// How a decoded image-information record relates to the bytes at `at`.
pub open spec fn image_info_matches(ii: ImageInfo, b: Seq<u8>, e: Endian, at: int) -> bool {
    &&& ii.image_orientation == spec_orientation(b[at])
    &&& ii.number_of_elements == b[at + 1]
    &&& ii.channel@.len() == MAX_ELEMENTS
    &&& forall|k: int|
        0 <= k < MAX_ELEMENTS ==> channel_matches(
            #[trigger] ii.channel@[k],
            b,
            e,
            at + 4 + CHANNEL_SIZE * k,
        )
    &&& ii.white_point@ =~= seq![spec_u32_at(b, at + 228, e), spec_u32_at(b, at + 232, e)]
    &&& ii.red_primary@ =~= seq![spec_u32_at(b, at + 236, e), spec_u32_at(b, at + 240, e)]
    &&& ii.green_primary@ =~= seq![spec_u32_at(b, at + 244, e), spec_u32_at(b, at + 248, e)]
    &&& ii.blue_primary@ =~= seq![spec_u32_at(b, at + 252, e), spec_u32_at(b, at + 256, e)]
    &&& ii.label_text@ == spec_text(b, at + 260, 200)
}

// ---------------------------------------------------------------------------
// Data format information (32 bytes at `at`); all fields numeric
// ---------------------------------------------------------------------------
/// The first failure among the data-format fields: the section only
/// truncates.
pub open spec fn data_format_err(b: Seq<u8>, e: Endian, at: int) -> Option<CineonError> {
    if b.len() < at + 32 {
        Some(CineonError::ParserError)
    } else {
        None
    }
}

/// How a decoded data-format record relates to the bytes at `at`.
pub open spec fn data_format_matches(d: DataFormatInfo, b: Seq<u8>, e: Endian, at: int) -> bool {
    &&& d.interleave == spec_interleave(b[at])
    &&& d.packing == spec_packing(b[at + 1])
    &&& d.data_sign == (b[at + 2] != 0)
    &&& d.image_sense == (b[at + 3] != 0)
    &&& d.line_padding == Some(spec_u32_at(b, at + 4, e))
    &&& d.channel_padding == Some(spec_u32_at(b, at + 8, e))
}

// ---------------------------------------------------------------------------
// Origination information (312 bytes at `at`)
// ---------------------------------------------------------------------------
/// The first failure among the origination fields, in wire order.
pub open spec fn origination_err(b: Seq<u8>, e: Endian, at: int) -> Option<CineonError> {
    if b.len() < at + 108 {
        Some(CineonError::ParserError)
    } else if !text_ok(b, at + 8, 100) {
        Some(CineonError::StringConversion)
    } else if b.len() < at + 120 {
        Some(CineonError::ParserError)
    } else if !text_ok(b, at + 108, 12) {
        Some(CineonError::StringConversion)
    } else if b.len() < at + 132 {
        Some(CineonError::ParserError)
    } else if !text_ok(b, at + 120, 12) {
        Some(CineonError::StringConversion)
    } else if b.len() < at + 196 {
        Some(CineonError::ParserError)
    } else if !text_ok(b, at + 132, 64) {
        Some(CineonError::StringConversion)
    } else if b.len() < at + 228 {
        Some(CineonError::ParserError)
    } else if !text_ok(b, at + 196, 32) {
        Some(CineonError::StringConversion)
    } else if b.len() < at + 260 {
        Some(CineonError::ParserError)
    } else if !text_ok(b, at + 228, 32) {
        Some(CineonError::StringConversion)
    } else if b.len() < at + 312 {
        Some(CineonError::ParserError)
    } else {
        None
    }
}

/// How a decoded origination record relates to the bytes at `at`.
pub open spec fn origination_matches(o: OriginationInfo, b: Seq<u8>, e: Endian, at: int) -> bool {
    &&& o.x_offset == spec_i32_at(b, at, e)
    &&& o.y_offset == spec_i32_at(b, at + 4, e)
    &&& o.source_image_file_name@ == spec_text(b, at + 8, 100)
    &&& o.source_date@ == spec_text(b, at + 108, 12)
    &&& o.source_time@ == spec_text(b, at + 120, 12)
    &&& o.input_device@ == spec_text(b, at + 132, 64)
    &&& o.input_device_model_number@ == spec_text(b, at + 196, 32)
    &&& o.input_device_serial_number@ == spec_text(b, at + 228, 32)
    &&& o.x_device_pitch == spec_u32_at(b, at + 260, e)
    &&& o.y_device_pitch == spec_u32_at(b, at + 264, e)
    &&& o.gamma == spec_u32_at(b, at + 268, e)
}

// ---------------------------------------------------------------------------
// Film information (1024 bytes at `at`)
// ---------------------------------------------------------------------------
/// The first failure among the film-information fields, in wire order.
pub open spec fn film_info_err(b: Seq<u8>, e: Endian, at: int) -> Option<CineonError> {
    if b.len() < at + 44 {
        Some(CineonError::ParserError)
    } else if !text_ok(b, at + 12, 32) {
        Some(CineonError::StringConversion)
    } else if b.len() < at + 84 {
        Some(CineonError::ParserError)
    } else if !text_ok(b, at + 52, 32) {
        Some(CineonError::StringConversion)
    } else if b.len() < at + 284 {
        Some(CineonError::ParserError)
    } else if !text_ok(b, at + 84, 200) {
        Some(CineonError::StringConversion)
    } else if b.len() < at + 1024 {
        Some(CineonError::ParserError)
    } else {
        None
    }
}

/// How a decoded film-information record relates to the bytes at `at`.
pub open spec fn film_info_matches(f: FilmInfo, b: Seq<u8>, e: Endian, at: int) -> bool {
    &&& f.film_manufacturing_id_code == b[at]
    &&& f.film_type == b[at + 1]
    &&& f.perfs_offset == b[at + 2]
    &&& f.prefix == spec_u32_at(b, at + 4, e)
    &&& f.count == spec_u32_at(b, at + 8, e)
    &&& f.format@ == spec_text(b, at + 12, 32)
    &&& f.frame_position == spec_u32_at(b, at + 44, e)
    &&& f.frame_rate == spec_u32_at(b, at + 48, e)
    &&& f.frame_id@ == spec_text(b, at + 52, 32)
    &&& f.slate_info@ == spec_text(b, at + 84, 200)
}

// ---------------------------------------------------------------------------
// The whole header
// ---------------------------------------------------------------------------
/// The one guard that governs both conditional regions: the file declares a
/// non-default image offset and a non-zero user header size.
pub open spec fn spec_guard(b: Seq<u8>, e: Endian) -> bool {
    spec_u32_at(b, FILE_INFO_AT as int, e) > 2048 && spec_user_size(b, e) != 0
}

/// The user header size declared in the file information.
pub open spec fn spec_user_size(b: Seq<u8>, e: Endian) -> u32 {
    spec_u32_at(b, FILE_INFO_AT + 12, e)
}

/// The error that decoding the header of `b` raises, or `None` when the
/// whole header decodes: the magic cookie first, then each section in file
/// order, then the conditional film and user regions.
pub open spec fn spec_header_err(b: Seq<u8>) -> Option<CineonError> {
    if !magic_ok(b) {
        Some(CineonError::NotCineonImage)
    } else {
        let e = spec_endian(b);
        if file_info_err(b, e, FILE_INFO_AT as int) is Some {
            file_info_err(b, e, FILE_INFO_AT as int)
        } else if image_info_err(b, e, IMAGE_INFO_AT as int) is Some {
            image_info_err(b, e, IMAGE_INFO_AT as int)
        } else if data_format_err(b, e, DATA_FORMAT_AT as int) is Some {
            data_format_err(b, e, DATA_FORMAT_AT as int)
        } else if origination_err(b, e, ORIGINATION_AT as int) is Some {
            origination_err(b, e, ORIGINATION_AT as int)
        } else if spec_guard(b, e) {
            if film_info_err(b, e, FILM_INFO_AT as int) is Some {
                film_info_err(b, e, FILM_INFO_AT as int)
            } else if b.len() < USER_INFO_AT + spec_user_size(b, e) {
                Some(CineonError::ParserError)
            } else {
                None
            }
        } else {
            if b.len() < USER_INFO_AT as int {
                Some(CineonError::ParserError)
            } else {
                None
            }
        }
    }
}

/// How a fully decoded header relates to the buffer it came from: each
/// section relates to its fixed region, and the film and user regions are
/// present exactly when the guard holds.
pub open spec fn header_matches(h: Header, b: Seq<u8>) -> bool {
    let e = spec_endian(b);
    &&& file_info_matches(h.file_info, b, e, FILE_INFO_AT as int)
    &&& image_info_matches(h.image_info, b, e, IMAGE_INFO_AT as int)
    &&& data_format_matches(h.data_format_info, b, e, DATA_FORMAT_AT as int)
    &&& origination_matches(h.origination_info, b, e, ORIGINATION_AT as int)
    &&& if spec_guard(b, e) {
        &&& h.film_info matches Some(f) && film_info_matches(f, b, e, FILM_INFO_AT as int)
        &&& h.user_info matches Some(u) && u@ == b.subrange(
            USER_INFO_AT as int,
            USER_INFO_AT + spec_user_size(b, e),
        )
    } else {
        h.film_info is None && h.user_info is None
    }
}

/// Where the pixel payload starts: right after the user region, or right
/// after the fixed film region when the user region is absent.
pub open spec fn spec_data_start(b: Seq<u8>) -> int {
    if spec_guard(b, spec_endian(b)) {
        USER_INFO_AT + spec_user_size(b, spec_endian(b))
    } else {
        USER_INFO_AT as int
    }
}

// ---------------------------------------------------------------------------
// Field-for-field equality of decoded headers
// ---------------------------------------------------------------------------
/// Field-for-field equality of two file-information records, text fields
/// compared by their characters.
pub open spec fn file_info_eq(x: FileInformation, y: FileInformation) -> bool {
    &&& x.magic_number == y.magic_number
    &&& x.image_offset == y.image_offset
    &&& x.generic_size == y.generic_size
    &&& x.industry_size == y.industry_size
    &&& x.user_size == y.user_size
    &&& x.file_size == y.file_size
    &&& x.version@ == y.version@
    &&& x.filename@ == y.filename@
    &&& x.creation_date@ == y.creation_date@
    &&& x.creation_time@ == y.creation_time@
}

/// Field-for-field equality of two channel records.
pub open spec fn channel_eq(x: ImageChannel, y: ImageChannel) -> bool {
    &&& x.designator@ =~= y.designator@
    &&& x.bit_depth == y.bit_depth
    &&& x.pixels_per_line == y.pixels_per_line
    &&& x.lines_per_element == y.lines_per_element
    &&& x.min_data == y.min_data
    &&& x.min_quantity == y.min_quantity
    &&& x.max_data == y.max_data
    &&& x.max_quantity == y.max_quantity
}

/// Field-for-field equality of two image-information records.
pub open spec fn image_info_eq(x: ImageInfo, y: ImageInfo) -> bool {
    &&& x.image_orientation == y.image_orientation
    &&& x.number_of_elements == y.number_of_elements
    &&& x.channel@.len() == y.channel@.len()
    &&& forall|k: int|
        0 <= k < x.channel@.len() ==> channel_eq(#[trigger] x.channel@[k], y.channel@[k])
    &&& x.white_point@ =~= y.white_point@
    &&& x.red_primary@ =~= y.red_primary@
    &&& x.green_primary@ =~= y.green_primary@
    &&& x.blue_primary@ =~= y.blue_primary@
    &&& x.label_text@ == y.label_text@
}

/// Field-for-field equality of two data-format records.
pub open spec fn data_format_eq(x: DataFormatInfo, y: DataFormatInfo) -> bool {
    &&& x.interleave == y.interleave
    &&& x.packing == y.packing
    &&& x.data_sign == y.data_sign
    &&& x.image_sense == y.image_sense
    &&& x.line_padding == y.line_padding
    &&& x.channel_padding == y.channel_padding
}

/// Field-for-field equality of two origination records.
pub open spec fn origination_eq(x: OriginationInfo, y: OriginationInfo) -> bool {
    &&& x.x_offset == y.x_offset
    &&& x.y_offset == y.y_offset
    &&& x.source_image_file_name@ == y.source_image_file_name@
    &&& x.source_date@ == y.source_date@
    &&& x.source_time@ == y.source_time@
    &&& x.input_device@ == y.input_device@
    &&& x.input_device_model_number@ == y.input_device_model_number@
    &&& x.input_device_serial_number@ == y.input_device_serial_number@
    &&& x.x_device_pitch == y.x_device_pitch
    &&& x.y_device_pitch == y.y_device_pitch
    &&& x.gamma == y.gamma
}

/// Field-for-field equality of two film-information records.
pub open spec fn film_info_eq(x: FilmInfo, y: FilmInfo) -> bool {
    &&& x.film_manufacturing_id_code == y.film_manufacturing_id_code
    &&& x.film_type == y.film_type
    &&& x.perfs_offset == y.perfs_offset
    &&& x.prefix == y.prefix
    &&& x.count == y.count
    &&& x.format@ == y.format@
    &&& x.frame_position == y.frame_position
    &&& x.frame_rate == y.frame_rate
    &&& x.frame_id@ == y.frame_id@
    &&& x.slate_info@ == y.slate_info@
}

/// Field-for-field equality of two decoded headers.
pub open spec fn header_eq(x: Header, y: Header) -> bool {
    &&& file_info_eq(x.file_info, y.file_info)
    &&& image_info_eq(x.image_info, y.image_info)
    &&& data_format_eq(x.data_format_info, y.data_format_info)
    &&& origination_eq(x.origination_info, y.origination_info)
    &&& match (x.film_info, y.film_info) {
        (Some(f1), Some(f2)) => film_info_eq(f1, f2),
        (None, None) => true,
        _ => false,
    }
    &&& match (x.user_info, y.user_info) {
        (Some(u1), Some(u2)) => u1@ == u2@,
        (None, None) => true,
        _ => false,
    }
}

// ---------------------------------------------------------------------------
// Laws of the decoder
// ---------------------------------------------------------------------------
/// Decoding is deterministic: two headers decoded from the same buffer are
/// field-for-field identical, since every field is pinned to a function of
/// the buffer's bytes.
pub proof fn lemma_decode_deterministic(h1: Header, h2: Header, b: Seq<u8>)
    requires
        header_matches(h1, b),
        header_matches(h2, b),
    ensures
        header_eq(h1, h2),
{
    assert forall|k: int| 0 <= k < h1.image_info.channel@.len() implies channel_eq(
        #[trigger] h1.image_info.channel@[k],
        h2.image_info.channel@[k],
    ) by {
        assert(channel_matches(
            h1.image_info.channel@[k],
            b,
            spec_endian(b),
            IMAGE_INFO_AT + 4 + CHANNEL_SIZE * k,
        ));
        assert(channel_matches(
            h2.image_info.channel@[k],
            b,
            spec_endian(b),
            IMAGE_INFO_AT + 4 + CHANNEL_SIZE * k,
        ));
    }
}

/// A buffer shorter than the fixed pre-channel header cannot decode: the
/// header machine always fails on it, and where the magic cookie is present
/// and every text field that fits in the buffer decodes, the failure is the
/// truncation error.
pub proof fn lemma_truncated_header_fails(b: Seq<u8>)
    requires
        b.len() < PRE_CHANNEL_SIZE,
    ensures
        spec_header_err(b) is Some,
        magic_ok(b) && (b.len() >= 32 ==> text_ok(b, 24, 8)) && (b.len() >= 132 ==> text_ok(
            b,
            32,
            100,
        )) && (b.len() >= 144 ==> text_ok(b, 132, 12)) && (b.len() >= 156 ==> text_ok(b, 144, 12))
            ==> spec_header_err(b) == Some(CineonError::ParserError),
{
}

/// Both conditional regions follow the one guard: when the file declares
/// `image_offset <= 2048` or `user_size == 0` the decoded header carries
/// neither film information nor user information, whatever bytes sit in
/// that file region; when it declares both, the user information holds
/// exactly `user_size` bytes.
pub proof fn lemma_conditional_sections(h: Header, b: Seq<u8>)
    requires
        spec_header_err(b) is None,
        header_matches(h, b),
    ensures
        !spec_guard(b, spec_endian(b)) ==> h.film_info is None && h.user_info is None,
        spec_guard(b, spec_endian(b)) ==> h.film_info is Some && (h.user_info matches Some(u)
            && u@.len() == spec_user_size(b, spec_endian(b))),
{
}

// ---------------------------------------------------------------------------
// Row size
// ---------------------------------------------------------------------------
/// Bytes per scan line for `samples` samples per pixel of `depth` bits over
/// `width` pixels: each bit depth rounds the packed bits up to its own
/// alignment boundary.
pub open spec fn spec_bytes_per_row(samples: int, depth: int, width: int, pad: bool) -> int {
    let bits = samples * width * depth;
    if depth == 10 && pad {
        4 * ((32 * ((samples * width + 2) / 3) + 31) / 32)
    } else if depth == 12 && pad {
        2 * ((16 * samples * width + 15) / 16)
    } else if depth == 16 {
        2 * ((bits + 8) / 16)
    } else if depth == 64 {
        8 * ((bits + 63) / 64)
    } else {
        4 * ((bits + 31) / 32)
    }
}

/// Whether the row-size computation for these arguments stays inside
/// unsigned 32-bit arithmetic.
pub open spec fn row_fits_u32(samples: int, depth: int, width: int, pad: bool) -> bool {
    &&& samples * width <= u32::MAX
    &&& if depth == 10 && pad {
        samples * width + 2 <= u32::MAX && 32 * ((samples * width + 2) / 3) + 31 <= u32::MAX
    } else if depth == 12 && pad {
        16 * samples * width + 15 <= u32::MAX
    } else {
        samples * width * depth + 63 <= u32::MAX
    }
}

/// The number of elements interleaved in a pixel: one for a monochrome
/// image, three otherwise.
pub open spec fn spec_samples_per_pixel(b: Seq<u8>) -> int {
    if b[IMAGE_INFO_AT + 1] == 1 {
        1
    } else {
        3
    }
}

/// The byte length of the pixel payload that the header of `b` declares:
/// lines times bytes per row, from the first channel's dimensions and bit
/// depth.
pub open spec fn spec_payload_len(b: Seq<u8>) -> int {
    let e = spec_endian(b);
    let depth = b[IMAGE_INFO_AT + 4 + 2] as int;
    let width = spec_u32_at(b, IMAGE_INFO_AT + 4 + 4, e) as int;
    let lines = spec_u32_at(b, IMAGE_INFO_AT + 4 + 8, e) as int;
    lines * spec_bytes_per_row(spec_samples_per_pixel(b), depth, width, true)
}

} // verus!
