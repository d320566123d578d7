//! Tests for the Cineon header decoder: magic-cookie detection, section
//! decoding in both byte orders, the conditional film and user regions, the
//! row-size formula and pixel payload extraction.

use cineon::{Cineon, CineonError, DataFormatInfo, ImageChannel, ImageInfo, Interleave,
    Orientation, Packing};

/// Writes a little-endian u32 into `buf` at `off`.
fn put_le32(buf: &mut [u8], off: usize, v: u32) {
    let b = v.to_le_bytes();
    buf[off] = b[0];
    buf[off + 1] = b[1];
    buf[off + 2] = b[2];
    buf[off + 3] = b[3];
}

/// Writes a big-endian u32 into `buf` at `off`.
fn put_be32(buf: &mut [u8], off: usize, v: u32) {
    let b = v.to_be_bytes();
    buf[off] = b[0];
    buf[off + 1] = b[1];
    buf[off + 2] = b[2];
    buf[off + 3] = b[3];
}

/// Writes a byte string into `buf` at `off`.
fn put_text(buf: &mut [u8], off: usize, s: &[u8]) {
    for (i, c) in s.iter().enumerate() {
        buf[off + i] = *c;
    }
}

/// A minimal little-endian file: magic cookie, `image_offset = 2048`,
/// `user_size = 0`, one element whose first channel is 8-bit, `width` pixels
/// per line and `lines` lines, followed by `payload` bytes of pixel data.
fn minimal_le(width: u32, lines: u32, payload: &[u8]) -> Vec<u8> {
    let mut buf = vec![0u8; 2048 + payload.len()];
    buf[0] = 0xd7;
    buf[1] = 0x5f;
    buf[2] = 0x2a;
    buf[3] = 0x80;
    put_le32(&mut buf, 4, 2048); // image_offset
    put_le32(&mut buf, 16, 0); // user_size
    buf[193] = 1; // number_of_elements
    buf[198] = 8; // channel 0 bit_depth
    put_le32(&mut buf, 200, width); // channel 0 pixels_per_line
    put_le32(&mut buf, 204, lines); // channel 0 lines_per_element
    for (i, c) in payload.iter().enumerate() {
        buf[2048 + i] = *c;
    }
    buf
}

/// A big-endian header skeleton of 2048 zero bytes plus the magic cookie,
/// with `image_offset = 2048` and `user_size = 0`.
fn minimal_be() -> Vec<u8> {
    let mut buf = vec![0u8; 2048];
    buf[0] = 0x80;
    buf[1] = 0x2a;
    buf[2] = 0x5f;
    buf[3] = 0xd7;
    put_be32(&mut buf, 4, 2048);
    buf
}

// The sample-file tests of the decoder, run against a synthetic minimal
// image in place of a sample file.
#[test]
fn is_cineon() {
    let data = minimal_le(2, 1, &[1, 2, 3, 4]);
    assert_eq!(Cineon::default().is_cineon(&data), true);
}

#[test]
fn read_header() {
    let data = minimal_le(2, 1, &[1, 2, 3, 4]);
    assert!(Cineon::default().parse_header(&data).is_ok());
}

#[test]
fn read_image() {
    let data = minimal_le(2, 1, &[1, 2, 3, 4]);
    assert!(Cineon::default().parse_image(&data).is_ok());
}

#[test]
fn magic_cookie_both_byte_orders() {
    let c = Cineon::default();
    assert!(c.is_cineon(&[0x80, 0x2a, 0x5f, 0xd7]));
    assert!(c.is_cineon(&[0xd7, 0x5f, 0x2a, 0x80]));
    assert!(!c.is_cineon(&[0x80, 0x2a, 0x5f, 0xd8]));
    assert!(!c.is_cineon(&[0x00, 0x00, 0x00, 0x00]));
    assert!(!c.is_cineon(&[0x80, 0x2a, 0x5f]));
    assert!(!c.is_cineon(&[]));
}

#[test]
fn is_big_endian_checks_byte_order() {
    assert!(Cineon::is_big_endian(&[0x80, 0x2a, 0x5f, 0xd7]));
    assert!(!Cineon::is_big_endian(&[0xd7, 0x5f, 0x2a, 0x80]));
}

#[test]
fn not_cineon_error_on_wrong_magic() {
    let buf = vec![9u8; 2100];
    match Cineon::default().parse_header(&buf) {
        Err(CineonError::NotCineonImage) => {}
        _ => panic!("expected the not-a-cineon-image error"),
    }
}

#[test]
fn short_buffer_fails_with_truncation() {
    // A valid magic cookie followed by too few bytes for the pre-channel
    // header: decoding fails with the truncation error and yields no header.
    for len in [4usize, 20, 100, 195] {
        let mut buf = vec![0u8; len];
        buf[0] = 0xd7;
        buf[1] = 0x5f;
        buf[2] = 0x2a;
        if len > 3 {
            buf[3] = 0x80;
        }
        match Cineon::default().parse_header(&buf) {
            Err(CineonError::ParserError) => {}
            _ => panic!("expected the truncation error at length {}", len),
        }
    }
}

#[test]
fn truncated_mid_header_fails() {
    let data = minimal_le(2, 1, &[]);
    let cut = &data[..1000];
    match Cineon::default().parse_header(cut) {
        Err(CineonError::ParserError) => {}
        _ => panic!("expected the truncation error"),
    }
}

#[test]
fn film_and_user_absent_when_guard_off() {
    // user_size == 0: both conditional sections absent, whatever sits in
    // the film-info slot.
    let mut data = minimal_le(2, 1, &[1, 2, 3, 4]);
    for i in 1024..2048 {
        data[i] = 0xAB; // junk in the film-info slot
    }
    let h = Cineon::default().parse_header(&data).unwrap();
    assert!(h.film_info.is_none());
    assert!(h.user_info.is_none());

    // image_offset <= 2048 with a non-zero user_size: still absent.
    let mut data2 = minimal_le(2, 1, &[1, 2, 3, 4]);
    put_le32(&mut data2, 16, 64);
    let h2 = Cineon::default().parse_header(&data2).unwrap();
    assert!(h2.film_info.is_none());
    assert!(h2.user_info.is_none());
}

#[test]
fn user_info_length_matches_declared_size() {
    let mut data = minimal_le(2, 1, &[]);
    data.extend_from_slice(&[7, 8, 9, 10, 11]); // user region
    put_le32(&mut data, 4, 4096); // image_offset > 2048
    put_le32(&mut data, 16, 5); // user_size
    let h = Cineon::default().parse_header(&data).unwrap();
    assert!(h.film_info.is_some());
    let user = h.user_info.expect("user info present");
    assert_eq!(user.len(), 5);
    assert_eq!(user, vec![7, 8, 9, 10, 11]);
}

#[test]
fn user_region_truncated_fails() {
    let mut data = minimal_le(2, 1, &[]);
    data.extend_from_slice(&[7, 8]); // fewer bytes than user_size declares
    put_le32(&mut data, 4, 4096);
    put_le32(&mut data, 16, 5);
    match Cineon::default().parse_header(&data) {
        Err(CineonError::ParserError) => {}
        _ => panic!("expected the truncation error"),
    }
}

#[test]
fn decoding_is_deterministic() {
    let mut data = minimal_le(2, 1, &[]);
    data.extend_from_slice(&[7, 8, 9]);
    put_le32(&mut data, 4, 4096);
    put_le32(&mut data, 16, 3);
    put_text(&mut data, 24, b"v4.5");
    let c = Cineon::default();
    let h1 = c.parse_header(&data).unwrap();
    let h2 = c.parse_header(&data).unwrap();
    assert_eq!(h1, h2);
}

#[test]
fn row_size_depth_10_padded() {
    assert_eq!(Cineon::bytes_per_row(3, 10, 1920, true), 7680);
}

#[test]
fn row_size_depth_8() {
    assert_eq!(Cineon::bytes_per_row(1, 8, 4, true), 4);
}

#[test]
fn row_size_other_depths() {
    // depth 10 unpadded falls back to 32-bit word packing
    assert_eq!(Cineon::bytes_per_row(3, 10, 10, false), 40);
    // depth 12 padded rounds to a 16-bit boundary
    assert_eq!(Cineon::bytes_per_row(3, 12, 2, true), 12);
    // depth 16
    assert_eq!(Cineon::bytes_per_row(1, 16, 3, true), 6);
    // depth 64
    assert_eq!(Cineon::bytes_per_row(1, 64, 1, true), 8);
    // an unrecognized depth falls back to 32-bit word packing
    assert_eq!(Cineon::bytes_per_row(1, 7, 5, true), 8);
    // depth 1
    assert_eq!(Cineon::bytes_per_row(1, 1, 33, true), 8);
}

#[test]
fn parse_image_minimal() {
    // 8-bit monochrome, 2 pixels per line, 1 line: one 4-byte padded row.
    let data = minimal_le(2, 1, &[1, 2, 3, 4]);
    let img = Cineon::default().parse_image(&data).unwrap();
    assert_eq!(img.pixels, vec![1, 2, 3, 4]);
    assert_eq!(img.header.image_info.number_of_elements, 1);
}

#[test]
fn parse_image_payload_truncated() {
    let data = minimal_le(2, 1, &[1, 2, 3]);
    match Cineon::default().parse_image(&data) {
        Err(CineonError::ParserError) => {}
        _ => panic!("expected the truncation error"),
    }
}

#[test]
fn parse_image_three_planes() {
    // Three elements: 3 samples per pixel, 8-bit, 1 pixel per line, 2
    // lines; each row is ceil(3*8/32) words = 4 bytes.
    let mut data = minimal_le(1, 2, &[0; 8]);
    data[193] = 3;
    let img = Cineon::default().parse_image(&data).unwrap();
    assert_eq!(img.pixels.len(), 8);
}

#[test]
fn version_trailing_zeros_trimmed() {
    let mut data = minimal_le(2, 1, &[1, 2, 3, 4]);
    put_text(&mut data, 24, b"v1.0\0\0\0\0");
    let h = Cineon::default().parse_header(&data).unwrap();
    assert_eq!(h.file_info.version, "v1.0");
}

#[test]
fn interior_zero_bytes_kept() {
    let mut data = minimal_le(2, 1, &[1, 2, 3, 4]);
    put_text(&mut data, 32, b"a\0b");
    let h = Cineon::default().parse_header(&data).unwrap();
    assert_eq!(h.file_info.filename, "a\0b");
}

#[test]
fn invalid_text_fails_with_string_conversion() {
    let mut data = minimal_le(2, 1, &[1, 2, 3, 4]);
    data[24] = 0xFF; // not valid UTF-8 in the version field
    match Cineon::default().parse_header(&data) {
        Err(CineonError::StringConversion) => {}
        _ => panic!("expected the string conversion error"),
    }
}

#[test]
fn file_info_fields_little_endian() {
    let mut data = minimal_le(2, 1, &[1, 2, 3, 4]);
    put_le32(&mut data, 8, 1664); // generic_size
    put_le32(&mut data, 12, 384); // industry_size
    put_le32(&mut data, 20, 2052); // file_size
    put_text(&mut data, 24, b"v4.5");
    put_text(&mut data, 32, b"clip.cin");
    put_text(&mut data, 132, b"2001:01:01");
    put_text(&mut data, 144, b"12:00:00");
    let h = Cineon::default().parse_header(&data).unwrap();
    assert_eq!(h.file_info.magic_number, 0x802A5FD7);
    assert_eq!(h.file_info.image_offset, 2048);
    assert_eq!(h.file_info.generic_size, 1664);
    assert_eq!(h.file_info.industry_size, 384);
    assert_eq!(h.file_info.user_size, 0);
    assert_eq!(h.file_info.file_size, 2052);
    assert_eq!(h.file_info.version, "v4.5");
    assert_eq!(h.file_info.filename, "clip.cin");
    assert_eq!(h.file_info.creation_date, "2001:01:01");
    assert_eq!(h.file_info.creation_time, "12:00:00");
}

#[test]
fn header_fields_big_endian() {
    let mut data = minimal_be();
    buf_set_be_fields(&mut data);
    let h = Cineon::default().parse_header(&data).unwrap();
    assert_eq!(h.file_info.image_offset, 2048);
    assert_eq!(h.image_info.number_of_elements, 2);
    let c0 = h.image_info.channel[0];
    assert_eq!(c0.designator, [1, 2]);
    assert_eq!(c0.bit_depth, 10);
    assert_eq!(c0.pixels_per_line, 1920);
    assert_eq!(c0.lines_per_element, 1080);
    assert_eq!(c0.min_data, 0x3f800000); // bits of 1.0f32
    assert_eq!(h.origination_info.x_offset, -5);
    assert_eq!(h.origination_info.y_offset, 7);
    assert_eq!(h.origination_info.gamma, 0x40000000); // bits of 2.0f32
    assert_eq!(h.image_info.white_point, [0x3f000000, 0x3e800000]);
}

/// Fills a big-endian skeleton with known image and origination values.
fn buf_set_be_fields(data: &mut [u8]) {
    data[193] = 2; // number_of_elements
    data[196] = 1; // channel 0 designator
    data[197] = 2;
    data[198] = 10; // bit_depth
    put_be32(data, 200, 1920);
    put_be32(data, 204, 1080);
    put_be32(data, 208, 1.0f32.to_bits()); // min_data
    put_be32(data, 420, 0.5f32.to_bits()); // white point x
    put_be32(data, 424, 0.25f32.to_bits()); // white point y
    put_be32(data, 712, (-5i32) as u32); // x_offset
    put_be32(data, 716, 7); // y_offset
    put_be32(data, 980, 2.0f32.to_bits()); // gamma
}

#[test]
fn enum_codes_decode() {
    let mut data = minimal_le(2, 1, &[1, 2, 3, 4]);
    data[192] = 3; // orientation
    data[680] = 2; // interleave
    data[681] = 7; // packing
    data[682] = 1; // data_sign
    data[683] = 1; // image_sense
    put_le32(&mut data, 684, 16); // line_padding
    put_le32(&mut data, 688, 32); // channel_padding
    let h = Cineon::default().parse_header(&data).unwrap();
    assert_eq!(h.image_info.image_orientation, Orientation::BottomToTopRightToLeft);
    assert_eq!(h.data_format_info.interleave, Interleave::Channel);
    assert_eq!(h.data_format_info.packing, Packing::PackAsManyAsPossible);
    assert!(h.data_format_info.data_sign);
    assert!(h.data_format_info.image_sense);
    assert_eq!(h.data_format_info.line_padding, Some(16));
    assert_eq!(h.data_format_info.channel_padding, Some(32));
}

#[test]
fn enum_codes_out_of_range_map_to_undefined() {
    let mut data = minimal_le(2, 1, &[1, 2, 3, 4]);
    data[192] = 200; // orientation
    data[680] = 9; // interleave
    data[681] = 99; // packing
    let h = Cineon::default().parse_header(&data).unwrap();
    assert_eq!(h.image_info.image_orientation, Orientation::Undefined);
    assert_eq!(h.data_format_info.interleave, Interleave::Undefined);
    assert_eq!(h.data_format_info.packing, Packing::Undefined);
}

#[test]
fn enum_conversions() {
    assert_eq!(Interleave::from(0), Interleave::Pixel);
    assert_eq!(Interleave::from(1), Interleave::Line);
    assert_eq!(Interleave::from(3), Interleave::Undefined);
    assert_eq!(Packing::from(0), Packing::Packed);
    assert_eq!(Packing::from(5), Packing::LongWordLeft);
    assert_eq!(Packing::from(8), Packing::Undefined);
    assert_eq!(Orientation::from(0), Orientation::TopToBottomLeftToRight);
    assert_eq!(Orientation::from(7), Orientation::RightToLeftBottomToTop);
    assert_eq!(Orientation::from(8), Orientation::Undefined);
}

#[test]
fn film_info_fields_decode() {
    let mut data = minimal_le(2, 1, &[]);
    put_le32(&mut data, 4, 4096);
    put_le32(&mut data, 16, 1);
    data.push(0xEE); // the one user byte
    data[1024] = 11; // film_manufacturing_id_code
    data[1025] = 22; // film_type
    data[1026] = 33; // perfs_offset
    put_le32(&mut data, 1028, 1234); // prefix
    put_le32(&mut data, 1032, 5678); // count
    put_text(&mut data, 1036, b"Academy");
    put_le32(&mut data, 1068, 42); // frame_position
    put_le32(&mut data, 1072, 24.0f32.to_bits()); // frame_rate
    put_text(&mut data, 1076, b"keyframe");
    put_text(&mut data, 1108, b"slate");
    let h = Cineon::default().parse_header(&data).unwrap();
    let f = h.film_info.expect("film info present");
    assert_eq!(f.film_manufacturing_id_code, 11);
    assert_eq!(f.film_type, 22);
    assert_eq!(f.perfs_offset, 33);
    assert_eq!(f.prefix, 1234);
    assert_eq!(f.count, 5678);
    assert_eq!(f.format, "Academy");
    assert_eq!(f.frame_position, 42);
    assert_eq!(f.frame_rate, 24.0f32.to_bits());
    assert_eq!(f.frame_id, "keyframe");
    assert_eq!(f.slate_info, "slate");
    assert_eq!(h.user_info, Some(vec![0xEE]));
}

#[test]
fn multibyte_text_decodes_as_characters() {
    let mut data = minimal_le(2, 1, &[1, 2, 3, 4]);
    put_text(&mut data, 32, "café.cin".as_bytes()); // 9 bytes, 8 characters
    let h = Cineon::default().parse_header(&data).unwrap();
    assert_eq!(h.file_info.filename, "café.cin");
    assert_eq!(h.file_info.filename.chars().count(), 8);
}

#[test]
fn parse_image_big_endian() {
    let mut data = minimal_be();
    data[193] = 1; // number_of_elements
    data[198] = 8; // bit_depth
    put_be32(&mut data, 200, 2); // pixels_per_line
    put_be32(&mut data, 204, 1); // lines_per_element
    data.extend_from_slice(&[9, 8, 7, 6]);
    let img = Cineon::default().parse_image(&data).unwrap();
    assert_eq!(img.pixels, vec![9, 8, 7, 6]);
}

#[test]
fn film_region_errors() {
    // Guard on, but the buffer ends inside the film region.
    let mut data = minimal_le(2, 1, &[]);
    put_le32(&mut data, 4, 4096);
    put_le32(&mut data, 16, 1);
    let cut = &data[..1500];
    match Cineon::default().parse_header(cut) {
        Err(CineonError::ParserError) => {}
        _ => panic!("expected the truncation error"),
    }

    // Guard on, invalid text in the film format field.
    let mut data2 = minimal_le(2, 1, &[]);
    put_le32(&mut data2, 4, 4096);
    put_le32(&mut data2, 16, 1);
    data2.push(0);
    data2[1036] = 0xFE;
    match Cineon::default().parse_header(&data2) {
        Err(CineonError::StringConversion) => {}
        _ => panic!("expected the string conversion error"),
    }
}

#[test]
fn defaults() {
    let d = DataFormatInfo::default();
    assert_eq!(d.interleave, Interleave::Undefined);
    assert_eq!(d.packing, Packing::Undefined);
    assert!(!d.data_sign);
    assert!(!d.image_sense);
    assert_eq!(d.line_padding, None);
    assert_eq!(d.channel_padding, None);

    let i = ImageInfo::default();
    assert_eq!(i.image_orientation, Orientation::Undefined);
    assert_eq!(i.number_of_elements, 1);
    assert_eq!(i.channel.len(), 8);
    assert_eq!(i.channel[0], ImageChannel::default());
    assert_eq!(i.label_text, "");

    let c = ImageChannel::default();
    assert_eq!(c.bit_depth, 0);
    assert_eq!(c.designator, [0, 0]);
}
