//! Decoder for the Cineon motion-picture image container format.
//!
//! The decoder reads a complete in-memory byte buffer: it validates the
//! 4-byte magic cookie, infers the file's byte order from it, decodes the
//! fixed-layout header sections, conditionally decodes the film-information
//! and user-information regions, and optionally extracts the raw pixel
//! payload whose length is computed from the first channel's dimensions and
//! bit depth.

pub mod header;
pub mod parser;
pub mod wire;

pub use header::{
    DataFormatInfo, FileInformation, FilmInfo, Header, ImageChannel, ImageInfo, Interleave,
    Orientation, OriginationInfo, Packing, MAGIC_COOKIE, MAX_ELEMENTS,
};

use vstd::prelude::*;

verus! {

use crate::parser::{check_magick, magic_ok, read_bytes, read_string, Endian};
use crate::wire::{
    channel_matches, data_format_err, data_format_matches, file_info_err, file_info_matches,
    film_info_err, film_info_matches, header_matches, image_info_err, image_info_matches,
    origination_err, origination_matches, row_fits_u32, spec_bytes_per_row, spec_data_start,
    spec_header_err, spec_payload_len,
};
use vstd::slice::{slice_subrange, slice_to_vec};

broadcast use vstd::std_specs::control_flow::group_control_flow_axioms;

/// Cineon Error
#[derive(Debug, Clone, Copy, PartialEq, Eq, Structural)]
pub enum CineonError {
    /// The file is not a Cineon image
    NotCineonImage,
    /// An error occurred while parsing the file
    ParserError,
    /// String conversion error
    StringConversion,
    /// An error occurred while writing a new Cineon image
    OutputError,
}

/// Image Data
pub struct ImageData {
    /// Cineon Header
    pub header: Header,
    /// Pixels
    pub pixels: Vec<u8>,
}

/// Cineon Parser
pub struct Cineon;

impl Default for Cineon {
    fn default() -> (r: Self)
        ensures
            r == (Cineon {}),
    {
        Cineon {}
    }
}

impl Cineon {
    /// Checks whether the input is a cineon image.
    pub fn is_cineon(&self, input: &[u8]) -> (r: bool)
        ensures
            r == magic_ok(input@),
    {
        check_magick(input).is_ok()
    }

    /// Whether the four magic bytes declare big-endian byte order.
    pub fn is_big_endian(magick: &[u8]) -> (r: bool)
        requires
            magick@.len() >= 4,
        ensures
            r == crate::parser::magic_big(magick@),
    {
        magick[0] == 0x80 && magick[1] == 0x2a && magick[2] == 0x5f && magick[3] == 0xd7
    }

    /// Parses the header of a cineon image.
    pub fn parse_header(&self, input: &[u8]) -> (r: Result<Header, CineonError>)
        ensures
            match r {
                Ok(h) => spec_header_err(input@) is None && header_matches(h, input@),
                Err(err) => spec_header_err(input@) == Some(err),
            },
    {
        match self.parse_header_inner(input) {
            Ok((h, _)) => Ok(h),
            Err(err) => Err(err),
        }
    }

    #[verifier::rlimit(60)]
    fn parse_header_inner(&self, input: &[u8]) -> (r: Result<(Header, usize), CineonError>)
        ensures
            match r {
                Ok(v) => spec_header_err(input@) is None && header_matches(v.0, input@) && v.1
                    == spec_data_start(input@),
                Err(err) => spec_header_err(input@) == Some(err),
            },
    {
        let e = check_magick(input)?;
        let (file_info, p) = Self::parse_file_info(input, 4, e)?;
        let (image_info, p) = Self::parse_image_info(input, p, e)?;
        let (data_format_info, p) = Self::parse_data_format_info(input, p, e)?;
        let (origination_info, p) = Self::parse_origination_info(input, p, e)?;
        let guard = file_info.image_offset > 2048 && file_info.user_size != 0;
        let (film_info, p) = if guard {
            let (f, p2) = Self::parse_film_info(input, p, e)?;
            (Some(f), p2)
        } else {
            // 1024 is the film info size
            let p2 = read_bytes(input, p, 1024)?;
            (None, p2)
        };
        let (user_info, p) = if guard {
            let us = file_info.user_size as usize;
            if input.len() - p < us {
                return Err(CineonError::ParserError);
            }
            let u = slice_to_vec(slice_subrange(input, p, p + us));
            (Some(u), p + us)
        } else {
            (None, p)
        };
        let header = Header {
            file_info,
            image_info,
            data_format_info,
            origination_info,
            film_info,
            user_info,
        };
        Ok((header, p))
    }

    fn parse_file_info(input: &[u8], pos: usize, e: Endian) -> (r: Result<
        (FileInformation, usize),
        CineonError,
    >)
        requires
            pos <= input@.len(),
        ensures
            match r {
                Ok(v) => file_info_err(input@, e, pos as int) is None && file_info_matches(
                    v.0,
                    input@,
                    e,
                    pos as int,
                ) && v.1 == pos + 188,
                Err(err) => file_info_err(input@, e, pos as int) == Some(err),
            },
    {
        let (image_offset, p) = e.read_u32(input, pos)?;
        let (generic_size, p) = e.read_u32(input, p)?;
        let (industry_size, p) = e.read_u32(input, p)?;
        let (user_size, p) = e.read_u32(input, p)?;
        let (file_size, p) = e.read_u32(input, p)?;
        let (version, p) = read_string(input, p, 8)?;
        let (filename, p) = read_string(input, p, 100)?;
        let (creation_date, p) = read_string(input, p, 12)?;
        let (creation_time, p) = read_string(input, p, 12)?;
        let p = read_bytes(input, p, 36)?;
        Ok(
            (
                FileInformation {
                    magic_number: MAGIC_COOKIE,
                    image_offset,
                    generic_size,
                    industry_size,
                    user_size,
                    file_size,
                    version,
                    filename,
                    creation_date,
                    creation_time,
                },
                p,
            ),
        )
    }

    fn parse_channel(input: &[u8], pos: usize, e: Endian) -> (r: Result<
        (ImageChannel, usize),
        CineonError,
    >)
        requires
            pos <= input@.len(),
        ensures
            match r {
                Ok(v) => pos + 28 <= input@.len() && channel_matches(v.0, input@, e, pos as int)
                    && v.1 == pos + 28,
                Err(err) => pos + 28 > input@.len() && err == CineonError::ParserError,
            },
    {
        let (designator, p) = e.read_u8_pair(input, pos)?;
        let (bit_depth, p) = e.read_u8(input, p)?;
        let p = read_bytes(input, p, 1)?;
        let (pixels_per_line, p) = e.read_u32(input, p)?;
        let (lines_per_element, p) = e.read_u32(input, p)?;
        let (min_data, p) = e.read_f32_bits(input, p)?;
        let (min_quantity, p) = e.read_f32_bits(input, p)?;
        let (max_data, p) = e.read_f32_bits(input, p)?;
        let (max_quantity, p) = e.read_f32_bits(input, p)?;
        Ok(
            (
                ImageChannel {
                    designator: [designator.0, designator.1],
                    bit_depth,
                    pixels_per_line,
                    lines_per_element,
                    min_data,
                    min_quantity,
                    max_data,
                    max_quantity,
                },
                p,
            ),
        )
    }

    #[verifier::rlimit(60)]
    fn parse_image_info(input: &[u8], pos: usize, e: Endian) -> (r: Result<
        (ImageInfo, usize),
        CineonError,
    >)
        requires
            pos <= input@.len(),
        ensures
            match r {
                Ok(v) => image_info_err(input@, e, pos as int) is None && image_info_matches(
                    v.0,
                    input@,
                    e,
                    pos as int,
                ) && v.1 == pos + 488,
                Err(err) => image_info_err(input@, e, pos as int) == Some(err),
            },
    {
        let (image_orientation, p) = e.read_u8(input, pos)?;
        let (number_of_elements, p) = e.read_u8(input, p)?;
        let p = read_bytes(input, p, 2)?;

        let (c0, p) = Self::parse_channel(input, p, e)?;
        let (c1, p) = Self::parse_channel(input, p, e)?;
        let (c2, p) = Self::parse_channel(input, p, e)?;
        let (c3, p) = Self::parse_channel(input, p, e)?;
        let (c4, p) = Self::parse_channel(input, p, e)?;
        let (c5, p) = Self::parse_channel(input, p, e)?;
        let (c6, p) = Self::parse_channel(input, p, e)?;
        let (c7, p) = Self::parse_channel(input, p, e)?;

        let (white_point, p) = e.read_f32_bits_pair(input, p)?;
        let (red_primary, p) = e.read_f32_bits_pair(input, p)?;
        let (green_primary, p) = e.read_f32_bits_pair(input, p)?;
        let (blue_primary, p) = e.read_f32_bits_pair(input, p)?;
        let (label_text, p) = read_string(input, p, 200)?;
        let p = read_bytes(input, p, 28)?;

        let ii = ImageInfo {
            image_orientation: Orientation::from(image_orientation),
            number_of_elements,
            channel: [c0, c1, c2, c3, c4, c5, c6, c7],
            white_point: [white_point.0, white_point.1],
            red_primary: [red_primary.0, red_primary.1],
            green_primary: [green_primary.0, green_primary.1],
            blue_primary: [blue_primary.0, blue_primary.1],
            label_text,
        };
        Ok((ii, p))
    }

    fn parse_data_format_info(input: &[u8], pos: usize, e: Endian) -> (r: Result<
        (DataFormatInfo, usize),
        CineonError,
    >)
        requires
            pos <= input@.len(),
        ensures
            match r {
                Ok(v) => data_format_err(input@, e, pos as int) is None && data_format_matches(
                    v.0,
                    input@,
                    e,
                    pos as int,
                ) && v.1 == pos + 32,
                Err(err) => data_format_err(input@, e, pos as int) == Some(err),
            },
    {
        let (interleave, p) = e.read_u8(input, pos)?;
        let (packing, p) = e.read_u8(input, p)?;
        let (data_sign, p) = e.read_u8(input, p)?;
        let (image_sense, p) = e.read_u8(input, p)?;
        let (line_padding, p) = e.read_u32(input, p)?;
        let (channel_padding, p) = e.read_u32(input, p)?;
        let p = read_bytes(input, p, 20)?;
        Ok(
            (
                DataFormatInfo {
                    interleave: Interleave::from(interleave),
                    packing: Packing::from(packing),
                    data_sign: data_sign != 0,
                    image_sense: image_sense != 0,
                    line_padding: Some(line_padding),
                    channel_padding: Some(channel_padding),
                },
                p,
            ),
        )
    }

    #[verifier::rlimit(60)]
    fn parse_origination_info(input: &[u8], pos: usize, e: Endian) -> (r: Result<
        (OriginationInfo, usize),
        CineonError,
    >)
        requires
            pos <= input@.len(),
        ensures
            match r {
                Ok(v) => origination_err(input@, e, pos as int) is None && origination_matches(
                    v.0,
                    input@,
                    e,
                    pos as int,
                ) && v.1 == pos + 312,
                Err(err) => origination_err(input@, e, pos as int) == Some(err),
            },
    {
        let (x_offset, p) = e.read_i32(input, pos)?;
        let (y_offset, p) = e.read_i32(input, p)?;
        let (source_image_file_name, p) = read_string(input, p, 100)?;
        let (source_date, p) = read_string(input, p, 12)?;
        let (source_time, p) = read_string(input, p, 12)?;
        let (input_device, p) = read_string(input, p, 64)?;
        let (input_device_model_number, p) = read_string(input, p, 32)?;
        let (input_device_serial_number, p) = read_string(input, p, 32)?;
        let (x_device_pitch, p) = e.read_f32_bits(input, p)?;
        let (y_device_pitch, p) = e.read_f32_bits(input, p)?;
        let (gamma, p) = e.read_f32_bits(input, p)?;
        let p = read_bytes(input, p, 40)?;
        Ok(
            (
                OriginationInfo {
                    x_offset,
                    y_offset,
                    source_image_file_name,
                    source_date,
                    source_time,
                    input_device,
                    input_device_model_number,
                    input_device_serial_number,
                    x_device_pitch,
                    y_device_pitch,
                    gamma,
                },
                p,
            ),
        )
    }

    #[verifier::rlimit(60)]
    fn parse_film_info(input: &[u8], pos: usize, e: Endian) -> (r: Result<
        (FilmInfo, usize),
        CineonError,
    >)
        requires
            pos <= input@.len(),
        ensures
            match r {
                Ok(v) => film_info_err(input@, e, pos as int) is None && film_info_matches(
                    v.0,
                    input@,
                    e,
                    pos as int,
                ) && v.1 == pos + 1024,
                Err(err) => film_info_err(input@, e, pos as int) == Some(err),
            },
    {
        let (film_manufacturing_id_code, p) = e.read_u8(input, pos)?;
        let (film_type, p) = e.read_u8(input, p)?;
        let (perfs_offset, p) = e.read_u8(input, p)?;
        let p = read_bytes(input, p, 1)?;
        let (prefix, p) = e.read_u32(input, p)?;
        let (count, p) = e.read_u32(input, p)?;
        let (format, p) = read_string(input, p, 32)?;
        let (frame_position, p) = e.read_u32(input, p)?;
        let (frame_rate, p) = e.read_f32_bits(input, p)?;
        let (frame_id, p) = read_string(input, p, 32)?;
        let (slate_info, p) = read_string(input, p, 200)?;
        let p = read_bytes(input, p, 740)?;
        Ok(
            (
                FilmInfo {
                    film_manufacturing_id_code,
                    film_type,
                    perfs_offset,
                    prefix,
                    count,
                    format,
                    frame_position,
                    frame_rate,
                    frame_id,
                    slate_info,
                },
                p,
            ),
        )
    }

    /// Bytes per scan line, rounded up to the alignment boundary that the
    /// bit depth calls for. The computation is unsigned 32-bit arithmetic;
    /// the caller keeps it inside those limits.
    pub fn bytes_per_row(samples_per_pixel: u32, bit_depth: u32, width: u32, pad: bool) -> (r: u32)
        requires
            row_fits_u32(samples_per_pixel as int, bit_depth as int, width as int, pad),
        ensures
            r == spec_bytes_per_row(
                samples_per_pixel as int,
                bit_depth as int,
                width as int,
                pad,
            ),
    {
        match bit_depth {
            1 | 8 | 32 => 4 * ((samples_per_pixel * width * bit_depth + 31) / 32),
            10 => {
                if !pad {
                    4 * ((samples_per_pixel * width * bit_depth + 31) / 32)
                } else {
                    4 * (((32 * ((samples_per_pixel * width + 2) / 3)) + 31) / 32)
                }
            },
            12 => {
                if !pad {
                    4 * ((samples_per_pixel * width * bit_depth + 31) / 32)
                } else {
                    proof {
                        assert(16 * ((samples_per_pixel * width) as int) == 16
                            * (samples_per_pixel as int) * (width as int)) by (nonlinear_arith);
                    }
                    2 * ((16 * (samples_per_pixel * width) + 15) / 16)
                }
            },
            16 => 2 * ((samples_per_pixel * width * bit_depth + 8) / 16),
            64 => 8 * ((samples_per_pixel * width * bit_depth + 63) / 64),
            _ => 4 * ((samples_per_pixel * width * bit_depth + 31) / 32),
        }
    }

    /// The same row size in 64-bit arithmetic, for header-declared
    /// dimensions that the 32-bit computation could not hold.
    fn row_bytes_wide(samples: u32, depth: u32, width: u32) -> (r: u64)
        requires
            samples == 1 || samples == 3,
            depth <= 255,
        ensures
            r == spec_bytes_per_row(samples as int, depth as int, width as int, true),
    {
        let s = samples as u64;
        let d = depth as u64;
        let w = width as u64;
        proof {
            assert(s * w <= 3 * 0xffff_ffffu64) by (nonlinear_arith)
                requires
                    s <= 3,
                    w <= 0xffff_ffffu64,
            ;
            assert(s * w * d <= 3 * 0xffff_ffffu64 * 255) by (nonlinear_arith)
                requires
                    s * w <= 3 * 0xffff_ffffu64,
                    d <= 255,
            ;
        }
        if depth == 10 {
            4 * ((32 * ((s * w + 2) / 3) + 31) / 32)
        } else if depth == 12 {
            proof {
                assert(16 * ((s * w) as int) == 16 * (s as int) * (w as int)) by (nonlinear_arith);
            }
            2 * ((16 * (s * w) + 15) / 16)
        } else if depth == 16 {
            2 * ((s * w * d + 8) / 16)
        } else if depth == 64 {
            8 * ((s * w * d + 63) / 64)
        } else {
            4 * ((s * w * d + 31) / 32)
        }
    }

    /// Parses image data.
    pub fn parse_image(&self, input: &[u8]) -> (r: Result<ImageData, CineonError>)
        ensures
            match r {
                Ok(d) => spec_header_err(input@) is None && header_matches(d.header, input@)
                    && spec_payload_len(input@) <= input@.len() - spec_data_start(input@)
                    && d.pixels@ == input@.subrange(
                    spec_data_start(input@),
                    spec_data_start(input@) + spec_payload_len(input@),
                ),
                Err(err) => {
                    if spec_header_err(input@) is Some {
                        spec_header_err(input@) == Some(err)
                    } else {
                        err == CineonError::ParserError && spec_payload_len(input@) > input@.len()
                            - spec_data_start(input@)
                    }
                },
            },
    {
        let (header, p) = self.parse_header_inner(input)?;
        let image_height = header.image_info.channel[0].lines_per_element;
        let depth = header.image_info.channel[0].bit_depth as u32;
        let width = header.image_info.channel[0].pixels_per_line;
        let samples: u32 = if header.image_info.number_of_elements == 1 {
            1  // Monochrome image
        } else {
            3  // Three planes image
        };
        let bytes_per_row = Self::row_bytes_wide(samples, depth, width);
        proof {
            assert((image_height as int) * (bytes_per_row as int) <= 0xffff_ffff
                * 0xffff_ffff_ffff_ffff) by (nonlinear_arith)
                requires
                    image_height <= 0xffff_ffffu32,
                    bytes_per_row <= 0xffff_ffff_ffff_ffffu64,
            ;
        }
        let total = (image_height as u128) * (bytes_per_row as u128);
        let remaining = input.len() - p;
        if total > remaining as u128 {
            return Err(CineonError::ParserError);
        }
        let total_len = total as usize;
        let pixels = slice_to_vec(slice_subrange(input, p, p + total_len));
        Ok(ImageData { header, pixels })
    }
}

} // verus!
