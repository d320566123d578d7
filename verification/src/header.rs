//! The record types that make up a Cineon header.
//!
//! All fields are stored as plain values in the file's declared widths.
//! The calibration, chromaticity, device-pitch, gamma and frame-rate fields
//! hold the raw IEEE-754 bit pattern of the 32-bit float that the file
//! carries, already corrected for byte order; interpreting the bits as a
//! floating-point number is left to the caller.

use vstd::prelude::*;

verus! {

/// Maximum number of image elements
pub const MAX_ELEMENTS: usize = 8;

/// Magic Cookie value
pub const MAGIC_COOKIE: u32 = 0x802A5FD7;

/// File Information
#[derive(Debug, PartialEq, Eq)]
pub struct FileInformation {
    /// Indicates start of Cineon image file and it is used to
    /// determine byte order.
    pub magic_number: u32,
    /// Offset to image data (in bytes)
    pub image_offset: u32,
    /// Generic Header length (in bytes)
    pub generic_size: u32,
    /// Industry Header length (in bytes)
    pub industry_size: u32,
    /// User defined header length (in bytes)
    pub user_size: u32,
    /// Total file size (in bytes)
    pub file_size: u32,
    /// Version number of header format
    pub version: String,
    /// Filename
    pub filename: String,
    /// Create date
    pub creation_date: String,
    /// Create time
    pub creation_time: String,
}

/// Component interleaving method
#[derive(Debug, Clone, Copy, PartialEq, Eq, Structural)]
pub enum Interleave {
    /// Pixel interleave (rgbrgbrgb...)
    Pixel,
    /// Line interleave (rrr.ggg.bbb.rrr.ggg.bbb.)
    Line,
    /// Channel interleave (rrr..ggg..bbb..)
    Channel,
    /// Undefined interleave
    Undefined,
}

/// The variant that an interleave code byte decodes to; out-of-range codes
/// are tolerated and map to `Undefined`.
pub open spec fn spec_interleave(x: u8) -> Interleave {
    if x == 0 {
        Interleave::Pixel
    } else if x == 1 {
        Interleave::Line
    } else if x == 2 {
        Interleave::Channel
    } else {
        Interleave::Undefined
    }
}

impl From<u8> for Interleave {
    fn from(x: u8) -> (r: Self) {
        match x {
            0 => Self::Pixel,
            1 => Self::Line,
            2 => Self::Channel,
            _ => Self::Undefined,
        }
    }
}

impl vstd::std_specs::convert::FromSpecImpl<u8> for Interleave {
    open spec fn obeys_from_spec() -> bool {
        true
    }

    open spec fn from_spec(x: u8) -> Self {
        spec_interleave(x)
    }
}

/// Component data packing method
#[derive(Debug, Clone, Copy, PartialEq, Eq, Structural)]
pub enum Packing {
    /// Use all bits (tight packing)
    Packed,
    /// Byte (8-bit) boundary, left justified
    ByteLeft,
    /// Byte (8-bit) boundary, right justified
    ByteRight,
    /// Word (16-bit) boundary, left justified
    WordLeft,
    /// Word (16-bit) boundary, right justified
    WordRight,
    /// Longword (32-bit) boundary, left justified
    LongWordLeft,
    /// Longword (32-bit) boundary, right justified
    LongWordRight,
    /// Pack as many fields as possible per cell, only one otherwise
    PackAsManyAsPossible,
    /// Undefined data packing
    Undefined,
}

/// The variant that a packing code byte decodes to; out-of-range codes are
/// tolerated and map to `Undefined`.
pub open spec fn spec_packing(x: u8) -> Packing {
    if x == 0 {
        Packing::Packed
    } else if x == 1 {
        Packing::ByteLeft
    } else if x == 2 {
        Packing::ByteRight
    } else if x == 3 {
        Packing::WordLeft
    } else if x == 4 {
        Packing::WordRight
    } else if x == 5 {
        Packing::LongWordLeft
    } else if x == 6 {
        Packing::LongWordRight
    } else if x == 7 {
        Packing::PackAsManyAsPossible
    } else {
        Packing::Undefined
    }
}

impl From<u8> for Packing {
    fn from(x: u8) -> (r: Self) {
        match x {
            0 => Self::Packed,
            1 => Self::ByteLeft,
            2 => Self::ByteRight,
            3 => Self::WordLeft,
            4 => Self::WordRight,
            5 => Self::LongWordLeft,
            6 => Self::LongWordRight,
            7 => Self::PackAsManyAsPossible,
            _ => Self::Undefined,
        }
    }
}

impl vstd::std_specs::convert::FromSpecImpl<u8> for Packing {
    open spec fn obeys_from_spec() -> bool {
        true
    }

    open spec fn from_spec(x: u8) -> Self {
        spec_packing(x)
    }
}

/// Data Format Information
#[derive(Debug, PartialEq, Eq)]
pub struct DataFormatInfo {
    /// Data interleave
    pub interleave: Interleave,
    /// Packing
    pub packing: Packing,
    /// Data sign (0 = unsigned, 1 = signed)
    pub data_sign: bool,
    /// Image sense (0 = positive image, 1 = negative image)
    pub image_sense: bool,
    /// Line Padding
    pub line_padding: Option<u32>,
    /// Channel Padding
    pub channel_padding: Option<u32>,
}

impl Default for DataFormatInfo {
    fn default() -> (r: Self)
        ensures
            r.interleave == Interleave::Undefined,
            r.packing == Packing::Undefined,
            !r.data_sign,
            !r.image_sense,
            r.line_padding is None,
            r.channel_padding is None,
    {
        Self {
            interleave: Interleave::Undefined,
            packing: Packing::Undefined,
            data_sign: false,
            image_sense: false,
            line_padding: None,
            channel_padding: None,
        }
    }
}

/// Image Channel
#[derive(Debug, Clone, Copy, PartialEq, Eq)]
pub struct ImageChannel {
    /// Channel descriptor
    pub designator: [u8; 2],
    /// Bits per pixel
    pub bit_depth: u8,
    /// Pixels per line
    pub pixels_per_line: u32,
    /// Lines per element
    pub lines_per_element: u32,
    /// Reference min data code value (IEEE-754 bits)
    pub min_data: u32,
    /// Reference min quantity represented (IEEE-754 bits)
    pub min_quantity: u32,
    /// Reference max data code value (IEEE-754 bits)
    pub max_data: u32,
    /// Reference max quantity represented (IEEE-754 bits)
    pub max_quantity: u32,
}

/// The all-zero channel record that unpopulated channel slots hold.
pub open spec fn spec_channel_default() -> ImageChannel {
    ImageChannel {
        designator: [0u8, 0u8],
        bit_depth: 0,
        pixels_per_line: 0,
        lines_per_element: 0,
        min_data: 0,
        min_quantity: 0,
        max_data: 0,
        max_quantity: 0,
    }
}

impl Default for ImageChannel {
    fn default() -> (r: Self)
        ensures
            r == spec_channel_default(),
    {
        ImageChannel {
            designator: [0u8, 0u8],
            bit_depth: 0,
            pixels_per_line: 0,
            lines_per_element: 0,
            min_data: 0,
            min_quantity: 0,
            max_data: 0,
            max_quantity: 0,
        }
    }
}

/// Image Orientation Code
#[derive(Debug, Clone, Copy, PartialEq, Eq, Structural)]
pub enum Orientation {
    /// Oriented top to bottom, left to right
    TopToBottomLeftToRight,
    /// Oriented top to bottom, right to left
    TopToBottomRightToLeft,
    /// Oriented bottom to top, left to right
    BottomToTopLeftToRight,
    /// Oriented bottom to top, right to left
    BottomToTopRightToLeft,
    /// Oriented left to right, top to bottom
    LeftToRightTopToBottom,
    /// Oriented right to left, top to bottom
    RightToLeftTopToBottom,
    /// Oriented left to right, bottom to top
    LeftToRightBottomToTop,
    /// Oriented right to left, bottom to top
    RightToLeftBottomToTop,
    /// Undefined Orientation
    Undefined,
}

/// The variant that an orientation code byte decodes to; out-of-range codes
/// are tolerated and map to `Undefined`.
pub open spec fn spec_orientation(x: u8) -> Orientation {
    if x == 0 {
        Orientation::TopToBottomLeftToRight
    } else if x == 1 {
        Orientation::TopToBottomRightToLeft
    } else if x == 2 {
        Orientation::BottomToTopLeftToRight
    } else if x == 3 {
        Orientation::BottomToTopRightToLeft
    } else if x == 4 {
        Orientation::LeftToRightTopToBottom
    } else if x == 5 {
        Orientation::RightToLeftTopToBottom
    } else if x == 6 {
        Orientation::LeftToRightBottomToTop
    } else if x == 7 {
        Orientation::RightToLeftBottomToTop
    } else {
        Orientation::Undefined
    }
}

impl From<u8> for Orientation {
    fn from(x: u8) -> (r: Self) {
        match x {
            0 => Self::TopToBottomLeftToRight,
            1 => Self::TopToBottomRightToLeft,
            2 => Self::BottomToTopLeftToRight,
            3 => Self::BottomToTopRightToLeft,
            4 => Self::LeftToRightTopToBottom,
            5 => Self::RightToLeftTopToBottom,
            6 => Self::LeftToRightBottomToTop,
            7 => Self::RightToLeftBottomToTop,
            _ => Self::Undefined,
        }
    }
}

impl vstd::std_specs::convert::FromSpecImpl<u8> for Orientation {
    open spec fn obeys_from_spec() -> bool {
        true
    }

    open spec fn from_spec(x: u8) -> Self {
        spec_orientation(x)
    }
}

/// Image Information
#[derive(Debug, PartialEq, Eq)]
pub struct ImageInfo {
    /// Image orientation
    pub image_orientation: Orientation,
    /// Number of elements (1-8)
    pub number_of_elements: u8,
    /// Image element data structures
    pub channel: [ImageChannel; MAX_ELEMENTS],
    /// White point (x, y pair, IEEE-754 bits)
    pub white_point: [u32; 2],
    /// Red primary chromaticity (x, y pair, IEEE-754 bits)
    pub red_primary: [u32; 2],
    /// Green primary chromaticity (x, y pair, IEEE-754 bits)
    pub green_primary: [u32; 2],
    /// Blue primary chromaticity (x, y pair, IEEE-754 bits)
    pub blue_primary: [u32; 2],
    /// Label text
    pub label_text: String,
}

impl Default for ImageInfo {
    fn default() -> (r: Self)
        ensures
            r.image_orientation == Orientation::Undefined,
            r.number_of_elements == 1,
            r.channel@.len() == MAX_ELEMENTS,
            forall|k: int| 0 <= k < MAX_ELEMENTS ==> r.channel@[k] == spec_channel_default(),
            r.white_point@ =~= seq![0u32, 0u32],
            r.red_primary@ =~= seq![0u32, 0u32],
            r.green_primary@ =~= seq![0u32, 0u32],
            r.blue_primary@ =~= seq![0u32, 0u32],
            r.label_text@ == Seq::<char>::empty(),
    {
        let c = ImageChannel::default();
        Self {
            image_orientation: Orientation::Undefined,
            number_of_elements: 1,
            channel: [c; MAX_ELEMENTS],
            white_point: [0u32; 2],
            red_primary: [0u32; 2],
            green_primary: [0u32; 2],
            blue_primary: [0u32; 2],
            label_text: String::new(),
        }
    }
}

/// Origination Information
#[derive(Debug, PartialEq, Eq)]
pub struct OriginationInfo {
    /// X offset
    pub x_offset: i32,
    /// Y offset
    pub y_offset: i32,
    /// Source image filename
    pub source_image_file_name: String,
    /// Source date
    pub source_date: String,
    /// Source time
    pub source_time: String,
    /// Input device name
    pub input_device: String,
    /// Input device model number
    pub input_device_model_number: String,
    /// Input device serial number
    pub input_device_serial_number: String,
    /// X device pitch, samples/mm (IEEE-754 bits)
    pub x_device_pitch: u32,
    /// Y device pitch, samples/mm (IEEE-754 bits)
    pub y_device_pitch: u32,
    /// Gamma (IEEE-754 bits)
    pub gamma: u32,
}

/// Motion Picture and Television Industry Specific Information
#[derive(Debug, PartialEq, Eq)]
pub struct FilmInfo {
    /// Film edge code manufacturing ID code
    pub film_manufacturing_id_code: u8,
    /// Film edge code type
    pub film_type: u8,
    /// Film edge code offset in perfs
    pub perfs_offset: u8,
    /// Film edge code prefix
    pub prefix: u32,
    /// Film edge code count
    pub count: u32,
    /// Format string, e.g. Academy
    pub format: String,
    /// Frame position in sequence
    pub frame_position: u32,
    /// Frame rate of original, frame/sec (IEEE-754 bits)
    pub frame_rate: u32,
    /// Frame identification, e.g. keyframe
    pub frame_id: String,
    /// Slate information
    pub slate_info: String,
}

/// Generic File and Image Header Information
#[derive(Debug, PartialEq, Eq)]
pub struct Header {
    /// File Information
    pub file_info: FileInformation,
    /// Image Information
    pub image_info: ImageInfo,
    /// Data Format Information
    pub data_format_info: DataFormatInfo,
    /// Origination Information
    pub origination_info: OriginationInfo,
    /// Film Information.
    ///
    /// Present only when the file declares a non-default image offset and a
    /// non-zero user header size.
    pub film_info: Option<FilmInfo>,
    /// User info
    ///
    /// In Cineon, this field contains a postage stamp image, whose size is
    /// 96x64x3 channels, so 18 KBytes for 8 bit mode, oriented correctly
    /// for display. Present under the same condition as `film_info`.
    pub user_info: Option<Vec<u8>>,
}

} // verus!
