//! Pixel-format descriptors and the table that maps an encoding name to one.
//!
//! A descriptor is the image's dimensions plus exactly one of three layouts:
//! interleaved colour channels, a packed (sub-sampled) pixel format, or a
//! single depth channel. Only the colour layout carries a colour model.

use vstd::prelude::*;
use vstd::utf8::{encode_utf8, is_ascii_chars, is_ascii_chars_encode_utf8};
use crate::text::text_equal;

verus! {

/// Which colour channels an interleaved image holds, and in what order.
#[allow(clippy::upper_case_acronyms)]
#[derive(Clone, Copy, Debug, PartialEq, Eq, Structural)]
pub enum ColorChannels {
    /// Grayscale luminance.
    L,
    /// Red, green, blue.
    RGB,
    /// Red, green, blue, alpha.
    RGBA,
    /// Blue, green, red.
    BGR,
    /// Blue, green, red, alpha.
    BGRA,
}

/// The number type of one channel of one pixel.
#[derive(Clone, Copy, Debug, PartialEq, Eq, Structural)]
pub enum ChannelType {
    /// 8-bit unsigned integer.
    U8,
    /// 8-bit signed integer.
    I8,
    /// 16-bit unsigned integer.
    U16,
    /// 16-bit signed integer.
    I16,
    /// 32-bit signed integer.
    I32,
    /// 32-bit floating point.
    F32,
}

/// A packed pixel format, named as a whole.
#[allow(clippy::upper_case_acronyms)]
#[derive(Clone, Copy, Debug, PartialEq, Eq, Structural)]
pub enum PackedFormat {
    /// 4:2:0 chroma sub-sampling: a luma plane, then interleaved chroma.
    NV12,
    /// 4:2:2 chroma sub-sampling, interleaved as Y0 U Y1 V.
    YUY2,
}

/// How the pixels of an image are laid out: one of three shapes.
#[derive(Clone, Copy, Debug, PartialEq, Eq, Structural)]
pub enum PixelLayout {
    /// Interleaved colour channels.
    Color { model: ColorChannels, datatype: ChannelType },
    /// A packed pixel format.
    Packed { format: PackedFormat },
    /// A single channel of depth values.
    Depth { datatype: ChannelType },
}

/// The canonical description of an image's pixels.
#[derive(Clone, Copy, Debug, PartialEq, Eq, Structural)]
pub struct FormatDescriptor {
    /// Width in pixels.
    pub width: u32,
    /// Height in pixels.
    pub height: u32,
    /// The layout of the pixels.
    pub layout: PixelLayout,
}

impl PixelLayout {
    /// The colour model, which only the colour layout has.
    pub open spec fn spec_color_channels(self) -> Option<ColorChannels> {
        match self {
            PixelLayout::Color { model, .. } => Some(model),
            PixelLayout::Packed { .. } => None,
            PixelLayout::Depth { .. } => None,
        }
    }

    /// The channel datatype, which the packed layout lacks.
    pub open spec fn spec_channel_type(self) -> Option<ChannelType> {
        match self {
            PixelLayout::Color { datatype, .. } => Some(datatype),
            PixelLayout::Packed { .. } => None,
            PixelLayout::Depth { datatype } => Some(datatype),
        }
    }

    /// The packed pixel format, which only the packed layout has.
    pub open spec fn spec_packed_format(self) -> Option<PackedFormat> {
        match self {
            PixelLayout::Color { .. } => None,
            PixelLayout::Packed { format } => Some(format),
            PixelLayout::Depth { .. } => None,
        }
    }
}

impl FormatDescriptor {
    /// The descriptor of an interleaved colour image.
    pub open spec fn spec_color(
        dimensions: [u32; 2],
        model: ColorChannels,
        datatype: ChannelType,
    ) -> FormatDescriptor {
        FormatDescriptor {
            width: dimensions[0],
            height: dimensions[1],
            layout: PixelLayout::Color { model, datatype },
        }
    }

    /// The descriptor of an image in a packed pixel format.
    pub open spec fn spec_packed(dimensions: [u32; 2], format: PackedFormat) -> FormatDescriptor {
        FormatDescriptor {
            width: dimensions[0],
            height: dimensions[1],
            layout: PixelLayout::Packed { format },
        }
    }

    /// The descriptor of a depth image.
    pub open spec fn spec_depth(dimensions: [u32; 2], datatype: ChannelType) -> FormatDescriptor {
        FormatDescriptor {
            width: dimensions[0],
            height: dimensions[1],
            layout: PixelLayout::Depth { datatype },
        }
    }

    /// A frame counts as a depth frame exactly when its format has no colour
    /// model. Packed formats have none either.
    pub open spec fn spec_lacks_color_model(self) -> bool {
        self.layout.spec_color_channels() is None
    }

    /// An interleaved colour image of `dimensions` (width, then height).
    pub fn color(dimensions: [u32; 2], model: ColorChannels, datatype: ChannelType) -> (r:
        FormatDescriptor)
        ensures
            r == Self::spec_color(dimensions, model, datatype),
    {
        FormatDescriptor {
            width: dimensions[0],
            height: dimensions[1],
            layout: PixelLayout::Color { model, datatype },
        }
    }

    /// An image of `dimensions` (width, then height) in a packed pixel format.
    pub fn packed(dimensions: [u32; 2], format: PackedFormat) -> (r: FormatDescriptor)
        ensures
            r == Self::spec_packed(dimensions, format),
    {
        FormatDescriptor {
            width: dimensions[0],
            height: dimensions[1],
            layout: PixelLayout::Packed { format },
        }
    }

    /// A depth image of `dimensions` (width, then height).
    pub fn depth(dimensions: [u32; 2], datatype: ChannelType) -> (r: FormatDescriptor)
        ensures
            r == Self::spec_depth(dimensions, datatype),
    {
        FormatDescriptor {
            width: dimensions[0],
            height: dimensions[1],
            layout: PixelLayout::Depth { datatype },
        }
    }

    /// An RGB image with 8 bits per channel.
    pub fn rgb8(dimensions: [u32; 2]) -> (r: FormatDescriptor)
        ensures
            r == Self::spec_color(dimensions, ColorChannels::RGB, ChannelType::U8),
    {
        Self::color(dimensions, ColorChannels::RGB, ChannelType::U8)
    }

    /// An RGBA image with 8 bits per channel.
    pub fn rgba8(dimensions: [u32; 2]) -> (r: FormatDescriptor)
        ensures
            r == Self::spec_color(dimensions, ColorChannels::RGBA, ChannelType::U8),
    {
        Self::color(dimensions, ColorChannels::RGBA, ChannelType::U8)
    }

    /// The colour model, if the layout has one.
    pub fn color_channels(&self) -> (r: Option<ColorChannels>)
        ensures
            r == self.layout.spec_color_channels(),
    {
        match self.layout {
            PixelLayout::Color { model, .. } => Some(model),
            PixelLayout::Packed { .. } => None,
            PixelLayout::Depth { .. } => None,
        }
    }

    /// The channel datatype, if the layout has one.
    pub fn channel_type(&self) -> (r: Option<ChannelType>)
        ensures
            r == self.layout.spec_channel_type(),
    {
        match self.layout {
            PixelLayout::Color { datatype, .. } => Some(datatype),
            PixelLayout::Packed { .. } => None,
            PixelLayout::Depth { datatype } => Some(datatype),
        }
    }

    /// The packed pixel format, if the layout is a packed one.
    pub fn packed_format(&self) -> (r: Option<PackedFormat>)
        ensures
            r == self.layout.spec_packed_format(),
    {
        match self.layout {
            PixelLayout::Color { .. } => None,
            PixelLayout::Packed { format } => Some(format),
            PixelLayout::Depth { .. } => None,
        }
    }

    /// Whether the format has no colour model.
    pub fn lacks_color_model(&self) -> (r: bool)
        ensures
            r == self.spec_lacks_color_model(),
    {
        match self.layout {
            PixelLayout::Color { .. } => false,
            PixelLayout::Packed { .. } => true,
            PixelLayout::Depth { .. } => true,
        }
    }
}

/// An encoding name that the table does not hold.
#[derive(Debug, PartialEq, Eq)]
pub struct UnsupportedFormat {
    /// The name as it was given.
    pub encoding: String,
}

/// The table of encodings: the layout that each known name stands for, and
/// `None` for every other text. Names match exactly, case included.
pub open spec fn layout_of_encoding(encoding: Seq<char>) -> Option<PixelLayout> {
    if encoding == "rgb8"@ {
        Some(PixelLayout::Color { model: ColorChannels::RGB, datatype: ChannelType::U8 })
    } else if encoding == "rgba8"@ {
        Some(PixelLayout::Color { model: ColorChannels::RGBA, datatype: ChannelType::U8 })
    } else if encoding == "rgb16"@ {
        Some(PixelLayout::Color { model: ColorChannels::RGB, datatype: ChannelType::U16 })
    } else if encoding == "rgba16"@ {
        Some(PixelLayout::Color { model: ColorChannels::RGBA, datatype: ChannelType::U16 })
    } else if encoding == "bgr8"@ {
        Some(PixelLayout::Color { model: ColorChannels::BGR, datatype: ChannelType::U8 })
    } else if encoding == "bgra8"@ {
        Some(PixelLayout::Color { model: ColorChannels::BGRA, datatype: ChannelType::U8 })
    } else if encoding == "bgr16"@ {
        Some(PixelLayout::Color { model: ColorChannels::BGR, datatype: ChannelType::U16 })
    } else if encoding == "bgra16"@ {
        Some(PixelLayout::Color { model: ColorChannels::BGRA, datatype: ChannelType::U16 })
    } else if encoding == "mono8"@ {
        Some(PixelLayout::Color { model: ColorChannels::L, datatype: ChannelType::U8 })
    } else if encoding == "mono16"@ {
        Some(PixelLayout::Color { model: ColorChannels::L, datatype: ChannelType::U16 })
    } else if encoding == "yuyv"@ || encoding == "yuv422_yuy2"@ {
        Some(PixelLayout::Packed { format: PackedFormat::YUY2 })
    } else if encoding == "nv12"@ {
        Some(PixelLayout::Packed { format: PackedFormat::NV12 })
    } else if encoding == "8UC1"@ {
        Some(PixelLayout::Depth { datatype: ChannelType::U8 })
    } else if encoding == "8SC1"@ {
        Some(PixelLayout::Depth { datatype: ChannelType::I8 })
    } else if encoding == "16UC1"@ {
        Some(PixelLayout::Depth { datatype: ChannelType::U16 })
    } else if encoding == "16SC1"@ {
        Some(PixelLayout::Depth { datatype: ChannelType::I16 })
    } else if encoding == "32SC1"@ {
        Some(PixelLayout::Depth { datatype: ChannelType::I32 })
    } else if encoding == "32FC1"@ {
        Some(PixelLayout::Depth { datatype: ChannelType::F32 })
    } else {
        None
    }
}

/// What resolving `encoding` for an image of the given width and height
/// gives: the descriptor with the table's layout, or nothing.
pub open spec fn resolved_format(encoding: Seq<char>, width: u32, height: u32) -> Option<
    FormatDescriptor,
> {
    match layout_of_encoding(encoding) {
        Some(layout) => Some(FormatDescriptor { width, height, layout }),
        None => None,
    }
}

/// Number of bytes of the longest name in the table.
pub const MAX_ENCODING_BYTES: usize = 11;

/// Every name in the table is plain ASCII and takes at most
/// `MAX_ENCODING_BYTES` bytes in UTF-8.
pub proof fn lemma_known_encodings_are_short(encoding: Seq<char>)
    requires
        layout_of_encoding(encoding) is Some,
    ensures
        is_ascii_chars(encoding),
        encode_utf8(encoding).len() == encoding.len(),
        encoding.len() <= MAX_ENCODING_BYTES,
{
    reveal_strlit("rgb8");
    reveal_strlit("rgba8");
    reveal_strlit("rgb16");
    reveal_strlit("rgba16");
    reveal_strlit("bgr8");
    reveal_strlit("bgra8");
    reveal_strlit("bgr16");
    reveal_strlit("bgra16");
    reveal_strlit("mono8");
    reveal_strlit("mono16");
    reveal_strlit("yuyv");
    reveal_strlit("yuv422_yuy2");
    reveal_strlit("nv12");
    reveal_strlit("8UC1");
    reveal_strlit("8SC1");
    reveal_strlit("16UC1");
    reveal_strlit("16SC1");
    reveal_strlit("32SC1");
    reveal_strlit("32FC1");
    assert(encoding.len() <= MAX_ENCODING_BYTES);
    assert(is_ascii_chars(encoding));
    is_ascii_chars_encode_utf8(encoding);
}

/// What tells the names of the table apart: the length and the first four
/// characters.
spec fn encoding_key(encoding: Seq<char>) -> (nat, char, char, char, char) {
    (encoding.len(), encoding[0], encoding[1], encoding[2], encoding[3])
}

/// The table, entry by entry: each of its names stands for its own layout,
/// and no entry hides a later one.
pub proof fn lemma_table_entries()
    ensures
        layout_of_encoding("rgb8"@) == Some(
            PixelLayout::Color { model: ColorChannels::RGB, datatype: ChannelType::U8 },
        ),
        layout_of_encoding("rgba8"@) == Some(
            PixelLayout::Color { model: ColorChannels::RGBA, datatype: ChannelType::U8 },
        ),
        layout_of_encoding("rgb16"@) == Some(
            PixelLayout::Color { model: ColorChannels::RGB, datatype: ChannelType::U16 },
        ),
        layout_of_encoding("rgba16"@) == Some(
            PixelLayout::Color { model: ColorChannels::RGBA, datatype: ChannelType::U16 },
        ),
        layout_of_encoding("bgr8"@) == Some(
            PixelLayout::Color { model: ColorChannels::BGR, datatype: ChannelType::U8 },
        ),
        layout_of_encoding("bgra8"@) == Some(
            PixelLayout::Color { model: ColorChannels::BGRA, datatype: ChannelType::U8 },
        ),
        layout_of_encoding("bgr16"@) == Some(
            PixelLayout::Color { model: ColorChannels::BGR, datatype: ChannelType::U16 },
        ),
        layout_of_encoding("bgra16"@) == Some(
            PixelLayout::Color { model: ColorChannels::BGRA, datatype: ChannelType::U16 },
        ),
        layout_of_encoding("mono8"@) == Some(
            PixelLayout::Color { model: ColorChannels::L, datatype: ChannelType::U8 },
        ),
        layout_of_encoding("mono16"@) == Some(
            PixelLayout::Color { model: ColorChannels::L, datatype: ChannelType::U16 },
        ),
        layout_of_encoding("yuyv"@) == Some(
            PixelLayout::Packed { format: PackedFormat::YUY2 },
        ),
        layout_of_encoding("yuv422_yuy2"@) == Some(
            PixelLayout::Packed { format: PackedFormat::YUY2 },
        ),
        layout_of_encoding("nv12"@) == Some(
            PixelLayout::Packed { format: PackedFormat::NV12 },
        ),
        layout_of_encoding("8UC1"@) == Some(
            PixelLayout::Depth { datatype: ChannelType::U8 },
        ),
        layout_of_encoding("8SC1"@) == Some(
            PixelLayout::Depth { datatype: ChannelType::I8 },
        ),
        layout_of_encoding("16UC1"@) == Some(
            PixelLayout::Depth { datatype: ChannelType::U16 },
        ),
        layout_of_encoding("16SC1"@) == Some(
            PixelLayout::Depth { datatype: ChannelType::I16 },
        ),
        layout_of_encoding("32SC1"@) == Some(
            PixelLayout::Depth { datatype: ChannelType::I32 },
        ),
        layout_of_encoding("32FC1"@) == Some(
            PixelLayout::Depth { datatype: ChannelType::F32 },
        ),
{
    reveal_strlit("rgb8");
    reveal_strlit("rgba8");
    reveal_strlit("rgb16");
    reveal_strlit("rgba16");
    reveal_strlit("bgr8");
    reveal_strlit("bgra8");
    reveal_strlit("bgr16");
    reveal_strlit("bgra16");
    reveal_strlit("mono8");
    reveal_strlit("mono16");
    reveal_strlit("yuyv");
    reveal_strlit("yuv422_yuy2");
    reveal_strlit("nv12");
    reveal_strlit("8UC1");
    reveal_strlit("8SC1");
    reveal_strlit("16UC1");
    reveal_strlit("16SC1");
    reveal_strlit("32SC1");
    reveal_strlit("32FC1");
    assert(encoding_key("rgb8"@) == (4nat, 'r', 'g', 'b', '8'));
    assert(encoding_key("rgba8"@) == (5nat, 'r', 'g', 'b', 'a'));
    assert(encoding_key("rgb16"@) == (5nat, 'r', 'g', 'b', '1'));
    assert(encoding_key("rgba16"@) == (6nat, 'r', 'g', 'b', 'a'));
    assert(encoding_key("bgr8"@) == (4nat, 'b', 'g', 'r', '8'));
    assert(encoding_key("bgra8"@) == (5nat, 'b', 'g', 'r', 'a'));
    assert(encoding_key("bgr16"@) == (5nat, 'b', 'g', 'r', '1'));
    assert(encoding_key("bgra16"@) == (6nat, 'b', 'g', 'r', 'a'));
    assert(encoding_key("mono8"@) == (5nat, 'm', 'o', 'n', 'o'));
    assert(encoding_key("mono16"@) == (6nat, 'm', 'o', 'n', 'o'));
    assert(encoding_key("yuyv"@) == (4nat, 'y', 'u', 'y', 'v'));
    assert(encoding_key("yuv422_yuy2"@) == (11nat, 'y', 'u', 'v', '4'));
    assert(encoding_key("nv12"@) == (4nat, 'n', 'v', '1', '2'));
    assert(encoding_key("8UC1"@) == (4nat, '8', 'U', 'C', '1'));
    assert(encoding_key("8SC1"@) == (4nat, '8', 'S', 'C', '1'));
    assert(encoding_key("16UC1"@) == (5nat, '1', '6', 'U', 'C'));
    assert(encoding_key("16SC1"@) == (5nat, '1', '6', 'S', 'C'));
    assert(encoding_key("32SC1"@) == (5nat, '3', '2', 'S', 'C'));
    assert(encoding_key("32FC1"@) == (5nat, '3', '2', 'F', 'C'));
}

/// Looks `encoding` up in the table.
pub fn lookup_layout(encoding: &str) -> (r: Option<PixelLayout>)
    ensures
        r == layout_of_encoding(encoding@),
{
    if text_equal(encoding, "rgb8") {
        Some(PixelLayout::Color { model: ColorChannels::RGB, datatype: ChannelType::U8 })
    } else if text_equal(encoding, "rgba8") {
        Some(PixelLayout::Color { model: ColorChannels::RGBA, datatype: ChannelType::U8 })
    } else if text_equal(encoding, "rgb16") {
        Some(PixelLayout::Color { model: ColorChannels::RGB, datatype: ChannelType::U16 })
    } else if text_equal(encoding, "rgba16") {
        Some(PixelLayout::Color { model: ColorChannels::RGBA, datatype: ChannelType::U16 })
    } else if text_equal(encoding, "bgr8") {
        Some(PixelLayout::Color { model: ColorChannels::BGR, datatype: ChannelType::U8 })
    } else if text_equal(encoding, "bgra8") {
        Some(PixelLayout::Color { model: ColorChannels::BGRA, datatype: ChannelType::U8 })
    } else if text_equal(encoding, "bgr16") {
        Some(PixelLayout::Color { model: ColorChannels::BGR, datatype: ChannelType::U16 })
    } else if text_equal(encoding, "bgra16") {
        Some(PixelLayout::Color { model: ColorChannels::BGRA, datatype: ChannelType::U16 })
    } else if text_equal(encoding, "mono8") {
        Some(PixelLayout::Color { model: ColorChannels::L, datatype: ChannelType::U8 })
    } else if text_equal(encoding, "mono16") {
        Some(PixelLayout::Color { model: ColorChannels::L, datatype: ChannelType::U16 })
    } else if text_equal(encoding, "yuyv") || text_equal(encoding, "yuv422_yuy2") {
        Some(PixelLayout::Packed { format: PackedFormat::YUY2 })
    } else if text_equal(encoding, "nv12") {
        Some(PixelLayout::Packed { format: PackedFormat::NV12 })
    } else if text_equal(encoding, "8UC1") {
        Some(PixelLayout::Depth { datatype: ChannelType::U8 })
    } else if text_equal(encoding, "8SC1") {
        Some(PixelLayout::Depth { datatype: ChannelType::I8 })
    } else if text_equal(encoding, "16UC1") {
        Some(PixelLayout::Depth { datatype: ChannelType::U16 })
    } else if text_equal(encoding, "16SC1") {
        Some(PixelLayout::Depth { datatype: ChannelType::I16 })
    } else if text_equal(encoding, "32SC1") {
        Some(PixelLayout::Depth { datatype: ChannelType::I32 })
    } else if text_equal(encoding, "32FC1") {
        Some(PixelLayout::Depth { datatype: ChannelType::F32 })
    } else {
        None
    }
}

/// Resolves an encoding name and the image's dimensions (width, then height)
/// to the canonical descriptor. A name outside the table is an error that
/// carries the name.
pub fn decode_image_format(encoding: &str, dimensions: [u32; 2]) -> (r: Result<
    FormatDescriptor,
    UnsupportedFormat,
>)
    ensures
        match resolved_format(encoding@, dimensions[0], dimensions[1]) {
            Some(format) => r == Ok::<FormatDescriptor, UnsupportedFormat>(format),
            None => r is Err && r->Err_0.encoding@ == encoding@,
        },
{
    match lookup_layout(encoding) {
        Some(layout) => Ok(FormatDescriptor { width: dimensions[0], height: dimensions[1], layout }),
        None => Err(UnsupportedFormat { encoding: encoding.to_owned() }),
    }
}

} // verus!
