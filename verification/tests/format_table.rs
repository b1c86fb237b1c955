use sensor_image::format::{
    decode_image_format, lookup_layout, ChannelType, ColorChannels, FormatDescriptor, PackedFormat,
    PixelLayout, UnsupportedFormat, MAX_ENCODING_BYTES,
};

fn color(model: ColorChannels, datatype: ChannelType) -> PixelLayout {
    PixelLayout::Color { model, datatype }
}

fn table() -> Vec<(&'static str, PixelLayout)> {
    vec![
        ("rgb8", color(ColorChannels::RGB, ChannelType::U8)),
        ("rgba8", color(ColorChannels::RGBA, ChannelType::U8)),
        ("rgb16", color(ColorChannels::RGB, ChannelType::U16)),
        ("rgba16", color(ColorChannels::RGBA, ChannelType::U16)),
        ("bgr8", color(ColorChannels::BGR, ChannelType::U8)),
        ("bgra8", color(ColorChannels::BGRA, ChannelType::U8)),
        ("bgr16", color(ColorChannels::BGR, ChannelType::U16)),
        ("bgra16", color(ColorChannels::BGRA, ChannelType::U16)),
        ("mono8", color(ColorChannels::L, ChannelType::U8)),
        ("mono16", color(ColorChannels::L, ChannelType::U16)),
        ("yuyv", PixelLayout::Packed { format: PackedFormat::YUY2 }),
        ("yuv422_yuy2", PixelLayout::Packed { format: PackedFormat::YUY2 }),
        ("nv12", PixelLayout::Packed { format: PackedFormat::NV12 }),
        ("8UC1", PixelLayout::Depth { datatype: ChannelType::U8 }),
        ("8SC1", PixelLayout::Depth { datatype: ChannelType::I8 }),
        ("16UC1", PixelLayout::Depth { datatype: ChannelType::U16 }),
        ("16SC1", PixelLayout::Depth { datatype: ChannelType::I16 }),
        ("32SC1", PixelLayout::Depth { datatype: ChannelType::I32 }),
        ("32FC1", PixelLayout::Depth { datatype: ChannelType::F32 }),
    ]
}

#[test]
fn every_table_entry_resolves_to_its_layout() {
    for (encoding, layout) in table() {
        let format = decode_image_format(encoding, [640, 480]).unwrap();
        assert_eq!(format, FormatDescriptor { width: 640, height: 480, layout }, "{encoding}");
        assert_eq!(lookup_layout(encoding), Some(layout), "{encoding}");
    }
}

#[test]
fn dimensions_are_width_then_height() {
    let format = decode_image_format("mono8", [7, 3]).unwrap();
    assert_eq!(format.width, 7);
    assert_eq!(format.height, 3);
}

#[test]
fn rgb8_four_by_two_is_rgb_with_eight_bit_channels() {
    let format = decode_image_format("rgb8", [4, 2]).unwrap();
    assert_eq!(format, FormatDescriptor::rgb8([4, 2]));
    assert_eq!((format.width, format.height), (4, 2));
    assert_eq!(format.color_channels(), Some(ColorChannels::RGB));
    assert_eq!(format.channel_type(), Some(ChannelType::U8));
    assert_eq!(format.packed_format(), None);
    assert!(!format.lacks_color_model());
}

#[test]
fn float_depth_has_no_color_model() {
    let format = decode_image_format("32FC1", [4, 2]).unwrap();
    assert_eq!(format, FormatDescriptor::depth([4, 2], ChannelType::F32));
    assert_eq!(format.color_channels(), None);
    assert_eq!(format.channel_type(), Some(ChannelType::F32));
    assert_eq!(format.packed_format(), None);
    assert!(format.lacks_color_model());
}

#[test]
fn packed_formats_carry_only_their_tag() {
    let format = decode_image_format("nv12", [16, 8]).unwrap();
    assert_eq!(format, FormatDescriptor::packed([16, 8], PackedFormat::NV12));
    assert_eq!(format.packed_format(), Some(PackedFormat::NV12));
    assert_eq!(format.color_channels(), None);
    assert_eq!(format.channel_type(), None);
    assert!(format.lacks_color_model());
    let format = decode_image_format("yuyv", [16, 8]).unwrap();
    assert_eq!(format.packed_format(), Some(PackedFormat::YUY2));
}

#[test]
fn constructors_agree_with_one_another() {
    assert_eq!(
        FormatDescriptor::rgb8([5, 6]),
        FormatDescriptor::color([5, 6], ColorChannels::RGB, ChannelType::U8)
    );
    assert_eq!(
        FormatDescriptor::rgba8([5, 6]),
        FormatDescriptor::color([5, 6], ColorChannels::RGBA, ChannelType::U8)
    );
    assert_ne!(FormatDescriptor::rgb8([5, 6]), FormatDescriptor::rgb8([6, 5]));
}

#[test]
fn unknown_encoding_is_an_error_that_carries_it() {
    let err = decode_image_format("jpeg", [4, 2]).unwrap_err();
    assert_eq!(err, UnsupportedFormat { encoding: "jpeg".to_owned() });
    assert_eq!(lookup_layout("jpeg"), None);
}

#[test]
fn matching_is_exact_and_case_sensitive() {
    for encoding in ["RGB8", "Rgb8", "rgb8 ", " rgb8", "rgb", "rgb88", "", "8uc1", "32fc1", "mono", "yuv422"] {
        let err = decode_image_format(encoding, [1, 1]).unwrap_err();
        assert_eq!(err.encoding, encoding);
    }
}

#[test]
fn non_ascii_encoding_is_refused_whole() {
    let err = decode_image_format("rgb8\u{e9}", [1, 1]).unwrap_err();
    assert_eq!(err.encoding, "rgb8\u{e9}");
}

#[test]
fn no_table_entry_is_longer_than_the_stated_maximum() {
    let longest = table().iter().map(|(encoding, _)| encoding.len()).max().unwrap();
    assert_eq!(longest, MAX_ENCODING_BYTES);
    assert!(table().iter().all(|(encoding, _)| encoding.is_ascii()));
}
