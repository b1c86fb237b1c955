use arrow::array::{Array, FixedSizeListArray, StringArray, UInt32Array};
use re_log_types::EntityPath;
use sensor_image::column::OFFSET_LIMIT;
use sensor_image::context::{ParserContext, TimeCell, TimeKind};
use sensor_image::emit::{blobs_fit, ImageArchetype};
use sensor_image::error::{BatchError, PluginError};
use sensor_image::format::{ChannelType, FormatDescriptor, PackedFormat, MAX_ENCODING_BYTES};
use sensor_image::frame::{DecodeError, DecodeFault, ImageFrame};
use sensor_image::parser::{ImageMessageParser, METADATA_COLUMNS, ROW_LIMIT};
use sensor_image::plugin::ImageSchemaPlugin;

fn word(out: &mut Vec<u8>, value: u32) {
    while out.len() % 4 != 0 {
        out.push(0);
    }
    out.extend_from_slice(&value.to_le_bytes());
}

fn string(out: &mut Vec<u8>, text: &str) {
    word(out, text.len() as u32 + 1);
    out.extend_from_slice(text.as_bytes());
    out.push(0);
}

/// A little-endian payload of a `width` by `height` image stamped `sec` seconds.
fn message(encoding: &str, width: u32, height: u32, sec: i32, data: &[u8]) -> Vec<u8> {
    let mut out = vec![0, 1, 0, 0];
    word(&mut out, sec as u32);
    word(&mut out, 500);
    string(&mut out, "optical_frame");
    word(&mut out, height);
    word(&mut out, width);
    string(&mut out, encoding);
    out.push(0);
    word(&mut out, width * 3);
    word(&mut out, data.len() as u32);
    out.extend_from_slice(data);
    out
}

fn context() -> ParserContext {
    ParserContext::new(EntityPath::from("/camera/image"))
}

fn numbers(array: &FixedSizeListArray) -> Vec<u32> {
    array.values().as_any().downcast_ref::<UInt32Array>().unwrap().values().to_vec()
}

fn texts(array: &FixedSizeListArray) -> Vec<String> {
    let values = array.values().as_any().downcast_ref::<StringArray>().unwrap();
    (0..values.len()).map(|i| values.value(i).to_owned()).collect()
}

#[test]
fn new_parser_has_no_rows_and_is_a_color_channel() {
    let parser = ImageMessageParser::new(16);
    assert_eq!(parser.len(), 0);
    assert!(!parser.is_depth_image());
    assert!(parser.fits_one_batch());
}

#[test]
fn plugin_names_the_image_schema() {
    assert_eq!(ImageSchemaPlugin.name(), "sensor_msgs/msg/Image");
    assert_eq!(ImageSchemaPlugin::default().name(), "sensor_msgs/msg/Image");
}

#[test]
fn plugin_makes_an_empty_parser_whatever_the_hint() {
    let channel = mcap::Channel {
        id: 3,
        topic: "/camera/image_raw".to_owned(),
        schema: None,
        message_encoding: "cdr".to_owned(),
        metadata: std::collections::BTreeMap::new(),
    };
    for hint in [0usize, 1, 1000] {
        let mut parser = ImageSchemaPlugin.create_message_parser(&channel, hint);
        assert_eq!(parser.len(), 0);
        assert!(!parser.is_depth_image());
        let mut ctx = context();
        parser.append(&mut ctx, &message("rgb8", 1, 1, 0, &[1, 2, 3])).unwrap();
        parser.append(&mut ctx, &message("rgb8", 1, 1, 1, &[1, 2, 3])).unwrap();
        assert_eq!(parser.len(), 2);
    }
}

#[test]
fn each_accepted_frame_adds_one_row() {
    let mut parser = ImageMessageParser::new(0);
    let mut ctx = context();
    for n in 0..7usize {
        assert_eq!(parser.len(), n);
        parser.append(&mut ctx, &message("mono8", 2, 2, n as i32, &[0, 1, 2, 3])).unwrap();
    }
    assert_eq!(parser.len(), 7);
    let timelines = ctx.build_timelines();
    assert_eq!(timelines.len(), 1);
    assert_eq!(timelines[0].name, "timestamp");
    assert_eq!(timelines[0].kind, TimeKind::TimestampNs);
    assert_eq!(
        timelines[0].times,
        (0..7).map(|n| n * 1_000_000_000 + 500).collect::<Vec<i64>>()
    );
}

#[test]
fn batches_hold_one_row_per_frame_in_every_column() {
    let mut parser = ImageMessageParser::new(2);
    let mut ctx = context();
    let frames: [(&str, u32, u32, &[u8]); 5] = [
        ("rgb8", 4, 2, &[1; 24]),
        ("bgr8", 2, 1, &[2; 6]),
        ("mono16", 3, 3, &[3; 18]),
        ("rgba8", 1, 1, &[4; 4]),
        ("rgb8", 4, 2, &[5; 24]),
    ];
    for (n, (encoding, width, height, data)) in frames.iter().enumerate() {
        parser.append(&mut ctx, &message(encoding, *width, *height, n as i32, data)).unwrap();
    }
    let batches = parser.into_batches(ctx).unwrap();
    assert_eq!(batches.entity_path, EntityPath::from("/camera/image"));
    assert_eq!(batches.images.archetype, ImageArchetype::Image);
    assert_eq!(batches.images.blobs.len(), 5);
    assert_eq!(batches.images.formats.len(), 5);
    assert_eq!(batches.timelines.len(), 1);
    assert_eq!(batches.timelines[0].times.len(), 5);
    assert_eq!(batches.metadata.len(), METADATA_COLUMNS);
    for column in &batches.metadata {
        assert_eq!(column.archetype, "sensor_msgs.msg.Image");
        assert_eq!(column.rows.len(), 5);
        assert_eq!(column.rows.value_length(), 1);
        assert_eq!(column.rows.null_count(), 0);
    }
    let names: Vec<&str> = batches.metadata.iter().map(|c| c.component.as_str()).collect();
    assert_eq!(names, vec!["height", "width", "encoding", "is_bigendian", "step"]);
    assert_eq!(numbers(&batches.metadata[0].rows), vec![2, 1, 3, 1, 2]);
    assert_eq!(numbers(&batches.metadata[1].rows), vec![4, 2, 3, 1, 4]);
    assert_eq!(texts(&batches.metadata[2].rows), vec!["rgb8", "bgr8", "mono16", "rgba8", "rgb8"]);
    assert_eq!(numbers(&batches.metadata[3].rows), vec![0, 0, 0, 0, 0]);
    assert_eq!(numbers(&batches.metadata[4].rows), vec![12, 6, 9, 3, 12]);
    for (n, (encoding, width, height, data)) in frames.iter().enumerate() {
        assert_eq!(batches.images.blobs[n], *data);
        assert_eq!(
            Ok(batches.images.formats[n]),
            sensor_image::format::decode_image_format(encoding, [*width, *height])
        );
    }
}

fn frame(encoding: &str, is_bigendian: u8, data: Vec<u8>) -> ImageFrame {
    ImageFrame {
        stamp_sec: 3,
        stamp_nanosec: 4,
        height: 1,
        width: 2,
        encoding: encoding.to_owned(),
        is_bigendian,
        step: 9,
        data,
    }
}

#[test]
fn decoded_frame_becomes_the_last_row_and_its_timestamp_the_last_time() {
    let mut parser = ImageMessageParser::new(0);
    let mut ctx = context();
    parser.append_frame(&mut ctx, frame("16UC1", 1, vec![9, 8, 7, 6])).unwrap();
    parser.append_frame(&mut ctx, frame("8UC1", 7, vec![5, 4])).unwrap();
    assert_eq!(parser.len(), 2);
    let batches = parser.into_batches(ctx).unwrap();
    assert_eq!(batches.timelines[0].times, vec![3_000_000_004, 3_000_000_004]);
    assert_eq!(batches.images.blobs, vec![vec![9, 8, 7, 6], vec![5, 4]]);
    assert_eq!(
        batches.images.formats,
        vec![
            FormatDescriptor::depth([2, 1], ChannelType::U16),
            FormatDescriptor::depth([2, 1], ChannelType::U8)
        ]
    );
    assert_eq!(numbers(&batches.metadata[3].rows), vec![1, 7]);
    assert_eq!(numbers(&batches.metadata[4].rows), vec![9, 9]);
}

#[test]
fn decoded_rgb8_frame_of_four_by_two_gets_the_rgb_descriptor() {
    let mut parser = ImageMessageParser::new(1);
    let mut ctx = context();
    parser.append(&mut ctx, &message("rgb8", 4, 2, 0, &[0; 24])).unwrap();
    assert!(!parser.is_depth_image());
    let batches = parser.into_batches(ctx).unwrap();
    let format = batches.images.formats[0];
    assert_eq!(format.color_channels(), Some(sensor_image::format::ColorChannels::RGB));
    assert_eq!(format.channel_type(), Some(ChannelType::U8));
    assert_eq!((format.width, format.height), (4, 2));
    assert_eq!(format, FormatDescriptor::rgb8([4, 2]));
}

#[test]
fn decoded_float_frame_gets_a_depth_descriptor_without_color_model() {
    let mut parser = ImageMessageParser::new(1);
    let mut ctx = context();
    parser.append(&mut ctx, &message("32FC1", 4, 2, 0, &[0; 32])).unwrap();
    assert!(parser.is_depth_image());
    let batches = parser.into_batches(ctx).unwrap();
    let format = batches.images.formats[0];
    assert_eq!(format.color_channels(), None);
    assert_eq!(format.channel_type(), Some(ChannelType::F32));
    assert_eq!(format, FormatDescriptor::depth([4, 2], ChannelType::F32));
    assert_eq!(batches.images.archetype, ImageArchetype::DepthImage);
}

#[test]
fn blob_reaches_the_batch_with_the_same_content() {
    let data: Vec<u8> = (0..=255).collect();
    let mut parser = ImageMessageParser::new(1);
    let mut ctx = context();
    parser.append_frame(&mut ctx, frame("mono8", 0, data.clone())).unwrap();
    let batches = parser.into_batches(ctx).unwrap();
    assert_eq!(batches.images.blobs.len(), 1);
    assert_eq!(batches.images.blobs[0].len(), data.len());
    assert_eq!(batches.images.blobs[0], data);
}

#[test]
fn blob_is_moved_not_copied() {
    let data: Vec<u8> = vec![7; 4096];
    let address = data.as_ptr();
    let mut parser = ImageMessageParser::new(1);
    let mut ctx = context();
    parser.append_frame(&mut ctx, frame("mono8", 0, data)).unwrap();
    let batches = parser.into_batches(ctx).unwrap();
    assert_eq!(batches.images.blobs[0].as_ptr(), address);
}

#[test]
fn last_frame_decides_between_color_and_depth() {
    let mut parser = ImageMessageParser::new(0);
    let mut ctx = context();
    parser.append(&mut ctx, &message("rgb8", 1, 1, 0, &[1, 2, 3])).unwrap();
    assert!(!parser.is_depth_image());
    parser.append(&mut ctx, &message("bgr8", 1, 1, 1, &[1, 2, 3])).unwrap();
    assert!(!parser.is_depth_image());
    parser.append(&mut ctx, &message("16UC1", 1, 1, 2, &[1, 2])).unwrap();
    assert!(parser.is_depth_image());
    let batches = parser.into_batches(ctx).unwrap();
    assert_eq!(batches.images.archetype, ImageArchetype::DepthImage);
    assert_eq!(batches.images.blobs.len(), 3);
}

#[test]
fn color_frame_after_depth_frames_makes_a_color_channel() {
    let mut parser = ImageMessageParser::new(0);
    let mut ctx = context();
    parser.append(&mut ctx, &message("32FC1", 1, 1, 0, &[0; 4])).unwrap();
    parser.append(&mut ctx, &message("32FC1", 1, 1, 1, &[0; 4])).unwrap();
    assert!(parser.is_depth_image());
    parser.append(&mut ctx, &message("mono8", 1, 1, 2, &[0])).unwrap();
    assert!(!parser.is_depth_image());
    let batches = parser.into_batches(ctx).unwrap();
    assert_eq!(batches.images.archetype, ImageArchetype::Image);
}

#[test]
fn packed_format_has_no_color_model_and_counts_as_depth() {
    let mut parser = ImageMessageParser::new(0);
    let mut ctx = context();
    parser.append(&mut ctx, &message("yuyv", 2, 1, 0, &[0; 4])).unwrap();
    assert!(parser.is_depth_image());
    let batches = parser.into_batches(ctx).unwrap();
    assert_eq!(batches.images.archetype, ImageArchetype::DepthImage);
    assert_eq!(batches.images.formats, vec![FormatDescriptor::packed([2, 1], PackedFormat::YUY2)]);
}

#[test]
fn rejected_frame_does_not_touch_the_depth_flag() {
    let mut parser = ImageMessageParser::new(0);
    let mut ctx = context();
    parser.append(&mut ctx, &message("16UC1", 1, 1, 0, &[1, 2])).unwrap();
    assert!(parser.append(&mut ctx, &message("jpeg", 1, 1, 1, &[1, 2])).is_err());
    assert!(parser.append(&mut ctx, &[0, 1]).is_err());
    assert!(parser.is_depth_image());
    assert_eq!(parser.len(), 1);
}

#[test]
fn zero_frames_make_two_empty_batches() {
    let batches = ImageMessageParser::new(8).into_batches(context()).unwrap();
    assert_eq!(batches.images.archetype, ImageArchetype::Image);
    assert!(batches.images.blobs.is_empty());
    assert!(batches.images.formats.is_empty());
    assert!(batches.timelines.is_empty());
    assert_eq!(batches.metadata.len(), 5);
    assert!(batches.metadata.iter().all(|column| column.rows.len() == 0));
}

#[test]
fn decode_failure_on_the_third_of_five_keeps_the_first_two() {
    let mut parser = ImageMessageParser::new(5);
    let mut ctx = context();
    parser.append(&mut ctx, &message("rgb8", 1, 1, 0, &[1, 1, 1])).unwrap();
    parser.append(&mut ctx, &message("rgb8", 1, 1, 1, &[2, 2, 2])).unwrap();
    let good = message("rgb8", 1, 1, 2, &[3, 3, 3]);
    let err = parser.append(&mut ctx, &good[..good.len() - 2]).unwrap_err();
    match err {
        PluginError::Decode(e) => {
            assert_eq!(e.fault(), DecodeFault::Malformed);
            assert!(matches!(e, DecodeError::Malformed { .. }));
        }
        other => panic!("{other:?}"),
    }
    assert_eq!(parser.len(), 2);
    parser.append(&mut ctx, &message("rgb8", 1, 1, 3, &[4, 4, 4])).unwrap();
    parser.append(&mut ctx, &message("rgb8", 1, 1, 4, &[5, 5, 5])).unwrap();
    assert_eq!(parser.len(), 4);
    let batches = parser.into_batches(ctx).unwrap();
    assert_eq!(
        batches.images.blobs,
        vec![vec![1, 1, 1], vec![2, 2, 2], vec![4, 4, 4], vec![5, 5, 5]]
    );
    assert_eq!(
        batches.timelines[0].times,
        vec![500, 1_000_000_500, 3_000_000_500, 4_000_000_500]
    );
    for column in &batches.metadata {
        assert_eq!(column.rows.len(), 4);
    }
}

#[test]
fn decode_failure_leaves_two_rows_in_every_column() {
    let mut parser = ImageMessageParser::new(5);
    let mut ctx = context();
    parser.append(&mut ctx, &message("rgb8", 1, 1, 0, &[1, 1, 1])).unwrap();
    parser.append(&mut ctx, &message("rgb8", 1, 1, 1, &[2, 2, 2])).unwrap();
    assert!(matches!(parser.append(&mut ctx, &[9, 9, 9, 9, 9]), Err(PluginError::Decode(_))));
    let batches = parser.into_batches(ctx).unwrap();
    assert_eq!(batches.images.blobs.len(), 2);
    assert_eq!(batches.images.formats.len(), 2);
    assert_eq!(batches.timelines[0].times.len(), 2);
    for column in &batches.metadata {
        assert_eq!(column.rows.len(), 2);
    }
}

#[test]
fn payload_without_header_is_a_decode_error() {
    let mut parser = ImageMessageParser::new(0);
    let mut ctx = context();
    match parser.append(&mut ctx, &[0, 1, 0]) {
        Err(PluginError::Decode(DecodeError::TooShort { len })) => assert_eq!(len, 3),
        other => panic!("{other:?}"),
    }
    match parser.append(&mut ctx, &[0, 5, 0, 0, 0]) {
        Err(PluginError::Decode(DecodeError::UnknownRepresentation { identifier })) => {
            assert_eq!(identifier, [0, 5])
        }
        other => panic!("{other:?}"),
    }
    assert_eq!(parser.len(), 0);
    assert!(ctx.build_timelines().is_empty());
}

#[test]
fn unsupported_encoding_changes_neither_parser_nor_context() {
    let mut parser = ImageMessageParser::new(0);
    let mut ctx = context();
    parser.append(&mut ctx, &message("rgb8", 1, 1, 0, &[1, 2, 3])).unwrap();
    match parser.append(&mut ctx, &message("bayer_rggb8", 1, 1, 1, &[1])) {
        Err(PluginError::UnsupportedFormat(e)) => assert_eq!(e.encoding, "bayer_rggb8"),
        other => panic!("{other:?}"),
    }
    match parser.append_frame(&mut ctx, frame("RGB8", 0, vec![1, 2, 3])) {
        Err(PluginError::UnsupportedFormat(e)) => assert_eq!(e.encoding, "RGB8"),
        other => panic!("{other:?}"),
    }
    assert_eq!(parser.len(), 1);
    let batches = parser.into_batches(ctx).unwrap();
    assert_eq!(batches.timelines.len(), 1);
    assert_eq!(batches.timelines[0].times, vec![500]);
    assert_eq!(texts(&batches.metadata[2].rows), vec!["rgb8"]);
}

#[test]
fn host_timelines_fed_per_message_stay_aligned() {
    let mut parser = ImageMessageParser::new(0);
    let mut ctx = context();
    for n in 0..3 {
        ctx.add_time_cell("log_time", TimeCell { kind: TimeKind::TimestampNs, value: 10 + n });
        ctx.add_time_cell("publish_time", TimeCell { kind: TimeKind::TimestampNs, value: 20 + n });
        parser.append(&mut ctx, &message("rgb8", 1, 1, n as i32, &[1, 2, 3])).unwrap();
    }
    let batches = parser.into_batches(ctx).unwrap();
    let names: Vec<&str> = batches.timelines.iter().map(|t| t.name.as_str()).collect();
    assert_eq!(names, vec!["log_time", "publish_time", "timestamp"]);
    assert!(batches.timelines.iter().all(|t| t.times.len() == 3));
}

#[test]
fn timeline_of_another_length_is_a_batch_error_that_names_it() {
    let mut parser = ImageMessageParser::new(0);
    let mut ctx = context();
    ctx.add_time_cell("log_time", TimeCell { kind: TimeKind::TimestampNs, value: 1 });
    parser.append(&mut ctx, &message("rgb8", 1, 1, 0, &[1, 2, 3])).unwrap();
    ctx.add_time_cell("log_time", TimeCell { kind: TimeKind::TimestampNs, value: 2 });
    assert!(parser.append(&mut ctx, &[]).is_err());
    match parser.into_batches(ctx) {
        Err(PluginError::BatchConstruction(BatchError::TimelineLength { timeline, times, rows })) => {
            assert_eq!(timeline, "log_time");
            assert_eq!(times, 2);
            assert_eq!(rows, 1);
        }
        other => panic!("{other:?}"),
    }
}

#[test]
fn timeline_without_rows_is_a_batch_error() {
    let mut ctx = context();
    ctx.add_time_cell("log_time", TimeCell { kind: TimeKind::TimestampNs, value: 1 });
    match ImageMessageParser::new(0).into_batches(ctx) {
        Err(PluginError::BatchConstruction(BatchError::TimelineLength { times, rows, .. })) => {
            assert_eq!((times, rows), (1, 0));
        }
        other => panic!("{other:?}"),
    }
}

#[test]
fn small_blobs_fit_one_batch() {
    let mut parser = ImageMessageParser::new(0);
    let mut ctx = context();
    parser.append(&mut ctx, &message("rgb8", 1, 1, 0, &[1, 2, 3])).unwrap();
    assert!(parser.fits_one_batch());
    assert!(blobs_fit(&vec![]));
    assert!(blobs_fit(&vec![vec![], vec![1, 2, 3], vec![0; 1000]]));
}

#[test]
fn row_limit_keeps_the_encoding_text_within_the_offset_limit() {
    assert!(ROW_LIMIT * MAX_ENCODING_BYTES <= OFFSET_LIMIT);
    assert!((ROW_LIMIT + 1) * MAX_ENCODING_BYTES > OFFSET_LIMIT);
}
