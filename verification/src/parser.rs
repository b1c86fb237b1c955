//! The parser of one channel of image messages.
//!
//! A parser accumulates one row per accepted frame: the pixel blob and its
//! format, and five metadata values, each in a column of its own. A frame is
//! accepted when its payload decodes and its encoding is in the table; a
//! frame that is not accepted leaves the parser and its context as they
//! were. Whether the channel counts as a depth channel is decided by the
//! frame accepted last. When the channel is exhausted the parser is consumed
//! into the two output batches.

use vstd::prelude::*;
use crate::column::{
    array_len,
    array_values_per_row,
    text_rows,
    u32_rows,
    utf8_total,
    OFFSET_LIMIT,
    TextColumn,
    U32Column,
    VALUES_PER_ROW,
};
use crate::context::{
    all_of_length,
    clamped_time,
    position_of,
    series_views,
    with_time_cell,
    ParserContext,
    TimeCell,
    TimeKind,
    TimeSeriesView,
};
use crate::emit::{
    blob_views,
    blobs_fit,
    byte_total,
    chunk_rows,
    ChannelBatches,
    ImageArchetype,
    ImageBatch,
    MetadataColumn,
};
use crate::error::{BatchError, PluginError};
use crate::format::{
    decode_image_format,
    lemma_known_encodings_are_short,
    lemma_table_entries,
    resolved_format,
    ChannelType,
    ColorChannels,
    FormatDescriptor,
    MAX_ENCODING_BYTES,
};
use crate::frame::{decode_frame, decoded_frame, lemma_nanos_fit, ImageFrame, ImageFrameView};

verus! {

/// Most rows that one parser takes: as many as keep the encoding column's
/// text within what a 32-bit offset can count.
pub const ROW_LIMIT: usize = 195_225_786;

/// Number of metadata columns.
pub const METADATA_COLUMNS: usize = 5;

/// The name of the timeline that holds the sensor's own timestamps.
pub open spec fn timestamp_timeline() -> Seq<char> {
    "timestamp"@
}

/// The archetype that every metadata column is tagged with.
pub open spec fn metadata_archetype() -> Seq<char> {
    "sensor_msgs.msg.Image"@
}

/// What a parser keeps of one accepted frame.
pub struct ImageRow {
    pub height: u32,
    pub width: u32,
    pub encoding: Seq<char>,
    pub is_bigendian: u8,
    pub step: u32,
    pub data: Seq<u8>,
}

impl ImageFrameView {
    /// The row that the frame becomes.
    pub open spec fn row(self) -> ImageRow {
        ImageRow {
            height: self.height,
            width: self.width,
            encoding: self.encoding,
            is_bigendian: self.is_bigendian,
            step: self.step,
            data: self.data,
        }
    }

    /// The time cell that the frame puts on the timestamp timeline.
    pub open spec fn time_cell(self) -> TimeCell {
        TimeCell { kind: TimeKind::TimestampNs, value: self.timestamp_nanos() as i64 }
    }
}

impl ImageRow {
    /// The format that the row's encoding and dimensions resolve to.
    pub open spec fn format(self) -> Option<FormatDescriptor> {
        resolved_format(self.encoding, self.width, self.height)
    }
}

/// Last wins: a channel counts as a depth channel exactly when the format of
/// its last row has no colour model. A channel without rows does not.
pub open spec fn channel_is_depth(rows: Seq<ImageRow>) -> bool {
    &&& rows.len() > 0
    &&& rows.last().format() matches Some(format)
    &&& format.spec_lacks_color_model()
}

/// The archetype that a channel's image batch is emitted under.
pub open spec fn channel_archetype(rows: Seq<ImageRow>) -> ImageArchetype {
    if channel_is_depth(rows) {
        ImageArchetype::DepthImage
    } else {
        ImageArchetype::Image
    }
}

/// The rows after one more frame was offered: an accepted frame becomes the
/// last row, any other changes nothing.
pub open spec fn rows_with_frame(rows: Seq<ImageRow>, frame: ImageFrameView) -> Seq<ImageRow> {
    if frame.row().format() is Some {
        rows.push(frame.row())
    } else {
        rows
    }
}

/// The timelines after one more frame was offered: an accepted frame adds
/// its timestamp to the timestamp timeline, any other changes nothing.
pub open spec fn timelines_with_frame(
    timelines: Seq<TimeSeriesView>,
    frame: ImageFrameView,
) -> Seq<TimeSeriesView> {
    if frame.row().format() is Some {
        with_time_cell(timelines, timestamp_timeline(), frame.time_cell())
    } else {
        timelines
    }
}

/// The rows after one more payload was offered: a payload that decodes is
/// offered as its frame, any other changes nothing.
pub open spec fn rows_with_payload(rows: Seq<ImageRow>, payload: Seq<u8>) -> Seq<ImageRow> {
    match decoded_frame(payload) {
        Ok(frame) => rows_with_frame(rows, frame),
        Err(_) => rows,
    }
}

/// The timelines after one more payload was offered.
pub open spec fn timelines_with_payload(
    timelines: Seq<TimeSeriesView>,
    payload: Seq<u8>,
) -> Seq<TimeSeriesView> {
    match decoded_frame(payload) {
        Ok(frame) => timelines_with_frame(timelines, frame),
        Err(_) => timelines,
    }
}

/// The pixel blobs of the rows, in order.
pub open spec fn row_blobs(rows: Seq<ImageRow>) -> Seq<Seq<u8>> {
    Seq::new(rows.len(), |i: int| rows[i].data)
}

/// The formats of the rows, in order.
pub open spec fn row_formats(rows: Seq<ImageRow>) -> Seq<Option<FormatDescriptor>> {
    Seq::new(rows.len(), |i: int| rows[i].format())
}

/// The heights of the rows, in order.
pub open spec fn row_heights(rows: Seq<ImageRow>) -> Seq<u32> {
    Seq::new(rows.len(), |i: int| rows[i].height)
}

/// The widths of the rows, in order.
pub open spec fn row_widths(rows: Seq<ImageRow>) -> Seq<u32> {
    Seq::new(rows.len(), |i: int| rows[i].width)
}

/// The encodings of the rows, in order.
pub open spec fn row_encodings(rows: Seq<ImageRow>) -> Seq<Seq<char>> {
    Seq::new(rows.len(), |i: int| rows[i].encoding)
}

/// The endianness flags of the rows, widened to 32 bits, in order.
pub open spec fn row_endianness(rows: Seq<ImageRow>) -> Seq<u32> {
    Seq::new(rows.len(), |i: int| rows[i].is_bigendian as u32)
}

/// The row strides of the rows, in order.
pub open spec fn row_steps(rows: Seq<ImageRow>) -> Seq<u32> {
    Seq::new(rows.len(), |i: int| rows[i].step)
}

/// The five metadata columns of the rows: height, width, encoding,
/// endianness and stride, in this order, each under the fixed archetype.
pub open spec fn metadata_of(metadata: Seq<MetadataColumn>, rows: Seq<ImageRow>) -> bool {
    &&& metadata.len() == METADATA_COLUMNS
    &&& forall|i: int|
        0 <= i < metadata.len() ==> (#[trigger] metadata[i]).archetype@ == metadata_archetype()
            && array_len(metadata[i].rows) == rows.len() && array_values_per_row(metadata[i].rows)
            == VALUES_PER_ROW
    &&& metadata[0].component@ == "height"@
    &&& u32_rows(metadata[0].rows) == row_heights(rows)
    &&& metadata[1].component@ == "width"@
    &&& u32_rows(metadata[1].rows) == row_widths(rows)
    &&& metadata[2].component@ == "encoding"@
    &&& text_rows(metadata[2].rows) == row_encodings(rows)
    &&& metadata[3].component@ == "is_bigendian"@
    &&& u32_rows(metadata[3].rows) == row_endianness(rows)
    &&& metadata[4].component@ == "step"@
    &&& u32_rows(metadata[4].rows) == row_steps(rows)
}

/// The batches that a channel with these rows, on these timelines, ends as.
pub open spec fn batches_of(
    batches: ChannelBatches,
    rows: Seq<ImageRow>,
    entity_path: re_log_types::EntityPath,
    timelines: Seq<TimeSeriesView>,
) -> bool {
    &&& batches.entity_path == entity_path
    &&& series_views(batches.timelines@) == timelines
    &&& batches.images.archetype == channel_archetype(rows)
    &&& blob_views(batches.images.blobs@) == row_blobs(rows)
    &&& batches.images.formats@.len() == rows.len()
    &&& forall|i: int|
        0 <= i < rows.len() ==> Some(#[trigger] batches.images.formats@[i]) == rows[i].format()
    &&& metadata_of(batches.metadata@, rows)
}

/// Whether a payload is accepted: it decodes, and its encoding resolves.
pub open spec fn accepted(payload: Seq<u8>) -> bool {
    decoded_frame(payload) matches Ok(frame) && frame.row().format() is Some
}

/// The rows after a run of payloads was offered, the first of them first.
pub open spec fn rows_after(rows: Seq<ImageRow>, payloads: Seq<Seq<u8>>) -> Seq<ImageRow>
    decreases payloads.len(),
{
    if payloads.len() == 0 {
        rows
    } else {
        rows_with_payload(rows_after(rows, payloads.drop_last()), payloads.last())
    }
}

/// The timelines after a run of payloads was offered, the first of them first.
pub open spec fn timelines_after(
    timelines: Seq<TimeSeriesView>,
    payloads: Seq<Seq<u8>>,
) -> Seq<TimeSeriesView>
    decreases payloads.len(),
{
    if payloads.len() == 0 {
        timelines
    } else {
        timelines_with_payload(timelines_after(timelines, payloads.drop_last()), payloads.last())
    }
}

/// A run of payloads that are all accepted adds one row for each of them,
/// and so one entry to each of the seven columns.
pub proof fn lemma_accepted_payloads_make_rows(rows: Seq<ImageRow>, payloads: Seq<Seq<u8>>)
    requires
        forall|i: int| 0 <= i < payloads.len() ==> accepted(#[trigger] payloads[i]),
    ensures
        rows_after(rows, payloads).len() == rows.len() + payloads.len(),
        row_blobs(rows_after(rows, payloads)).len() == rows.len() + payloads.len(),
        row_formats(rows_after(rows, payloads)).len() == rows.len() + payloads.len(),
        row_heights(rows_after(rows, payloads)).len() == rows.len() + payloads.len(),
        row_widths(rows_after(rows, payloads)).len() == rows.len() + payloads.len(),
        row_encodings(rows_after(rows, payloads)).len() == rows.len() + payloads.len(),
        row_endianness(rows_after(rows, payloads)).len() == rows.len() + payloads.len(),
        row_steps(rows_after(rows, payloads)).len() == rows.len() + payloads.len(),
    decreases payloads.len(),
{
    if payloads.len() > 0 {
        let earlier = payloads.drop_last();
        assert forall|i: int| 0 <= i < earlier.len() implies accepted(#[trigger] earlier[i]) by {
            assert(earlier[i] == payloads[i]);
        }
        lemma_accepted_payloads_make_rows(rows, earlier);
        assert(accepted(payloads[payloads.len() - 1]));
    }
}

/// An accepted payload adds exactly one row, and so one entry to each of
/// the seven columns. The new row is the decoded frame's: its blob is the
/// frame's data byte for byte, and whether the channel now counts as a depth
/// channel is whether this frame's format has no colour model.
pub proof fn lemma_accepted_payload_adds_a_row(rows: Seq<ImageRow>, payload: Seq<u8>)
    requires
        accepted(payload),
    ensures
        ({
            let frame = decoded_frame(payload)->Ok_0;
            let after = rows_with_payload(rows, payload);
            &&& after == rows.push(frame.row())
            &&& row_blobs(after).len() == rows.len() + 1
            &&& row_formats(after).len() == rows.len() + 1
            &&& row_heights(after).len() == rows.len() + 1
            &&& row_widths(after).len() == rows.len() + 1
            &&& row_encodings(after).len() == rows.len() + 1
            &&& row_endianness(after).len() == rows.len() + 1
            &&& row_steps(after).len() == rows.len() + 1
            &&& row_blobs(after)[rows.len() as int] == frame.data
            &&& row_formats(after)[rows.len() as int] == frame.row().format()
            &&& channel_is_depth(after) == frame.row().format()->Some_0.spec_lacks_color_model()
        }),
{
    let frame = decoded_frame(payload)->Ok_0;
    lemma_last_accepted_frame_decides(rows, frame);
}

/// A frame whose encoding is `rgb8` becomes a row whose format is RGB with
/// 8-bit channels and the frame's own width and height, and makes the
/// channel a colour channel.
pub proof fn lemma_rgb8_frame_is_color(rows: Seq<ImageRow>, frame: ImageFrameView)
    requires
        frame.encoding == "rgb8"@,
    ensures
        frame.row().format() == Some(
            FormatDescriptor::spec_color(
                [frame.width, frame.height],
                ColorChannels::RGB,
                ChannelType::U8,
            ),
        ),
        rows_with_frame(rows, frame) == rows.push(frame.row()),
        !channel_is_depth(rows_with_frame(rows, frame)),
        channel_archetype(rows_with_frame(rows, frame)) == ImageArchetype::Image,
{
    lemma_table_entries();
    lemma_last_accepted_frame_decides(rows, frame);
}

/// A frame whose encoding is `32FC1` becomes a row whose format is a depth
/// format of 32-bit floats with the frame's own width and height, without a
/// colour model, and makes the channel a depth channel.
pub proof fn lemma_float_frame_is_depth(rows: Seq<ImageRow>, frame: ImageFrameView)
    requires
        frame.encoding == "32FC1"@,
    ensures
        frame.row().format() == Some(
            FormatDescriptor::spec_depth([frame.width, frame.height], ChannelType::F32),
        ),
        frame.row().format()->Some_0.layout.spec_color_channels() is None,
        rows_with_frame(rows, frame) == rows.push(frame.row()),
        channel_is_depth(rows_with_frame(rows, frame)),
        channel_archetype(rows_with_frame(rows, frame)) == ImageArchetype::DepthImage,
{
    lemma_table_entries();
    lemma_last_accepted_frame_decides(rows, frame);
}

/// A payload that is not accepted, because it does not decode or because its
/// encoding is not in the table, changes neither the rows nor the timelines.
pub proof fn lemma_rejected_payload_changes_nothing(
    rows: Seq<ImageRow>,
    timelines: Seq<TimeSeriesView>,
    payload: Seq<u8>,
)
    requires
        !accepted(payload),
    ensures
        rows_with_payload(rows, payload) == rows,
        timelines_with_payload(timelines, payload) == timelines,
        channel_archetype(rows_with_payload(rows, payload)) == channel_archetype(rows),
{
}

/// Last wins: after an accepted frame the channel is a depth channel exactly
/// when that frame's format has no colour model, whatever came before.
pub proof fn lemma_last_accepted_frame_decides(rows: Seq<ImageRow>, frame: ImageFrameView)
    requires
        frame.row().format() is Some,
    ensures
        ({
            let format = frame.row().format()->Some_0;
            let after = rows_with_frame(rows, frame);
            &&& channel_is_depth(after) == format.spec_lacks_color_model()
            &&& format.spec_lacks_color_model() ==> channel_archetype(after)
                == ImageArchetype::DepthImage
            &&& !format.spec_lacks_color_model() ==> channel_archetype(after)
                == ImageArchetype::Image
        }),
{
    assert(rows_with_frame(rows, frame).last() == frame.row());
}

/// The pixel blob of an accepted frame is the last blob of the rows, byte
/// for byte, and the blobs before it are the blobs that were there.
pub proof fn lemma_accepted_blob_is_kept(rows: Seq<ImageRow>, frame: ImageFrameView)
    requires
        frame.row().format() is Some,
    ensures
        row_blobs(rows_with_frame(rows, frame)) == row_blobs(rows).push(frame.data),
{
    assert(row_blobs(rows_with_frame(rows, frame)) =~= row_blobs(rows).push(frame.data));
}

/// A channel that is fed by its parser alone stays aligned: whatever
/// payloads are offered to a fresh parser and a fresh context, the context
/// ends with no timeline where no payload was accepted, and else with the
/// timestamp timeline alone, which holds one time for each row.
pub proof fn lemma_channel_fed_alone_is_aligned(payloads: Seq<Seq<u8>>)
    ensures
        all_of_length(
            timelines_after(Seq::<TimeSeriesView>::empty(), payloads),
            rows_after(Seq::<ImageRow>::empty(), payloads).len(),
        ),
        rows_after(Seq::<ImageRow>::empty(), payloads).len() == 0 ==> timelines_after(
            Seq::<TimeSeriesView>::empty(),
            payloads,
        ).len() == 0,
        rows_after(Seq::<ImageRow>::empty(), payloads).len() > 0 ==> timelines_after(
            Seq::<TimeSeriesView>::empty(),
            payloads,
        ).len() == 1 && timelines_after(Seq::<TimeSeriesView>::empty(), payloads)[0].name
            == timestamp_timeline(),
    decreases payloads.len(),
{
    if payloads.len() > 0 {
        let earlier = payloads.drop_last();
        lemma_channel_fed_alone_is_aligned(earlier);
        let lines = timelines_after(Seq::<TimeSeriesView>::empty(), earlier);
        reveal_with_fuel(position_of, 2);
        if accepted(payloads.last()) {
            if lines.len() == 1 {
                assert(lines.drop_first().len() == 0);
            }
        }
    }
}

/// The batches of a channel that took a run of accepted payloads have one
/// row for each payload: in the blobs, in the formats, in each of the five
/// metadata columns and on every timeline.
pub proof fn lemma_batches_have_a_row_per_accepted_payload(
    batches: ChannelBatches,
    payloads: Seq<Seq<u8>>,
)
    requires
        forall|i: int| 0 <= i < payloads.len() ==> accepted(#[trigger] payloads[i]),
        batches_of(
            batches,
            rows_after(Seq::<ImageRow>::empty(), payloads),
            batches.entity_path,
            series_views(batches.timelines@),
        ),
        batches.aligned(),
    ensures
        batches.images.blobs@.len() == payloads.len(),
        batches.images.formats@.len() == payloads.len(),
        batches.metadata@.len() == METADATA_COLUMNS,
        forall|i: int|
            0 <= i < batches.metadata@.len() ==> array_len((#[trigger] batches.metadata@[i]).rows)
                == payloads.len(),
        all_of_length(series_views(batches.timelines@), payloads.len()),
{
    lemma_accepted_payloads_make_rows(Seq::<ImageRow>::empty(), payloads);
    assert(blob_views(batches.images.blobs@).len() == batches.images.blobs@.len());
}

/// The chunks that a channel with these rows, on these timelines, ends as:
/// the two chunks that hold what the channel's batches hold.
pub open spec fn chunks_of(
    chunks: Seq<re_chunk::Chunk>,
    rows: Seq<ImageRow>,
    entity_path: re_log_types::EntityPath,
    timelines: Seq<TimeSeriesView>,
) -> bool {
    exists|batches: ChannelBatches|
        #[trigger] batches_of(batches, rows, entity_path, timelines) && batches.aligned()
            && batches.emitted_as(chunks)
}

/// Accumulates the frames of one channel.
pub struct ImageMessageParser {
    /// The raw pixel blobs. They are moved in and moved out, never copied.
    blobs: Vec<Vec<u8>>,
    image_formats: Vec<FormatDescriptor>,
    height: U32Column,
    width: U32Column,
    encoding: TextColumn,
    is_bigendian: U32Column,
    step: U32Column,
    is_depth_image: bool,
}

impl ImageMessageParser {
    /// The rows accumulated so far, one per accepted frame, oldest first.
    pub closed spec fn rows(&self) -> Seq<ImageRow> {
        Seq::new(
            self.blobs@.len(),
            |i: int|
                ImageRow {
                    height: self.height.values()[i],
                    width: self.width.values()[i],
                    encoding: self.encoding.values()[i],
                    is_bigendian: self.is_bigendian.values()[i] as u8,
                    step: self.step.values()[i],
                    data: self.blobs@[i]@,
                },
        )
    }

    /// The parser's invariant: the blobs, the formats and the five columns
    /// hold one entry for each row, every row's format is the one that its
    /// encoding and dimensions resolve to, and the depth flag follows the
    /// last row.
    pub closed spec fn wf(&self) -> bool {
        let n = self.blobs@.len();
        &&& n <= ROW_LIMIT
        &&& self.image_formats@.len() == n
        &&& self.height.wf() && self.height.values().len() == n
        &&& self.width.wf() && self.width.values().len() == n
        &&& self.encoding.wf() && self.encoding.values().len() == n
        &&& self.is_bigendian.wf() && self.is_bigendian.values().len() == n
        &&& self.step.wf() && self.step.values().len() == n
        &&& forall|i: int| 0 <= i < n ==> #[trigger] self.is_bigendian.values()[i] <= u8::MAX
        &&& forall|i: int|
            0 <= i < n ==> resolved_format(
                self.encoding.values()[i],
                self.width.values()[i],
                self.height.values()[i],
            ) == Some(#[trigger] self.image_formats@[i])
        &&& utf8_total(self.encoding.values()) <= MAX_ENCODING_BYTES * n
        &&& self.is_depth_image == channel_is_depth(self.rows())
    }

    /// Whether the pixel blobs are few enough bytes to go into one batch.
    pub open spec fn spec_fits_one_batch(&self) -> bool {
        byte_total(row_blobs(self.rows())) <= OFFSET_LIMIT
    }

    /// A parser without rows. `num_rows` is a hint of how many will come:
    /// more or fewer are in order.
    pub fn new(num_rows: usize) -> (parser: ImageMessageParser)
        ensures
            parser.wf(),
            parser.rows() == Seq::<ImageRow>::empty(),
    {
        let parser = ImageMessageParser {
            blobs: Vec::with_capacity(num_rows),
            image_formats: Vec::with_capacity(num_rows),
            height: U32Column::with_capacity(num_rows),
            width: U32Column::with_capacity(num_rows),
            encoding: TextColumn::with_capacity(num_rows),
            is_bigendian: U32Column::with_capacity(num_rows),
            step: U32Column::with_capacity(num_rows),
            is_depth_image: false,
        };
        assert(parser.rows() =~= Seq::<ImageRow>::empty());
        parser
    }

    /// The number of rows.
    pub fn len(&self) -> (n: usize)
        requires
            self.wf(),
        ensures
            n == self.rows().len(),
            n <= ROW_LIMIT,
    {
        self.blobs.len()
    }

    /// Whether the channel counts as a depth channel so far.
    pub fn is_depth_image(&self) -> (r: bool)
        requires
            self.wf(),
        ensures
            r == channel_is_depth(self.rows()),
    {
        self.is_depth_image
    }

    /// Whether the pixel blobs are few enough bytes to go into one batch.
    pub fn fits_one_batch(&self) -> (r: bool)
        requires
            self.wf(),
        ensures
            r == self.spec_fits_one_batch(),
    {
        assert(blob_views(self.blobs@) =~= row_blobs(self.rows()));
        blobs_fit(&self.blobs)
    }

    /// Takes one decoded frame. Where its encoding resolves, the frame
    /// becomes the last row and its timestamp the next time on the timestamp
    /// timeline; where it does not, nothing changes and the error carries the
    /// encoding.
    pub fn append_frame(&mut self, ctx: &mut ParserContext, frame: ImageFrame) -> (r: Result<
        (),
        PluginError,
    >)
        requires
            old(self).wf(),
            old(ctx).wf(),
            old(self).rows().len() < ROW_LIMIT,
        ensures
            final(self).wf(),
            final(ctx).wf(),
            final(self).rows() == rows_with_frame(old(self).rows(), frame@),
            final(ctx).timelines() == timelines_with_frame(old(ctx).timelines(), frame@),
            final(ctx).spec_entity_path() == old(ctx).spec_entity_path(),
            frame@.row().format() matches Some(format) ==> {
                &&& r is Ok
                &&& final(self).rows().len() == old(self).rows().len() + 1
                &&& final(self).rows().last() == frame@.row()
                &&& row_blobs(final(self).rows()) == row_blobs(old(self).rows()).push(frame@.data)
                &&& channel_is_depth(final(self).rows()) == format.spec_lacks_color_model()
            },
            frame@.row().format() is None ==> (r matches Err(PluginError::UnsupportedFormat(e))
                && e.encoding@ == frame@.encoding),
    {
        let ghost view = frame@;
        let ghost row = frame@.row();
        let ghost before = self.rows();
        let nanos = frame.timestamp_nanos();
        let ImageFrame { height, width, encoding, is_bigendian, step, data, .. } = frame;
        let format = match decode_image_format(encoding.as_str(), [width, height]) {
            Ok(format) => format,
            Err(e) => {
                return Err(PluginError::UnsupportedFormat(e));
            },
        };
        proof {
            lemma_known_encodings_are_short(encoding@);
            lemma_nanos_fit(view.stamp_sec, view.stamp_nanosec);
            assert(clamped_time(nanos) == nanos);
            let texts = self.encoding.values();
            assert(texts.push(encoding@).drop_last() =~= texts);
        }
        ctx.add_time_cell("timestamp", TimeCell::from_timestamp_nanos_since_epoch(nanos));
        self.is_depth_image = format.lacks_color_model();
        self.blobs.push(data);
        self.image_formats.push(format);
        self.height.push(height);
        self.width.push(width);
        self.encoding.push(encoding);
        self.is_bigendian.push(is_bigendian as u32);
        self.step.push(step);
        proof {
            assert(self.rows() =~= before.push(row));
            assert(self.rows().last() == row);
            lemma_accepted_blob_is_kept(before, view);
        }
        Ok(())
    }

    /// Takes one raw message. A payload that decodes to a frame whose
    /// encoding resolves adds one row and one timestamp; any other payload
    /// changes nothing and is answered with the reason.
    pub fn append(&mut self, ctx: &mut ParserContext, payload: &[u8]) -> (r: Result<(), PluginError>)
        requires
            old(self).wf(),
            old(ctx).wf(),
            old(self).rows().len() < ROW_LIMIT,
        ensures
            final(self).wf(),
            final(ctx).wf(),
            final(self).rows() == rows_with_payload(old(self).rows(), payload@),
            final(ctx).timelines() == timelines_with_payload(old(ctx).timelines(), payload@),
            final(ctx).spec_entity_path() == old(ctx).spec_entity_path(),
            match decoded_frame(payload@) {
                Ok(frame) => match frame.row().format() {
                    Some(format) => {
                        &&& r is Ok
                        &&& final(self).rows().len() == old(self).rows().len() + 1
                        &&& final(self).rows().last() == frame.row()
                        &&& row_blobs(final(self).rows()) == row_blobs(old(self).rows()).push(
                            frame.data,
                        )
                        &&& channel_is_depth(final(self).rows()) == format.spec_lacks_color_model()
                    },
                    None => (r matches Err(PluginError::UnsupportedFormat(e)) && e.encoding@
                        == frame.encoding),
                },
                Err(fault) => (r matches Err(PluginError::Decode(e)) && e.spec_fault() == fault),
            },
    {
        match decode_frame(payload) {
            Ok(frame) => self.append_frame(ctx, frame),
            Err(e) => Err(PluginError::Decode(e)),
        }
    }

    /// Ends the channel: checks that every timeline has one time for each
    /// row, finishes the columns and hands everything over as the two
    /// batches. A timeline of another length is an error that names it.
    pub fn into_batches(self, ctx: ParserContext) -> (r: Result<ChannelBatches, PluginError>)
        requires
            self.wf(),
            ctx.wf(),
        ensures
            r is Ok <==> all_of_length(ctx.timelines(), self.rows().len()),
            r matches Ok(batches) ==> {
                &&& batches_of(batches, self.rows(), ctx.spec_entity_path(), ctx.timelines())
                &&& batches.aligned()
                &&& batches.rows() == self.rows().len()
            },
            r matches Err(e) ==> {
                &&& e matches PluginError::BatchConstruction(
                    BatchError::TimelineLength { timeline, times, rows },
                )
                &&& rows == self.rows().len()
                &&& times != rows
                &&& exists|i: int|
                    0 <= i < ctx.timelines().len() && (#[trigger] ctx.timelines()[i]).name
                        == timeline@ && ctx.timelines()[i].times.len() == times
            },
    {
        let ghost rows = self.rows();
        let ghost lines = ctx.timelines();
        let ImageMessageParser {
            blobs,
            image_formats,
            height,
            width,
            encoding,
            is_bigendian,
            step,
            is_depth_image,
        } = self;
        let n = blobs.len();
        assert(n == rows.len());
        let (entity_path, timelines) = ctx.into_parts();
        let mut i: usize = 0;
        while i < timelines.len()
            invariant
                i <= timelines@.len(),
                series_views(timelines@) == lines,
                lines == ctx.timelines(),
                n == self.rows().len(),
                forall|k: int| 0 <= k < i ==> (#[trigger] lines[k]).times.len() == n,
            decreases timelines@.len() - i,
        {
            let times = timelines[i].times.len();
            assert(lines[i as int] == timelines@[i as int]@);
            if times != n {
                let timeline = timelines[i].name.clone();
                assert(lines[i as int].name == timeline@ && lines[i as int].times.len() == times);
                return Err(
                    PluginError::BatchConstruction(
                        BatchError::TimelineLength { timeline, times, rows: n },
                    ),
                );
            }
            i += 1;
        }
        let archetype = if is_depth_image {
            ImageArchetype::DepthImage
        } else {
            ImageArchetype::Image
        };
        let mut metadata: Vec<MetadataColumn> = Vec::with_capacity(METADATA_COLUMNS);
        metadata.push(
            MetadataColumn {
                component: "height".to_owned(),
                archetype: "sensor_msgs.msg.Image".to_owned(),
                rows: height.finish(),
            },
        );
        metadata.push(
            MetadataColumn {
                component: "width".to_owned(),
                archetype: "sensor_msgs.msg.Image".to_owned(),
                rows: width.finish(),
            },
        );
        metadata.push(
            MetadataColumn {
                component: "encoding".to_owned(),
                archetype: "sensor_msgs.msg.Image".to_owned(),
                rows: encoding.finish(),
            },
        );
        metadata.push(
            MetadataColumn {
                component: "is_bigendian".to_owned(),
                archetype: "sensor_msgs.msg.Image".to_owned(),
                rows: is_bigendian.finish(),
            },
        );
        metadata.push(
            MetadataColumn {
                component: "step".to_owned(),
                archetype: "sensor_msgs.msg.Image".to_owned(),
                rows: step.finish(),
            },
        );
        let batches = ChannelBatches {
            entity_path,
            timelines,
            images: ImageBatch { archetype, blobs, formats: image_formats },
            metadata,
        };
        proof {
            assert(blob_views(batches.images.blobs@) =~= row_blobs(rows));
            assert(u32_rows(batches.metadata@[0].rows) =~= row_heights(rows));
            assert(u32_rows(batches.metadata@[1].rows) =~= row_widths(rows));
            assert(text_rows(batches.metadata@[2].rows) =~= row_encodings(rows));
            assert(u32_rows(batches.metadata@[3].rows) =~= row_endianness(rows));
            assert(u32_rows(batches.metadata@[4].rows) =~= row_steps(rows));
        }
        Ok(batches)
    }

    /// Ends the channel and builds the two chunks, the images first and the
    /// metadata second, each with one row for each accepted frame. The
    /// chunks hold what the channel's batches hold. A timeline with another
    /// number of times than there are rows is the one error that is decided
    /// here; whether the columns can be serialized and whether the store
    /// takes them is decided by those who do it.
    pub fn finalize(self, ctx: ParserContext) -> (r: Result<Vec<re_chunk::Chunk>, PluginError>)
        requires
            self.wf(),
            ctx.wf(),
            self.spec_fits_one_batch(),
        ensures
            r matches Err(PluginError::BatchConstruction(BatchError::TimelineLength { .. }))
                <==> !all_of_length(ctx.timelines(), self.rows().len()),
            r matches Err(
                PluginError::BatchConstruction(BatchError::TimelineLength { timeline, times, rows }),
            ) ==> {
                &&& rows == self.rows().len()
                &&& times != rows
                &&& exists|i: int|
                    0 <= i < ctx.timelines().len() && (#[trigger] ctx.timelines()[i]).name
                        == timeline@ && ctx.timelines()[i].times.len() == times
            },
            r matches Ok(chunks) ==> {
                &&& chunks@.len() == 2
                &&& chunks_of(chunks@, self.rows(), ctx.spec_entity_path(), ctx.timelines())
                &&& ctx.timelines().len() > 0 || self.rows().len() == 0 ==> chunk_rows(chunks@[0])
                    == self.rows().len()
                &&& chunk_rows(chunks@[1]) == self.rows().len()
            },
            r matches Err(e) ==> e is BatchConstruction,
    {
        let batches = match self.into_batches(ctx) {
            Ok(batches) => batches,
            Err(e) => {
                return Err(e);
            },
        };
        let ghost held = batches;
        let r = batches.into_chunks();
        proof {
            if r is Ok {
                assert(batches_of(held, self.rows(), ctx.spec_entity_path(), ctx.timelines())
                    && held.aligned() && held.emitted_as(r->Ok_0@));
            }
        }
        r
    }
}

} // verus!
