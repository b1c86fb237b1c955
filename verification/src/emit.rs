//! The chunk emitter: from a channel's finished batches to chunks.
//!
//! A channel ends as two batches with one row per frame: the images (pixel
//! blob and format) under one of two archetypes, and the five metadata
//! columns. Both lie on the same timelines. The batches are plain values; the
//! chunks that are built from them belong to the store that takes them.

use vstd::prelude::*;
use arrow::array::FixedSizeListArray;
use crate::column::{array_len, array_values_per_row, OFFSET_LIMIT, VALUES_PER_ROW};
use crate::context::{all_of_length, series_views, TimeKind, TimeSeries, TimeSeriesView};
use crate::error::{BatchError, PluginError};
use crate::format::{ChannelType, ColorChannels, FormatDescriptor, PackedFormat, PixelLayout};

verus! {

/// `re_chunk::Chunk`: the store's table of rows, opaque here.
#[verifier::external_type_specification]
#[verifier::external_body]
pub struct ExChunk(re_chunk::Chunk);

/// `re_chunk::TimeColumn`: one timeline of a chunk, opaque here.
#[verifier::external_type_specification]
#[verifier::external_body]
pub struct ExTimeColumn(re_chunk::TimeColumn);

/// `re_types::SerializedComponentColumn`: one tagged column of a chunk, opaque here.
#[verifier::external_type_specification]
#[verifier::external_body]
pub struct ExSerializedComponentColumn(re_types::SerializedComponentColumn);

/// `re_types::datatypes::ImageFormat`: the format as the archetypes take it, opaque here.
#[verifier::external_type_specification]
#[verifier::external_body]
pub struct ExImageFormat(re_types::datatypes::ImageFormat);

/// The times that a time column holds, row by row.
pub uninterp spec fn time_column_times(column: re_chunk::TimeColumn) -> Seq<i64>;

/// The number of rows of a component column.
pub uninterp spec fn column_rows(column: re_types::SerializedComponentColumn) -> nat;

/// The number of rows of a chunk.
pub uninterp spec fn chunk_rows(chunk: re_chunk::Chunk) -> nat;

/// The entity that a chunk's rows belong to.
pub uninterp spec fn chunk_entity_path(chunk: re_chunk::Chunk) -> re_log_types::EntityPath;

/// The time columns that a chunk holds, one under each timeline's name.
pub uninterp spec fn chunk_time_columns(chunk: re_chunk::Chunk) -> Set<re_chunk::TimeColumn>;

/// The component columns that a chunk holds, one under each descriptor.
pub uninterp spec fn chunk_columns(chunk: re_chunk::Chunk) -> Set<
    re_types::SerializedComponentColumn,
>;

/// The time columns that are left when these are collected into a map
/// under their timelines' names, each taking the place of an earlier one
/// that the map holds to be of the same name.
pub uninterp spec fn kept_time_columns(columns: Seq<re_chunk::TimeColumn>) -> Set<
    re_chunk::TimeColumn,
>;

/// The component columns that are left when these are collected into a
/// chunk's components with `ChunkComponents::from_iter`, each taking the
/// place of an earlier one that the map holds to be of the same descriptor.
pub uninterp spec fn kept_columns(columns: Seq<re_types::SerializedComponentColumn>) -> Set<
    re_types::SerializedComponentColumn,
>;

/// The time column that `re_chunk::TimeColumn::new` makes of a timeline's
/// name, kind and times.
pub uninterp spec fn time_column_of(series: TimeSeriesView) -> re_chunk::TimeColumn;

/// The component column that a finished array makes under the descriptor
/// of a component's and an archetype's name.
pub uninterp spec fn metadata_column_of(
    component: Seq<char>,
    archetype: Seq<char>,
    rows: FixedSizeListArray,
) -> re_types::SerializedComponentColumn;

/// The columns that the colour image archetype of `re_types` makes of blobs
/// and formats, one row for each blob, or nothing where it fails.
pub uninterp spec fn color_columns_of(
    blobs: Seq<Seq<u8>>,
    formats: Seq<re_types::datatypes::ImageFormat>,
) -> Option<Seq<re_types::SerializedComponentColumn>>;

/// The columns that the depth image archetype of `re_types` makes of blobs
/// and formats, one row for each blob, or nothing where it fails.
pub uninterp spec fn depth_columns_of(
    blobs: Seq<Seq<u8>>,
    formats: Seq<re_types::datatypes::ImageFormat>,
) -> Option<Seq<re_types::SerializedComponentColumn>>;

/// The format that `re_types::datatypes::ImageFormat::from_color_model` makes
/// of a width and a height, and of the colour model and the channel datatype
/// of `re_types` that go by the names of `model` and `datatype`.
pub uninterp spec fn color_image_format(
    width: u32,
    height: u32,
    model: ColorChannels,
    datatype: ChannelType,
) -> re_types::datatypes::ImageFormat;

/// The format that `re_types::datatypes::ImageFormat::from_pixel_format`
/// makes of a width and a height, and of the pixel format of `re_types` that
/// goes by the name of `format`.
pub uninterp spec fn packed_image_format(
    width: u32,
    height: u32,
    format: PackedFormat,
) -> re_types::datatypes::ImageFormat;

/// The format that `re_types::datatypes::ImageFormat::depth` makes of a width
/// and a height, and of the channel datatype of `re_types` that goes by the
/// name of `datatype`.
pub uninterp spec fn depth_image_format(
    width: u32,
    height: u32,
    datatype: ChannelType,
) -> re_types::datatypes::ImageFormat;

/// The format of the archetypes that stands for a descriptor: the one that
/// the constructor for the descriptor's layout makes of its dimensions and
/// of what the layout holds.
pub open spec fn archetype_format_of(format: FormatDescriptor) -> re_types::datatypes::ImageFormat {
    match format.layout {
        PixelLayout::Color { model, datatype } => color_image_format(
            format.width,
            format.height,
            model,
            datatype,
        ),
        PixelLayout::Packed { format: packed } => packed_image_format(
            format.width,
            format.height,
            packed,
        ),
        PixelLayout::Depth { datatype } => depth_image_format(format.width, format.height, datatype),
    }
}

/// Every column has exactly `rows` rows.
pub open spec fn columns_of_length(
    columns: Seq<re_types::SerializedComponentColumn>,
    rows: nat,
) -> bool {
    forall|i: int| 0 <= i < columns.len() ==> column_rows(#[trigger] columns[i]) == rows
}

/// The archetype that an image batch is emitted under.
#[derive(Clone, Copy, Debug, PartialEq, Eq, Structural)]
pub enum ImageArchetype {
    /// A colour image.
    Image,
    /// A depth image.
    DepthImage,
}

/// The image batch: one pixel blob and one format per row.
#[derive(Debug)]
pub struct ImageBatch {
    /// Whether the rows are colour images or depth images.
    pub archetype: ImageArchetype,
    /// The pixel blobs, one per row.
    pub blobs: Vec<Vec<u8>>,
    /// The formats, one per row.
    pub formats: Vec<FormatDescriptor>,
}

/// One finished metadata column with its tags.
#[derive(Debug)]
pub struct MetadataColumn {
    /// The component that the column holds.
    pub component: String,
    /// The archetype that the component belongs to.
    pub archetype: String,
    /// The values, one per row.
    pub rows: FixedSizeListArray,
}

/// The two batches of one channel, the entity they belong to and the
/// timelines they lie on.
#[derive(Debug)]
pub struct ChannelBatches {
    /// The entity that the rows belong to.
    pub entity_path: re_log_types::EntityPath,
    /// The timelines, each with one time per row.
    pub timelines: Vec<TimeSeries>,
    /// The image batch.
    pub images: ImageBatch,
    /// The metadata batch, column by column.
    pub metadata: Vec<MetadataColumn>,
}

/// The contents of each blob.
pub open spec fn blob_views(blobs: Seq<Vec<u8>>) -> Seq<Seq<u8>> {
    Seq::new(blobs.len(), |i: int| blobs[i]@)
}

/// The number of bytes that the blobs hold, all together.
pub open spec fn byte_total(blobs: Seq<Seq<u8>>) -> nat
    decreases blobs.len(),
{
    if blobs.len() == 0 {
        0
    } else {
        byte_total(blobs.drop_last()) + blobs.last().len()
    }
}

/// The first blobs of a sequence hold no more bytes than all of them.
pub proof fn lemma_byte_total_prefix(blobs: Seq<Seq<u8>>, n: int)
    requires
        0 <= n <= blobs.len(),
    ensures
        byte_total(blobs.take(n)) <= byte_total(blobs),
    decreases blobs.len(),
{
    if n == blobs.len() {
        assert(blobs.take(n) =~= blobs);
    } else {
        lemma_byte_total_prefix(blobs.drop_last(), n);
        assert(blobs.drop_last().take(n) =~= blobs.take(n));
    }
}

/// Whether the blobs hold few enough bytes to be serialized into one array.
pub fn blobs_fit(blobs: &Vec<Vec<u8>>) -> (r: bool)
    ensures
        r == (byte_total(blob_views(blobs@)) <= OFFSET_LIMIT),
{
    let ghost views = blob_views(blobs@);
    let n = blobs.len();
    let mut total: usize = 0;
    let mut i: usize = 0;
    while i < n
        invariant
            n == blobs@.len(),
            views == blob_views(blobs@),
            i <= n,
            total == byte_total(views.take(i as int)),
            total <= OFFSET_LIMIT,
        decreases n - i,
    {
        let len = blobs[i].len();
        proof {
            assert(views.take(i as int + 1).drop_last() =~= views.take(i as int));
            assert(views.take(i as int + 1).last() == blobs@[i as int]@);
            lemma_byte_total_prefix(views, i as int + 1);
        }
        if len > OFFSET_LIMIT - total {
            return false;
        }
        total = total + len;
        i += 1;
    }
    assert(views.take(n as int) =~= views);
    true
}

/// A chunk holds an entity path and what is left of time columns and of
/// component columns when they are collected under their names. It has as
/// many rows as one of the component columns, or none where there is none,
/// and as many as one of the time columns where there is one.
pub open spec fn chunk_holds(
    chunk: re_chunk::Chunk,
    entity_path: re_log_types::EntityPath,
    timelines: Seq<re_chunk::TimeColumn>,
    columns: Seq<re_types::SerializedComponentColumn>,
) -> bool {
    &&& chunk_entity_path(chunk) == entity_path
    &&& chunk_time_columns(chunk) == kept_time_columns(timelines)
    &&& chunk_columns(chunk) == kept_columns(columns)
    &&& columns.len() == 0 ==> chunk_rows(chunk) == 0
    &&& columns.len() > 0 ==> exists|i: int|
        0 <= i < columns.len() && #[trigger] column_rows(columns[i]) == chunk_rows(chunk)
    &&& timelines.len() > 0 ==> exists|i: int|
        0 <= i < timelines.len() && #[trigger] time_column_times(timelines[i]).len() == chunk_rows(
            chunk,
        )
}

impl ChannelBatches {
    /// The number of rows.
    pub open spec fn rows(&self) -> nat {
        self.images.blobs@.len()
    }

    /// The batches are row-aligned: every column and every timeline has one
    /// entry for each row, and every metadata row holds one value.
    pub open spec fn aligned(&self) -> bool {
        &&& self.images.formats@.len() == self.rows()
        &&& forall|i: int|
            0 <= i < self.metadata@.len() ==> array_len((#[trigger] self.metadata@[i]).rows)
                == self.rows() && array_values_per_row(self.metadata@[i].rows) == VALUES_PER_ROW
        &&& all_of_length(series_views(self.timelines@), self.rows())
    }

    /// The formats as the archetypes take them, row by row.
    pub open spec fn format_values(&self) -> Seq<re_types::datatypes::ImageFormat> {
        Seq::new(self.images.formats@.len(), |i: int| archetype_format_of(self.images.formats@[i]))
    }

    /// The columns that the batch's archetype makes of the blobs and the
    /// formats: the colour image's or the depth image's, as the batch says.
    pub open spec fn image_column_values(&self) -> Option<Seq<re_types::SerializedComponentColumn>> {
        match self.images.archetype {
            ImageArchetype::Image => color_columns_of(
                blob_views(self.images.blobs@),
                self.format_values(),
            ),
            ImageArchetype::DepthImage => depth_columns_of(
                blob_views(self.images.blobs@),
                self.format_values(),
            ),
        }
    }

    /// The metadata columns under their tags, in order.
    pub open spec fn metadata_column_values(&self) -> Seq<re_types::SerializedComponentColumn> {
        Seq::new(
            self.metadata@.len(),
            |i: int|
                metadata_column_of(
                    self.metadata@[i].component@,
                    self.metadata@[i].archetype@,
                    self.metadata@[i].rows,
                ),
        )
    }

    /// The timelines as time columns, in order.
    pub open spec fn time_column_values(&self) -> Seq<re_chunk::TimeColumn> {
        Seq::new(self.timelines@.len(), |i: int| time_column_of(self.timelines@[i]@))
    }

    /// The two chunks hold what the batches hold: the image chunk first, made
    /// of the columns of the batch's archetype, the metadata chunk second,
    /// made of the tagged metadata columns, both for the batches' entity and
    /// on the batches' timelines, with one row for each row of the batches.
    pub open spec fn emitted_as(&self, chunks: Seq<re_chunk::Chunk>) -> bool {
        &&& chunks.len() == 2
        &&& self.image_column_values() matches Some(columns) && chunk_holds(
            chunks[0],
            self.entity_path,
            self.time_column_values(),
            columns,
        )
        &&& chunk_holds(
            chunks[1],
            self.entity_path,
            self.time_column_values(),
            self.metadata_column_values(),
        )
        &&& self.timelines@.len() > 0 || self.rows() == 0 ==> chunk_rows(chunks[0]) == self.rows()
        &&& self.timelines@.len() > 0 || self.rows() == 0 || self.metadata@.len() > 0
            ==> chunk_rows(chunks[1]) == self.rows()
    }

    /// The batches are small enough for the arrays that chunks are made of.
    pub open spec fn fits(&self) -> bool {
        &&& self.rows() <= OFFSET_LIMIT
        &&& byte_total(blob_views(self.images.blobs@)) <= OFFSET_LIMIT
    }
}

/// Calls `re_types::datatypes::ImageFormat::from_color_model` on the width
/// and the height, and on the colour model and the channel datatype of
/// `re_types` of the same names. What it makes depends on these alone; the
/// contract names it and says no more.
#[verifier::external_body]
fn color_archetype_format(width: u32, height: u32, model: ColorChannels, datatype: ChannelType) -> (r:
    re_types::datatypes::ImageFormat)
    ensures
        r == color_image_format(width, height, model, datatype),
{
    re_types::datatypes::ImageFormat::from_color_model([width, height], match model {
        ColorChannels::L => re_types::datatypes::ColorModel::L,
        ColorChannels::RGB => re_types::datatypes::ColorModel::RGB,
        ColorChannels::RGBA => re_types::datatypes::ColorModel::RGBA,
        ColorChannels::BGR => re_types::datatypes::ColorModel::BGR,
        ColorChannels::BGRA => re_types::datatypes::ColorModel::BGRA,
    }, match datatype {
        ChannelType::U8 => re_types::datatypes::ChannelDatatype::U8,
        ChannelType::I8 => re_types::datatypes::ChannelDatatype::I8,
        ChannelType::U16 => re_types::datatypes::ChannelDatatype::U16,
        ChannelType::I16 => re_types::datatypes::ChannelDatatype::I16,
        ChannelType::I32 => re_types::datatypes::ChannelDatatype::I32,
        ChannelType::F32 => re_types::datatypes::ChannelDatatype::F32,
    })
}

/// Calls `re_types::datatypes::ImageFormat::from_pixel_format` on the width
/// and the height, and on the pixel format of `re_types` of the same name.
/// What it makes depends on these alone; the contract names it and says no
/// more.
#[verifier::external_body]
fn packed_archetype_format(width: u32, height: u32, format: PackedFormat) -> (r:
    re_types::datatypes::ImageFormat)
    ensures
        r == packed_image_format(width, height, format),
{
    re_types::datatypes::ImageFormat::from_pixel_format([width, height], match format {
        PackedFormat::NV12 => re_types::datatypes::PixelFormat::NV12,
        PackedFormat::YUY2 => re_types::datatypes::PixelFormat::YUY2,
    })
}

/// Calls `re_types::datatypes::ImageFormat::depth` on the width and the
/// height, and on the channel datatype of `re_types` of the same name. What
/// it makes depends on these alone; the contract names it and says no more.
#[verifier::external_body]
fn depth_archetype_format(width: u32, height: u32, datatype: ChannelType) -> (r:
    re_types::datatypes::ImageFormat)
    ensures
        r == depth_image_format(width, height, datatype),
{
    re_types::datatypes::ImageFormat::depth([width, height], match datatype {
        ChannelType::U8 => re_types::datatypes::ChannelDatatype::U8,
        ChannelType::I8 => re_types::datatypes::ChannelDatatype::I8,
        ChannelType::U16 => re_types::datatypes::ChannelDatatype::U16,
        ChannelType::I16 => re_types::datatypes::ChannelDatatype::I16,
        ChannelType::I32 => re_types::datatypes::ChannelDatatype::I32,
        ChannelType::F32 => re_types::datatypes::ChannelDatatype::F32,
    })
}

/// The format as the archetypes take it: the constructor for the
/// descriptor's layout is called on the descriptor's dimensions and on what
/// the layout holds.
fn archetype_format(format: &FormatDescriptor) -> (r: re_types::datatypes::ImageFormat)
    ensures
        r == archetype_format_of(*format),
{
    match format.layout {
        PixelLayout::Color { model, datatype } => color_archetype_format(
            format.width,
            format.height,
            model,
            datatype,
        ),
        PixelLayout::Packed { format: packed } => packed_archetype_format(
            format.width,
            format.height,
            packed,
        ),
        PixelLayout::Depth { datatype } => depth_archetype_format(
            format.width,
            format.height,
            datatype,
        ),
    }
}

/// The formats as the archetypes take them, in order.
fn archetype_formats(formats: &Vec<FormatDescriptor>) -> (r: Vec<re_types::datatypes::ImageFormat>)
    ensures
        r@.len() == formats@.len(),
        forall|i: int| 0 <= i < r@.len() ==> #[trigger] r@[i] == archetype_format_of(formats@[i]),
{
    let mut out: Vec<re_types::datatypes::ImageFormat> = Vec::with_capacity(formats.len());
    let mut i: usize = 0;
    while i < formats.len()
        invariant
            i <= formats@.len(),
            out@.len() == i,
            forall|k: int| 0 <= k < i ==> #[trigger] out@[k] == archetype_format_of(formats@[k]),
        decreases formats@.len() - i,
    {
        out.push(archetype_format(&formats[i]));
        i += 1;
    }
    out
}

/// Builds the columns of the colour image archetype: calls
/// `re_types::archetypes::Image::update_fields`, `with_many_buffer`,
/// `with_many_format` and `columns_of_unit_batches`, and collects the
/// columns. Serializing the blobs panics where their bytes, or the rows,
/// outnumber what a 32-bit offset can count. What comes out depends on the
/// blobs and the formats alone, and each column is cut into one row for each
/// blob.
#[verifier::external_body]
fn color_image_columns(blobs: Vec<Vec<u8>>, formats: Vec<re_types::datatypes::ImageFormat>) -> (r:
    Result<Vec<re_types::SerializedComponentColumn>, re_types::SerializationError>)
    requires
        blobs@.len() <= OFFSET_LIMIT,
        formats@.len() == blobs@.len(),
        byte_total(blob_views(blobs@)) <= OFFSET_LIMIT,
    ensures
        match r {
            Ok(columns) => color_columns_of(blob_views(blobs@), formats@) == Some(columns@),
            Err(_) => color_columns_of(blob_views(blobs@), formats@) is None,
        },
        r matches Ok(columns) ==> columns_of_length(columns@, blobs@.len() as nat),
{
    re_types::archetypes::Image::update_fields()
        .with_many_buffer(blobs)
        .with_many_format(formats)
        .columns_of_unit_batches()
        .map(|columns| columns.collect())
}

/// Builds the columns of the depth image archetype: calls
/// `re_types::archetypes::DepthImage::update_fields`, `with_many_buffer`,
/// `with_many_format` and `columns_of_unit_batches`, and collects the
/// columns. Serializing the blobs panics where their bytes, or the rows,
/// outnumber what a 32-bit offset can count. What comes out depends on the
/// blobs and the formats alone, and each column is cut into one row for each
/// blob.
#[verifier::external_body]
fn depth_image_columns(blobs: Vec<Vec<u8>>, formats: Vec<re_types::datatypes::ImageFormat>) -> (r:
    Result<Vec<re_types::SerializedComponentColumn>, re_types::SerializationError>)
    requires
        blobs@.len() <= OFFSET_LIMIT,
        formats@.len() == blobs@.len(),
        byte_total(blob_views(blobs@)) <= OFFSET_LIMIT,
    ensures
        match r {
            Ok(columns) => depth_columns_of(blob_views(blobs@), formats@) == Some(columns@),
            Err(_) => depth_columns_of(blob_views(blobs@), formats@) is None,
        },
        r matches Ok(columns) ==> columns_of_length(columns@, blobs@.len() as nat),
{
    re_types::archetypes::DepthImage::update_fields()
        .with_many_buffer(blobs)
        .with_many_format(formats)
        .columns_of_unit_batches()
        .map(|columns| columns.collect())
}

/// Tags a finished array as a component column: calls
/// `re_types::ComponentDescriptor::partial` and `with_archetype`, and turns
/// the array into a list array of as many rows. That conversion counts the
/// values of all rows in a 32-bit offset and panics beyond: with one value
/// in each row, where the rows outnumber what such an offset can count. The
/// column depends on the two names and the array alone: the names are
/// interned, which `re_types` takes to be a function of their text.
#[verifier::external_body]
fn metadata_column(component: &str, archetype: &str, rows: &FixedSizeListArray) -> (r:
    re_types::SerializedComponentColumn)
    requires
        array_values_per_row(*rows) == VALUES_PER_ROW,
        array_len(*rows) <= OFFSET_LIMIT,
    ensures
        r == metadata_column_of(component@, archetype@, *rows),
        column_rows(r) == array_len(*rows),
{
    re_types::SerializedComponentColumn {
        list_array: rows.clone().into(),
        descriptor: re_types::ComponentDescriptor::partial(component).with_archetype(archetype.into()),
    }
}

/// Makes a time column of a timeline: calls `re_log_types::Timeline::new`
/// and `re_chunk::TimeColumn::new`, which keeps the times as they are given.
/// The column depends on the timeline's name, kind and times alone: the name
/// is interned, which `re_log_types` takes to be a function of its text.
#[verifier::external_body]
fn time_column(series: &TimeSeries) -> (column: re_chunk::TimeColumn)
    ensures
        column == time_column_of(series@),
        time_column_times(column) == series.times@,
{
    let typ = match series.kind {
        TimeKind::Sequence => re_log_types::TimeType::Sequence,
        TimeKind::DurationNs => re_log_types::TimeType::DurationNs,
        TimeKind::TimestampNs => re_log_types::TimeType::TimestampNs,
    };
    let timeline = re_log_types::Timeline::new(series.name.as_str(), typ);
    re_chunk::TimeColumn::new(None, timeline, series.times.clone().into())
}

/// Builds a chunk with `re_chunk::Chunk::from_auto_row_ids`, under a fresh
/// `re_chunk::ChunkId`. The chunk keeps the entity path, and the time
/// columns and the component columns as they are collected into maps under
/// their names. That function gives the chunk as many rows as one of the
/// columns has, or none where there is no column, and succeeds only where
/// every column and every time column that the chunk keeps has that number
/// of rows. Which identifier the chunk gets differs from call to call.
#[verifier::external_body]
fn chunk_from_columns(
    entity_path: &re_log_types::EntityPath,
    timelines: &Vec<re_chunk::TimeColumn>,
    columns: Vec<re_types::SerializedComponentColumn>,
) -> (r: Result<re_chunk::Chunk, re_chunk::ChunkError>)
    ensures
        r matches Ok(chunk) ==> {
            &&& chunk_entity_path(chunk) == *entity_path
            &&& chunk_time_columns(chunk) == kept_time_columns(timelines@)
            &&& chunk_columns(chunk) == kept_columns(columns@)
            &&& columns@.len() == 0 ==> chunk_rows(chunk) == 0
            &&& columns@.len() > 0 ==> exists|i: int|
                0 <= i < columns@.len() && #[trigger] column_rows(columns@[i]) == chunk_rows(chunk)
            &&& timelines@.len() > 0 ==> exists|i: int|
                0 <= i < timelines@.len() && #[trigger] time_column_times(timelines@[i]).len()
                    == chunk_rows(chunk)
        },
{
    re_chunk::Chunk::from_auto_row_ids(
        re_chunk::ChunkId::new(),
        entity_path.clone(),
        timelines.iter().map(|column| (*column.timeline().name(), column.clone())).collect(),
        columns.into_iter().collect(),
    )
}

/// The time columns of the timelines, in order.
fn time_columns(timelines: &Vec<TimeSeries>) -> (r: Vec<re_chunk::TimeColumn>)
    ensures
        r@.len() == timelines@.len(),
        forall|i: int| 0 <= i < r@.len() ==> #[trigger] r@[i] == time_column_of(timelines@[i]@),
        forall|i: int|
            0 <= i < r@.len() ==> time_column_times(#[trigger] r@[i]) == timelines@[i].times@,
{
    let mut out: Vec<re_chunk::TimeColumn> = Vec::with_capacity(timelines.len());
    let mut i: usize = 0;
    while i < timelines.len()
        invariant
            i <= timelines@.len(),
            out@.len() == i,
            forall|k: int| 0 <= k < i ==> #[trigger] out@[k] == time_column_of(timelines@[k]@),
            forall|k: int|
                0 <= k < i ==> time_column_times(#[trigger] out@[k]) == timelines@[k].times@,
        decreases timelines@.len() - i,
    {
        out.push(time_column(&timelines[i]));
        i += 1;
    }
    out
}

/// The component columns of the metadata columns, in order, each under its
/// own tags.
fn metadata_columns(metadata: &Vec<MetadataColumn>) -> (r: Vec<re_types::SerializedComponentColumn>)
    requires
        forall|i: int|
            0 <= i < metadata@.len() ==> array_len((#[trigger] metadata@[i]).rows) <= OFFSET_LIMIT
                && array_values_per_row(metadata@[i].rows) == VALUES_PER_ROW,
    ensures
        r@.len() == metadata@.len(),
        forall|i: int|
            0 <= i < r@.len() ==> #[trigger] r@[i] == metadata_column_of(
                metadata@[i].component@,
                metadata@[i].archetype@,
                metadata@[i].rows,
            ),
        forall|i: int|
            0 <= i < r@.len() ==> column_rows(#[trigger] r@[i]) == array_len(metadata@[i].rows),
{
    let mut out: Vec<re_types::SerializedComponentColumn> = Vec::with_capacity(metadata.len());
    let mut i: usize = 0;
    while i < metadata.len()
        invariant
            i <= metadata@.len(),
            out@.len() == i,
            forall|k: int|
                0 <= k < metadata@.len() ==> array_len((#[trigger] metadata@[k]).rows)
                    <= OFFSET_LIMIT && array_values_per_row(metadata@[k].rows) == VALUES_PER_ROW,
            forall|k: int|
                0 <= k < i ==> #[trigger] out@[k] == metadata_column_of(
                    metadata@[k].component@,
                    metadata@[k].archetype@,
                    metadata@[k].rows,
                ),
            forall|k: int|
                0 <= k < i ==> column_rows(#[trigger] out@[k]) == array_len(metadata@[k].rows),
        decreases metadata@.len() - i,
    {
        let column = &metadata[i];
        out.push(metadata_column(column.component.as_str(), column.archetype.as_str(), &column.rows));
        i += 1;
    }
    out
}

/// What becomes of the image columns that the archetype built.
pub fn image_columns_or_error(
    built: Result<Vec<re_types::SerializedComponentColumn>, re_types::SerializationError>,
) -> (r: Result<Vec<re_types::SerializedComponentColumn>, PluginError>)
    ensures
        match built {
            Ok(columns) => r == Ok::<Vec<re_types::SerializedComponentColumn>, PluginError>(columns),
            Err(cause) => r matches Err(
                PluginError::BatchConstruction(BatchError::Serialization { cause: c }),
            ) && c == cause,
        },
{
    match built {
        Ok(columns) => Ok(columns),
        Err(cause) => Err(PluginError::BatchConstruction(BatchError::Serialization { cause })),
    }
}

/// What becomes of the chunk that the store's constructor built.
pub fn chunk_or_error(built: Result<re_chunk::Chunk, re_chunk::ChunkError>) -> (r: Result<
    re_chunk::Chunk,
    PluginError,
>)
    ensures
        match built {
            Ok(chunk) => r == Ok::<re_chunk::Chunk, PluginError>(chunk),
            Err(cause) => r matches Err(PluginError::BatchConstruction(BatchError::Chunk { cause: c }))
                && c == cause,
        },
{
    match built {
        Ok(chunk) => Ok(chunk),
        Err(cause) => Err(PluginError::BatchConstruction(BatchError::Chunk { cause })),
    }
}

impl ChannelBatches {
    /// Builds the two chunks: the images first, the metadata second. The
    /// image chunk is made of the columns that the batch's archetype makes of
    /// the blobs and the formats, the metadata chunk of the metadata columns
    /// under their tags; both are for the batches' entity and lie on the
    /// batches' timelines. Where the archetype makes no columns, that is the
    /// error; whether the store takes the columns is for the store to say.
    pub fn into_chunks(self) -> (r: Result<Vec<re_chunk::Chunk>, PluginError>)
        requires
            self.aligned(),
            self.fits(),
        ensures
            match r {
                Ok(chunks) => self.emitted_as(chunks@),
                Err(e) => e matches PluginError::BatchConstruction(b) && !(b is TimelineLength)
                    && (b is Serialization <==> self.image_column_values() is None),
            },
    {
        let ghost rows = self.rows();
        let ghost time_values = self.time_column_values();
        let ghost format_values = self.format_values();
        let ghost metadata_values = self.metadata_column_values();
        let ghost image_values = self.image_column_values();
        let ChannelBatches { entity_path, timelines, images, metadata } = self;
        let ImageBatch { archetype, blobs, formats } = images;
        let time_columns = time_columns(&timelines);
        proof {
            assert(time_columns@ =~= time_values);
            assert forall|i: int| 0 <= i < time_columns@.len() implies time_column_times(
                #[trigger] time_columns@[i],
            ).len() == rows by {
                assert(series_views(timelines@)[i].times.len() == rows);
            }
        }
        let formats = archetype_formats(&formats);
        assert(formats@ =~= format_values);
        let built = match archetype {
            ImageArchetype::DepthImage => depth_image_columns(blobs, formats),
            ImageArchetype::Image => color_image_columns(blobs, formats),
        };
        let image_columns = image_columns_or_error(built)?;
        assert(image_values == Some(image_columns@));
        let image_chunk = chunk_or_error(
            chunk_from_columns(&entity_path, &time_columns, image_columns),
        )?;
        let metadata_columns = metadata_columns(&metadata);
        assert(metadata_columns@ =~= metadata_values);
        let metadata_chunk = chunk_or_error(
            chunk_from_columns(&entity_path, &time_columns, metadata_columns),
        )?;
        let mut chunks: Vec<re_chunk::Chunk> = Vec::with_capacity(2);
        chunks.push(image_chunk);
        chunks.push(metadata_chunk);
        Ok(chunks)
    }
}

} // verus!
