//! The metadata columns: builders of fixed-size lists with one value per row.
//!
//! A builder holds the values appended so far and counts the rows that were
//! closed. A row is one value followed by one closing call, so a column is
//! whole when it holds as many values as closed rows; only a whole column can
//! be finished into an array.

use vstd::prelude::*;
use arrow::array::{FixedSizeListArray, FixedSizeListBuilder, StringBuilder, UInt32Builder};
use vstd::utf8::encode_utf8;

verus! {

/// Number of values in each row of a metadata column.
pub const VALUES_PER_ROW: i32 = 1;

/// The largest number that a 32-bit offset into an array can hold: the most
/// bytes of text in one column, and the most rows that an array of lists has.
pub const OFFSET_LIMIT: usize = 2_147_483_647;

/// A builder of rows of one unsigned 32-bit value each: an arrow
/// `FixedSizeListBuilder` over a `UInt32Builder`.
#[verifier::external_body]
pub struct U32Column {
    inner: FixedSizeListBuilder<UInt32Builder>,
}

/// A builder of rows of one text each: an arrow `FixedSizeListBuilder` over a
/// `StringBuilder`.
#[verifier::external_body]
pub struct TextColumn {
    inner: FixedSizeListBuilder<StringBuilder>,
}

/// `arrow::array::FixedSizeListArray`: a finished column, opaque here.
#[verifier::external_type_specification]
#[verifier::external_body]
pub struct ExFixedSizeListArray(FixedSizeListArray);

/// The values appended to the builder since it was made or last finished.
pub uninterp spec fn u32_column_values(column: U32Column) -> Seq<u32>;

/// The number of rows closed since the builder was made or last finished.
pub uninterp spec fn u32_column_slots(column: U32Column) -> nat;

/// The texts appended to the builder since it was made or last finished.
pub uninterp spec fn text_column_values(column: TextColumn) -> Seq<Seq<char>>;

/// The number of rows closed since the builder was made or last finished.
pub uninterp spec fn text_column_slots(column: TextColumn) -> nat;

/// The values of an array of one-value rows of unsigned 32-bit integers, row
/// by row.
pub uninterp spec fn u32_rows(array: FixedSizeListArray) -> Seq<u32>;

/// The texts of an array of one-text rows, row by row.
pub uninterp spec fn text_rows(array: FixedSizeListArray) -> Seq<Seq<char>>;

/// The number of rows of an array.
pub uninterp spec fn array_len(array: FixedSizeListArray) -> nat;

/// The number of values in each row of an array.
pub uninterp spec fn array_values_per_row(array: FixedSizeListArray) -> int;

/// The number of bytes that the texts take in UTF-8, all together.
pub open spec fn utf8_total(texts: Seq<Seq<char>>) -> nat
    decreases texts.len(),
{
    if texts.len() == 0 {
        0
    } else {
        utf8_total(texts.drop_last()) + encode_utf8(texts.last()).len()
    }
}

/// Calls `FixedSizeListBuilder::with_capacity` on a fresh `UInt32Builder`.
/// The builder starts with no value and no row; the capacity is kept as a
/// hint and nothing is allocated for it.
#[verifier::external_body]
fn u32_builder(value_length: i32, capacity: usize) -> (column: U32Column)
    requires
        value_length == VALUES_PER_ROW,
    ensures
        u32_column_values(column) == Seq::<u32>::empty(),
        u32_column_slots(column) == 0,
{
    let values = UInt32Builder::default();
    U32Column { inner: FixedSizeListBuilder::with_capacity(values, value_length, capacity) }
}

/// Calls `UInt32Builder::append_slice` on the builder's values with the one
/// value: it comes last among the values, and no row is closed.
#[verifier::external_body]
fn u32_append_value(column: &mut U32Column, value: u32)
    ensures
        u32_column_values(*final(column)) == u32_column_values(*old(column)).push(value),
        u32_column_slots(*final(column)) == u32_column_slots(*old(column)),
{
    column.inner.values().append_slice(&[value]);
}

/// Calls `FixedSizeListBuilder::append`, which closes one row and leaves the
/// values alone.
#[verifier::external_body]
fn u32_close_row(column: &mut U32Column, is_valid: bool)
    requires
        is_valid,
    ensures
        u32_column_values(*final(column)) == u32_column_values(*old(column)),
        u32_column_slots(*final(column)) == u32_column_slots(*old(column)) + 1,
{
    column.inner.append(is_valid);
}

/// Calls `FixedSizeListBuilder::finish`, which panics unless the builder
/// holds one value for each closed row. The array has as many rows as were
/// closed, each of one value, and gets the values as its rows, and the
/// builder is left empty.
#[verifier::external_body]
fn u32_finish(column: &mut U32Column) -> (array: FixedSizeListArray)
    requires
        u32_column_values(*old(column)).len() == u32_column_slots(*old(column)),
    ensures
        u32_rows(array) == u32_column_values(*old(column)),
        array_len(array) == u32_column_slots(*old(column)),
        array_values_per_row(array) == VALUES_PER_ROW,
        u32_column_values(*final(column)) == Seq::<u32>::empty(),
        u32_column_slots(*final(column)) == 0,
{
    column.inner.finish()
}

/// Calls `FixedSizeListBuilder::with_capacity` on a fresh `StringBuilder`.
/// The builder starts with no text and no row; the capacity is kept as a hint
/// and nothing is allocated for it.
#[verifier::external_body]
fn text_builder(value_length: i32, capacity: usize) -> (column: TextColumn)
    requires
        value_length == VALUES_PER_ROW,
    ensures
        text_column_values(column) == Seq::<Seq<char>>::empty(),
        text_column_slots(column) == 0,
{
    let values = StringBuilder::default();
    TextColumn { inner: FixedSizeListBuilder::with_capacity(values, value_length, capacity) }
}

/// Calls `StringBuilder::append_value` on the builder's values: the text
/// comes last among the texts, and no row is closed. That function panics
/// once the texts together take more bytes than a 32-bit offset can count.
#[verifier::external_body]
fn text_append_value(column: &mut TextColumn, value: String)
    requires
        utf8_total(text_column_values(*old(column))) + encode_utf8(value@).len() <= OFFSET_LIMIT,
    ensures
        text_column_values(*final(column)) == text_column_values(*old(column)).push(value@),
        text_column_slots(*final(column)) == text_column_slots(*old(column)),
{
    column.inner.values().append_value(value);
}

/// Calls `FixedSizeListBuilder::append`, which closes one row and leaves the
/// texts alone.
#[verifier::external_body]
fn text_close_row(column: &mut TextColumn, is_valid: bool)
    requires
        is_valid,
    ensures
        text_column_values(*final(column)) == text_column_values(*old(column)),
        text_column_slots(*final(column)) == text_column_slots(*old(column)) + 1,
{
    column.inner.append(is_valid);
}

/// Calls `FixedSizeListBuilder::finish`, which panics unless the builder
/// holds one text for each closed row. The array has as many rows as were
/// closed, each of one text, and gets the texts as its rows, and the builder
/// is left empty.
#[verifier::external_body]
fn text_finish(column: &mut TextColumn) -> (array: FixedSizeListArray)
    requires
        text_column_values(*old(column)).len() == text_column_slots(*old(column)),
    ensures
        text_rows(array) == text_column_values(*old(column)),
        array_len(array) == text_column_slots(*old(column)),
        array_values_per_row(array) == VALUES_PER_ROW,
        text_column_values(*final(column)) == Seq::<Seq<char>>::empty(),
        text_column_slots(*final(column)) == 0,
{
    column.inner.finish()
}

impl U32Column {
    /// The values appended so far.
    pub open spec fn values(&self) -> Seq<u32> {
        u32_column_values(*self)
    }

    /// The number of rows closed so far.
    pub open spec fn slots(&self) -> nat {
        u32_column_slots(*self)
    }

    /// The column is whole: every value sits in a closed row of its own.
    pub open spec fn wf(&self) -> bool {
        self.values().len() == self.slots()
    }

    /// An empty column. `capacity` is a hint of how many rows will come.
    pub fn with_capacity(capacity: usize) -> (column: U32Column)
        ensures
            column.wf(),
            column.values() == Seq::<u32>::empty(),
    {
        u32_builder(VALUES_PER_ROW, capacity)
    }

    /// Appends one row that holds `value`.
    pub fn push(&mut self, value: u32)
        requires
            old(self).wf(),
        ensures
            final(self).wf(),
            final(self).values() == old(self).values().push(value),
    {
        u32_append_value(self, value);
        u32_close_row(self, true);
    }

    /// Finishes the column into an array whose rows are the column's values.
    pub fn finish(self) -> (array: FixedSizeListArray)
        requires
            self.wf(),
        ensures
            u32_rows(array) == self.values(),
            array_len(array) == self.values().len(),
            array_values_per_row(array) == VALUES_PER_ROW,
    {
        let mut column = self;
        u32_finish(&mut column)
    }
}

impl TextColumn {
    /// The texts appended so far.
    pub open spec fn values(&self) -> Seq<Seq<char>> {
        text_column_values(*self)
    }

    /// The number of rows closed so far.
    pub open spec fn slots(&self) -> nat {
        text_column_slots(*self)
    }

    /// The column is whole: every text sits in a closed row of its own.
    pub open spec fn wf(&self) -> bool {
        self.values().len() == self.slots()
    }

    /// Whether the column has room for `text` after what it holds.
    pub open spec fn has_room_for(&self, text: Seq<char>) -> bool {
        utf8_total(self.values()) + encode_utf8(text).len() <= OFFSET_LIMIT
    }

    /// An empty column. `capacity` is a hint of how many rows will come.
    pub fn with_capacity(capacity: usize) -> (column: TextColumn)
        ensures
            column.wf(),
            column.values() == Seq::<Seq<char>>::empty(),
    {
        text_builder(VALUES_PER_ROW, capacity)
    }

    /// Appends one row that holds `value`.
    pub fn push(&mut self, value: String)
        requires
            old(self).wf(),
            old(self).has_room_for(value@),
        ensures
            final(self).wf(),
            final(self).values() == old(self).values().push(value@),
    {
        text_append_value(self, value);
        text_close_row(self, true);
    }

    /// Finishes the column into an array whose rows are the column's texts.
    pub fn finish(self) -> (array: FixedSizeListArray)
        requires
            self.wf(),
        ensures
            text_rows(array) == self.values(),
            array_len(array) == self.values().len(),
            array_values_per_row(array) == VALUES_PER_ROW,
    {
        let mut column = self;
        text_finish(&mut column)
    }
}

} // verus!
