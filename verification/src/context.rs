//! The timeline index that a channel's rows are aligned to.
//!
//! The host feeds each message's times into a `ParserContext`, one named
//! timeline at a time; a parser adds the sensor's own timestamp. When the
//! channel is exhausted the context gives up its timelines, each a column of
//! times with one entry per row.

use vstd::prelude::*;
use crate::text::text_equal;

verus! {

/// What the numbers on a timeline count.
#[derive(Clone, Copy, Debug, PartialEq, Eq, Structural)]
pub enum TimeKind {
    /// A running number, such as a frame count.
    Sequence,
    /// Nanoseconds of elapsed time.
    DurationNs,
    /// Nanoseconds since the Unix epoch.
    TimestampNs,
}

/// One point in time of a given kind, not yet on any timeline.
#[derive(Clone, Copy, Debug, PartialEq, Eq, Structural)]
pub struct TimeCell {
    /// What the value counts.
    pub kind: TimeKind,
    /// The point in time.
    pub value: i64,
}

/// One timeline: its name, its kind and its times, row by row.
#[derive(Debug)]
pub struct TimeSeries {
    /// The timeline's name.
    pub name: String,
    /// What the times count.
    pub kind: TimeKind,
    /// The times, one per row.
    pub times: Vec<i64>,
}

/// A timeline as a mathematical value.
pub struct TimeSeriesView {
    pub name: Seq<char>,
    pub kind: TimeKind,
    pub times: Seq<i64>,
}

impl View for TimeSeries {
    type V = TimeSeriesView;

    open spec fn view(&self) -> TimeSeriesView {
        TimeSeriesView { name: self.name@, kind: self.kind, times: self.times@ }
    }
}

/// The views of a vector of timelines, in order.
pub open spec fn series_views(timelines: Seq<TimeSeries>) -> Seq<TimeSeriesView> {
    Seq::new(timelines.len(), |i: int| timelines[i]@)
}

/// No two timelines share a name.
pub open spec fn distinct_names(timelines: Seq<TimeSeriesView>) -> bool {
    forall|i: int, j: int|
        0 <= i < j < timelines.len() ==> (#[trigger] timelines[i]).name != (
        #[trigger] timelines[j]).name
}

/// Every timeline has exactly `rows` times.
pub open spec fn all_of_length(timelines: Seq<TimeSeriesView>, rows: nat) -> bool {
    forall|i: int| 0 <= i < timelines.len() ==> (#[trigger] timelines[i]).times.len() == rows
}

/// Index of the first timeline called `name`, or the number of timelines
/// where none is.
pub open spec fn position_of(timelines: Seq<TimeSeriesView>, name: Seq<char>) -> int
    decreases timelines.len(),
{
    if timelines.len() == 0 {
        0
    } else if timelines[0].name == name {
        0
    } else {
        1 + position_of(timelines.drop_first(), name)
    }
}

/// The timelines after `cell` was added under `name`: the timeline of that
/// name gains the cell's value as its last time and keeps its kind; where no
/// timeline has the name, a new one of the cell's kind comes last.
pub open spec fn with_time_cell(
    timelines: Seq<TimeSeriesView>,
    name: Seq<char>,
    cell: TimeCell,
) -> Seq<TimeSeriesView> {
    let at = position_of(timelines, name);
    if at < timelines.len() {
        timelines.update(
            at,
            TimeSeriesView {
                name: timelines[at].name,
                kind: timelines[at].kind,
                times: timelines[at].times.push(cell.value),
            },
        )
    } else {
        timelines.push(TimeSeriesView { name, kind: cell.kind, times: seq![cell.value] })
    }
}

/// `position_of` finds the first timeline of the name and no earlier one has it.
pub proof fn lemma_position_of(timelines: Seq<TimeSeriesView>, name: Seq<char>)
    ensures
        0 <= position_of(timelines, name) <= timelines.len(),
        position_of(timelines, name) < timelines.len() ==> timelines[position_of(
            timelines,
            name,
        )].name == name,
        forall|k: int| 0 <= k < position_of(timelines, name) ==> (#[trigger] timelines[k]).name != name,
    decreases timelines.len(),
{
    if timelines.len() == 0 {
    } else if timelines[0].name == name {
    } else {
        let rest = timelines.drop_first();
        lemma_position_of(rest, name);
        assert forall|k: int| 0 <= k < position_of(timelines, name) implies (
        #[trigger] timelines[k]).name != name by {
            if k > 0 {
                assert(timelines[k] == rest[k - 1]);
            }
        }
    }
}

/// An index whose timeline has the name, with none before it that has, is
/// what `position_of` gives.
pub proof fn lemma_position_is(timelines: Seq<TimeSeriesView>, name: Seq<char>, at: int)
    requires
        0 <= at <= timelines.len(),
        at < timelines.len() ==> timelines[at].name == name,
        forall|k: int| 0 <= k < at ==> (#[trigger] timelines[k]).name != name,
    ensures
        position_of(timelines, name) == at,
{
    lemma_position_of(timelines, name);
    let p = position_of(timelines, name);
    if p < at {
        assert(timelines[p].name != name);
    } else if at < p {
        assert(timelines[at].name != name);
    }
}

/// Adding a time cell keeps the names distinct and loses no timeline, and
/// the timeline of the name is found where it was, or last where it is new.
pub proof fn lemma_with_time_cell(timelines: Seq<TimeSeriesView>, name: Seq<char>, cell: TimeCell)
    requires
        distinct_names(timelines),
    ensures
        distinct_names(with_time_cell(timelines, name, cell)),
        with_time_cell(timelines, name, cell).len() >= timelines.len(),
        position_of(with_time_cell(timelines, name, cell), name) == position_of(timelines, name),
        position_of(timelines, name) < with_time_cell(timelines, name, cell).len(),
{
    lemma_position_of(timelines, name);
    let at = position_of(timelines, name);
    let after = with_time_cell(timelines, name, cell);
    assert forall|i: int, j: int| 0 <= i < j < after.len() implies (#[trigger] after[i]).name != (
    #[trigger] after[j]).name by {
        if at < timelines.len() {
            assert(after[i].name == timelines[i].name);
            assert(after[j].name == timelines[j].name);
        } else {
            if j < timelines.len() {
                assert(after[i] == timelines[i]);
                assert(after[j] == timelines[j]);
            } else {
                assert(after[i] == timelines[i]);
            }
        }
    }
    assert forall|k: int| 0 <= k < at implies (#[trigger] after[k]).name != name by {
        assert(after[k].name == timelines[k].name);
    }
    lemma_position_is(after, name, at);
}

/// `re_log_types::EntityPath`: the name of the entity that rows belong to, opaque here.
#[verifier::external_type_specification]
#[verifier::external_body]
pub struct ExEntityPath(re_log_types::EntityPath);

/// The value that a time cell keeps of `nanos`: the lowest 64-bit integer is
/// not a time and is raised by one.
pub open spec fn clamped_time(nanos: i64) -> i64 {
    if nanos == i64::MIN {
        (i64::MIN + 1) as i64
    } else {
        nanos
    }
}

/// Calls `re_log_types::TimeCell::from_timestamp_nanos_since_epoch` and
/// copies the cell's kind and value out. That function makes a cell of the
/// timestamp kind and keeps the number given, but for the lowest 64-bit
/// integer, in whose place it keeps the next one.
#[verifier::external_body]
fn timestamp_cell(nanos: i64) -> (cell: TimeCell)
    ensures
        cell.kind == TimeKind::TimestampNs,
        cell.value == clamped_time(nanos),
{
    let cell = re_log_types::TimeCell::from_timestamp_nanos_since_epoch(nanos);
    TimeCell {
        kind: match cell.typ {
            re_log_types::TimeType::Sequence => TimeKind::Sequence,
            re_log_types::TimeType::DurationNs => TimeKind::DurationNs,
            re_log_types::TimeType::TimestampNs => TimeKind::TimestampNs,
        },
        value: cell.value.get(),
    }
}

impl TimeCell {
    /// A timestamp of `nanos` nanoseconds since the Unix epoch.
    pub fn from_timestamp_nanos_since_epoch(nanos: i64) -> (cell: TimeCell)
        ensures
            cell.kind == TimeKind::TimestampNs,
            cell.value == clamped_time(nanos),
    {
        timestamp_cell(nanos)
    }
}

/// What a parser needs of its host while it reads one channel: the entity
/// that the channel's rows belong to, and the timelines as far as they are
/// built.
pub struct ParserContext {
    entity_path: re_log_types::EntityPath,
    timelines: Vec<TimeSeries>,
}

impl ParserContext {
    /// The timelines built so far, in the order in which their names first came.
    pub closed spec fn timelines(&self) -> Seq<TimeSeriesView> {
        series_views(self.timelines@)
    }

    /// The entity that the rows belong to.
    pub closed spec fn spec_entity_path(&self) -> re_log_types::EntityPath {
        self.entity_path
    }

    /// The context's invariant: no two timelines share a name.
    pub closed spec fn wf(&self) -> bool {
        distinct_names(self.timelines())
    }

    /// A context for `entity_path` with no timeline yet.
    pub fn new(entity_path: re_log_types::EntityPath) -> (ctx: ParserContext)
        ensures
            ctx.wf(),
            ctx.timelines() == Seq::<TimeSeriesView>::empty(),
            ctx.spec_entity_path() == entity_path,
    {
        let ctx = ParserContext { entity_path, timelines: Vec::new() };
        assert(ctx.timelines() =~= Seq::<TimeSeriesView>::empty());
        ctx
    }

    /// The entity that the rows belong to.
    pub fn entity_path(&self) -> (path: &re_log_types::EntityPath)
        ensures
            *path == self.spec_entity_path(),
    {
        &self.entity_path
    }

    /// Adds `cell` as the next time of the timeline called `name`. The first
    /// cell under a name founds the timeline and gives it its kind.
    pub fn add_time_cell(&mut self, name: &str, cell: TimeCell)
        requires
            old(self).wf(),
        ensures
            final(self).wf(),
            final(self).timelines() == with_time_cell(old(self).timelines(), name@, cell),
            final(self).spec_entity_path() == old(self).spec_entity_path(),
    {
        let ghost before = self.timelines();
        let n = self.timelines.len();
        let mut at: usize = 0;
        let mut found = false;
        while at < n && !found
            invariant
                n == self.timelines@.len(),
                at <= n,
                self.timelines() == before,
                found ==> at < n && before[at as int].name == name@,
                forall|k: int| 0 <= k < at ==> (#[trigger] before[k]).name != name@,
            decreases n - at + (if found { 0int } else { 1int }),
        {
            if text_equal(self.timelines[at].name.as_str(), name) {
                found = true;
            } else {
                at += 1;
            }
        }
        proof {
            lemma_position_is(before, name@, at as int);
            lemma_with_time_cell(before, name@, cell);
        }
        if at < n {
            self.timelines[at].times.push(cell.value);
            assert(self.timelines() =~= with_time_cell(before, name@, cell));
        } else {
            let mut times: Vec<i64> = Vec::new();
            times.push(cell.value);
            self.timelines.push(TimeSeries { name: name.to_owned(), kind: cell.kind, times });
            assert(self.timelines() =~= with_time_cell(before, name@, cell));
        }
    }

    /// Gives up the entity path and the timelines.
    pub fn into_parts(self) -> (parts: (re_log_types::EntityPath, Vec<TimeSeries>))
        requires
            self.wf(),
        ensures
            parts.0 == self.spec_entity_path(),
            series_views(parts.1@) == self.timelines(),
            distinct_names(series_views(parts.1@)),
    {
        (self.entity_path, self.timelines)
    }

    /// Gives up the timelines.
    pub fn build_timelines(self) -> (timelines: Vec<TimeSeries>)
        requires
            self.wf(),
        ensures
            series_views(timelines@) == self.timelines(),
            distinct_names(series_views(timelines@)),
    {
        self.timelines
    }
}

} // verus!
