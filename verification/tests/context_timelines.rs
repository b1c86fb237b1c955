use re_log_types::EntityPath;
use sensor_image::context::{ParserContext, TimeCell, TimeKind};

fn cell(kind: TimeKind, value: i64) -> TimeCell {
    TimeCell { kind, value }
}

#[test]
fn new_context_has_no_timeline_and_keeps_its_entity() {
    let ctx = ParserContext::new(EntityPath::from("/camera/front"));
    assert_eq!(ctx.entity_path(), &EntityPath::from("/camera/front"));
    assert!(ctx.build_timelines().is_empty());
}

#[test]
fn first_cell_founds_the_timeline_with_its_kind() {
    let mut ctx = ParserContext::new(EntityPath::from("/camera"));
    ctx.add_time_cell("timestamp", cell(TimeKind::TimestampNs, 10));
    let timelines = ctx.build_timelines();
    assert_eq!(timelines.len(), 1);
    assert_eq!(timelines[0].name, "timestamp");
    assert_eq!(timelines[0].kind, TimeKind::TimestampNs);
    assert_eq!(timelines[0].times, vec![10]);
}

#[test]
fn later_cells_extend_their_timeline_in_order() {
    let mut ctx = ParserContext::new(EntityPath::from("/camera"));
    ctx.add_time_cell("log_time", cell(TimeKind::TimestampNs, 1));
    ctx.add_time_cell("timestamp", cell(TimeKind::TimestampNs, 100));
    ctx.add_time_cell("log_time", cell(TimeKind::TimestampNs, 2));
    ctx.add_time_cell("frame", cell(TimeKind::Sequence, 0));
    ctx.add_time_cell("timestamp", cell(TimeKind::TimestampNs, 50));
    ctx.add_time_cell("log_time", cell(TimeKind::TimestampNs, 3));
    let timelines = ctx.build_timelines();
    let names: Vec<&str> = timelines.iter().map(|t| t.name.as_str()).collect();
    assert_eq!(names, vec!["log_time", "timestamp", "frame"]);
    assert_eq!(timelines[0].times, vec![1, 2, 3]);
    assert_eq!(timelines[1].times, vec![100, 50]);
    assert_eq!(timelines[2].times, vec![0]);
    assert_eq!(timelines[2].kind, TimeKind::Sequence);
}

#[test]
fn a_timeline_keeps_the_kind_of_its_first_cell() {
    let mut ctx = ParserContext::new(EntityPath::from("/camera"));
    ctx.add_time_cell("t", cell(TimeKind::DurationNs, 1));
    ctx.add_time_cell("t", cell(TimeKind::Sequence, 2));
    let timelines = ctx.build_timelines();
    assert_eq!(timelines.len(), 1);
    assert_eq!(timelines[0].kind, TimeKind::DurationNs);
    assert_eq!(timelines[0].times, vec![1, 2]);
}

#[test]
fn names_are_compared_exactly() {
    let mut ctx = ParserContext::new(EntityPath::from("/camera"));
    ctx.add_time_cell("timestamp", cell(TimeKind::TimestampNs, 1));
    ctx.add_time_cell("Timestamp", cell(TimeKind::TimestampNs, 2));
    ctx.add_time_cell("timestamp ", cell(TimeKind::TimestampNs, 3));
    ctx.add_time_cell("", cell(TimeKind::TimestampNs, 4));
    let timelines = ctx.build_timelines();
    assert_eq!(timelines.len(), 4);
    assert!(timelines.iter().all(|t| t.times.len() == 1));
}

#[test]
fn into_parts_gives_path_and_timelines() {
    let mut ctx = ParserContext::new(EntityPath::from("/lidar"));
    ctx.add_time_cell("timestamp", cell(TimeKind::TimestampNs, 7));
    let (path, timelines) = ctx.into_parts();
    assert_eq!(path, EntityPath::from("/lidar"));
    assert_eq!(timelines.len(), 1);
    assert_eq!(timelines[0].times, vec![7]);
}

#[test]
fn timestamp_cell_keeps_the_number_and_is_of_the_timestamp_kind() {
    for nanos in [0i64, 1, -1, 1_700_000_000_000_000_000, i64::MAX, i64::MIN + 1] {
        let made = TimeCell::from_timestamp_nanos_since_epoch(nanos);
        assert_eq!(made, cell(TimeKind::TimestampNs, nanos));
        let outside = re_log_types::TimeCell::from_timestamp_nanos_since_epoch(nanos);
        assert_eq!(made.value, outside.value.get());
    }
}

#[test]
fn lowest_integer_is_raised_by_one() {
    let made = TimeCell::from_timestamp_nanos_since_epoch(i64::MIN);
    assert_eq!(made, cell(TimeKind::TimestampNs, i64::MIN + 1));
}
