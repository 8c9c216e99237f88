use font_outlines::pens::{
    CommandBreakdownPen, CommandCountPen, DrawCommand, OutlinePoint, PointCollector,
};

fn bits(value: f32) -> u32 {
    value.to_bits()
}

fn rectangle() -> Vec<DrawCommand> {
    vec![
        DrawCommand::MoveTo { x: bits(0.0), y: bits(0.0) },
        DrawCommand::LineTo { x: bits(0.0), y: bits(500.0) },
        DrawCommand::LineTo { x: bits(250.0), y: bits(500.0) },
        DrawCommand::LineTo { x: bits(250.0), y: bits(0.0) },
        DrawCommand::Close,
    ]
}

#[test]
fn count_pen_counts_every_command_including_close() {
    let mut pen = CommandCountPen::new();
    pen.record_all(&rectangle());
    assert_eq!(pen.into_count(), 5);
}

#[test]
fn count_pen_hit_adds_one() {
    let mut pen = CommandCountPen::new();
    pen.hit();
    pen.hit();
    pen.close();
    assert_eq!(pen.into_count(), 3);
}

#[test]
fn breakdown_pen_keeps_one_counter_per_kind() {
    let mut pen = CommandBreakdownPen::new();
    pen.record_all(&rectangle());
    pen.quad_to(1, 2, 3, 4);
    pen.curve_to(1, 2, 3, 4, 5, 6);
    pen.curve_to(1, 2, 3, 4, 5, 6);
    assert_eq!(pen.counts(), [1, 3, 1, 2, 1]);
}

#[test]
fn breakdown_counters_add_up_to_the_command_count() {
    let commands = rectangle();
    let mut breakdown = CommandBreakdownPen::new();
    breakdown.record_all(&commands);
    let mut counter = CommandCountPen::new();
    counter.record_all(&commands);
    let total: u64 = breakdown.counts().iter().sum();
    assert_eq!(total, u64::from(counter.into_count()));
}

#[test]
fn fresh_pens_hold_nothing() {
    assert_eq!(CommandCountPen::new().into_count(), 0);
    assert_eq!(CommandBreakdownPen::new().counts(), [0, 0, 0, 0, 0]);
    assert_eq!(PointCollector::new(1000).into_points(), Vec::<OutlinePoint>::new());
}

#[test]
fn collector_emits_control_points_before_end_points() {
    let mut pen = PointCollector::new(2048);
    pen.record(DrawCommand::MoveTo { x: 1, y: 2 });
    pen.record(DrawCommand::QuadTo { cx0: 3, cy0: 4, x: 5, y: 6 });
    pen.record(DrawCommand::CurveTo { cx0: 7, cy0: 8, cx1: 9, cy1: 10, x: 11, y: 12 });
    pen.record(DrawCommand::Close);
    pen.record(DrawCommand::LineTo { x: 13, y: 14 });
    let expected: Vec<OutlinePoint> = [(1, 2), (3, 4), (5, 6), (7, 8), (9, 10), (11, 12), (13, 14)]
        .iter()
        .map(|&(x, y)| OutlinePoint { x, y, units_per_em: 2048 })
        .collect();
    assert_eq!(pen.into_points(), expected);
}

#[test]
fn collector_rectangle_gives_four_points() {
    let mut pen = PointCollector::new(1000);
    pen.record_all(&rectangle());
    let points = pen.into_points();
    assert_eq!(points.len(), 4);
    assert_eq!(points[1], OutlinePoint { x: bits(0.0), y: bits(500.0), units_per_em: 1000 });
    assert_eq!(points[2], OutlinePoint { x: bits(250.0), y: bits(500.0), units_per_em: 1000 });
}
