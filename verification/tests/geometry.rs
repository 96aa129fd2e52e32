use greet_ui::geometry::{Axis, Constraint, GeometryError, Rect, split};

fn rect(x: u16, y: u16, width: u16, height: u16) -> Rect {
    Rect { x, y, width, height }
}

#[test]
fn split_fixed_and_min_tiles_vertically() {
    let container = rect(0, 0, 80, 24);
    let cs = vec![
        Constraint::FixedLength(1),
        Constraint::FixedLength(1),
        Constraint::Minimum(1),
        Constraint::FixedLength(1),
        Constraint::FixedLength(1),
    ];
    let rects = split(container, Axis::Vertical, &cs).unwrap();
    assert_eq!(rects.len(), 5);
    assert_eq!(rects[0], rect(0, 0, 80, 1));
    assert_eq!(rects[1], rect(0, 1, 80, 1));
    assert_eq!(rects[2], rect(0, 2, 80, 20));
    assert_eq!(rects[3], rect(0, 22, 80, 1));
    assert_eq!(rects[4], rect(0, 23, 80, 1));
    let total: u32 = rects.iter().map(|r| r.height as u32).sum();
    assert_eq!(total, 24);
}

#[test]
fn split_percentages_exact() {
    let container = rect(0, 0, 100, 10);
    let cs = vec![
        Constraint::PercentageOfRemainder(30),
        Constraint::PercentageOfRemainder(30),
        Constraint::PercentageOfRemainder(40),
    ];
    let rects = split(container, Axis::Horizontal, &cs).unwrap();
    assert_eq!(rects[0], rect(0, 0, 30, 10));
    assert_eq!(rects[1], rect(30, 0, 30, 10));
    assert_eq!(rects[2], rect(60, 0, 40, 10));
}

#[test]
fn split_percentage_rounding_leftover_to_last_percentage() {
    let container = rect(0, 0, 10, 1);
    let cs = vec![
        Constraint::PercentageOfRemainder(33),
        Constraint::PercentageOfRemainder(33),
    ];
    let rects = split(container, Axis::Horizontal, &cs).unwrap();
    assert_eq!(rects[0], rect(0, 0, 3, 1));
    assert_eq!(rects[1], rect(3, 0, 7, 1));
    assert_eq!(rects[0].width + rects[1].width, 10);
}

#[test]
fn split_minimum_absorbs_slack() {
    let container = rect(5, 7, 20, 10);
    let cs = vec![
        Constraint::FixedLength(2),
        Constraint::Minimum(3),
        Constraint::FixedLength(1),
    ];
    let rects = split(container, Axis::Vertical, &cs).unwrap();
    assert_eq!(rects[0], rect(5, 7, 20, 2));
    assert_eq!(rects[1], rect(5, 9, 20, 7));
    assert_eq!(rects[2], rect(5, 16, 20, 1));
}

#[test]
fn split_all_fixed_slack_goes_to_last_entry() {
    let container = rect(0, 0, 10, 1);
    let cs = vec![Constraint::FixedLength(2), Constraint::FixedLength(3)];
    let rects = split(container, Axis::Horizontal, &cs).unwrap();
    assert_eq!(rects[0], rect(0, 0, 2, 1));
    assert_eq!(rects[1], rect(2, 0, 8, 1));
}

#[test]
fn split_too_small_reports_geometry_error() {
    let container = rect(0, 0, 10, 5);
    let cs = vec![Constraint::FixedLength(6), Constraint::FixedLength(7)];
    let r = split(container, Axis::Horizontal, &cs);
    assert!(matches!(r, Err(GeometryError::DoesNotFit)));
}

#[test]
fn split_minimum_sum_over_extent_reports_geometry_error() {
    let container = rect(0, 0, 10, 2);
    let cs = vec![Constraint::Minimum(11)];
    let r = split(container, Axis::Vertical, &cs);
    assert!(matches!(r, Err(GeometryError::DoesNotFit)));
}

#[test]
fn split_no_constraints_yields_no_rects() {
    let container = rect(0, 0, 10, 5);
    let cs: Vec<Constraint> = Vec::new();
    let rects = split(container, Axis::Horizontal, &cs).unwrap();
    assert_eq!(rects.len(), 0);
}

#[test]
fn split_percentage_capped_at_remainder() {
    let container = rect(0, 0, 10, 1);
    let cs = vec![Constraint::PercentageOfRemainder(150)];
    let rects = split(container, Axis::Horizontal, &cs).unwrap();
    assert_eq!(rects[0], rect(0, 0, 10, 1));
    let cs = vec![
        Constraint::PercentageOfRemainder(60),
        Constraint::PercentageOfRemainder(60),
    ];
    let rects = split(container, Axis::Horizontal, &cs).unwrap();
    assert_eq!(rects[0], rect(0, 0, 6, 1));
    assert_eq!(rects[1], rect(6, 0, 4, 1));
}
