use drawing_pad::geometry::Point;
use drawing_pad::pad::DrawingPad;
use drawing_pad::pad::PadEvent;

fn points_of(v: &Vec<Point>) -> Vec<(i64, i64)> {
    let mut out = Vec::new();
    for p in v {
        out.push((p.x, p.y));
    }
    out
}

#[test]
fn gesture_commits_all_points_in_order() {
    let mut pad = DrawingPad::new();
    pad.handle_event(PadEvent::Down(Point::new(1, 2)));
    pad.handle_event(PadEvent::Move(Point::new(3, 4)));
    pad.handle_event(PadEvent::Move(Point::new(5, 6)));
    pad.handle_event(PadEvent::Move(Point::new(7, 8)));
    pad.handle_event(PadEvent::Up);
    assert_eq!(pad.history_len(), 1);
    assert_eq!(points_of(pad.stroke(0)), vec![(1, 2), (3, 4), (5, 6), (7, 8)]);
    assert_eq!(pad.current_stroke().len(), 0);
    assert!(!pad.is_drawing());
}

#[test]
fn clear_resets_everything() {
    let mut pad = DrawingPad::new();
    pad.start_stroke(Point::new(10, 10));
    pad.append_point(Point::new(11, 12));
    pad.end_stroke();
    pad.start_stroke(Point::new(20, 20));
    assert_eq!(pad.history_len(), 1);
    assert!(pad.is_drawing());
    pad.clear();
    assert_eq!(pad.history_len(), 0);
    assert_eq!(pad.current_stroke().len(), 0);
    assert!(!pad.is_drawing());
}

#[test]
fn clear_on_fresh_pad_is_harmless() {
    let mut pad = DrawingPad::new();
    pad.clear();
    assert_eq!(pad.history_len(), 0);
    assert_eq!(pad.current_stroke().len(), 0);
    assert!(!pad.is_drawing());
}

#[test]
fn append_before_start_is_a_no_op() {
    let mut pad = DrawingPad::new();
    pad.append_point(Point::new(4, 2));
    assert_eq!(pad.history_len(), 0);
    assert_eq!(pad.current_stroke().len(), 0);
    assert!(!pad.is_drawing());
}

#[test]
fn move_without_drawing_schedules_no_redraw() {
    let mut pad = DrawingPad::new();
    assert!(!pad.handle_event(PadEvent::Move(Point::new(4, 2))));
    pad.handle_event(PadEvent::Down(Point::new(0, 0)));
    assert!(pad.handle_event(PadEvent::Move(Point::new(1, 1))));
    pad.handle_event(PadEvent::Up);
    assert!(!pad.handle_event(PadEvent::Move(Point::new(2, 2))));
    assert!(pad.handle_event(PadEvent::Clear));
}

#[test]
fn end_without_start_is_a_no_op() {
    let mut pad = DrawingPad::new();
    pad.end_stroke();
    assert_eq!(pad.history_len(), 0);
    assert!(!pad.is_drawing());
}

#[test]
fn pointer_leave_commits_like_release() {
    let mut pad = DrawingPad::new();
    pad.handle_event(PadEvent::Down(Point::new(1, 1)));
    pad.handle_event(PadEvent::Move(Point::new(2, 2)));
    pad.handle_event(PadEvent::Leave);
    assert_eq!(pad.history_len(), 1);
    assert_eq!(points_of(pad.stroke(0)), vec![(1, 1), (2, 2)]);
    assert!(!pad.is_drawing());
}

#[test]
fn two_strokes_then_clear() {
    let mut pad = DrawingPad::new();
    assert_eq!(pad.history_len(), 0);
    assert_eq!(pad.current_stroke().len(), 0);

    pad.handle_event(PadEvent::Down(Point::new(0, 0)));
    pad.handle_event(PadEvent::Move(Point::new(1, 0)));
    pad.handle_event(PadEvent::Move(Point::new(2, 0)));
    assert_eq!(pad.current_stroke().len(), 3);
    pad.handle_event(PadEvent::Up);
    assert_eq!(pad.history_len(), 1);
    assert_eq!(pad.current_stroke().len(), 0);

    pad.handle_event(PadEvent::Down(Point::new(5, 5)));
    pad.handle_event(PadEvent::Move(Point::new(6, 6)));
    assert_eq!(pad.current_stroke().len(), 2);
    pad.handle_event(PadEvent::Up);
    assert_eq!(pad.history_len(), 2);
    assert_eq!(pad.current_stroke().len(), 0);
    assert_eq!(points_of(pad.stroke(0)), vec![(0, 0), (1, 0), (2, 0)]);
    assert_eq!(points_of(pad.stroke(1)), vec![(5, 5), (6, 6)]);

    pad.handle_event(PadEvent::Clear);
    assert_eq!(pad.history_len(), 0);
    assert_eq!(pad.current_stroke().len(), 0);
}

#[test]
fn render_lists_history_then_current() {
    let mut pad = DrawingPad::new();
    pad.start_stroke(Point::new(0, 0));
    pad.append_point(Point::new(10, 5));
    pad.end_stroke();
    pad.start_stroke(Point::new(7, 7));
    let paths = pad.render();
    assert_eq!(paths, vec!["M 0 0 L 10 5".to_string(), "M 7 7".to_string()]);
}

#[test]
fn render_omits_empty_current_stroke() {
    let mut pad = DrawingPad::new();
    assert_eq!(pad.render(), Vec::<String>::new());
    pad.start_stroke(Point::new(1, 1));
    pad.end_stroke();
    let paths = pad.render();
    assert_eq!(paths, vec!["M 1 1".to_string()]);
}

#[test]
fn single_point_stroke_renders_no_segment() {
    let mut pad = DrawingPad::new();
    pad.start_stroke(Point::new(3, 7));
    pad.end_stroke();
    let paths = pad.render();
    assert_eq!(paths.len(), 1);
    assert_eq!(paths[0], "M 3 7");
    assert!(!paths[0].contains('L'));
}

#[test]
fn down_overwrites_uncommitted_stroke() {
    let mut pad = DrawingPad::new();
    pad.start_stroke(Point::new(1, 1));
    pad.append_point(Point::new(2, 2));
    pad.start_stroke(Point::new(9, 9));
    assert_eq!(points_of(pad.current_stroke()), vec![(9, 9)]);
    assert_eq!(pad.history_len(), 0);
}
