use drawing_pad::geometry::Point;
use drawing_pad::native::Color;
use drawing_pad::native::DrawingApp;
use drawing_pad::native::NativeEvent;
use drawing_pad::native::PathCmd;

fn draw_gesture(app: &mut DrawingApp, points: &[(i64, i64)]) {
    let (x0, y0) = points[0];
    app.handle_window_event(NativeEvent::CursorMoved(Point::new(x0, y0)));
    app.handle_window_event(NativeEvent::MouseInput(true));
    for &(x, y) in &points[1..] {
        app.handle_window_event(NativeEvent::CursorMoved(Point::new(x, y)));
    }
    app.handle_window_event(NativeEvent::MouseInput(false));
}

#[test]
fn gesture_records_one_contour() {
    let mut app = DrawingApp::new();
    draw_gesture(&mut app, &[(1, 2), (3, 4), (5, 6)]);
    let frame = app.draw();
    assert_eq!(
        frame.commands,
        vec![
            PathCmd::MoveTo(Point::new(1, 2)),
            PathCmd::LineTo(Point::new(3, 4)),
            PathCmd::LineTo(Point::new(5, 6)),
        ]
    );
}

#[test]
fn reset_discards_all_earlier_points() {
    let mut app = DrawingApp::new();
    draw_gesture(&mut app, &[(1, 1), (2, 2)]);
    let eff = app.handle_window_event(NativeEvent::ResetKey);
    assert!(eff.request_redraw);
    draw_gesture(&mut app, &[(30, 30), (40, 40)]);
    let frame = app.draw();
    assert_eq!(
        frame.commands,
        vec![
            PathCmd::MoveTo(Point::new(30, 30)),
            PathCmd::LineTo(Point::new(40, 40)),
        ]
    );
}

#[test]
fn resize_then_redraw_uses_new_dimensions() {
    let mut app = DrawingApp::new();
    draw_gesture(&mut app, &[(1, 1), (2, 2)]);
    let eff = app.handle_window_event(NativeEvent::Resized(1024, 768));
    assert!(eff.rebind_surface);
    let eff2 = app.handle_window_event(NativeEvent::RedrawRequested);
    assert!(eff2.draw_now);
    let frame = app.draw();
    assert_eq!(frame.width, 1024);
    assert_eq!(frame.height, 768);
    assert_eq!(frame.commands.len(), 2);
}

#[test]
fn default_window_size_is_800_by_600() {
    let app = DrawingApp::new();
    let frame = app.draw();
    assert_eq!(frame.width, 800);
    assert_eq!(frame.height, 600);
}

#[test]
fn frame_paint_is_fixed() {
    let app = DrawingApp::new();
    let frame = app.draw();
    assert_eq!(frame.background, Color { r: 240, g: 240, b: 240 });
    assert_eq!(frame.paint.color, Color { r: 0, g: 0, b: 0 });
    assert_eq!(frame.paint.stroke_width, 3);
    assert!(frame.paint.anti_alias);
}

#[test]
fn press_without_cursor_position_is_ignored() {
    let mut app = DrawingApp::new();
    let eff = app.handle_window_event(NativeEvent::MouseInput(true));
    assert!(!eff.request_redraw);
    let frame = app.draw();
    assert_eq!(frame.commands.len(), 0);
}

#[test]
fn moves_without_press_draw_nothing() {
    let mut app = DrawingApp::new();
    let eff = app.handle_window_event(NativeEvent::CursorMoved(Point::new(9, 9)));
    assert!(!eff.request_redraw);
    let frame = app.draw();
    assert_eq!(frame.commands.len(), 0);
}

#[test]
fn close_request_exits() {
    let mut app = DrawingApp::new();
    let eff = app.handle_window_event(NativeEvent::CloseRequested);
    assert!(eff.exit);
    assert!(!eff.draw_now);
}

#[test]
fn second_press_continues_the_same_path() {
    let mut app = DrawingApp::new();
    draw_gesture(&mut app, &[(1, 1), (2, 2)]);
    draw_gesture(&mut app, &[(10, 10), (11, 11)]);
    let frame = app.draw();
    assert_eq!(
        frame.commands,
        vec![
            PathCmd::MoveTo(Point::new(1, 1)),
            PathCmd::LineTo(Point::new(2, 2)),
            PathCmd::MoveTo(Point::new(10, 10)),
            PathCmd::LineTo(Point::new(11, 11)),
        ]
    );
}
