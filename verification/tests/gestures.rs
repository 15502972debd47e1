use canvas::color::Color;
use canvas::elements::{Elements, Ellipse, Line, Rectangle, Rectangle_Custom, Tool};
use canvas::geometry::Point;
use canvas::model::{Model, MouseButton, Settings};

fn fresh_model(tool: Tool) -> Model {
    let black = Color::new(0, 0, 0);
    let origin = Point::new(0, 0);
    Model::new(
        Settings::new(Color::new(1, 2, 3), 7, false),
        Line::new(),
        Ellipse::new(origin, black, 0, false),
        Rectangle::new(origin, origin, black, false),
        Rectangle_Custom::new(origin, origin, black, false, 0),
        Vec::new(),
        tool,
        false,
    )
}

#[test]
fn scenario_pencil_three_samples() {
    let mut m = fresh_model(Tool::Pencil);
    m.press(Point::new(0, 0));
    m.update(Point::new(10, 0));
    m.update(Point::new(10, 10));
    m.release(Point::new(10, 10));
    assert_eq!(m.appended_count(), 1);
    match &m.elements[0] {
        Elements::Line(l) => {
            assert_eq!(l.pixels.len(), 3);
            assert_eq!(l.pixels[0].pos, Point::new(0, 0));
            assert_eq!(l.pixels[1].pos, Point::new(10, 0));
            assert_eq!(l.pixels[2].pos, Point::new(10, 10));
            assert_eq!(l.pixels[0].color, Color::new(1, 2, 3));
            assert_eq!(l.pixels[1].color, Color::new(1, 2, 3));
            assert_eq!(l.pixels[2].color, Color::new(1, 2, 3));
            assert_eq!(l.get_weight(), 7);
        }
        _ => panic!("expected a stroke element"),
    }
    assert!(!m.get_drawing());
}

#[test]
fn scenario_rectangle_size_doubles_delta() {
    let mut m = fresh_model(Tool::Rect);
    m.press(Point::new(0, 0));
    m.update(Point::new(5, 5));
    m.release(Point::new(5, 5));
    assert_eq!(m.appended_count(), 1);
    match &m.elements[0] {
        Elements::Rect(r) => {
            assert_eq!(r.get_center(), Point::new(0, 0));
            assert_eq!(r.get_wh(), Point::new(10, 10));
            assert_eq!(r.get_color(), Color::new(1, 2, 3));
        }
        _ => panic!("expected a rectangle element"),
    }
}

#[test]
fn scenario_raster_rect_no_intermediate_move() {
    let mut m = fresh_model(Tool::Rect_Custom);
    m.press(Point::new(0, 0));
    m.release(Point::new(4, 2));
    assert_eq!(m.appended_count(), 1);
    match &m.elements[0] {
        Elements::RectCustom(rc) => {
            // 4 rows of 8 columns, visited row-major from the mirrored corner.
            assert_eq!(rc.pixels.len(), 32);
            for (i, s) in rc.pixels.iter().enumerate() {
                let col = (i % 8) as i64;
                let row = (i / 8) as i64;
                assert_eq!(s.pos, Point::new(-4 + col, -2 - row));
                assert_eq!(s.color, Color::new(1, 2, 3));
            }
        }
        _ => panic!("expected a rasterized rectangle element"),
    }
    // The draft's pixel buffer is cleared after the commit.
    assert_eq!(m.get_rect_line().get_line().len(), 0);
}

#[test]
fn scenario_ellipse_radius() {
    let mut m = fresh_model(Tool::Ellipse);
    m.press(Point::new(0, 0));
    m.update(Point::new(5, 1));
    m.release(Point::new(5, 1));
    assert_eq!(m.appended_count(), 1);
    match &m.elements[0] {
        Elements::Ellipse(e) => {
            // radius = round(sqrt(5^2 - 1^2)) = round(4.899) = 5
            assert_eq!(e.get_radius(), 5);
            assert_eq!(e.get_center(), Point::new(0, 0));
            assert_eq!(e.get_color(), Color::new(1, 2, 3));
        }
        _ => panic!("expected an ellipse element"),
    }
}

#[test]
fn gesture_grows_canvas_by_one_each_time() {
    let mut m = fresh_model(Tool::Pencil);
    m.press(Point::new(0, 0));
    m.update(Point::new(1, 1));
    m.release(Point::new(1, 1));
    assert_eq!(m.appended_count(), 1);
    m.tool = Tool::Rect;
    m.press(Point::new(2, 2));
    m.update(Point::new(3, 3));
    m.release(Point::new(3, 3));
    assert_eq!(m.appended_count(), 2);
    // The earlier element is untouched: still the two-sample stroke.
    match &m.elements[0] {
        Elements::Line(l) => assert_eq!(l.pixels.len(), 2),
        _ => panic!("expected the stroke to stay first"),
    }
    match &m.elements[1] {
        Elements::Rect(r) => assert_eq!(r.get_wh(), Point::new(2, 2)),
        _ => panic!("expected the rectangle to come second"),
    }
}

#[test]
fn stroke_keeps_color_at_capture_time() {
    let mut m = fresh_model(Tool::Pencil);
    m.press(Point::new(0, 0));
    m.settings = Settings::new(Color::new(9, 9, 9), 7, false);
    m.update(Point::new(1, 0));
    m.release(Point::new(1, 0));
    match &m.elements[0] {
        Elements::Line(l) => {
            assert_eq!(l.pixels[0].color, Color::new(1, 2, 3));
            assert_eq!(l.pixels[1].color, Color::new(9, 9, 9));
        }
        _ => panic!("expected a stroke element"),
    }
}

#[test]
fn events_while_idle_are_no_ops() {
    let mut m = fresh_model(Tool::Pencil);
    m.update(Point::new(5, 5));
    m.release(Point::new(5, 5));
    assert_eq!(m.appended_count(), 0);
    assert!(!m.get_drawing());
    assert_eq!(m.get_line().get_line().len(), 0);
}

#[test]
fn press_while_drawing_is_a_no_op() {
    let mut m = fresh_model(Tool::Pencil);
    m.press(Point::new(0, 0));
    m.press(Point::new(5, 5));
    assert_eq!(m.get_line().get_line().len(), 1);
    assert_eq!(m.get_line().get_line()[0].pos, Point::new(0, 0));
}

#[test]
fn eraser_gesture_commits_nothing() {
    let mut m = fresh_model(Tool::Rubber);
    m.press(Point::new(0, 0));
    m.update(Point::new(5, 5));
    m.release(Point::new(5, 5));
    assert_eq!(m.appended_count(), 0);
    assert!(!m.get_drawing());
}

#[test]
fn largest_anchor_still_draws() {
    let mut m = fresh_model(Tool::Rect);
    m.press(Point::new(1048576, -1048576));
    m.update(Point::new(1048575, -1048575));
    m.release(Point::new(1048575, -1048575));
    match &m.elements[0] {
        Elements::Rect(r) => {
            assert_eq!(r.get_center(), Point::new(1048576, -1048576));
            assert_eq!(r.get_wh(), Point::new(2, 2));
        }
        _ => panic!("expected a rectangle element"),
    }
}

#[test]
fn only_the_primary_button_drives_gestures() {
    let mut m = fresh_model(Tool::Pencil);
    m.mouse_pressed(MouseButton::Secondary, Point::new(0, 0));
    assert!(!m.get_drawing());
    m.mouse_pressed(MouseButton::Primary, Point::new(0, 0));
    assert!(m.get_drawing());
    m.mouse_released(MouseButton::Middle, Point::new(0, 0));
    assert!(m.get_drawing());
    assert_eq!(m.appended_count(), 0);
    m.mouse_released(MouseButton::Primary, Point::new(0, 0));
    assert!(!m.get_drawing());
    assert_eq!(m.appended_count(), 1);
}

#[test]
fn mutable_draft_access_edits_in_place() {
    let mut m = fresh_model(Tool::Pencil);
    m.press(Point::new(0, 0));
    m.get_mut_line().set_weight(42);
    assert_eq!(m.get_line().get_weight(), 42);
    m.get_mut_rect_line().set_weight(11);
    assert_eq!(m.get_rect_line().get_weight(), 11);
}

#[test]
fn press_resets_stale_draft_geometry() {
    let mut m = fresh_model(Tool::Rect);
    m.press(Point::new(0, 0));
    m.update(Point::new(5, 5));
    m.release(Point::new(5, 5));
    m.press(Point::new(1, 1));
    // A fresh draft starts with zero size, not the previous gesture's.
    assert_eq!(m.rect.get_wh(), Point::new(0, 0));
    assert_eq!(m.rect.get_center(), Point::new(1, 1));
}
