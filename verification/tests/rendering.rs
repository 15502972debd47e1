use canvas::color::Color;
use canvas::elements::{Ellipse, Line, Rectangle, Rectangle_Custom, Tool};
use canvas::geometry::Point;
use canvas::helpers::{open_shapes, select_shape};
use canvas::model::{Model, Settings};
use canvas::render::DrawCmd;

fn fresh_model(tool: Tool) -> Model {
    let black = Color::new(0, 0, 0);
    let origin = Point::new(0, 0);
    Model::new(
        Settings::new(Color::new(1, 2, 3), 7, false),
        Line::new(),
        Ellipse::new(origin, black, 0, false),
        Rectangle::new(origin, origin, black, false),
        Rectangle_Custom::new(origin, origin, black, false, 0),
        Vec::new(),
        tool,
        false,
    )
}

#[test]
fn render_twice_yields_identical_sequences() {
    let mut m = fresh_model(Tool::Rect);
    m.press(Point::new(0, 0));
    m.update(Point::new(5, 5));
    m.release(Point::new(5, 5));
    m.tool = Tool::Pencil;
    m.press(Point::new(1, 1));
    m.update(Point::new(2, 2));
    // Still mid-gesture: the draft renders on top, both times.
    let first = m.render();
    let second = m.render();
    assert!(first == second);
    assert_eq!(first.len(), 2);
}

#[test]
fn render_commit_order_then_draft_on_top() {
    let mut m = fresh_model(Tool::Rect);
    m.press(Point::new(0, 0));
    m.update(Point::new(5, 5));
    m.release(Point::new(5, 5));
    m.tool = Tool::Pencil;
    m.press(Point::new(1, 1));
    let cmds = m.render();
    assert_eq!(cmds.len(), 2);
    match &cmds[0] {
        DrawCmd::RectOutline { center, wh, color } => {
            assert_eq!(*center, Point::new(0, 0));
            assert_eq!(*wh, Point::new(10, 10));
            assert_eq!(*color, Color::new(1, 2, 3));
        }
        _ => panic!("expected the committed rectangle first"),
    }
    match &cmds[1] {
        DrawCmd::Polyline { points, weight } => {
            assert_eq!(points.len(), 1);
            assert_eq!(points[0].pos, Point::new(1, 1));
            assert_eq!(*weight, 7);
        }
        _ => panic!("expected the in-flight stroke last"),
    }
}

#[test]
fn no_draft_primitive_while_idle() {
    let mut m = fresh_model(Tool::Pencil);
    assert!(m.display().is_none());
    m.press(Point::new(0, 0));
    assert!(m.display().is_some());
    m.release(Point::new(0, 0));
    assert!(m.display().is_none());
    assert_eq!(m.render().len(), 1);
}

#[test]
fn draft_ellipse_uses_active_settings_color() {
    let mut m = fresh_model(Tool::Ellipse);
    m.press(Point::new(0, 0));
    m.update(Point::new(5, 0));
    match m.display() {
        Some(DrawCmd::EllipseFill { center, radius, color }) => {
            assert_eq!(center, Point::new(0, 0));
            assert_eq!(radius, 5);
            assert_eq!(color, Color::new(1, 2, 3));
        }
        _ => panic!("expected an ellipse draft primitive"),
    }
}

#[test]
fn shape_palette_toggle_twice_returns_to_pencil() {
    let first = select_shape(Tool::Pencil, Tool::Rect);
    assert_eq!(first, Tool::Rect);
    let second = select_shape(first, Tool::Rect);
    assert_eq!(second, Tool::Pencil);

    let first = select_shape(Tool::Pencil, Tool::Ellipse);
    let second = select_shape(first, Tool::Ellipse);
    assert_eq!(second, Tool::Pencil);

    // Selecting a different shape switches directly.
    let switched = select_shape(Tool::Ellipse, Tool::Rect_Custom);
    assert_eq!(switched, Tool::Rect_Custom);
}

#[test]
fn open_shapes_toggles_palette_flag() {
    let mut settings = Settings::new(Color::new(1, 2, 3), 7, false);
    open_shapes(&mut settings);
    assert!(settings.get_shapes());
    open_shapes(&mut settings);
    assert!(!settings.get_shapes());
    assert_eq!(settings.get_color(), Color::new(1, 2, 3));
    assert_eq!(settings.get_weight(), 7);
}
