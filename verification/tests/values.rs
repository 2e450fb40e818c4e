use wixe::{
    Color, Event, KeyCode, LayoutConstraint, Point, Size, TextAlignment, UpdateContext, UNIT,
};

#[test]
fn unit_is_ten_tenths() {
    assert_eq!(UNIT, 10);
}

#[test]
fn default_point_is_the_origin() {
    assert_eq!(Point::default(), Point { x: 0, y: 0 });
}

#[test]
fn default_size_is_empty() {
    assert_eq!(Size::default(), Size { width: 0, height: 0 });
}

#[test]
fn default_constraints_are_all_zero() {
    assert_eq!(
        LayoutConstraint::default(),
        LayoutConstraint { min_width: 0, max_width: 0, min_height: 0, max_height: 0 }
    );
}

#[test]
fn default_color_is_opaque_black() {
    assert_eq!(Color::default(), Color { r: 0, g: 0, b: 0, a: 255 });
}

#[test]
fn default_alignment_is_left() {
    assert_eq!(TextAlignment::default(), TextAlignment::Left);
}

#[test]
fn default_update_context_is_empty() {
    assert_eq!(UpdateContext::default(), UpdateContext {});
}

#[test]
fn point_below_moves_down_only() {
    assert_eq!(Point { x: 7, y: 100 }.below(432), Point { x: 7, y: 532 });
    assert_eq!(Point { x: -3, y: -50 }.below(20), Point { x: -3, y: -30 });
    assert_eq!(Point { x: 1, y: 5 }.below(0), Point { x: 1, y: 5 });
}

#[test]
fn point_below_stops_at_the_largest_coordinate() {
    assert_eq!(Point { x: 0, y: i64::MAX - 1 }.below(5), Point { x: 0, y: i64::MAX });
    assert_eq!(Point { x: 0, y: 10 }.below(u64::MAX), Point { x: 0, y: i64::MAX });
    assert_eq!(Point { x: 0, y: i64::MIN }.below(u64::MAX), Point { x: 0, y: i64::MAX });
    assert_eq!(Point { x: 0, y: i64::MIN }.below(1), Point { x: 0, y: i64::MIN + 1 });
}

#[test]
fn events_compare_by_what_they_carry() {
    assert_eq!(Event::Click(Point { x: 1, y: 2 }), Event::Click(Point { x: 1, y: 2 }));
    assert_ne!(Event::Click(Point { x: 1, y: 2 }), Event::Hover(Point { x: 1, y: 2 }));
    assert_ne!(Event::KeyPress(KeyCode::Char('a')), Event::KeyPress(KeyCode::Char('b')));
    assert_ne!(Event::FocusChange(true), Event::FocusChange(false));
    assert_eq!(Event::MouseWheel(-30), Event::MouseWheel(-30));
}
