use wixe::{
    Color, Event, Heading, KeyCode, LayoutConstraint, Paragraph, Point, Size, Subheading,
    TextAlignment, TextWidget, UpdateContext, Widget,
};

fn every_kind_of_event() -> Vec<Event> {
    vec![
        Event::Click(Point { x: 10, y: 20 }),
        Event::Hover(Point { x: -5, y: 0 }),
        Event::KeyPress(KeyCode::Enter),
        Event::KeyPress(KeyCode::Char('q')),
        Event::FocusChange(true),
        Event::FocusChange(false),
        Event::MouseWheel(12),
    ]
}

fn some_constraints() -> LayoutConstraint {
    LayoutConstraint { min_width: 50, max_width: 80, min_height: 1, max_height: 2 }
}

fn black() -> Color {
    Color { r: 0, g: 0, b: 0, a: 255 }
}

fn style(text: &TextWidget) -> (String, u32, TextAlignment, Color) {
    (String::from(text.text()), text.font_size(), text.alignment(), text.color())
}

#[test]
fn text_starts_with_the_defaults() {
    let text = TextWidget::new("hello");
    assert_eq!(text.text(), "hello");
    assert_eq!(text.font_size(), 14);
    assert_eq!(text.alignment(), TextAlignment::Left);
    assert_eq!(text.color(), Color { r: 0, g: 0, b: 0, a: 255 });
}

#[test]
fn text_builders_change_one_thing_each() {
    let text = TextWidget::new("hello").with_font_size(20);
    assert_eq!(style(&text), (String::from("hello"), 20, TextAlignment::Left, black()));
    let text = text.with_alignment(TextAlignment::Right);
    assert_eq!(style(&text), (String::from("hello"), 20, TextAlignment::Right, black()));
    let text = text.with_color(Color { r: 9, g: 8, b: 7, a: 6 });
    assert_eq!(
        style(&text),
        (String::from("hello"), 20, TextAlignment::Right, Color { r: 9, g: 8, b: 7, a: 6 })
    );
    let text = text.with_font_size(3).with_alignment(TextAlignment::Center);
    assert_eq!(
        style(&text),
        (String::from("hello"), 3, TextAlignment::Center, Color { r: 9, g: 8, b: 7, a: 6 })
    );
}

#[test]
fn text_is_ten_sizes_wide_and_one_point_two_high() {
    let text = TextWidget::new("x");
    assert_eq!(text.layout(&LayoutConstraint::default()), Size { width: 1400, height: 168 });
    let text = TextWidget::new("x").with_font_size(36);
    assert_eq!(text.layout(&LayoutConstraint::default()), Size { width: 3600, height: 432 });
    let text = TextWidget::new("a much longer line of text").with_font_size(1);
    assert_eq!(text.layout(&LayoutConstraint::default()), Size { width: 100, height: 12 });
    let text = TextWidget::new("").with_font_size(0);
    assert_eq!(text.layout(&LayoutConstraint::default()), Size { width: 0, height: 0 });
}

#[test]
fn text_layout_ignores_the_constraints() {
    let text = TextWidget::new("x").with_font_size(24);
    assert_eq!(text.layout(&some_constraints()), Size { width: 2400, height: 288 });
    assert_eq!(text.layout(&LayoutConstraint::default()), Size { width: 2400, height: 288 });
}

#[test]
fn text_layout_of_the_largest_font_size() {
    let text = TextWidget::new("x").with_font_size(u32::MAX);
    assert_eq!(
        text.layout(&LayoutConstraint::default()),
        Size { width: 429_496_729_500, height: 51_539_607_540 }
    );
}

#[test]
fn heading_levels_have_their_font_sizes() {
    let expected = [(1u8, 36u32), (2, 30), (3, 24), (4, 18), (5, 16), (6, 14)];
    for (level, font_size) in expected {
        let heading = Heading::new("Title", level);
        assert_eq!(heading.level(), level);
        assert_eq!(
            style(heading.as_text()),
            (String::from("Title"), font_size, TextAlignment::Left, black())
        );
    }
}

#[test]
fn heading_font_sizes_by_level() {
    assert_eq!(wixe::text::font_size_of_level(1), Some(36));
    assert_eq!(wixe::text::font_size_of_level(2), Some(30));
    assert_eq!(wixe::text::font_size_of_level(3), Some(24));
    assert_eq!(wixe::text::font_size_of_level(4), Some(18));
    assert_eq!(wixe::text::font_size_of_level(5), Some(16));
    assert_eq!(wixe::text::font_size_of_level(6), Some(14));
    assert_eq!(wixe::text::font_size_of_level(0), None);
    assert_eq!(wixe::text::font_size_of_level(7), None);
    assert_eq!(wixe::text::font_size_of_level(255), None);
}

#[test]
fn heading_of_a_level_that_does_not_exist_is_not_made() {
    assert!(Heading::try_new("Title", 0).is_none());
    assert!(Heading::try_new("Title", 7).is_none());
    assert!(Heading::try_new("Title", 8).is_none());
    assert!(Heading::try_new("Title", 200).is_none());
    assert!(Heading::try_new("Title", 255).is_none());
}

#[test]
fn heading_of_every_level_is_made() {
    let expected = [(1u8, 36u32), (2, 30), (3, 24), (4, 18), (5, 16), (6, 14)];
    for (level, font_size) in expected {
        match Heading::try_new("Title", level) {
            Some(heading) => {
                assert_eq!(heading.level(), level);
                assert_eq!(
                    style(heading.as_text()),
                    (String::from("Title"), font_size, TextAlignment::Left, black())
                );
            }
            None => panic!("no heading of level {}", level),
        }
    }
}

#[test]
fn heading_layout_follows_its_level() {
    assert_eq!(
        Heading::new("Title", 1).layout(&LayoutConstraint::default()),
        Size { width: 3600, height: 432 }
    );
    assert_eq!(
        Heading::new("Title", 2).layout(&LayoutConstraint::default()),
        Size { width: 3000, height: 360 }
    );
    assert_eq!(
        Heading::new("Title", 3).layout(&LayoutConstraint::default()),
        Size { width: 2400, height: 288 }
    );
    assert_eq!(
        Heading::new("Title", 4).layout(&LayoutConstraint::default()),
        Size { width: 1800, height: 216 }
    );
    assert_eq!(
        Heading::new("Title", 5).layout(&LayoutConstraint::default()),
        Size { width: 1600, height: 192 }
    );
    assert_eq!(
        Heading::new("Title", 6).layout(&some_constraints()),
        Size { width: 1400, height: 168 }
    );
}

#[test]
fn subheading_is_sixteen_and_left() {
    let subheading = Subheading::new("Section");
    assert_eq!(
        style(subheading.as_text()),
        (String::from("Section"), 16, TextAlignment::Left, black())
    );
    assert_eq!(subheading.layout(&LayoutConstraint::default()), Size { width: 1600, height: 192 });
}

#[test]
fn paragraph_is_default_text_justified() {
    let paragraph = Paragraph::new("Some words.");
    assert_eq!(
        style(paragraph.as_text()),
        (String::from("Some words."), 14, TextAlignment::Justify, black())
    );
    assert_eq!(paragraph.layout(&LayoutConstraint::default()), Size { width: 1400, height: 168 });
}

#[test]
fn text_takes_no_event_and_never_changes() {
    let mut text = TextWidget::new("hello").with_font_size(22).with_alignment(TextAlignment::Right);
    for event in every_kind_of_event() {
        assert!(!text.handle_event(&event));
    }
    assert!(!text.update(&UpdateContext {}));
    assert_eq!(style(&text), (String::from("hello"), 22, TextAlignment::Right, black()));
    assert_eq!(text.layout(&LayoutConstraint::default()), Size { width: 2200, height: 264 });
}

#[test]
fn heading_takes_no_event_and_never_changes() {
    let mut heading = Heading::new("Title", 3);
    for event in every_kind_of_event() {
        assert!(!heading.handle_event(&event));
    }
    assert!(!heading.update(&UpdateContext {}));
    assert_eq!(heading.level(), 3);
    assert_eq!(style(heading.as_text()), (String::from("Title"), 24, TextAlignment::Left, black()));
}

#[test]
fn subheading_takes_no_event_and_never_changes() {
    let mut subheading = Subheading::new("Section");
    for event in every_kind_of_event() {
        assert!(!subheading.handle_event(&event));
    }
    assert!(!subheading.update(&UpdateContext {}));
    assert_eq!(
        style(subheading.as_text()),
        (String::from("Section"), 16, TextAlignment::Left, black())
    );
}

#[test]
fn paragraph_takes_no_event_and_never_changes() {
    let mut paragraph = Paragraph::new("Some words.");
    for event in every_kind_of_event() {
        assert!(!paragraph.handle_event(&event));
    }
    assert!(!paragraph.update(&UpdateContext {}));
    assert_eq!(
        style(paragraph.as_text()),
        (String::from("Some words."), 14, TextAlignment::Justify, black())
    );
}
