use wixe::raster::{draw_glyph, draw_text, fill, measure_line, place_line, plot, Coverage, Glyph};
use wixe::Color;

fn blank(width: usize, height: usize) -> Vec<u8> {
    vec![9u8; width * height * 4]
}

fn pixel(frame: &[u8], width: usize, x: usize, y: usize) -> [u8; 4] {
    let at = (y * width + x) * 4;
    [frame[at], frame[at + 1], frame[at + 2], frame[at + 3]]
}

fn touched(frame: &[u8]) -> usize {
    (0..frame.len() / 4).filter(|i| frame[i * 4..i * 4 + 4] != [9, 9, 9, 9]).count()
}

fn glyph(x: i32, advance: i32, bounds: Option<(i32, i32)>, samples: Vec<Coverage>) -> Glyph {
    Glyph { x, advance, bounds, samples }
}

#[test]
fn fill_sets_every_pixel() {
    let mut frame = vec![0u8; 12];
    fill(&mut frame, Color { r: 240, g: 241, b: 242, a: 255 });
    assert_eq!(frame, vec![240, 241, 242, 255, 240, 241, 242, 255, 240, 241, 242, 255]);
}

#[test]
fn fill_leaves_a_partial_pixel_alone() {
    let mut frame = vec![7u8; 10];
    fill(&mut frame, Color { r: 1, g: 2, b: 3, a: 4 });
    assert_eq!(frame, vec![1, 2, 3, 4, 1, 2, 3, 4, 7, 7]);
    let mut frame = vec![7u8; 3];
    fill(&mut frame, Color { r: 1, g: 2, b: 3, a: 4 });
    assert_eq!(frame, vec![7, 7, 7]);
    let mut frame: Vec<u8> = Vec::new();
    fill(&mut frame, Color { r: 1, g: 2, b: 3, a: 4 });
    assert_eq!(frame, Vec::<u8>::new());
}

#[test]
fn line_width_is_where_the_last_glyph_ends() {
    assert_eq!(measure_line(&Vec::new()), 0);
    assert_eq!(measure_line(&vec![glyph(120, 14, None, Vec::new())]), 134);
    let line = vec![glyph(500, 500, None, Vec::new()), glyph(-4, 3, Some((0, 0)), Vec::new())];
    assert_eq!(measure_line(&line), -1);
    assert_eq!(measure_line(&vec![glyph(i32::MAX, i32::MAX, None, Vec::new())]), 4_294_967_294);
    assert_eq!(measure_line(&vec![glyph(i32::MIN, i32::MIN, None, Vec::new())]), -4_294_967_296);
}

#[test]
fn line_is_centred_on_its_centre() {
    assert_eq!(place_line((400, 300), 200, 48), (300, 324));
    assert_eq!(place_line((400, 300), 0, 0), (400, 300));
    assert_eq!(place_line((10, 10), 101, 15), (-40, 17));
    assert_eq!(place_line((0, 0), 7, 1), (-3, 0));
}

#[test]
fn half_of_a_negative_width_rounds_towards_zero() {
    assert_eq!(place_line((10, 10), -7, 0), (13, 10));
    assert_eq!(place_line((10, 10), -8, 0), (14, 10));
    assert_eq!(place_line((0, 0), i64::MIN, 0), (4_611_686_018_427_387_904, 0));
    assert_eq!(
        place_line((u32::MAX, u32::MAX), i64::MAX, u32::MAX),
        (4_294_967_295 - 4_611_686_018_427_387_903, 4_294_967_295 + 2_147_483_647)
    );
}

#[test]
fn plot_writes_black_with_the_coverage_as_alpha() {
    let mut frame = blank(3, 2);
    plot(&mut frame, 3, 2, 1, 1, 200);
    assert_eq!(pixel(&frame, 3, 1, 1), [0, 0, 0, 200]);
    assert_eq!(&frame[16..20], &[0, 0, 0, 200]);
    assert_eq!(touched(&frame), 1);
}

#[test]
fn plot_outside_the_frame_does_nothing() {
    let mut frame = blank(3, 2);
    plot(&mut frame, 3, 2, -1, 0, 200);
    plot(&mut frame, 3, 2, 0, -1, 200);
    plot(&mut frame, 3, 2, 3, 0, 200);
    plot(&mut frame, 3, 2, 0, 2, 200);
    plot(&mut frame, 3, 2, i64::MAX, i64::MIN, 200);
    assert_eq!(frame, blank(3, 2));
}

#[test]
fn plot_reaches_the_corners() {
    let mut frame = blank(3, 2);
    plot(&mut frame, 3, 2, 0, 0, 1);
    plot(&mut frame, 3, 2, 2, 1, 2);
    assert_eq!(pixel(&frame, 3, 0, 0), [0, 0, 0, 1]);
    assert_eq!(pixel(&frame, 3, 2, 1), [0, 0, 0, 2]);
    assert_eq!(touched(&frame), 2);
}

#[test]
fn glyph_lands_at_origin_plus_its_own_place() {
    let shape = glyph(
        0,
        0,
        Some((1, -1)),
        vec![
            Coverage { x: 0, y: 0, alpha: 10 },
            Coverage { x: 1, y: 0, alpha: 20 },
            Coverage { x: 0, y: 1, alpha: 30 },
        ],
    );
    let mut frame = blank(4, 4);
    draw_glyph(&mut frame, 4, 4, &shape, (1, 2));
    assert_eq!(pixel(&frame, 4, 2, 1), [0, 0, 0, 10]);
    assert_eq!(pixel(&frame, 4, 3, 1), [0, 0, 0, 20]);
    assert_eq!(pixel(&frame, 4, 2, 2), [0, 0, 0, 30]);
    assert_eq!(touched(&frame), 3);
}

#[test]
fn glyph_without_a_bitmap_draws_nothing() {
    let shape = glyph(0, 5, None, vec![Coverage { x: 0, y: 0, alpha: 10 }]);
    let mut frame = blank(2, 2);
    draw_glyph(&mut frame, 2, 2, &shape, (0, 0));
    assert_eq!(frame, blank(2, 2));
}

#[test]
fn later_sample_wins_on_the_same_pixel() {
    let shape = glyph(
        0,
        0,
        Some((0, 0)),
        vec![Coverage { x: 1, y: 1, alpha: 10 }, Coverage { x: 1, y: 1, alpha: 77 }],
    );
    let mut frame = blank(2, 2);
    draw_glyph(&mut frame, 2, 2, &shape, (0, 0));
    assert_eq!(pixel(&frame, 2, 1, 1), [0, 0, 0, 77]);
    assert_eq!(touched(&frame), 1);
}

#[test]
fn samples_outside_the_frame_are_dropped() {
    let shape = glyph(
        0,
        0,
        Some((-1, 0)),
        vec![
            Coverage { x: 0, y: 0, alpha: 10 },
            Coverage { x: 1, y: 0, alpha: 20 },
            Coverage { x: 3, y: 0, alpha: 30 },
            Coverage { x: u32::MAX, y: u32::MAX, alpha: 40 },
        ],
    );
    let mut frame = blank(2, 1);
    draw_glyph(&mut frame, 2, 1, &shape, (0, 0));
    assert_eq!(frame, vec![0, 0, 0, 20, 9, 9, 9, 9]);
    let mut frame = blank(2, 1);
    draw_glyph(&mut frame, 2, 1, &shape, (i64::MAX, i64::MIN));
    assert_eq!(frame, blank(2, 1));
    let far = glyph(0, 0, Some((i32::MIN, i32::MAX)), vec![Coverage { x: 0, y: 0, alpha: 1 }]);
    let mut frame = blank(2, 1);
    draw_glyph(&mut frame, 2, 1, &far, (i64::MIN, i64::MAX));
    assert_eq!(frame, blank(2, 1));
}

#[test]
fn text_is_drawn_around_its_centre() {
    let glyphs = vec![
        glyph(0, 2, Some((0, -2)), vec![Coverage { x: 0, y: 0, alpha: 50 }]),
        glyph(2, 1, None, Vec::new()),
        glyph(2, 2, Some((2, -2)), vec![Coverage { x: 1, y: 1, alpha: 60 }]),
    ];
    let mut frame = blank(8, 8);
    draw_text(&mut frame, 8, 8, &glyphs, 4, (4, 3));
    // The line is 4 wide and set in 4: it starts at x = 4 - 2 and y = 3 + 2.
    assert_eq!(pixel(&frame, 8, 2, 3), [0, 0, 0, 50]);
    assert_eq!(pixel(&frame, 8, 5, 4), [0, 0, 0, 60]);
    assert_eq!(touched(&frame), 2);
}

#[test]
fn text_takes_its_width_from_the_last_glyph_only() {
    let glyphs = vec![
        glyph(90, 90, Some((0, 0)), vec![Coverage { x: 0, y: 0, alpha: 50 }]),
        glyph(1, 1, None, Vec::new()),
    ];
    let mut frame = blank(4, 4);
    draw_text(&mut frame, 4, 4, &glyphs, 2, (2, 1));
    // The line counts as 2 wide: it starts at x = 2 - 1 and y = 1 + 1.
    assert_eq!(pixel(&frame, 4, 1, 2), [0, 0, 0, 50]);
    assert_eq!(touched(&frame), 1);
}

#[test]
fn text_without_glyphs_leaves_the_frame() {
    let mut frame = blank(4, 4);
    draw_text(&mut frame, 4, 4, &Vec::new(), 48, (2, 2));
    assert_eq!(frame, blank(4, 4));
}

#[test]
fn text_in_a_frame_with_spare_bytes() {
    let glyphs = vec![glyph(0, 0, Some((0, 0)), vec![Coverage { x: 0, y: 0, alpha: 5 }])];
    let mut frame = vec![9u8; 2 * 2 * 4 + 3];
    draw_text(&mut frame, 2, 2, &glyphs, 0, (1, 1));
    assert_eq!(pixel(&frame, 2, 1, 1), [0, 0, 0, 5]);
    assert_eq!(&frame[16..], &[9, 9, 9]);
}
