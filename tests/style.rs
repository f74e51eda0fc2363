use embedded_ttf::{
    AntiAliasing, Command, Coverage, DecorationColor, DrawCommand, FontTextStyle,
    FontTextStyleBuilder, GlyphInk, LaidOutGlyph, Pixel, Point, Rectangle, Rgb, Size,
};

fn white() -> Rgb {
    Rgb::new(255, 255, 255)
}

fn red() -> Rgb {
    Rgb::new(255, 0, 0)
}

fn sample(x: u32, y: u32, value: u32) -> Coverage {
    Coverage { x, y, value }
}

fn inked(right_edge: i64, min_x: i32, min_y: i32, coverage: Vec<Coverage>) -> LaidOutGlyph {
    LaidOutGlyph {
        right_edge,
        ink: Some(GlyphInk { min_x, min_y, right_edge, coverage }),
    }
}

fn blank(right_edge: i64) -> LaidOutGlyph {
    LaidOutGlyph { right_edge, ink: None }
}

fn fill(x: i32, y: i32, w: u32, h: u32, c: Rgb) -> DrawCommand {
    Command::FillRect(Rectangle::new(Point::new(x, y), Size::new(w, h)), c)
}

fn pixel(x: i32, y: i32, c: Rgb) -> Pixel {
    Pixel { position: Point::new(x, y), color: c }
}

#[test]
fn builder_defaults() {
    let style = FontTextStyleBuilder::new(()).build();
    assert_eq!(12, style.font_size);
    assert_eq!(None, style.text_color);
    assert_eq!(None, style.background_color);
    assert_eq!(AntiAliasing::Cutoff, style.anti_aliasing);
    assert_eq!(DecorationColor::Disabled, style.underline_color);
    assert_eq!(DecorationColor::Disabled, style.strikethrough_color);
}

#[test]
fn builder_text_color_selects_background_blending() {
    let style = FontTextStyleBuilder::new(()).text_color(red()).build();
    assert_eq!(Some(red()), style.text_color);
    assert_eq!(AntiAliasing::BackgroundColor, style.anti_aliasing);
    let style = FontTextStyleBuilder::new(()).background_color(white()).build();
    assert_eq!(AntiAliasing::Cutoff, style.anti_aliasing);
    let style = FontTextStyleBuilder::new(())
        .text_color(red())
        .anti_aliasing_color(white())
        .build();
    assert_eq!(AntiAliasing::SolidColor(white()), style.anti_aliasing);
}

#[test]
fn builder_decorations() {
    let style = FontTextStyleBuilder::new(())
        .underline()
        .strikethrough_with_color(red())
        .build();
    assert_eq!(DecorationColor::TextColor, style.underline_color);
    assert_eq!(DecorationColor::Custom(red()), style.strikethrough_color);
    let style = FontTextStyleBuilder::new(())
        .strikethrough()
        .underline_with_color(white())
        .build();
    assert_eq!(DecorationColor::TextColor, style.strikethrough_color);
    assert_eq!(DecorationColor::Custom(white()), style.underline_color);
}

#[test]
fn style_new_sets_color_and_size() {
    let style = FontTextStyle::new(7u8, white(), 20);
    assert_eq!(Some(white()), style.text_color);
    assert_eq!(20, style.font_size);
    assert_eq!(AntiAliasing::BackgroundColor, style.anti_aliasing);
    assert_eq!(7u8, *style.font());
}

#[test]
fn line_height_is_font_size() {
    for size in [0u32, 1, 12, 16, 400] {
        let style = FontTextStyleBuilder::new(()).font_size(size).build();
        assert_eq!(size, style.line_height());
    }
}

#[test]
fn cutoff_without_backdrop() {
    let mut style = FontTextStyleBuilder::new(()).text_color(red()).build();
    style.anti_aliasing = AntiAliasing::Cutoff;
    let glyphs = vec![inked(4, 0, 0, vec![sample(0, 0, 124), sample(1, 0, 153)])];
    let mut out = Vec::new();
    let next = style.draw_string(&glyphs, Point::new(0, 0), &mut out);
    assert_eq!(Point::new(4, 0), next);
    assert_eq!(vec![Command::Pixels(vec![pixel(1, 0, red())])], out);
}

#[test]
fn whitespace_with_background_is_one_fill() {
    let style = FontTextStyleBuilder::new(())
        .font_size(16)
        .background_color(white())
        .build();
    let mut out = Vec::new();
    let next = style.draw_whitespace(10, Point::new(3, 4), &mut out);
    assert_eq!(Point::new(13, 4), next);
    assert_eq!(vec![fill(3, 4, 10, 16, white())], out);
}

#[test]
fn measured_and_drawn_width_agree_for_one_glyph() {
    let style = FontTextStyleBuilder::new(()).text_color(white()).build();
    let glyphs = vec![inked(9, 0, 1, vec![sample(2, 2, 255)])];
    let mut out = Vec::new();
    let drawn = style.draw_string(&glyphs, Point::new(5, 6), &mut out);
    let measured = style.measure_string(&glyphs, Point::new(5, 6));
    assert_eq!(drawn, measured.next_position);
    assert_eq!(Point::new(14, 6), drawn);
    assert_eq!(Size::new(9, 12), measured.bounding_box.size);
    assert_eq!(Point::new(5, 6), measured.bounding_box.top_left);
}

#[test]
fn white_text_on_unknown_backdrop() {
    let style = FontTextStyleBuilder::new(())
        .font_size(16)
        .text_color(white())
        .build();
    let values = [0u32, 60, 127, 128, 200, 255, 90, 255, 10];
    let mut coverage = Vec::new();
    for (i, v) in values.iter().enumerate() {
        coverage.push(sample(i as u32 % 3, i as u32 / 3, *v));
    }
    let glyphs = vec![inked(10, 2, 3, coverage)];
    let mut out = Vec::new();
    style.draw_string(&glyphs, Point::new(0, 0), &mut out);
    let expected = vec![
        pixel(2, 4, white()),
        pixel(3, 4, white()),
        pixel(4, 4, white()),
        pixel(3, 5, white()),
    ];
    assert_eq!(vec![Command::Pixels(expected)], out);
}

#[test]
fn underline_on_whitespace() {
    let style = FontTextStyleBuilder::new(())
        .underline()
        .text_color(red())
        .build();
    let mut out = Vec::new();
    let next = style.draw_whitespace(20, Point::new(5, 5), &mut out);
    assert_eq!(Point::new(25, 5), next);
    assert_eq!(vec![fill(5, 17, 20, 1, red())], out);
}

#[test]
fn decoration_thickness_grows_with_size() {
    let style = FontTextStyleBuilder::new(())
        .font_size(60)
        .text_color(red())
        .strikethrough()
        .underline_with_color(white())
        .build();
    let mut out = Vec::new();
    style.draw_whitespace(7, Point::new(0, 0), &mut out);
    assert_eq!(vec![fill(0, 30, 7, 3, red()), fill(0, 60, 7, 3, white())], out);
}

#[test]
fn draw_order_is_background_pixels_strike_underline() {
    let style = FontTextStyleBuilder::new(())
        .font_size(16)
        .text_color(white())
        .background_color(Rgb::new(0, 0, 0))
        .strikethrough()
        .underline()
        .build();
    let glyphs = vec![inked(3, 0, 0, vec![sample(0, 0, 0), sample(1, 0, 255)])];
    let mut out = Vec::new();
    let next = style.draw_string(&glyphs, Point::new(1, 1), &mut out);
    assert_eq!(Point::new(4, 1), next);
    assert_eq!(
        vec![
            fill(1, 1, 3, 16, Rgb::new(0, 0, 0)),
            Command::Pixels(vec![pixel(1, 1, Rgb::new(0, 0, 0)), pixel(2, 1, white())]),
            fill(1, 9, 3, 1, white()),
            fill(1, 17, 3, 1, white()),
        ],
        out
    );
}

#[test]
fn solid_color_blends_without_background() {
    let style = FontTextStyleBuilder::new(())
        .text_color(Rgb::new(255, 0, 0))
        .anti_aliasing_color(Rgb::new(0, 0, 255))
        .build();
    let glyphs = vec![inked(2, 0, 0, vec![sample(0, 0, 128)])];
    let mut out = Vec::new();
    style.draw_string(&glyphs, Point::new(0, 0), &mut out);
    assert_eq!(vec![Command::Pixels(vec![pixel(0, 0, Rgb::new(128, 0, 127))])], out);
}

#[test]
fn coverage_is_read_modulo_256() {
    let mut style = FontTextStyleBuilder::new(()).text_color(red()).build();
    style.anti_aliasing = AntiAliasing::Cutoff;
    let glyphs = vec![inked(2, 0, 0, vec![sample(0, 0, 256 + 200), sample(1, 0, 256 + 5)])];
    let mut out = Vec::new();
    style.draw_string(&glyphs, Point::new(0, 0), &mut out);
    assert_eq!(vec![Command::Pixels(vec![pixel(0, 0, red())])], out);
}

#[test]
fn overhanging_samples_are_dropped() {
    let style = FontTextStyleBuilder::new(())
        .font_size(4)
        .text_color(white())
        .build();
    let coverage = vec![sample(0, 0, 255), sample(0, 5, 255), sample(3, 0, 255)];
    let glyphs = vec![inked(2, -1, 0, coverage)];
    let mut out = Vec::new();
    style.draw_string(&glyphs, Point::new(0, 0), &mut out);
    assert_eq!(vec![Command::Pixels(Vec::new())], out);
}

#[test]
fn trailing_blank_glyph_widths_differ() {
    let style = FontTextStyleBuilder::new(()).background_color(white()).build();
    let glyphs = vec![inked(6, 0, 0, Vec::new()), blank(10)];
    let mut out = Vec::new();
    let drawn = style.draw_string(&glyphs, Point::new(0, 0), &mut out);
    let measured = style.measure_string(&glyphs, Point::new(0, 0));
    assert_eq!(Point::new(6, 0), drawn);
    assert_eq!(Point::new(10, 0), measured.next_position);
    assert_eq!(vec![fill(0, 0, 6, 12, white())], out);
}

#[test]
fn empty_text_draws_nothing() {
    let style = FontTextStyleBuilder::new(())
        .text_color(white())
        .background_color(red())
        .underline()
        .build();
    let mut out = Vec::new();
    let next = style.draw_string(&Vec::new(), Point::new(2, 3), &mut out);
    assert_eq!(Point::new(2, 3), next);
    assert!(out.is_empty());
    let metrics = style.measure_string(&Vec::new(), Point::new(2, 3));
    assert_eq!(Size::new(0, 12), metrics.bounding_box.size);
    style.draw_whitespace(0, Point::new(2, 3), &mut out);
    assert!(out.is_empty());
}

#[test]
fn negative_width_draws_nothing() {
    let style = FontTextStyleBuilder::new(())
        .text_color(white())
        .background_color(red())
        .build();
    let glyphs = vec![inked(-3, -5, 0, vec![sample(0, 0, 255)])];
    let mut out = Vec::new();
    let next = style.draw_string(&glyphs, Point::new(10, 0), &mut out);
    assert_eq!(Point::new(7, 0), next);
    assert!(out.is_empty());
    let metrics = style.measure_string(&glyphs, Point::new(10, 0));
    assert_eq!(Point::new(10, 0), metrics.next_position);
}

#[test]
fn invisible_text_still_draws_background() {
    let style = FontTextStyleBuilder::new(()).font_size(8).background_color(red()).build();
    let glyphs = vec![inked(5, 0, 0, vec![sample(0, 0, 255)])];
    let mut out = Vec::new();
    style.draw_string(&glyphs, Point::new(0, 0), &mut out);
    assert_eq!(vec![fill(0, 0, 5, 8, red())], out);
}

#[test]
fn mutators_change_one_field() {
    let mut style = FontTextStyleBuilder::new(()).anti_aliasing_color(red()).build();
    style.set_background_color(None);
    assert_eq!(AntiAliasing::SolidColor(red()), style.anti_aliasing);
    style.set_background_color(Some(white()));
    assert_eq!(Some(white()), style.background_color);
    assert_eq!(AntiAliasing::BackgroundColor, style.anti_aliasing);
    style.set_text_color(Some(red()));
    assert_eq!(Some(red()), style.text_color);
    style.set_underline_color(DecorationColor::TextColor);
    assert_eq!(DecorationColor::TextColor, style.underline_color);
    style.set_strikethrough_color(DecorationColor::Custom(white()));
    assert_eq!(DecorationColor::Custom(white()), style.strikethrough_color);
}

#[test]
fn resolvers_follow_policy() {
    let style = FontTextStyleBuilder::new(()).text_color(red()).build();
    assert_eq!(None, style.backdrop_color());
    assert_eq!(Some(red()), style.resolve_decoration_color(DecorationColor::TextColor));
    assert_eq!(None, style.resolve_decoration_color(DecorationColor::Disabled));
    assert_eq!(Some(white()), style.resolve_decoration_color(DecorationColor::Custom(white())));
}
