//! The text style and how it turns glyphs into drawing commands.
use vstd::prelude::*;

use crate::color::{
    packed, pixel_color_to_u32, rgba_background_to_rgb, sample_color, u32_to_rgba, unpacked, Rgb,
};
use crate::geometry::{
    command_view, commands_view, lemma_commands_view_push, Command, DrawCommand, Pixel, Point,
    Rectangle, Size, TextMetrics,
};
use crate::glyph::{
    ink_extent, ink_width, pen_extent, pen_width, Coverage, GlyphInk, LaidOutGlyph,
};

verus! {

/// How partially covered glyph pixels are colored. The surface's own pixels
/// are not known while drawing, so a backdrop color has to be assumed.
#[derive(Clone, Copy, Debug, PartialEq, Eq, Structural)]
pub enum AntiAliasing {
    /// Blend over the style's background color; with no background color
    /// this acts as `Cutoff`.
    BackgroundColor,
    /// Blend over the given color, whether or not a background is drawn.
    SolidColor(Rgb),
    /// No backdrop: a pixel is drawn in the text color above half coverage
    /// and left out below it.
    Cutoff,
}

/// The color of an underline or a strikethrough.
#[derive(Clone, Copy, Debug, PartialEq, Eq, Structural)]
pub enum DecorationColor {
    /// The decoration is not drawn.
    Disabled,
    /// The decoration takes the style's text color.
    TextColor,
    /// The decoration takes the given color.
    Custom(Rgb),
}

/// Style of a run of text drawn with a font handle `F`.
///
/// `font_size` is both the scale the glyphs are rasterized at and the height
/// of a line: the background, the decoration offsets and the line height
/// all derive from it.
#[derive(Clone, Debug)]
pub struct FontTextStyle<F> {
    /// Text color; without it no glyph pixels are drawn.
    pub text_color: Option<Rgb>,
    /// Background color of the run.
    pub background_color: Option<Rgb>,
    /// Backdrop used for partially covered pixels.
    pub anti_aliasing: AntiAliasing,
    /// Underline color.
    pub underline_color: DecorationColor,
    /// Strikethrough color.
    pub strikethrough_color: DecorationColor,
    /// Font size in pixels.
    pub font_size: u32,
    /// Handle of the font the glyphs come from; the style never changes it.
    pub font: F,
}

/// The pixel one coverage sample of a glyph turns into, if any. `(min_x,
/// min_y)` is the glyph's bounding box corner relative to the run, which
/// starts at `position` and spans `width` by `height`.
pub open spec fn sample_pixel(
    text: Rgb,
    backdrop: Option<Rgb>,
    position: Point,
    width: int,
    height: int,
    min_x: i32,
    min_y: i32,
    s: Coverage,
) -> Option<Pixel> {
    let x = s.x + min_x;
    let y = s.y + min_y;
    if 0 <= x < width && 0 <= y < height {
        match sample_color(text.r, text.g, text.b, (s.value % 256) as u8, backdrop) {
            Some(c) => Some(
                Pixel {
                    position: Point { x: (position.x + x) as i32, y: (position.y + y) as i32 },
                    color: Rgb { r: c.0, g: c.1, b: c.2 },
                },
            ),
            None => None,
        }
    } else {
        None
    }
}

/// Without a backdrop, a sample inside the run turns into a pixel exactly
/// when its alpha is above 127, and that pixel has the text color.
pub proof fn lemma_cutoff(
    text: Rgb,
    position: Point,
    width: int,
    height: int,
    min_x: i32,
    min_y: i32,
    s: Coverage,
)
    requires
        0 <= s.x + min_x < width,
        0 <= s.y + min_y < height,
    ensures
        sample_pixel(text, None, position, width, height, min_x, min_y, s).is_some() <==> s.value
            % 256 > 127,
        sample_pixel(text, None, position, width, height, min_x, min_y, s).is_some()
            ==> sample_pixel(text, None, position, width, height, min_x, min_y, s).unwrap().color
            == text,
{
}

/// The pixels of a glyph's samples, in sample order.
pub open spec fn samples_pixels(
    text: Rgb,
    backdrop: Option<Rgb>,
    position: Point,
    width: int,
    height: int,
    min_x: i32,
    min_y: i32,
    samples: Seq<Coverage>,
) -> Seq<Pixel>
    decreases samples.len(),
{
    if samples.len() == 0 {
        seq![]
    } else {
        let before = samples_pixels(
            text,
            backdrop,
            position,
            width,
            height,
            min_x,
            min_y,
            samples.drop_last(),
        );
        match sample_pixel(text, backdrop, position, width, height, min_x, min_y, samples.last()) {
            Some(p) => before.push(p),
            None => before,
        }
    }
}

/// The pixels of all inked glyphs of a run, glyph by glyph.
pub open spec fn glyphs_pixels(
    text: Rgb,
    backdrop: Option<Rgb>,
    position: Point,
    width: int,
    height: int,
    glyphs: Seq<LaidOutGlyph>,
) -> Seq<Pixel>
    decreases glyphs.len(),
{
    if glyphs.len() == 0 {
        seq![]
    } else {
        let before = glyphs_pixels(text, backdrop, position, width, height, glyphs.drop_last());
        match glyphs.last().ink {
            Some(ink) => before + samples_pixels(
                text,
                backdrop,
                position,
                width,
                height,
                ink.min_x,
                ink.min_y,
                ink.coverage@,
            ),
            None => before,
        }
    }
}

/// A bar of the run: `width` wide, `height` tall, `dy` below `position`.
pub open spec fn bar(position: Point, width: int, dy: int, height: int) -> Rectangle {
    Rectangle {
        top_left: Point { x: position.x, y: (position.y + dy) as i32 },
        size: Size { width: width as u32, height: height as u32 },
    }
}

/// One fill of `rect` when `color` is set, else nothing.
pub open spec fn fill_if(rect: Rectangle, color: Option<Rgb>) -> Seq<Command<Seq<Pixel>>> {
    match color {
        Some(c) => seq![Command::FillRect(rect, c)],
        None => seq![],
    }
}

/// The pixel one coverage sample turns into; see [`sample_pixel`].
fn glyph_sample_pixel(
    text: Rgb,
    backdrop: Option<Rgb>,
    position: Point,
    width: i32,
    height: i32,
    min_x: i32,
    min_y: i32,
    s: Coverage,
) -> (p: Option<Pixel>)
    requires
        position.x + width <= i32::MAX,
        position.y + height <= i32::MAX,
    ensures
        p == sample_pixel(text, backdrop, position, width as int, height as int, min_x, min_y, s),
{
    let x = s.x as i64 + min_x as i64;
    let y = s.y as i64 + min_y as i64;
    if 0 <= x && x < width as i64 && 0 <= y && y < height as i64 {
        let tint = pixel_color_to_u32(text) & 0x00FF_FFFFu32;
        let value = s.value;
        let w = (value << 24u32) | tint;
        let (r, g, b, a) = u32_to_rgba(w);
        proof {
            let pk = packed(text);
            let tr = text.r;
            let tg = text.g;
            let tb = text.b;
            assert(((w / 0x1_0000) % 0x100) as u8 == tr && ((w / 0x100) % 0x100) as u8 == tg && (w
                % 0x100) as u8 == tb && (w / 0x100_0000) as u8 == (value % 256) as u8)
                by (bit_vector)
                requires
                    pk == 0xFF00_0000 + tr * 0x1_0000 + tg * 0x100 + tb,
                    w == (value << 24u32) | (pk & 0x00FF_FFFFu32),
            ;
        }
        match rgba_background_to_rgb(r, g, b, a, backdrop) {
            Some((nr, ng, nb)) => Some(
                Pixel {
                    position: Point::new(position.x + x as i32, position.y + y as i32),
                    color: Rgb::new(nr, ng, nb),
                },
            ),
            None => None,
        }
    } else {
        None
    }
}

/// The pixels of one glyph's samples; see [`samples_pixels`].
fn ink_pixels(
    ink: &GlyphInk,
    text: Rgb,
    backdrop: Option<Rgb>,
    position: Point,
    width: i32,
    height: i32,
) -> (v: Vec<Pixel>)
    requires
        position.x + width <= i32::MAX,
        position.y + height <= i32::MAX,
    ensures
        v@ == samples_pixels(
            text,
            backdrop,
            position,
            width as int,
            height as int,
            ink.min_x,
            ink.min_y,
            ink.coverage@,
        ),
{
    let mut v: Vec<Pixel> = Vec::new();
    let mut j: usize = 0;
    while j < ink.coverage.len()
        invariant
            j <= ink.coverage@.len(),
            position.x + width <= i32::MAX,
            position.y + height <= i32::MAX,
            v@ == samples_pixels(
                text,
                backdrop,
                position,
                width as int,
                height as int,
                ink.min_x,
                ink.min_y,
                ink.coverage@.take(j as int),
            ),
        decreases ink.coverage@.len() - j,
    {
        let s = ink.coverage[j];
        proof {
            assert(ink.coverage@.take(j + 1).drop_last() =~= ink.coverage@.take(j as int));
            assert(ink.coverage@.take(j + 1).last() == s);
        }
        match glyph_sample_pixel(text, backdrop, position, width, height, ink.min_x, ink.min_y, s) {
            Some(p) => v.push(p),
            None => {},
        }
        j += 1;
    }
    assert(ink.coverage@.take(j as int) =~= ink.coverage@);
    v
}

/// The pixels of all inked glyphs of a run; see [`glyphs_pixels`].
fn run_pixels(
    glyphs: &Vec<LaidOutGlyph>,
    text: Rgb,
    backdrop: Option<Rgb>,
    position: Point,
    width: i32,
    height: i32,
) -> (v: Vec<Pixel>)
    requires
        position.x + width <= i32::MAX,
        position.y + height <= i32::MAX,
    ensures
        v@ == glyphs_pixels(text, backdrop, position, width as int, height as int, glyphs@),
{
    let mut v: Vec<Pixel> = Vec::new();
    let mut i: usize = 0;
    while i < glyphs.len()
        invariant
            i <= glyphs@.len(),
            position.x + width <= i32::MAX,
            position.y + height <= i32::MAX,
            v@ == glyphs_pixels(
                text,
                backdrop,
                position,
                width as int,
                height as int,
                glyphs@.take(i as int),
            ),
        decreases glyphs@.len() - i,
    {
        proof {
            assert(glyphs@.take(i + 1).drop_last() =~= glyphs@.take(i as int));
            assert(glyphs@.take(i + 1).last() == glyphs@[i as int]);
        }
        match &glyphs[i].ink {
            Some(ink) => {
                let mut more = ink_pixels(ink, text, backdrop, position, width, height);
                v.append(&mut more);
            },
            None => {},
        }
        i += 1;
    }
    assert(glyphs@.take(i as int) =~= glyphs@);
    v
}

impl<F> FontTextStyle<F> {
    /// The style holds exactly these settings.
    pub open spec fn has_fields(
        &self,
        text_color: Option<Rgb>,
        background_color: Option<Rgb>,
        anti_aliasing: AntiAliasing,
        underline_color: DecorationColor,
        strikethrough_color: DecorationColor,
        font_size: u32,
    ) -> bool {
        &&& self.text_color == text_color
        &&& self.background_color == background_color
        &&& self.anti_aliasing == anti_aliasing
        &&& self.underline_color == underline_color
        &&& self.strikethrough_color == strikethrough_color
        &&& self.font_size == font_size
    }

    /// The backdrop the anti-aliasing policy blends over, if any.
    pub open spec fn backdrop(&self) -> Option<Rgb> {
        match self.anti_aliasing {
            AntiAliasing::BackgroundColor => self.background_color,
            AntiAliasing::SolidColor(c) => Some(c),
            AntiAliasing::Cutoff => None,
        }
    }

    /// The color a decoration is drawn in, if it is drawn.
    pub open spec fn decoration(&self, color: DecorationColor) -> Option<Rgb> {
        match color {
            DecorationColor::Disabled => None,
            DecorationColor::TextColor => self.text_color,
            DecorationColor::Custom(c) => Some(c),
        }
    }

    /// Every coordinate of a run `width` wide at `position` fits an `i32`.
    pub open spec fn fits(&self, position: Point, width: int) -> bool {
        &&& self.font_size <= i32::MAX
        &&& position.y + self.font_size <= i32::MAX
        &&& i32::MIN <= position.x + width <= i32::MAX
    }

    /// The background fill of a run.
    pub open spec fn background_part(&self, position: Point, width: int) -> Seq<
        Command<Seq<Pixel>>,
    > {
        if width > 0 {
            fill_if(bar(position, width, 0, self.font_size as int), self.background_color)
        } else {
            seq![]
        }
    }

    /// The strikethrough bar of a run, halfway down the line.
    pub open spec fn strikethrough_part(&self, position: Point, width: int) -> Seq<
        Command<Seq<Pixel>>,
    > {
        if width > 0 {
            fill_if(
                bar(position, width, (self.font_size / 2) as int, (self.font_size / 30 + 1) as int),
                self.decoration(self.strikethrough_color),
            )
        } else {
            seq![]
        }
    }

    /// The underline bar of a run, one line height down.
    pub open spec fn underline_part(&self, position: Point, width: int) -> Seq<
        Command<Seq<Pixel>>,
    > {
        if width > 0 {
            fill_if(
                bar(position, width, self.font_size as int, (self.font_size / 30 + 1) as int),
                self.decoration(self.underline_color),
            )
        } else {
            seq![]
        }
    }

    /// The glyph pixels of a run, when the style has a text color.
    pub open spec fn glyph_batch(&self, glyphs: Seq<LaidOutGlyph>, position: Point) -> Option<
        Seq<Pixel>,
    > {
        match self.text_color {
            Some(text) => Some(
                glyphs_pixels(
                    text,
                    self.backdrop(),
                    position,
                    ink_extent(glyphs),
                    self.font_size as int,
                    glyphs,
                ),
            ),
            None => None,
        }
    }

    /// What a run draws, in order: background, glyph pixels, strikethrough,
    /// underline; nothing when it is not wider than zero.
    pub open spec fn run_commands(
        &self,
        position: Point,
        width: int,
        batch: Option<Seq<Pixel>>,
    ) -> Seq<Command<Seq<Pixel>>> {
        self.background_part(position, width) + (if width > 0 && batch.is_some() {
            seq![Command::Pixels(batch.unwrap())]
        } else {
            seq![]
        }) + self.strikethrough_part(position, width) + self.underline_part(position, width)
    }

    /// What drawing the glyphs at `position` draws.
    pub open spec fn string_commands(&self, glyphs: Seq<LaidOutGlyph>, position: Point) -> Seq<
        Command<Seq<Pixel>>,
    > {
        self.run_commands(position, ink_extent(glyphs), self.glyph_batch(glyphs, position))
    }

    /// The font handle this style renders with.
    pub fn font(&self) -> (f: &F)
        ensures
            *f == self.font,
    {
        &self.font
    }

    /// Resolves the anti-aliasing policy to the backdrop it blends over.
    pub fn backdrop_color(&self) -> (c: Option<Rgb>)
        ensures
            c == self.backdrop(),
    {
        match self.anti_aliasing {
            AntiAliasing::BackgroundColor => self.background_color,
            AntiAliasing::SolidColor(c) => Some(c),
            AntiAliasing::Cutoff => None,
        }
    }

    /// Resolves a decoration color.
    pub fn resolve_decoration_color(&self, color: DecorationColor) -> (c: Option<Rgb>)
        ensures
            c == self.decoration(color),
    {
        match color {
            DecorationColor::Disabled => None,
            DecorationColor::TextColor => self.text_color,
            DecorationColor::Custom(c) => Some(c),
        }
    }

    /// Draws the glyphs of a run starting at `position`: the background,
    /// the glyph pixels as one batch, the strikethrough and the underline,
    /// each only when it is configured and the run is wider than zero.
    /// Returns the pen position after the run.
    pub fn draw_string(
        &self,
        glyphs: &Vec<LaidOutGlyph>,
        position: Point,
        target: &mut Vec<DrawCommand>,
    ) -> (next: Point)
        requires
            self.fits(position, ink_extent(glyphs@)),
        ensures
            next == (Point { x: (position.x + ink_extent(glyphs@)) as i32, y: position.y }),
            commands_view(final(target)@) == commands_view(old(target)@) + self.string_commands(
                glyphs@,
                position,
            ),
    {
        let width = ink_width(glyphs);
        let height = self.font_size as i32;
        let batch = match self.text_color {
            Some(text) => Some(
                run_pixels(glyphs, text, self.backdrop_color(), position, width, height),
            ),
            None => None,
        };
        let ghost expected = self.glyph_batch(glyphs@, position);
        let run: u32 = if width > 0 {
            width as u32
        } else {
            0
        };
        let ghost start = commands_view(target@);
        self.draw_background(run, position, target);
        let ghost after_background = commands_view(target@);
        let ghost pixel_part: Seq<Command<Seq<Pixel>>> = if width > 0 && expected.is_some() {
            seq![Command::Pixels(expected.unwrap())]
        } else {
            seq![]
        };
        match batch {
            Some(pixels) if run > 0 => {
                self.push_command(Command::Pixels(pixels), target);
                assert(seq![command_view(Command::Pixels(pixels))] =~= pixel_part);
            },
            _ => {
                assert(after_background + seq![] =~= after_background);
            },
        }
        assert(commands_view(target@) == after_background + pixel_part);
        self.draw_strikethrough(run, position, target);
        self.draw_underline(run, position, target);
        proof {
            let w = ink_extent(glyphs@);
            assert(self.background_part(position, run as int) == self.background_part(position, w));
            assert(self.strikethrough_part(position, run as int) == self.strikethrough_part(
                position,
                w,
            ));
            assert(self.underline_part(position, run as int) == self.underline_part(position, w));
            assert(commands_view(target@) =~= start + self.string_commands(glyphs@, position));
        }
        Point::new(position.x + width, position.y)
    }

    /// Draws a run of blank space `width` pixels wide: the background, the
    /// strikethrough and the underline, each only when it is configured and
    /// `width` is not zero. Returns the pen position after the run.
    pub fn draw_whitespace(
        &self,
        width: u32,
        position: Point,
        target: &mut Vec<DrawCommand>,
    ) -> (next: Point)
        requires
            self.fits(position, width as int),
        ensures
            next == (Point { x: (position.x + width) as i32, y: position.y }),
            commands_view(final(target)@) == commands_view(old(target)@) + self.run_commands(
                position,
                width as int,
                None,
            ),
    {
        let ghost start = commands_view(target@);
        self.draw_background(width, position, target);
        self.draw_strikethrough(width, position, target);
        self.draw_underline(width, position, target);
        assert(commands_view(target@) =~= start + self.run_commands(position, width as int, None));
        Point::new((position.x as i64 + width as i64) as i32, position.y)
    }

    /// The metrics of a run: `pen_extent` wide and one line tall, with the
    /// pen moved right by its width.
    pub fn measure_string(&self, glyphs: &Vec<LaidOutGlyph>, position: Point) -> (m: TextMetrics)
        requires
            position.x + pen_extent(glyphs@) <= i32::MAX,
        ensures
            m == (TextMetrics {
                bounding_box: Rectangle {
                    top_left: position,
                    size: Size { width: pen_extent(glyphs@) as u32, height: self.font_size },
                },
                next_position: Point { x: (position.x + pen_extent(glyphs@)) as i32, y: position.y },
            }),
    {
        let width = pen_width(glyphs);
        let size = Size::new(width, self.font_size);
        TextMetrics {
            bounding_box: Rectangle::new(position, size),
            next_position: Point::new((position.x as i64 + width as i64) as i32, position.y),
        }
    }

    /// The height of a line: the font size.
    pub fn line_height(&self) -> (h: u32)
        ensures
            h == self.font_size,
    {
        self.font_size
    }

    /// Sets the text color.
    pub fn set_text_color(&mut self, text_color: Option<Rgb>)
        ensures
            final(self).has_fields(
                text_color,
                old(self).background_color,
                old(self).anti_aliasing,
                old(self).underline_color,
                old(self).strikethrough_color,
                old(self).font_size,
            ),
            final(self).font == old(self).font,
    {
        self.text_color = text_color;
    }

    /// Sets the background color; setting one also makes the anti-aliasing
    /// blend over it.
    pub fn set_background_color(&mut self, background_color: Option<Rgb>)
        ensures
            final(self).has_fields(
                old(self).text_color,
                background_color,
                if background_color.is_some() {
                    AntiAliasing::BackgroundColor
                } else {
                    old(self).anti_aliasing
                },
                old(self).underline_color,
                old(self).strikethrough_color,
                old(self).font_size,
            ),
            final(self).font == old(self).font,
    {
        self.background_color = background_color;
        if background_color.is_some() {
            self.anti_aliasing = AntiAliasing::BackgroundColor;
        }
    }

    /// Sets the underline color.
    pub fn set_underline_color(&mut self, underline_color: DecorationColor)
        ensures
            final(self).has_fields(
                old(self).text_color,
                old(self).background_color,
                old(self).anti_aliasing,
                underline_color,
                old(self).strikethrough_color,
                old(self).font_size,
            ),
            final(self).font == old(self).font,
    {
        self.underline_color = underline_color;
    }

    /// Sets the strikethrough color.
    pub fn set_strikethrough_color(&mut self, strikethrough_color: DecorationColor)
        ensures
            final(self).has_fields(
                old(self).text_color,
                old(self).background_color,
                old(self).anti_aliasing,
                old(self).underline_color,
                strikethrough_color,
                old(self).font_size,
            ),
            final(self).font == old(self).font,
    {
        self.strikethrough_color = strikethrough_color;
    }

    fn draw_background(&self, width: u32, position: Point, target: &mut Vec<DrawCommand>)
        requires
            self.fits(position, width as int),
        ensures
            commands_view(final(target)@) == commands_view(old(target)@) + self.background_part(
                position,
                width as int,
            ),
    {
        if width == 0 {
            assert(commands_view(old(target)@) + seq![] =~= commands_view(old(target)@));
            return ;
        }
        match self.background_color {
            Some(background_color) => {
                let rect = Rectangle::new(position, Size::new(width, self.font_size));
                self.push_command(Command::FillRect(rect, background_color), target);
                assert(seq![command_view(Command::FillRect(rect, background_color))]
                    =~= self.background_part(position, width as int));
            },
            None => {
                assert(commands_view(old(target)@) + seq![] =~= commands_view(old(target)@));
            },
        }
    }

    fn draw_strikethrough(&self, width: u32, position: Point, target: &mut Vec<DrawCommand>)
        requires
            self.fits(position, width as int),
        ensures
            commands_view(final(target)@) == commands_view(old(target)@)
                + self.strikethrough_part(position, width as int),
    {
        if width == 0 {
            assert(commands_view(old(target)@) + seq![] =~= commands_view(old(target)@));
            return ;
        }
        match self.resolve_decoration_color(self.strikethrough_color) {
            Some(color) => {
                let top_left = Point::new(position.x, position.y + self.font_size as i32 / 2);
                let size = Size::new(width, self.font_size / 30 + 1);
                let rect = Rectangle::new(top_left, size);
                self.push_command(Command::FillRect(rect, color), target);
                assert(seq![command_view(Command::FillRect(rect, color))]
                    =~= self.strikethrough_part(position, width as int));
            },
            None => {
                assert(commands_view(old(target)@) + seq![] =~= commands_view(old(target)@));
            },
        }
    }

    fn draw_underline(&self, width: u32, position: Point, target: &mut Vec<DrawCommand>)
        requires
            self.fits(position, width as int),
        ensures
            commands_view(final(target)@) == commands_view(old(target)@) + self.underline_part(
                position,
                width as int,
            ),
    {
        if width == 0 {
            assert(commands_view(old(target)@) + seq![] =~= commands_view(old(target)@));
            return ;
        }
        match self.resolve_decoration_color(self.underline_color) {
            Some(color) => {
                let top_left = Point::new(position.x, position.y + self.font_size as i32);
                let size = Size::new(width, self.font_size / 30 + 1);
                let rect = Rectangle::new(top_left, size);
                self.push_command(Command::FillRect(rect, color), target);
                assert(seq![command_view(Command::FillRect(rect, color))]
                    =~= self.underline_part(position, width as int));
            },
            None => {
                assert(commands_view(old(target)@) + seq![] =~= commands_view(old(target)@));
            },
        }
    }

    fn push_command(&self, c: DrawCommand, target: &mut Vec<DrawCommand>)
        ensures
            commands_view(final(target)@) == commands_view(old(target)@) + seq![command_view(c)],
    {
        let ghost cv = command_view(c);
        target.push(c);
        proof {
            lemma_commands_view_push(old(target)@, c);
            assert(commands_view(old(target)@).push(cv) =~= commands_view(old(target)@) + seq![
                cv,
            ]);
        }
    }
}

} // verus!
