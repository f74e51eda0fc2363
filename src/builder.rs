//! Fluent construction of a [`FontTextStyle`].
use vstd::prelude::*;

use crate::color::Rgb;
use crate::style::{AntiAliasing, DecorationColor, FontTextStyle};

verus! {

/// Builds a [`FontTextStyle`] step by step.
///
/// Starts from font size 12, no colors, no decorations and the `Cutoff`
/// anti-aliasing policy. Setting a text color also switches anti-aliasing to
/// `BackgroundColor`.
pub struct FontTextStyleBuilder<F> {
    style: FontTextStyle<F>,
}

impl<F> FontTextStyleBuilder<F> {
    /// The style that [`build`](Self::build) hands out.
    pub closed spec fn spec_style(&self) -> FontTextStyle<F> {
        self.style
    }

    /// Creates a builder for a style rendering with `font`.
    pub fn new(font: F) -> (b: Self)
        ensures
            b.spec_style().has_fields(
                None,
                None,
                AntiAliasing::Cutoff,
                DecorationColor::Disabled,
                DecorationColor::Disabled,
                12,
            ),
            b.spec_style().font == font,
    {
        FontTextStyleBuilder {
            style: FontTextStyle {
                font,
                background_color: None,
                anti_aliasing: AntiAliasing::Cutoff,
                font_size: 12,
                text_color: None,
                underline_color: DecorationColor::Disabled,
                strikethrough_color: DecorationColor::Disabled,
            },
        }
    }

    /// Sets the font size in pixels.
    pub fn font_size(self, font_size: u32) -> (b: Self)
        ensures
            b.spec_style().has_fields(
                self.spec_style().text_color,
                self.spec_style().background_color,
                self.spec_style().anti_aliasing,
                self.spec_style().underline_color,
                self.spec_style().strikethrough_color,
                font_size,
            ),
            b.spec_style().font == self.spec_style().font,
    {
        let mut b = self;
        b.style.font_size = font_size;
        b
    }

    /// Underlines the text in the text color.
    pub fn underline(self) -> (b: Self)
        ensures
            b.spec_style().has_fields(
                self.spec_style().text_color,
                self.spec_style().background_color,
                self.spec_style().anti_aliasing,
                DecorationColor::TextColor,
                self.spec_style().strikethrough_color,
                self.spec_style().font_size,
            ),
            b.spec_style().font == self.spec_style().font,
    {
        let mut b = self;
        b.style.underline_color = DecorationColor::TextColor;
        b
    }

    /// Strikes the text through in the text color.
    pub fn strikethrough(self) -> (b: Self)
        ensures
            b.spec_style().has_fields(
                self.spec_style().text_color,
                self.spec_style().background_color,
                self.spec_style().anti_aliasing,
                self.spec_style().underline_color,
                DecorationColor::TextColor,
                self.spec_style().font_size,
            ),
            b.spec_style().font == self.spec_style().font,
    {
        let mut b = self;
        b.style.strikethrough_color = DecorationColor::TextColor;
        b
    }

    /// Sets the text color, and makes anti-aliasing blend over the
    /// background color.
    pub fn text_color(self, text_color: Rgb) -> (b: Self)
        ensures
            b.spec_style().has_fields(
                Some(text_color),
                self.spec_style().background_color,
                AntiAliasing::BackgroundColor,
                self.spec_style().underline_color,
                self.spec_style().strikethrough_color,
                self.spec_style().font_size,
            ),
            b.spec_style().font == self.spec_style().font,
    {
        let mut b = self;
        b.style.text_color = Some(text_color);
        b.style.anti_aliasing = AntiAliasing::BackgroundColor;
        b
    }

    /// Sets the background color; the anti-aliasing policy stays as it is.
    pub fn background_color(self, background_color: Rgb) -> (b: Self)
        ensures
            b.spec_style().has_fields(
                self.spec_style().text_color,
                Some(background_color),
                self.spec_style().anti_aliasing,
                self.spec_style().underline_color,
                self.spec_style().strikethrough_color,
                self.spec_style().font_size,
            ),
            b.spec_style().font == self.spec_style().font,
    {
        let mut b = self;
        b.style.background_color = Some(background_color);
        b
    }

    /// Makes anti-aliasing blend over the given color.
    pub fn anti_aliasing_color(self, background_color: Rgb) -> (b: Self)
        ensures
            b.spec_style().has_fields(
                self.spec_style().text_color,
                self.spec_style().background_color,
                AntiAliasing::SolidColor(background_color),
                self.spec_style().underline_color,
                self.spec_style().strikethrough_color,
                self.spec_style().font_size,
            ),
            b.spec_style().font == self.spec_style().font,
    {
        let mut b = self;
        b.style.anti_aliasing = AntiAliasing::SolidColor(background_color);
        b
    }

    /// Underlines the text in the given color.
    pub fn underline_with_color(self, underline_color: Rgb) -> (b: Self)
        ensures
            b.spec_style().has_fields(
                self.spec_style().text_color,
                self.spec_style().background_color,
                self.spec_style().anti_aliasing,
                DecorationColor::Custom(underline_color),
                self.spec_style().strikethrough_color,
                self.spec_style().font_size,
            ),
            b.spec_style().font == self.spec_style().font,
    {
        let mut b = self;
        b.style.underline_color = DecorationColor::Custom(underline_color);
        b
    }

    /// Strikes the text through in the given color.
    pub fn strikethrough_with_color(self, strikethrough_color: Rgb) -> (b: Self)
        ensures
            b.spec_style().has_fields(
                self.spec_style().text_color,
                self.spec_style().background_color,
                self.spec_style().anti_aliasing,
                self.spec_style().underline_color,
                DecorationColor::Custom(strikethrough_color),
                self.spec_style().font_size,
            ),
            b.spec_style().font == self.spec_style().font,
    {
        let mut b = self;
        b.style.strikethrough_color = DecorationColor::Custom(strikethrough_color);
        b
    }

    /// Hands out the configured style.
    pub fn build(self) -> (s: FontTextStyle<F>)
        ensures
            s == self.spec_style(),
    {
        self.style
    }
}

impl<F> FontTextStyle<F> {
    /// A style with the given text color and font size, no background and
    /// no decorations, blending over the (absent) background color.
    pub fn new(font: F, text_color: Rgb, font_size: u32) -> (s: Self)
        ensures
            s.has_fields(
                Some(text_color),
                None,
                AntiAliasing::BackgroundColor,
                DecorationColor::Disabled,
                DecorationColor::Disabled,
                font_size,
            ),
            s.font == font,
    {
        FontTextStyleBuilder::new(font).text_color(text_color).font_size(font_size).build()
    }
}

} // verus!
