//! Text, and the three presets of it: heading, subheading and paragraph.
//! They only show something: none of them ever takes an event or changes
//! on a tick.

use vstd::prelude::*;
use crate::event::{Event, Input, UpdateContext};
use crate::geometry::{LayoutConstraint, Point, Size, UNIT};
use crate::model::{DrawCommand, Model};
use crate::render::{lemma_one_call, Painter, RenderError, Renderer};
use crate::style::{Color, TextAlignment};
use crate::widget::Widget;

verus! {

/// The font size of text that was given none.
pub const DEFAULT_FONT_SIZE: u32 = 14;

/// The font size of a subheading.
pub const SUBHEADING_FONT_SIZE: u32 = 16;

/// A run of styled text.
pub struct TextWidget {
    text: String,
    font_size: u32,
    alignment: TextAlignment,
    color: Color,
    received: Ghost<Seq<Input>>,
}

/// A heading of one of six levels, the first the largest.
pub struct Heading {
    text: TextWidget,
    level: u8,
}

/// A subheading: text of a fixed size, aligned left.
pub struct Subheading {
    text: TextWidget,
}

/// A paragraph: text of the default size, justified.
pub struct Paragraph {
    text: TextWidget,
}

/// Whether `level` is a level that a heading can have.
pub open spec fn valid_level(level: u8) -> bool {
    1 <= level <= 6
}

/// The font size of a heading of `level`: 36, 30, 24, 18, 16 and 14 for the
/// levels 1 to 6.
pub open spec fn heading_font_size(level: u8) -> u32
    recommends
        valid_level(level),
{
    if level == 1 {
        36
    } else if level == 2 {
        30
    } else if level == 3 {
        24
    } else if level == 4 {
        18
    } else if level == 5 {
        16
    } else {
        14
    }
}

/// What fresh text looks like to the traversals: nothing was brought to it
/// yet.
pub open spec fn fresh_text(
    content: Seq<char>,
    font_size: u32,
    alignment: TextAlignment,
    color: Color,
) -> Model {
    Model::Text { content, font_size, alignment, color, received: Seq::empty() }
}

/// The font size of a heading of `level`, if there is such a level.
pub fn font_size_of_level(level: u8) -> (font_size: Option<u32>)
    ensures
        font_size == if valid_level(level) {
            Some(heading_font_size(level))
        } else {
            None
        },
{
    match level {
        1 => Some(36),
        2 => Some(30),
        3 => Some(24),
        4 => Some(18),
        5 => Some(16),
        6 => Some(14),
        _ => None,
    }
}

/// What text looks like to the traversals is text.
pub proof fn lemma_text_widget_is_text(widget: TextWidget)
    ensures
        widget@ is Text,
{
}

/// What a heading looks like to the traversals is text.
pub proof fn lemma_heading_is_text(heading: Heading)
    ensures
        heading@ is Text,
{
}

/// What a subheading looks like to the traversals is text.
pub proof fn lemma_subheading_is_text(subheading: Subheading)
    ensures
        subheading@ is Text,
{
}

/// What a paragraph looks like to the traversals is text.
pub proof fn lemma_paragraph_is_text(paragraph: Paragraph)
    ensures
        paragraph@ is Text,
{
}

impl TextWidget {
    /// The text itself.
    pub open spec fn content(&self) -> Seq<char> {
        self@->content
    }

    /// The font size, in layout units.
    pub open spec fn spec_font_size(&self) -> u32 {
        self@->font_size
    }

    /// How the text is placed on its line.
    pub open spec fn spec_alignment(&self) -> TextAlignment {
        self@->alignment
    }

    /// The colour of the text.
    pub open spec fn spec_color(&self) -> Color {
        self@->color
    }

    /// What was brought to the text so far, oldest first.
    pub open spec fn received(&self) -> Seq<Input> {
        self@->Text_received
    }

    /// Text of the default font size, aligned left, in opaque black.
    pub fn new(text: &str) -> (widget: TextWidget)
        ensures
            widget@ == fresh_text(text@, DEFAULT_FONT_SIZE, TextAlignment::Left, Color::black()),
    {
        TextWidget {
            text: text.to_owned(),
            font_size: DEFAULT_FONT_SIZE,
            alignment: TextAlignment::Left,
            color: Color { r: 0, g: 0, b: 0, a: 255 },
            received: Ghost(Seq::empty()),
        }
    }

    /// The same text in another font size.
    pub fn with_font_size(self, font_size: u32) -> (widget: TextWidget)
        ensures
            widget@ == (Model::Text {
                content: self.content(),
                font_size,
                alignment: self.spec_alignment(),
                color: self.spec_color(),
                received: self.received(),
            }),
    {
        TextWidget {
            text: self.text,
            font_size,
            alignment: self.alignment,
            color: self.color,
            received: self.received,
        }
    }

    /// The same text with another alignment.
    pub fn with_alignment(self, alignment: TextAlignment) -> (widget: TextWidget)
        ensures
            widget@ == (Model::Text {
                content: self.content(),
                font_size: self.spec_font_size(),
                alignment,
                color: self.spec_color(),
                received: self.received(),
            }),
    {
        TextWidget {
            text: self.text,
            font_size: self.font_size,
            alignment,
            color: self.color,
            received: self.received,
        }
    }

    /// The same text in another colour.
    pub fn with_color(self, color: Color) -> (widget: TextWidget)
        ensures
            widget@ == (Model::Text {
                content: self.content(),
                font_size: self.spec_font_size(),
                alignment: self.spec_alignment(),
                color,
                received: self.received(),
            }),
    {
        TextWidget {
            text: self.text,
            font_size: self.font_size,
            alignment: self.alignment,
            color,
            received: self.received,
        }
    }

    /// The text itself.
    pub fn text(&self) -> (text: &str)
        ensures
            text@ == self.content(),
    {
        self.text.as_str()
    }

    /// The font size, in layout units.
    #[verifier::when_used_as_spec(spec_font_size)]
    pub fn font_size(&self) -> (font_size: u32)
        ensures
            font_size == self.spec_font_size(),
    {
        self.font_size
    }

    /// How the text is placed on its line.
    #[verifier::when_used_as_spec(spec_alignment)]
    pub fn alignment(&self) -> (alignment: TextAlignment)
        ensures
            alignment == self.spec_alignment(),
    {
        self.alignment
    }

    /// The colour of the text.
    #[verifier::when_used_as_spec(spec_color)]
    pub fn color(&self) -> (color: Color)
        ensures
            color == self.spec_color(),
    {
        self.color
    }
}

impl Widget for TextWidget {
    closed spec fn view(&self) -> Model {
        Model::Text {
            content: self.text@,
            font_size: self.font_size,
            alignment: self.alignment,
            color: self.color,
            received: self.received@,
        }
    }

    /// Text takes no event, and no event changes what it shows.
    fn handle_event(&mut self, event: &Event) -> (consumed: bool)
        ensures
            !consumed,
            final(self)@ == old(self)@.with_received(Input::Event(*event)),
    {
        self.received = Ghost(self.received@.push(Input::Event(*event)));
        false
    }

    /// A tick leaves what text shows as it is.
    fn update(&mut self, ctx: &UpdateContext) -> (changed: bool)
        ensures
            !changed,
            final(self)@ == old(self)@.with_received(Input::Tick(*ctx)),
    {
        self.received = Ghost(self.received@.push(Input::Tick(*ctx)));
        false
    }

    /// Text is ten times its font size wide and 1.2 times its font size
    /// high, whatever the constraints and whatever it says.
    fn layout(&self, constraints: &LayoutConstraint) -> (size: Size) {
        let font_size = self.font_size as u64;
        Size { width: font_size * 10 * UNIT, height: font_size * 12 * UNIT / 10 }
    }

    /// Text draws itself in one call.
    fn render<R: Renderer>(
        &self,
        painter: &mut Painter<R>,
        position: Point,
    ) -> (result: Result<(), RenderError>) {
        let result = painter.draw_text(
            self.text.as_str(),
            position,
            self.font_size,
            self.color,
            self.alignment,
        );
        proof {
            lemma_one_call(
                old(painter).calls(),
                painter.calls(),
                DrawCommand::Text {
                    content: self.text@,
                    position,
                    font_size: self.font_size,
                    color: self.color,
                    alignment: self.alignment,
                },
                result,
            );
        }
        result
    }
}

impl Heading {
    #[verifier::type_invariant]
    spec fn well_formed(self) -> bool {
        &&& valid_level(self.level)
        &&& self.text.font_size == heading_font_size(self.level)
    }

    /// The level of this heading.
    pub closed spec fn spec_level(&self) -> u8 {
        self.level
    }

    /// A heading of `level`, which is one of 1 to 6, in the font size of
    /// that level.
    pub fn new(text: &str, level: u8) -> (heading: Heading)
        requires
            valid_level(level),
        ensures
            heading.spec_level() == level,
            heading@ == fresh_text(
                text@,
                heading_font_size(level),
                TextAlignment::Left,
                Color::black(),
            ),
    {
        let font_size = font_size_of_level(level).unwrap();
        Heading { text: TextWidget::new(text).with_font_size(font_size), level }
    }

    /// A heading of `level`, or nothing where there is no such level.
    pub fn try_new(text: &str, level: u8) -> (heading: Option<Heading>)
        ensures
            heading is Some <==> valid_level(level),
            heading matches Some(h) ==> h.spec_level() == level && h@ == fresh_text(
                text@,
                heading_font_size(level),
                TextAlignment::Left,
                Color::black(),
            ),
    {
        match font_size_of_level(level) {
            Some(font_size) => Some(
                Heading { text: TextWidget::new(text).with_font_size(font_size), level },
            ),
            None => None,
        }
    }

    /// The level of this heading, one of 1 to 6.
    #[verifier::when_used_as_spec(spec_level)]
    pub fn level(&self) -> (level: u8)
        ensures
            level == self.spec_level(),
            valid_level(level),
    {
        proof {
            use_type_invariant(self);
        }
        self.level
    }

    /// The text that this heading shows, with its style.
    pub fn as_text(&self) -> (text: &TextWidget)
        ensures
            text@ == self@,
            text.spec_font_size() == heading_font_size(self.spec_level()),
    {
        proof {
            use_type_invariant(self);
        }
        &self.text
    }
}

impl Widget for Heading {
    closed spec fn view(&self) -> Model {
        self.text@
    }

    /// A heading takes no event, and no event changes what it shows.
    fn handle_event(&mut self, event: &Event) -> (consumed: bool)
        ensures
            !consumed,
            final(self)@ == old(self)@.with_received(Input::Event(*event)),
            final(self).spec_level() == old(self).spec_level(),
    {
        proof {
            use_type_invariant(&*self);
        }
        self.text.received = Ghost(self.text.received@.push(Input::Event(*event)));
        false
    }

    /// A tick leaves what a heading shows as it is.
    fn update(&mut self, ctx: &UpdateContext) -> (changed: bool)
        ensures
            !changed,
            final(self)@ == old(self)@.with_received(Input::Tick(*ctx)),
            final(self).spec_level() == old(self).spec_level(),
    {
        proof {
            use_type_invariant(&*self);
        }
        self.text.received = Ghost(self.text.received@.push(Input::Tick(*ctx)));
        false
    }

    fn layout(&self, constraints: &LayoutConstraint) -> (size: Size) {
        self.text.layout(constraints)
    }

    fn render<R: Renderer>(
        &self,
        painter: &mut Painter<R>,
        position: Point,
    ) -> (result: Result<(), RenderError>) {
        self.text.render(painter, position)
    }
}

impl Subheading {
    /// A subheading that shows `text`.
    pub fn new(text: &str) -> (subheading: Subheading)
        ensures
            subheading@ == fresh_text(
                text@,
                SUBHEADING_FONT_SIZE,
                TextAlignment::Left,
                Color::black(),
            ),
    {
        Subheading {
            text: TextWidget::new(text).with_font_size(SUBHEADING_FONT_SIZE).with_alignment(
                TextAlignment::Left,
            ),
        }
    }

    /// The text that this subheading shows, with its style.
    pub fn as_text(&self) -> (text: &TextWidget)
        ensures
            text@ == self@,
    {
        &self.text
    }
}

impl Widget for Subheading {
    closed spec fn view(&self) -> Model {
        self.text@
    }

    /// A subheading takes no event, and no event changes what it shows.
    fn handle_event(&mut self, event: &Event) -> (consumed: bool)
        ensures
            !consumed,
            final(self)@ == old(self)@.with_received(Input::Event(*event)),
    {
        self.text.handle_event(event)
    }

    /// A tick leaves what a subheading shows as it is.
    fn update(&mut self, ctx: &UpdateContext) -> (changed: bool)
        ensures
            !changed,
            final(self)@ == old(self)@.with_received(Input::Tick(*ctx)),
    {
        self.text.update(ctx)
    }

    fn layout(&self, constraints: &LayoutConstraint) -> (size: Size) {
        self.text.layout(constraints)
    }

    fn render<R: Renderer>(
        &self,
        painter: &mut Painter<R>,
        position: Point,
    ) -> (result: Result<(), RenderError>) {
        self.text.render(painter, position)
    }
}

impl Paragraph {
    /// A paragraph that shows `text`.
    pub fn new(text: &str) -> (paragraph: Paragraph)
        ensures
            paragraph@ == fresh_text(
                text@,
                DEFAULT_FONT_SIZE,
                TextAlignment::Justify,
                Color::black(),
            ),
    {
        Paragraph { text: TextWidget::new(text).with_alignment(TextAlignment::Justify) }
    }

    /// The text that this paragraph shows, with its style.
    pub fn as_text(&self) -> (text: &TextWidget)
        ensures
            text@ == self@,
    {
        &self.text
    }
}

impl Widget for Paragraph {
    closed spec fn view(&self) -> Model {
        self.text@
    }

    /// A paragraph takes no event, and no event changes what it shows.
    fn handle_event(&mut self, event: &Event) -> (consumed: bool)
        ensures
            !consumed,
            final(self)@ == old(self)@.with_received(Input::Event(*event)),
    {
        self.text.handle_event(event)
    }

    /// A tick leaves what a paragraph shows as it is.
    fn update(&mut self, ctx: &UpdateContext) -> (changed: bool)
        ensures
            !changed,
            final(self)@ == old(self)@.with_received(Input::Tick(*ctx)),
    {
        self.text.update(ctx)
    }

    fn layout(&self, constraints: &LayoutConstraint) -> (size: Size) {
        self.text.layout(constraints)
    }

    fn render<R: Renderer>(
        &self,
        painter: &mut Painter<R>,
        position: Point,
    ) -> (result: Result<(), RenderError>) {
        self.text.render(painter, position)
    }
}

} // verus!
