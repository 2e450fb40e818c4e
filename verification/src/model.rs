//! The mathematical model of a tree of widgets, and what each traversal does
//! to it. The contracts of the executable code are stated over this model.

use vstd::prelude::*;
use crate::event::{Event, Input, UpdateContext};
use crate::geometry::{clipped, LayoutConstraint, Point, Size, UNIT};
use crate::style::{Color, TextAlignment};

verus! {

/// The font size in which a button draws its label.
pub const BUTTON_LABEL_FONT_SIZE: u32 = 14;

/// The width of every button: 100 layout units.
pub const BUTTON_WIDTH: u64 = 100 * UNIT;

/// The height of every button: 30 layout units.
pub const BUTTON_HEIGHT: u64 = 30 * UNIT;

/// What a node is, as far as the traversals can tell. A leaf keeps the
/// record of everything that was brought to it, oldest first.
pub enum Model {
    /// Styled text. Headings, subheadings and paragraphs are text too.
    Text {
        content: Seq<char>,
        font_size: u32,
        alignment: TextAlignment,
        color: Color,
        received: Seq<Input>,
    },
    /// A button. `armed` says that a callback is registered, `fired` counts
    /// the times that callback has been invoked.
    Button {
        label: Seq<char>,
        hovered: bool,
        pressed: bool,
        armed: bool,
        fired: nat,
        received: Seq<Input>,
    },
    /// A vertical stack of nodes, first child on top.
    Container { children: Seq<Model> },
}

/// One call on the renderer.
pub enum DrawCommand {
    BeginFrame,
    EndFrame,
    Clear { color: Color },
    Text {
        content: Seq<char>,
        position: Point,
        font_size: u32,
        color: Color,
        alignment: TextAlignment,
    },
}

/// The size of a line of text: ten times the font size wide, and twelve
/// tenths of the font size high.
pub open spec fn text_size(font_size: u32) -> Size {
    Size {
        width: (font_size * 10 * UNIT) as u64,
        height: (font_size * 12 * UNIT / 10) as u64,
    }
}

/// The sum of the heights of `sizes`.
pub open spec fn total_height(sizes: Seq<Size>) -> int
    decreases sizes.len(),
{
    if sizes.len() == 0 {
        0
    } else {
        total_height(sizes.drop_last()) + sizes.last().height
    }
}

/// The largest width among `sizes`, zero if there is none.
pub open spec fn max_width(sizes: Seq<Size>) -> int
    decreases sizes.len(),
{
    if sizes.len() == 0 {
        0
    } else if max_width(sizes.drop_last()) >= sizes.last().width {
        max_width(sizes.drop_last())
    } else {
        sizes.last().width as int
    }
}

/// Whether `event`, offered to `children` in order, gets as far as child
/// `i`: no child before it takes the event.
pub open spec fn reaches(children: Seq<Model>, event: Event, i: int) -> bool {
    forall|j: int| 0 <= j < i && j < children.len() ==> !(#[trigger] children[j]).consumes(event)
}

/// `children` after `event` was offered to them in order: those that the
/// event reaches have handled it, the others are untouched.
pub open spec fn after_dispatch(children: Seq<Model>, event: Event) -> Seq<Model>
    decreases children,
{
    Seq::new(
        children.len(),
        |i: int|
            if 0 <= i < children.len() && reaches(children, event, i) {
                children[i].after_event(event)
            } else {
                children[i]
            },
    )
}

/// `children` after each of them was updated once.
pub open spec fn after_tick(children: Seq<Model>, ctx: UpdateContext) -> Seq<Model>
    decreases children,
{
    Seq::new(
        children.len(),
        |i: int|
            if 0 <= i < children.len() {
                children[i].after_update(ctx)
            } else {
                children[i]
            },
    )
}

/// The size of each of `children` under `constraints`.
pub open spec fn sizes_of(children: Seq<Model>, constraints: LayoutConstraint) -> Seq<Size>
    decreases children,
{
    Seq::new(
        children.len(),
        |i: int|
            if 0 <= i < children.len() {
                children[i].measure(constraints)
            } else {
                Size::zero()
            },
    )
}

/// Where the cursor stands after `children` were stacked below `position`:
/// lowered by the height that each child has under empty constraints.
pub open spec fn cursor_after(children: Seq<Model>, position: Point) -> Point
    decreases children.len(),
{
    if children.len() == 0 {
        position
    } else {
        cursor_after(children.drop_last(), position).spec_below(
            children.last().measure(LayoutConstraint::empty()).height,
        )
    }
}

/// What `children` draw when they are stacked below `position`: each child
/// draws at the cursor that the children before it left.
pub open spec fn stacked_commands(children: Seq<Model>, position: Point) -> Seq<DrawCommand>
    decreases children, 1int,
{
    if children.len() == 0 {
        Seq::empty()
    } else {
        stacked_commands(children.drop_last(), position) + children.last().display_list(
            cursor_after(children.drop_last(), position),
        )
    }
}

impl Model {
    /// Whether the node takes `event`.
    pub open spec fn consumes(self, event: Event) -> bool
        decreases self,
    {
        match self {
            Model::Text { .. } => false,
            Model::Button { .. } => event is Click || event is Hover,
            Model::Container { children } => exists|i: int|
                0 <= i < children.len() && (#[trigger] children[i]).consumes(event),
        }
    }

    /// The leaf with `input` added to its record. A container keeps no
    /// record of its own: its leaves do.
    pub open spec fn with_received(self, input: Input) -> Model {
        match self {
            Model::Text { content, font_size, alignment, color, received } => Model::Text {
                content,
                font_size,
                alignment,
                color,
                received: received.push(input),
            },
            Model::Button { label, hovered, pressed, armed, fired, received } => Model::Button {
                label,
                hovered,
                pressed,
                armed,
                fired,
                received: received.push(input),
            },
            Model::Container { .. } => self,
        }
    }

    /// The node after `event` was offered to it.
    pub open spec fn after_event(self, event: Event) -> Model
        decreases self,
    {
        match self {
            Model::Text { .. } => self.with_received(Input::Event(event)),
            Model::Button { label, hovered, pressed, armed, fired, received } => Model::Button {
                label,
                hovered: hovered || event is Hover,
                pressed,
                armed,
                fired: if event is Click && armed {
                    fired + 1
                } else {
                    fired
                },
                received: received.push(Input::Event(event)),
            },
            Model::Container { children } => Model::Container {
                children: after_dispatch(children, event),
            },
        }
    }

    /// Whether a tick changes what the node shows.
    pub open spec fn changes(self, ctx: UpdateContext) -> bool
        decreases self,
    {
        match self {
            Model::Text { .. } => false,
            Model::Button { .. } => false,
            Model::Container { children } => exists|i: int|
                0 <= i < children.len() && (#[trigger] children[i]).changes(ctx),
        }
    }

    /// The node after a tick.
    pub open spec fn after_update(self, ctx: UpdateContext) -> Model
        decreases self,
    {
        match self {
            Model::Text { .. } => self.with_received(Input::Tick(ctx)),
            Model::Button { .. } => self.with_received(Input::Tick(ctx)),
            Model::Container { children } => Model::Container {
                children: after_tick(children, ctx),
            },
        }
    }

    /// The size of the node under `constraints`. A container is as wide as
    /// its widest child and as high as all of them together; a length that
    /// would pass the largest length stops there.
    pub open spec fn measure(self, constraints: LayoutConstraint) -> Size
        decreases self,
    {
        match self {
            Model::Text { font_size, .. } => text_size(font_size),
            Model::Button { .. } => Size { width: BUTTON_WIDTH, height: BUTTON_HEIGHT },
            Model::Container { children } => Size {
                width: clipped(max_width(sizes_of(children, constraints))),
                height: clipped(total_height(sizes_of(children, constraints))),
            },
        }
    }

    /// The calls that the node makes on the renderer when it is drawn at
    /// `position`, in order.
    pub open spec fn display_list(self, position: Point) -> Seq<DrawCommand>
        decreases self, 0int,
    {
        match self {
            Model::Text { content, font_size, alignment, color, .. } => seq![
                DrawCommand::Text { content, position, font_size, color, alignment },
            ],
            Model::Button { label, .. } => seq![
                DrawCommand::Text {
                    content: label,
                    position,
                    font_size: BUTTON_LABEL_FONT_SIZE,
                    color: Color::black(),
                    alignment: TextAlignment::Center,
                },
            ],
            Model::Container { children } => stacked_commands(children, position),
        }
    }
}

} // verus!
