//! A button: a label, an optional callback, and two flags.

use vstd::prelude::*;
use crate::callback::Callback;
use crate::event::{Event, Input, UpdateContext};
use crate::geometry::{LayoutConstraint, Point, Size};
use crate::model::{DrawCommand, Model, BUTTON_HEIGHT, BUTTON_LABEL_FONT_SIZE, BUTTON_WIDTH};
use crate::render::{lemma_one_call, Painter, RenderError, Renderer};
use crate::style::{Color, TextAlignment};
use crate::widget::Widget;

verus! {

/// A button. A click invokes its callback, if it has one; hovering over it
/// is remembered.
pub struct Button {
    label: String,
    on_click: Option<Callback>,
    hovered: bool,
    pressed: bool,
    received: Ghost<Seq<Input>>,
}

impl Button {
    /// The label of the button.
    pub open spec fn spec_label(&self) -> Seq<char> {
        self@->label
    }

    /// Whether the pointer has hovered over the button.
    pub open spec fn spec_is_hovered(&self) -> bool {
        self@->hovered
    }

    /// Whether the button is held down.
    pub open spec fn spec_is_pressed(&self) -> bool {
        self@->pressed
    }

    /// Whether a callback is registered.
    pub open spec fn spec_has_callback(&self) -> bool {
        self@->armed
    }

    /// How many times the callback that is registered has been invoked.
    pub open spec fn invocations(&self) -> nat {
        self@->fired
    }

    /// What was brought to the button so far, oldest first.
    pub open spec fn received(&self) -> Seq<Input> {
        self@->Button_received
    }

    /// A button with `label` and no callback, neither hovered nor pressed.
    pub fn new(label: &str) -> (button: Button)
        ensures
            button@ == (Model::Button {
                label: label@,
                hovered: false,
                pressed: false,
                armed: false,
                fired: 0,
                received: Seq::empty(),
            }),
    {
        Button {
            label: label.to_owned(),
            on_click: None,
            hovered: false,
            pressed: false,
            received: Ghost(Seq::empty()),
        }
    }

    /// The same button with `callback` registered in place of the one it
    /// had, if it had one. The new callback has not been invoked yet.
    pub fn on_click<F: Fn() + 'static>(self, callback: F) -> (button: Button)
        requires
            call_requires(callback, ()),
        ensures
            button@ == (Model::Button {
                label: self.spec_label(),
                hovered: self.spec_is_hovered(),
                pressed: self.spec_is_pressed(),
                armed: true,
                fired: 0,
                received: self.received(),
            }),
    {
        Button {
            label: self.label,
            on_click: Some(Callback::new(callback)),
            hovered: self.hovered,
            pressed: self.pressed,
            received: self.received,
        }
    }

    /// The label of the button.
    pub fn label(&self) -> (label: &str)
        ensures
            label@ == self.spec_label(),
    {
        self.label.as_str()
    }

    /// Whether the pointer has hovered over the button.
    #[verifier::when_used_as_spec(spec_is_hovered)]
    pub fn is_hovered(&self) -> (hovered: bool)
        ensures
            hovered == self.spec_is_hovered(),
    {
        self.hovered
    }

    /// Whether the button is held down.
    #[verifier::when_used_as_spec(spec_is_pressed)]
    pub fn is_pressed(&self) -> (pressed: bool)
        ensures
            pressed == self.spec_is_pressed(),
    {
        self.pressed
    }

    /// Whether a callback is registered.
    #[verifier::when_used_as_spec(spec_has_callback)]
    pub fn has_callback(&self) -> (armed: bool)
        ensures
            armed == self.spec_has_callback(),
    {
        self.on_click.is_some()
    }
}

impl Widget for Button {
    closed spec fn view(&self) -> Model {
        Model::Button {
            label: self.label@,
            hovered: self.hovered,
            pressed: self.pressed,
            armed: self.on_click is Some,
            fired: match self.on_click {
                Some(callback) => callback.invocations(),
                None => 0,
            },
            received: self.received@,
        }
    }

    /// A click invokes the callback once, if there is one, and is taken
    /// either way. Hovering sets the flag and is taken. Nothing else is
    /// taken, and nothing else changes the button.
    fn handle_event(&mut self, event: &Event) -> (consumed: bool)
        ensures
            consumed == (*event is Click || *event is Hover),
            final(self).spec_label() == old(self).spec_label(),
            final(self).spec_is_pressed() == old(self).spec_is_pressed(),
            final(self).spec_has_callback() == old(self).spec_has_callback(),
            final(self).spec_is_hovered() == (old(self).spec_is_hovered() || *event is Hover),
            final(self).invocations() == old(self).invocations() + (if *event is Click && old(
                self,
            ).spec_has_callback() {
                1nat
            } else {
                0nat
            }),
            final(self).received() == old(self).received().push(Input::Event(*event)),
    {
        self.received = Ghost(self.received@.push(Input::Event(*event)));
        match event {
            Event::Click(_) => {
                match &mut self.on_click {
                    Some(callback) => {
                        callback.invoke();
                    },
                    None => {},
                }
                true
            },
            Event::Hover(_) => {
                self.hovered = true;
                true
            },
            _ => false,
        }
    }

    /// A tick leaves what a button shows as it is.
    fn update(&mut self, ctx: &UpdateContext) -> (changed: bool)
        ensures
            !changed,
            final(self)@ == old(self)@.with_received(Input::Tick(*ctx)),
    {
        self.received = Ghost(self.received@.push(Input::Tick(*ctx)));
        false
    }

    /// Every button has the same size, whatever the constraints.
    fn layout(&self, constraints: &LayoutConstraint) -> (size: Size)
        ensures
            size == (Size { width: BUTTON_WIDTH, height: BUTTON_HEIGHT }),
    {
        Size { width: BUTTON_WIDTH, height: BUTTON_HEIGHT }
    }

    /// A button draws its label.
    fn render<R: Renderer>(
        &self,
        painter: &mut Painter<R>,
        position: Point,
    ) -> (result: Result<(), RenderError>) {
        let result = painter.draw_text(
            self.label.as_str(),
            position,
            BUTTON_LABEL_FONT_SIZE,
            Color { r: 0, g: 0, b: 0, a: 255 },
            TextAlignment::Center,
        );
        proof {
            lemma_one_call(
                old(painter).calls(),
                painter.calls(),
                DrawCommand::Text {
                    content: self.label@,
                    position,
                    font_size: BUTTON_LABEL_FONT_SIZE,
                    color: Color::black(),
                    alignment: TextAlignment::Center,
                },
                result,
            );
        }
        result
    }
}

} // verus!
