//! A small widget toolkit: value types, a widget contract, leaf widgets, a
//! container that stacks its children, the traversals of a tree of widgets
//! (event dispatch, update, layout and rendering), and the drawing of
//! rasterised text into a frame of pixels.
//!
//! Every length is a whole number of tenths of a layout unit; font sizes are
//! whole layout units.

pub mod button;
pub mod callback;
pub mod container;
pub mod event;
pub mod geometry;
pub mod lemmas;
pub mod model;
pub mod raster;
pub mod render;
pub mod style;
pub mod text;
pub mod widget;

pub use crate::button::Button;
pub use crate::container::{Container, Node};
pub use crate::event::{Event, Input, KeyCode, UpdateContext};
pub use crate::geometry::{LayoutConstraint, Point, Size, UNIT};
pub use crate::render::{Painter, RenderError, Renderer};
pub use crate::style::{Color, TextAlignment};
pub use crate::text::{Heading, Paragraph, Subheading, TextWidget};
pub use crate::widget::{render_frame, Widget};
