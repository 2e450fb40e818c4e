//! The contract that every node of a tree of widgets meets.

use vstd::prelude::*;
use crate::event::{Event, UpdateContext};
use crate::geometry::{LayoutConstraint, Point, Size};
use crate::model::{DrawCommand, Model};
use crate::render::{
    lemma_nothing_after_failure, lemma_one_after_the_other, lemma_one_call, traversed, Painter,
    RenderError, Renderer,
};

verus! {

/// The calls of one frame that shows `root` at `origin`: the frame is
/// started, the tree is drawn, the frame is ended.
pub open spec fn frame_commands(root: Model, origin: Point) -> Seq<DrawCommand> {
    seq![DrawCommand::BeginFrame] + root.display_list(origin) + seq![DrawCommand::EndFrame]
}

/// A node of a tree of widgets.
pub trait Widget {
    /// What this node is, as far as the traversals can tell.
    spec fn view(&self) -> Model;

    /// Offers `event` to this node. The result says whether the node, or one
    /// of its descendants, took it; what the node does about the event is
    /// done when the call returns.
    fn handle_event(&mut self, event: &Event) -> (consumed: bool)
        ensures
            consumed == old(self)@.consumes(*event),
            final(self)@ == old(self)@.after_event(*event),
    ;

    /// Advances this node by one tick. The result says whether what it shows
    /// has changed.
    fn update(&mut self, ctx: &UpdateContext) -> (changed: bool)
        ensures
            changed == old(self)@.changes(*ctx),
            final(self)@ == old(self)@.after_update(*ctx),
    ;

    /// The size of this node under `constraints`.
    fn layout(&self, constraints: &LayoutConstraint) -> (size: Size)
        ensures
            size == self@.measure(*constraints),
    ;

    /// Draws this node at `position`. The first call that fails ends the
    /// traversal, and its error is the result.
    fn render<R: Renderer>(
        &self,
        painter: &mut Painter<R>,
        position: Point,
    ) -> (result: Result<(), RenderError>)
        ensures
            traversed(
                old(painter).calls(),
                final(painter).calls(),
                self@.display_list(position),
                result,
            ),
    ;
}

/// Draws one frame: starts it, draws the tree under `root` at `origin`,
/// and ends it. The first call that fails ends the frame there, and its
/// error is the result; what was drawn until then stays.
pub fn render_frame<W: Widget, R: Renderer>(
    root: &W,
    painter: &mut Painter<R>,
    origin: Point,
) -> (result: Result<(), RenderError>)
    ensures
        traversed(
            old(painter).calls(),
            final(painter).calls(),
            frame_commands(root@, origin),
            result,
        ),
{
    let ghost start = painter.calls();
    let ghost begin = seq![DrawCommand::BeginFrame];
    let ghost tree = root@.display_list(origin);
    let ghost end = seq![DrawCommand::EndFrame];
    let began = painter.begin_frame();
    proof {
        lemma_one_call(start, painter.calls(), DrawCommand::BeginFrame, began);
    }
    match began {
        Ok(()) => {},
        Err(error) => {
            proof {
                lemma_nothing_after_failure(start, painter.calls(), begin, tree + end, began);
                assert(begin + (tree + end) =~= begin + tree + end);
            }
            return Err(error);
        },
    }
    let ghost begun = painter.calls();
    let drew = root.render(painter, origin);
    proof {
        lemma_one_after_the_other(start, begun, painter.calls(), begin, tree, drew);
    }
    match drew {
        Ok(()) => {},
        Err(error) => {
            proof {
                lemma_nothing_after_failure(start, painter.calls(), begin + tree, end, drew);
            }
            return Err(error);
        },
    }
    let ghost drawn = painter.calls();
    let result = painter.end_frame();
    proof {
        lemma_one_call(drawn, painter.calls(), DrawCommand::EndFrame, result);
        lemma_one_after_the_other(start, drawn, painter.calls(), begin + tree, end, result);
    }
    result
}

} // verus!
