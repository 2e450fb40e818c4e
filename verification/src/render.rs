//! The sink that a tree of widgets draws to.

use vstd::prelude::*;
use crate::geometry::Point;
use crate::model::DrawCommand;
use crate::style::{Color, TextAlignment};

verus! {

/// Why a call on the renderer failed. Each kind carries a message for a
/// human reader.
#[derive(Debug, PartialEq, Eq)]
pub enum RenderError {
    /// The graphics back end failed.
    GraphicsError(String),
    /// The window system failed.
    WindowError(String),
}

impl RenderError {
    /// The message of this error.
    pub fn message(&self) -> (message: &str)
        ensures
            message@ == match *self {
                RenderError::GraphicsError(text) => text@,
                RenderError::WindowError(text) => text@,
            },
    {
        match self {
            RenderError::GraphicsError(text) => text.as_str(),
            RenderError::WindowError(text) => text.as_str(),
        }
    }
}

/// A back end that draws. The toolkit calls it and relies on nothing but
/// the results that it hands back.
pub trait Renderer {
    /// Starts a frame.
    fn begin_frame(&mut self) -> Result<(), RenderError>;

    /// Ends the frame and shows it.
    fn end_frame(&mut self) -> Result<(), RenderError>;

    /// Fills the frame with `color`.
    fn clear(&mut self, color: Color);

    /// Draws `text` at `position`, in tenths of a layout unit.
    fn draw_text(
        &mut self,
        text: &str,
        position: Point,
        font_size: u32,
        color: Color,
        alignment: TextAlignment,
    ) -> Result<(), RenderError>;
}

/// One call on the renderer, and what the renderer answered. A call that
/// has no answer counts as one that went well.
pub struct Call {
    pub command: DrawCommand,
    pub result: Result<(), RenderError>,
}

/// The record of `commands` made in order, where every call went well but
/// the last, which was answered with `last`.
pub open spec fn record_of(commands: Seq<DrawCommand>, last: Result<(), RenderError>) -> Seq<Call> {
    Seq::new(
        commands.len(),
        |i: int|
            Call {
                command: commands[i],
                result: if i + 1 < commands.len() {
                    Ok(())
                } else {
                    last
                },
            },
    )
}

/// Whether a traversal that had `commands` to make, and ended in `result`,
/// took the record of calls from `before` to `after`. One that ended well
/// made all of them, and all went well. One that failed made them up to the
/// first call that failed and none after it, and its error is the error of
/// that call.
pub open spec fn traversed(
    before: Seq<Call>,
    after: Seq<Call>,
    commands: Seq<DrawCommand>,
    result: Result<(), RenderError>,
) -> bool {
    match result {
        Ok(()) => after == before + record_of(commands, Ok(())),
        Err(_) => exists|n: int|
            0 < n <= commands.len() && after == before + record_of(
                #[trigger] commands.take(n),
                result,
            ),
    }
}

/// A traversal that makes one call ends as that call does.
pub proof fn lemma_one_call(
    before: Seq<Call>,
    after: Seq<Call>,
    command: DrawCommand,
    result: Result<(), RenderError>,
)
    requires
        after == before.push(Call { command, result }),
    ensures
        traversed(before, after, seq![command], result),
{
    let commands = seq![command];
    match result {
        Ok(unit) => {
            assert(unit == ());
            assert(after =~= before + record_of(commands, Ok(())));
        },
        Err(_) => {
            assert(after =~= before + record_of(commands.take(1), result));
        },
    }
}

/// A traversal that went well, followed by a second one, is one traversal
/// of what both had to make, and it ends as the second did.
pub proof fn lemma_one_after_the_other(
    before: Seq<Call>,
    between: Seq<Call>,
    after: Seq<Call>,
    first: Seq<DrawCommand>,
    second: Seq<DrawCommand>,
    result: Result<(), RenderError>,
)
    requires
        traversed(before, between, first, Ok(())),
        traversed(between, after, second, result),
    ensures
        traversed(before, after, first + second, result),
{
    match result {
        Ok(()) => {
            assert(after =~= before + record_of(first + second, Ok(())));
        },
        Err(_) => {
            let n = choose|n: int|
                0 < n <= second.len() && after == between + record_of(
                    #[trigger] second.take(n),
                    result,
                );
            assert(after =~= before + record_of((first + second).take(first.len() + n), result));
        },
    }
}

/// A traversal that failed is also a failed traversal of anything that
/// begins with what it had to make: nothing after the failure is made.
pub proof fn lemma_nothing_after_failure(
    before: Seq<Call>,
    after: Seq<Call>,
    commands: Seq<DrawCommand>,
    rest: Seq<DrawCommand>,
    result: Result<(), RenderError>,
)
    requires
        result is Err,
        traversed(before, after, commands, result),
    ensures
        traversed(before, after, commands + rest, result),
{
    let n = choose|n: int|
        0 < n <= commands.len() && after == before + record_of(#[trigger] commands.take(n), result);
    assert((commands + rest).take(n) =~= commands.take(n));
}

/// A renderer together with the record of every call made on it.
pub struct Painter<R: Renderer> {
    renderer: R,
    calls: Ghost<Seq<Call>>,
}

impl<R: Renderer> Painter<R> {
    /// The calls made on the renderer so far, oldest first, each with its
    /// answer.
    pub closed spec fn calls(&self) -> Seq<Call> {
        self.calls@
    }

    /// The renderer that the painter draws with, as the calls made so far
    /// have left it.
    pub closed spec fn renderer(&self) -> R {
        self.renderer
    }

    /// A painter that draws with `renderer` and has made no call yet.
    pub fn new(renderer: R) -> (painter: Painter<R>)
        ensures
            painter.renderer() == renderer,
            painter.calls() == Seq::<Call>::empty(),
    {
        Painter { renderer, calls: Ghost(Seq::empty()) }
    }

    /// Gives back the renderer that the painter draws with, as the calls
    /// made so far have left it.
    pub fn into_renderer(self) -> (renderer: R)
        ensures
            renderer == self.renderer(),
    {
        self.renderer
    }

    /// Starts a frame.
    pub fn begin_frame(&mut self) -> (result: Result<(), RenderError>)
        ensures
            final(self).calls() == old(self).calls().push(
                Call { command: DrawCommand::BeginFrame, result },
            ),
    {
        let result = self.renderer.begin_frame();
        proof {
            self.calls@ = self.calls@.push(Call { command: DrawCommand::BeginFrame, result });
        }
        result
    }

    /// Ends the frame.
    pub fn end_frame(&mut self) -> (result: Result<(), RenderError>)
        ensures
            final(self).calls() == old(self).calls().push(
                Call { command: DrawCommand::EndFrame, result },
            ),
    {
        let result = self.renderer.end_frame();
        proof {
            self.calls@ = self.calls@.push(Call { command: DrawCommand::EndFrame, result });
        }
        result
    }

    /// Fills the frame with `color`.
    pub fn clear(&mut self, color: Color)
        ensures
            final(self).calls() == old(self).calls().push(
                Call { command: DrawCommand::Clear { color }, result: Ok(()) },
            ),
    {
        self.renderer.clear(color);
        proof {
            self.calls@ = self.calls@.push(
                Call { command: DrawCommand::Clear { color }, result: Ok(()) },
            );
        }
    }

    /// Draws `text` at `position`.
    pub fn draw_text(
        &mut self,
        text: &str,
        position: Point,
        font_size: u32,
        color: Color,
        alignment: TextAlignment,
    ) -> (result: Result<(), RenderError>)
        ensures
            final(self).calls() == old(self).calls().push(
                Call {
                    command: DrawCommand::Text {
                        content: text@,
                        position,
                        font_size,
                        color,
                        alignment,
                    },
                    result,
                },
            ),
    {
        let result = self.renderer.draw_text(text, position, font_size, color, alignment);
        proof {
            self.calls@ = self.calls@.push(
                Call {
                    command: DrawCommand::Text {
                        content: text@,
                        position,
                        font_size,
                        color,
                        alignment,
                    },
                    result,
                },
            );
        }
        result
    }
}

} // verus!
