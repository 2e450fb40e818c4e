//! The tree: a node is one of the widgets, and the container is the one
//! widget that has children. It owns them in the order in which they were
//! added, and hands every traversal on to them in that order.

use vstd::prelude::*;
use crate::button::Button;
use crate::event::{Event, UpdateContext};
use crate::geometry::{clipped, LayoutConstraint, Point, Size};
use crate::model::{
    after_dispatch, after_tick, cursor_after, max_width, reaches, sizes_of, stacked_commands,
    total_height, Model,
};
use crate::render::{
    lemma_nothing_after_failure, lemma_one_after_the_other, traversed, Painter, RenderError,
    Renderer,
};
use crate::text::{Heading, Paragraph, Subheading, TextWidget};
use crate::widget::Widget;

verus! {

/// A node of the tree: any one of the widgets.
pub enum Node {
    Text(TextWidget),
    Heading(Heading),
    Subheading(Subheading),
    Paragraph(Paragraph),
    Button(Button),
    Container(Container),
}

/// A vertical stack of nodes.
pub struct Container {
    children: Vec<Node>,
}

/// What the first `k` of `children` draw is the beginning of what all of
/// them draw.
proof fn lemma_stacked_prefix(children: Seq<Model>, position: Point, k: int)
    requires
        0 <= k <= children.len(),
    ensures
        stacked_commands(children.take(k), position).is_prefix_of(
            stacked_commands(children, position),
        ),
    decreases children.len(),
{
    if k == children.len() {
        assert(children.take(k) =~= children);
    } else {
        let shorter = children.drop_last();
        lemma_stacked_prefix(shorter, position, k);
        assert(shorter.take(k) =~= children.take(k));
    }
}

impl Widget for Node {
    open spec fn view(&self) -> Model
        decreases self, 0int,
    {
        match self {
            Node::Text(text) => text@,
            Node::Heading(heading) => heading@,
            Node::Subheading(subheading) => subheading@,
            Node::Paragraph(paragraph) => paragraph@,
            Node::Button(button) => button@,
            Node::Container(container) => container@,
        }
    }

    fn handle_event(&mut self, event: &Event) -> (consumed: bool)
        decreases *old(self),
    {
        match self {
            Node::Text(text) => text.handle_event(event),
            Node::Heading(heading) => heading.handle_event(event),
            Node::Subheading(subheading) => subheading.handle_event(event),
            Node::Paragraph(paragraph) => paragraph.handle_event(event),
            Node::Button(button) => button.handle_event(event),
            Node::Container(container) => container.handle_event(event),
        }
    }

    fn update(&mut self, ctx: &UpdateContext) -> (changed: bool)
        decreases *old(self),
    {
        match self {
            Node::Text(text) => text.update(ctx),
            Node::Heading(heading) => heading.update(ctx),
            Node::Subheading(subheading) => subheading.update(ctx),
            Node::Paragraph(paragraph) => paragraph.update(ctx),
            Node::Button(button) => button.update(ctx),
            Node::Container(container) => container.update(ctx),
        }
    }

    fn layout(&self, constraints: &LayoutConstraint) -> (size: Size)
        decreases self,
    {
        match self {
            Node::Text(text) => text.layout(constraints),
            Node::Heading(heading) => heading.layout(constraints),
            Node::Subheading(subheading) => subheading.layout(constraints),
            Node::Paragraph(paragraph) => paragraph.layout(constraints),
            Node::Button(button) => button.layout(constraints),
            Node::Container(container) => container.layout(constraints),
        }
    }

    fn render<R: Renderer>(
        &self,
        painter: &mut Painter<R>,
        position: Point,
    ) -> (result: Result<(), RenderError>)
        decreases self,
    {
        match self {
            Node::Text(text) => text.render(painter, position),
            Node::Heading(heading) => heading.render(painter, position),
            Node::Subheading(subheading) => subheading.render(painter, position),
            Node::Paragraph(paragraph) => paragraph.render(painter, position),
            Node::Button(button) => button.render(painter, position),
            Node::Container(container) => container.render(painter, position),
        }
    }
}

impl Container {
    /// The children, first added first.
    pub closed spec fn child_models(&self) -> Seq<Model>
        decreases self, 0int,
    {
        Seq::new(
            self.children@.len(),
            |i: int|
                if 0 <= i < self.children@.len() {
                    self.children@[i]@
                } else {
                    Model::Container { children: Seq::empty() }
                },
        )
    }

    /// A container without children.
    pub fn new() -> (container: Container)
        ensures
            container.child_models() == Seq::<Model>::empty(),
    {
        let container = Container { children: Vec::new() };
        container
    }

    /// The same container with `child` added after the children that it
    /// has.
    pub fn add(self, child: Node) -> (container: Container)
        ensures
            container.child_models() == self.child_models().push(child@),
    {
        let mut children = self.children;
        children.push(child);
        let container = Container { children };
        container
    }

    /// The child at `index`, counted from zero, if there is one.
    pub fn child(&self, index: usize) -> (child: Option<&Node>)
        ensures
            child is Some <==> index < self.child_models().len(),
            child matches Some(node) ==> node@ == self.child_models()[index as int],
    {
        if index < self.children.len() {
            Some(&self.children[index])
        } else {
            None
        }
    }

    /// The number of children.
    pub fn len(&self) -> (len: usize)
        ensures
            len == self.child_models().len(),
    {
        self.children.len()
    }

    /// Whether the container has no children.
    pub fn is_empty(&self) -> (empty: bool)
        ensures
            empty == (self.child_models().len() == 0),
    {
        self.children.len() == 0
    }
}

impl Widget for Container {
    open spec fn view(&self) -> Model
        decreases self, 1int,
    {
        Model::Container { children: self.child_models() }
    }

    /// Offers `event` to the children in order, and stops at the first that
    /// takes it: the children after that one never see the event.
    fn handle_event(&mut self, event: &Event) -> (consumed: bool)
        ensures
            consumed == (exists|i: int|
                0 <= i < old(self).child_models().len() && (#[trigger] old(
                    self,
                ).child_models()[i]).consumes(*event)),
            final(self).child_models() == after_dispatch(old(self).child_models(), *event),
        decreases *old(self),
    {
        let n = self.children.len();
        let mut i: usize = 0;
        while i < n
            invariant
                i <= n,
                n == self.children.len(),
                n == old(self).children.len(),
                reaches(old(self).child_models(), *event, i as int),
                forall|j: int|
                    0 <= j < i ==> self.child_models()[j] == (#[trigger] old(
                        self,
                    ).child_models()[j]).after_event(*event),
                forall|j: int|
                    i <= j < n ==> self.children@[j] == #[trigger] old(self).children@[j],
            decreases n - i,
        {
            assert(decreases_to!(old(self).children => old(self).children[i as int]));
            let consumed = self.children[i].handle_event(event);
            if consumed {
                assert(old(self).child_models()[i as int].consumes(*event));
                assert(self.child_models() =~= after_dispatch(old(self).child_models(), *event));
                return true;
            }
            i += 1;
        }
        assert(self.child_models() =~= after_dispatch(old(self).child_models(), *event));
        false
    }

    /// Updates every child once, whatever the children before it returned.
    /// The result says whether any child has changed.
    fn update(&mut self, ctx: &UpdateContext) -> (changed: bool)
        ensures
            changed == (exists|i: int|
                0 <= i < old(self).child_models().len() && (#[trigger] old(
                    self,
                ).child_models()[i]).changes(*ctx)),
            final(self).child_models() == after_tick(old(self).child_models(), *ctx),
        decreases *old(self),
    {
        let n = self.children.len();
        let mut changed = false;
        let mut i: usize = 0;
        while i < n
            invariant
                i <= n,
                n == self.children.len(),
                n == old(self).children.len(),
                changed == (exists|j: int|
                    0 <= j < i && (#[trigger] old(self).child_models()[j]).changes(*ctx)),
                forall|j: int|
                    0 <= j < i ==> self.child_models()[j] == (#[trigger] old(
                        self,
                    ).child_models()[j]).after_update(*ctx),
                forall|j: int|
                    i <= j < n ==> self.children@[j] == #[trigger] old(self).children@[j],
            decreases n - i,
        {
            assert(decreases_to!(old(self).children => old(self).children[i as int]));
            let child_changed = self.children[i].update(ctx);
            if child_changed {
                assert(old(self).child_models()[i as int].changes(*ctx));
                changed = true;
            }
            i += 1;
        }
        assert(self.child_models() =~= after_tick(old(self).child_models(), *ctx));
        changed
    }

    /// Asks every child for its size under the same `constraints`. The
    /// container is as wide as its widest child and as high as all of them
    /// together.
    fn layout(&self, constraints: &LayoutConstraint) -> (size: Size)
        ensures
            size.width == clipped(max_width(sizes_of(self.child_models(), *constraints))),
            size.height == clipped(total_height(sizes_of(self.child_models(), *constraints))),
        decreases self,
    {
        let n = self.children.len();
        let ghost sizes = sizes_of(self.child_models(), *constraints);
        let mut width: u64 = 0;
        let mut height: u64 = 0;
        let mut i: usize = 0;
        while i < n
            invariant
                i <= n,
                n == self.children.len(),
                sizes == sizes_of(self.child_models(), *constraints),
                width == max_width(sizes.take(i as int)),
                height == clipped(total_height(sizes.take(i as int))),
                0 <= total_height(sizes.take(i as int)),
            decreases n - i,
        {
            let size = self.children[i].layout(constraints);
            assert(sizes.take(i + 1).drop_last() =~= sizes.take(i as int));
            if size.width > width {
                width = size.width;
            }
            height = height.saturating_add(size.height);
            i += 1;
        }
        assert(sizes.take(n as int) =~= sizes);
        Size { width, height }
    }

    /// Draws the children in order, each below the one before it: the
    /// cursor starts at `position` and, after a child is drawn, moves down by
    /// the height that the child has under empty constraints. The first
    /// child that fails ends the traversal.
    fn render<R: Renderer>(
        &self,
        painter: &mut Painter<R>,
        position: Point,
    ) -> (result: Result<(), RenderError>)
        decreases self,
    {
        let n = self.children.len();
        let ghost models = self.child_models();
        let ghost all = stacked_commands(models, position);
        let mut cursor = position;
        let mut i: usize = 0;
        while i < n
            invariant
                i <= n,
                n == self.children.len(),
                models == self.child_models(),
                all == stacked_commands(models, position),
                cursor == cursor_after(models.take(i as int), position),
                traversed(
                    old(painter).calls(),
                    painter.calls(),
                    stacked_commands(models.take(i as int), position),
                    Ok(()),
                ),
            decreases n - i,
        {
            let ghost before = painter.calls();
            let ghost drawn = stacked_commands(models.take(i as int), position);
            let ghost own = models[i as int].display_list(cursor);
            assert(models.take(i + 1).drop_last() =~= models.take(i as int));
            let drew = self.children[i].render(painter, cursor);
            proof {
                lemma_one_after_the_other(
                    old(painter).calls(),
                    before,
                    painter.calls(),
                    drawn,
                    own,
                    drew,
                );
            }
            match drew {
                Ok(()) => {},
                Err(error) => {
                    proof {
                        lemma_stacked_prefix(models, position, i + 1);
                        let rest = all.skip((drawn + own).len() as int);
                        assert(all =~= (drawn + own) + rest);
                        lemma_nothing_after_failure(
                            old(painter).calls(),
                            painter.calls(),
                            drawn + own,
                            rest,
                            drew,
                        );
                    }
                    return Err(error);
                },
            }
            let size = self.children[i].layout(&LayoutConstraint::default());
            cursor = cursor.below(size.height);
            i += 1;
        }
        assert(models.take(n as int) =~= models);
        Ok(())
    }
}

} // verus!
