//! What holds of every tree of widgets, whatever its shape: how a container
//! hands an event, a tick, a request for its size and a request to draw on
//! to its children, and how the leaves answer.

use vstd::prelude::*;
use crate::container::Node;
use crate::event::{Event, Input, UpdateContext};
use crate::geometry::{LayoutConstraint, Point, Size};
use crate::model::{
    after_dispatch, after_tick, cursor_after, max_width, sizes_of, stacked_commands, total_height,
    DrawCommand, Model, BUTTON_HEIGHT, BUTTON_WIDTH,
};
use crate::text::{
    lemma_heading_is_text, lemma_paragraph_is_text, lemma_subheading_is_text,
    lemma_text_widget_is_text,
};
use crate::widget::Widget;

verus! {

/// The largest width among `sizes` is the width of one of them, and none of
/// them is wider.
pub proof fn lemma_max_width_is_widest(sizes: Seq<Size>)
    ensures
        sizes.len() == 0 ==> max_width(sizes) == 0,
        sizes.len() > 0 ==> exists|i: int|
            0 <= i < sizes.len() && max_width(sizes) == (#[trigger] sizes[i]).width,
        forall|i: int| 0 <= i < sizes.len() ==> (#[trigger] sizes[i]).width <= max_width(sizes),
        0 <= max_width(sizes) <= u64::MAX,
    decreases sizes.len(),
{
    if sizes.len() > 0 {
        let front = sizes.drop_last();
        lemma_max_width_is_widest(front);
        if max_width(front) >= sizes.last().width && front.len() > 0 {
            let i = choose|i: int|
                0 <= i < front.len() && max_width(front) == (#[trigger] front[i]).width;
            assert(max_width(sizes) == sizes[i].width);
        } else {
            assert(max_width(sizes) == sizes[sizes.len() - 1].width);
        }
        assert forall|i: int| 0 <= i < sizes.len() implies (#[trigger] sizes[i]).width
            <= max_width(sizes) by {
            if i < front.len() {
                assert(front[i].width <= max_width(front));
            }
        }
    }
}

/// The heights of `sizes` add up: the total of a sequence with one more
/// size is the old total plus the height of that size, and no total is
/// negative.
pub proof fn lemma_total_height_adds_up(sizes: Seq<Size>, size: Size)
    ensures
        total_height(Seq::<Size>::empty()) == 0,
        total_height(sizes.push(size)) == total_height(sizes) + size.height,
        0 <= total_height(sizes),
    decreases sizes.len(),
{
    assert(sizes.push(size).drop_last() =~= sizes);
    if sizes.len() > 0 {
        lemma_total_height_adds_up(sizes.drop_last(), sizes.last());
    }
}

/// An event goes to the children of a container in order and stops at the
/// first child that takes it. If child `k` is that child, then the container
/// has taken the event, child `k` and every child before it have handled it,
/// and every child after `k` is as it was: it never saw the event.
pub proof fn lemma_dispatch_stops_at_first_taker(children: Seq<Model>, event: Event, k: int)
    requires
        0 <= k < children.len(),
        children[k].consumes(event),
        forall|j: int| 0 <= j < k ==> !(#[trigger] children[j]).consumes(event),
    ensures
        (Model::Container { children }).consumes(event),
        (Model::Container { children }).after_event(event) == (Model::Container {
            children: after_dispatch(children, event),
        }),
        after_dispatch(children, event).len() == children.len(),
        forall|j: int|
            0 <= j <= k ==> after_dispatch(children, event)[j] == (#[trigger] children[j])
                .after_event(event),
        forall|j: int|
            k < j < children.len() ==> after_dispatch(children, event)[j] == #[trigger] children[j],
{
}

/// An event that no child of a container takes is offered to every child,
/// and the container does not take it either.
pub proof fn lemma_dispatch_without_taker(children: Seq<Model>, event: Event)
    requires
        forall|j: int| 0 <= j < children.len() ==> !(#[trigger] children[j]).consumes(event),
    ensures
        !(Model::Container { children }).consumes(event),
        after_dispatch(children, event).len() == children.len(),
        forall|j: int|
            0 <= j < children.len() ==> after_dispatch(children, event)[j]
                == (#[trigger] children[j]).after_event(event),
{
}

/// Of three children of which the first does not take an event and the
/// second does, the first two handle the event and the third never sees it.
pub proof fn lemma_second_of_three_takes(first: Model, second: Model, third: Model, event: Event)
    requires
        !first.consumes(event),
        second.consumes(event),
    ensures
        (Model::Container { children: seq![first, second, third] }).consumes(event),
        after_dispatch(seq![first, second, third], event) == seq![
            first.after_event(event),
            second.after_event(event),
            third,
        ],
{
    lemma_dispatch_stops_at_first_taker(seq![first, second, third], event, 1);
}

/// A tick reaches every child of a container exactly once, and the
/// container has changed exactly if one of its children has.
pub proof fn lemma_tick_reaches_every_child(children: Seq<Model>, ctx: UpdateContext)
    ensures
        (Model::Container { children }).after_update(ctx) == (Model::Container {
            children: after_tick(children, ctx),
        }),
        after_tick(children, ctx).len() == children.len(),
        forall|i: int|
            0 <= i < children.len() ==> after_tick(children, ctx)[i]
                == (#[trigger] children[i]).after_update(ctx),
        (Model::Container { children }).changes(ctx) <==> exists|i: int|
            0 <= i < children.len() && (#[trigger] children[i]).changes(ctx),
{
}

/// A container is as wide as its widest child and as high as all of its
/// children together, each asked under the constraints that the container
/// was asked under. A height that no length can hold stops at the largest
/// length. A container without children has no extent.
pub proof fn lemma_container_size(children: Seq<Model>, constraints: LayoutConstraint)
    ensures
        sizes_of(children, constraints).len() == children.len(),
        forall|i: int|
            0 <= i < children.len() ==> sizes_of(children, constraints)[i]
                == (#[trigger] children[i]).measure(constraints),
        (Model::Container { children }).measure(constraints).width == max_width(
            sizes_of(children, constraints),
        ),
        total_height(sizes_of(children, constraints)) <= u64::MAX ==> (Model::Container {
            children,
        }).measure(constraints).height == total_height(sizes_of(children, constraints)),
        total_height(sizes_of(children, constraints)) > u64::MAX ==> (Model::Container {
            children,
        }).measure(constraints).height == u64::MAX,
        children.len() == 0 ==> (Model::Container { children }).measure(constraints)
            == Size::zero(),
{
    let sizes = sizes_of(children, constraints);
    lemma_max_width_is_widest(sizes);
    if sizes.len() > 0 {
        lemma_total_height_adds_up(sizes.drop_last(), sizes.last());
    }
}

/// No node looks at the constraints that it is asked under: its size is the
/// same under any two of them.
pub proof fn lemma_size_ignores_constraints(
    model: Model,
    first: LayoutConstraint,
    second: LayoutConstraint,
)
    ensures
        model.measure(first) == model.measure(second),
    decreases model,
{
    match model {
        Model::Container { children } => {
            assert forall|i: int| 0 <= i < children.len() implies (#[trigger] children[i]).measure(
                first,
            ) == children[i].measure(second) by {
                lemma_size_ignores_constraints(children[i], first, second);
            }
            assert(sizes_of(children, first) =~= sizes_of(children, second));
        },
        _ => {},
    }
}

/// A container draws one more child below the children that it has: what
/// they draw stays, the new child draws at the cursor that they left, and
/// the cursor then moves down by the height of the new child.
pub proof fn lemma_stacking_one_more(children: Seq<Model>, child: Model, position: Point)
    ensures
        stacked_commands(Seq::<Model>::empty(), position) == Seq::<DrawCommand>::empty(),
        cursor_after(Seq::<Model>::empty(), position) == position,
        stacked_commands(children.push(child), position) == stacked_commands(children, position)
            + child.display_list(cursor_after(children, position)),
        cursor_after(children.push(child), position) == cursor_after(
            children,
            position,
        ).spec_below(child.measure(LayoutConstraint::empty()).height),
{
    assert(children.push(child).drop_last() =~= children);
}

/// Text only shows something: it takes no event and a tick does not
/// change it. Whatever is brought to it goes into its record and leaves
/// everything else as it was.
pub proof fn lemma_text_is_inert(model: Model, event: Event, ctx: UpdateContext)
    requires
        model is Text,
    ensures
        !model.consumes(event),
        model.after_event(event) == model.with_received(Input::Event(event)),
        !model.changes(ctx),
        model.after_update(ctx) == model.with_received(Input::Tick(ctx)),
        forall|input: Input|
            #![trigger model.with_received(input)]
            {
                &&& model.with_received(input) is Text
                &&& model.with_received(input)->content == model->content
                &&& model.with_received(input)->font_size == model->font_size
                &&& model.with_received(input)->alignment == model->alignment
                &&& model.with_received(input)->color == model->color
                &&& model.with_received(input)->Text_received == model->Text_received.push(input)
            },
{
}

/// A node that is text, a heading, a subheading or a paragraph takes no
/// event and does not change on a tick, whatever the event and whatever the
/// node holds: it is text.
pub proof fn lemma_presentation_is_inert(node: Node, event: Event, ctx: UpdateContext)
    requires
        node is Text || node is Heading || node is Subheading || node is Paragraph,
    ensures
        node@ is Text,
        !node@.consumes(event),
        node@.after_event(event) == node@.with_received(Input::Event(event)),
        !node@.changes(ctx),
        node@.after_update(ctx) == node@.with_received(Input::Tick(ctx)),
{
    match node {
        Node::Text(text) => lemma_text_widget_is_text(text),
        Node::Heading(heading) => lemma_heading_is_text(heading),
        Node::Subheading(subheading) => lemma_subheading_is_text(subheading),
        Node::Paragraph(paragraph) => lemma_paragraph_is_text(paragraph),
        _ => {},
    }
}

/// A button takes a click and a hover and nothing else. A click invokes the
/// callback once if one is registered, and none otherwise; a hover sets the
/// flag; any other event goes into the record and leaves everything else
/// as it was. A tick does not change a button. Every button has the same
/// size.
pub proof fn lemma_button_reactions(
    model: Model,
    event: Event,
    ctx: UpdateContext,
    constraints: LayoutConstraint,
)
    requires
        model is Button,
    ensures
        model.consumes(event) <==> (event is Click || event is Hover),
        model.after_event(event) is Button,
        model.after_event(event)->label == model->label,
        model.after_event(event)->pressed == model->pressed,
        model.after_event(event)->armed == model->armed,
        model.after_event(event)->hovered == (model->hovered || event is Hover),
        model.after_event(event)->fired == model->fired + (if event is Click && model->armed {
            1nat
        } else {
            0nat
        }),
        model.after_event(event)->Button_received == model->Button_received.push(
            Input::Event(event),
        ),
        !(event is Click || event is Hover) ==> model.after_event(event) == model.with_received(
            Input::Event(event),
        ),
        !model.changes(ctx),
        model.after_update(ctx) == model.with_received(Input::Tick(ctx)),
        model.measure(constraints) == (Size { width: BUTTON_WIDTH, height: BUTTON_HEIGHT }),
{
}

} // verus!
