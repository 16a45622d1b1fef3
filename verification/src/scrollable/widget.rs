//! The settings of a scrollable region, and its operations with these
//! settings filled in.

use vstd::prelude::*;
use crate::scrollable::events::{spec_update, update, ContentPoint, Event, Outcome, Status};
use crate::scrollable::geometry::{Direction, Frame, Point, Properties, Rectangle};
use crate::scrollable::state::{State, Translation};
use crate::scrollable::view::{
    content_cursor,
    content_cursor_of,
    content_viewport,
    content_viewport_of,
    draw,
    drawing_of,
    interaction_of,
    layout,
    mouse_interaction,
    ContentLimits,
    Drawing,
    Interaction,
};

verus! {

/// How much room a region asks for along one axis.
#[derive(Clone, Copy, Debug, PartialEq, Eq, Structural)]
pub enum Length {
    /// All the room there is.
    Fill,
    /// A share of the room there is.
    FillPortion(u16),
    /// As little as the content needs.
    Shrink,
    /// A number of pixels.
    Fixed(u32),
}

/// The size that a region asks for.
#[derive(Clone, Copy, Debug, PartialEq, Eq, Structural)]
pub struct Size {
    pub width: Length,
    pub height: Length,
}

/// The settings of a region that shows content larger than itself.
#[derive(Clone, Copy, Debug, PartialEq, Eq, Structural)]
pub struct Scrollable {
    pub width: Length,
    pub height: Length,
    pub direction: Direction,
    /// Whether somebody is told when the viewport changes.
    pub listening: bool,
}

impl Scrollable {
    /// The settings of a new region: it shrinks to its content, scrolls
    /// vertically, and nobody listens to it.
    pub fn new() -> (scrollable: Scrollable)
        ensures
            scrollable == (Scrollable {
                width: Length::Shrink,
                height: Length::Shrink,
                direction: Direction::Vertical(
                    Properties {
                        width: 10,
                        margin: 0,
                        scroller_width: 10,
                        alignment: crate::scrollable::geometry::Alignment::Start,
                    },
                ),
                listening: false,
            }),
    {
        Scrollable {
            width: Length::Shrink,
            height: Length::Shrink,
            direction: Direction::Vertical(Properties::new()),
            listening: false,
        }
    }

    /// Sets the width of the region.
    pub fn width(self, width: Length) -> (scrollable: Scrollable)
        ensures
            scrollable == (Scrollable { width, ..self }),
    {
        Scrollable { width, ..self }
    }

    /// Sets the height of the region.
    pub fn height(self, height: Length) -> (scrollable: Scrollable)
        ensures
            scrollable == (Scrollable { height, ..self }),
    {
        Scrollable { height, ..self }
    }

    /// Sets the direction of the region.
    pub fn direction(self, direction: Direction) -> (scrollable: Scrollable)
        ensures
            scrollable == (Scrollable { direction, ..self }),
    {
        Scrollable { direction, ..self }
    }

    /// Says that somebody wants to hear of each change of the viewport.
    pub fn on_scroll(self) -> (scrollable: Scrollable)
        ensures
            scrollable == (Scrollable { listening: true, ..self }),
    {
        Scrollable { listening: true, ..self }
    }

    /// The size that the region asks for.
    pub fn size(&self) -> (size: Size)
        ensures
            size == (Size { width: self.width, height: self.height }),
    {
        Size { width: self.width, height: self.height }
    }

    /// The room for the content, from the room of the region.
    pub fn layout(&self, min_width: u32, min_height: u32, max_width: u32, max_height: u32) -> (limits:
        ContentLimits)
        ensures
            limits == (ContentLimits {
                min_width,
                min_height,
                max_width: if self.direction.spec_horizontal() is Some {
                    None
                } else {
                    Some(max_width)
                },
                max_height: if self.direction.spec_vertical() is Some {
                    None
                } else {
                    Some(max_height)
                },
            }),
    {
        layout(min_width, min_height, max_width, max_height, &self.direction)
    }

    /// The translation of the content, by which overlays of the content and
    /// the places where something can be dropped are moved back.
    pub fn translation(&self, state: &State, bounds: Rectangle, content_bounds: Rectangle) -> (translation:
        Translation)
        ensures
            translation == state.spec_translation(self.direction, bounds, content_bounds),
    {
        state.translation(self.direction, bounds, content_bounds)
    }

    /// The cursor and the visible part to hand to the content with an
    /// event.
    pub fn content_input(
        &self,
        state: &State,
        cursor: Option<Point>,
        bounds: Rectangle,
        content_bounds: Rectangle,
    ) -> (input: (Option<ContentPoint>, Frame))
        ensures
            input.0 == content_cursor_of(*state, cursor, self.direction, bounds, content_bounds),
            input.1 == content_viewport_of(*state, self.direction, bounds, content_bounds),
    {
        (
            content_cursor(state, cursor, self.direction, bounds, content_bounds),
            content_viewport(state, self.direction, bounds, content_bounds),
        )
    }

    /// Processes an event after the content has had it.
    pub fn on_event(
        &self,
        state: &mut State,
        event: Event,
        content_status: Status,
        cursor: Option<Point>,
        bounds: Rectangle,
        content_bounds: Rectangle,
    ) -> (outcome: Outcome)
        ensures
            (*final(state), outcome) == spec_update(
                *old(state),
                event,
                content_status,
                cursor,
                self.direction,
                self.listening,
                bounds,
                content_bounds,
            ),
            old(state).wf() ==> final(state).wf(),
    {
        update(
            state,
            event,
            content_status,
            cursor,
            self.direction,
            self.listening,
            bounds,
            content_bounds,
        )
    }

    /// Says what is to be drawn of the region.
    pub fn draw(
        &self,
        state: &State,
        cursor: Option<Point>,
        bounds: Rectangle,
        content_bounds: Rectangle,
    ) -> (drawing: Drawing)
        ensures
            drawing == drawing_of(*state, cursor, self.direction, bounds, content_bounds),
    {
        draw(state, cursor, self.direction, bounds, content_bounds)
    }

    /// Says who decides how the pointer looks.
    pub fn mouse_interaction(
        &self,
        state: &State,
        cursor: Option<Point>,
        bounds: Rectangle,
        content_bounds: Rectangle,
    ) -> (interaction: Interaction)
        ensures
            interaction == interaction_of(*state, cursor, self.direction, bounds, content_bounds),
    {
        mouse_interaction(state, cursor, self.direction, bounds, content_bounds)
    }
}

} // verus!
