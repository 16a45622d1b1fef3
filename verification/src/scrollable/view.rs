//! What a scrollable region shows of its content and of its scrollbars, and
//! where the content sees the cursor.

use vstd::prelude::*;
use crate::scrollable::events::{cursor_over, ContentPoint};
use crate::scrollable::geometry::{Direction, Frame, Point, Rectangle};
use crate::scrollable::scrollbars::{scrollbars_of, Scrollbar, Scrollbars};
use crate::scrollable::state::{State, Translation};

verus! {

/// The cursor as the content sees it: the position of a cursor that is over
/// the region and over no scrollbar, moved by the translation of the
/// content; no cursor otherwise.
pub open spec fn content_cursor_of(
    state: State,
    cursor: Option<Point>,
    direction: Direction,
    bounds: Rectangle,
    content_bounds: Rectangle,
) -> Option<ContentPoint> {
    let over = scrollbars_of(state, direction, bounds, content_bounds).spec_is_mouse_over(cursor);
    let translation = state.spec_translation(direction, bounds, content_bounds);
    match cursor_over(cursor, bounds) {
        Some(position) => if over.0 || over.1 {
            None
        } else {
            Some(
                ContentPoint {
                    x: (position.x + translation.x) as i64,
                    y: (position.y + translation.y) as i64,
                },
            )
        },
        None => None,
    }
}

/// The part of the content that the region shows: the bounds of the region
/// moved by the translation of the content.
pub open spec fn content_viewport_of(
    state: State,
    direction: Direction,
    bounds: Rectangle,
    content_bounds: Rectangle,
) -> Frame {
    let translation = state.spec_translation(direction, bounds, content_bounds);
    Frame {
        x: (bounds.x + translation.x) as i64,
        y: (bounds.y + translation.y) as i64,
        width: bounds.width as i64,
        height: bounds.height as i64,
    }
}

fn moved_cursor(
    cursor: Option<Point>,
    over: (bool, bool),
    translation: Translation,
    bounds: Rectangle,
) -> (seen: Option<ContentPoint>)
    requires
        0 <= translation.x <= u32::MAX,
        0 <= translation.y <= u32::MAX,
    ensures
        seen == match cursor_over(cursor, bounds) {
            Some(position) => if over.0 || over.1 {
                None
            } else {
                Some(
                    ContentPoint {
                        x: (position.x + translation.x) as i64,
                        y: (position.y + translation.y) as i64,
                    },
                )
            },
            None => None,
        },
{
    match cursor {
        Some(position) => {
            if bounds.contains(position) && !(over.0 || over.1) {
                Some(
                    ContentPoint {
                        x: position.x as i64 + translation.x,
                        y: position.y as i64 + translation.y,
                    },
                )
            } else {
                None
            }
        },
        None => None,
    }
}

fn moved_bounds(translation: Translation, bounds: Rectangle) -> (frame: Frame)
    requires
        0 <= translation.x <= u32::MAX,
        0 <= translation.y <= u32::MAX,
    ensures
        frame == (Frame {
            x: (bounds.x + translation.x) as i64,
            y: (bounds.y + translation.y) as i64,
            width: bounds.width as i64,
            height: bounds.height as i64,
        }),
{
    Frame {
        x: bounds.x as i64 + translation.x,
        y: bounds.y as i64 + translation.y,
        width: bounds.width as i64,
        height: bounds.height as i64,
    }
}

/// The cursor to hand to the content together with an event.
pub fn content_cursor(
    state: &State,
    cursor: Option<Point>,
    direction: Direction,
    bounds: Rectangle,
    content_bounds: Rectangle,
) -> (seen: Option<ContentPoint>)
    ensures
        seen == content_cursor_of(*state, cursor, direction, bounds, content_bounds),
{
    let scrollbars = Scrollbars::new(state, direction, bounds, content_bounds);
    let over = scrollbars.is_mouse_over(cursor);
    let translation = state.translation(direction, bounds, content_bounds);
    moved_cursor(cursor, over, translation, bounds)
}

/// The part of the content that is visible, to hand to the content together
/// with an event.
pub fn content_viewport(
    state: &State,
    direction: Direction,
    bounds: Rectangle,
    content_bounds: Rectangle,
) -> (frame: Frame)
    ensures
        frame == content_viewport_of(*state, direction, bounds, content_bounds),
{
    let translation = state.translation(direction, bounds, content_bounds);
    moved_bounds(translation, bounds)
}

/// Who decides how the pointer looks over a region.
#[derive(Clone, Copy, Debug, PartialEq, Eq, Structural)]
pub enum Interaction {
    /// The region: the pointer is plain.
    Idle,
    /// The content, which is asked with the cursor as it sees it and the
    /// part of it that is visible.
    Content { cursor: Option<ContentPoint>, viewport: Frame },
}

/// Who decides how the pointer looks: the region itself while the pointer
/// is over a scrollbar or a handle is held, the content otherwise.
pub open spec fn interaction_of(
    state: State,
    cursor: Option<Point>,
    direction: Direction,
    bounds: Rectangle,
    content_bounds: Rectangle,
) -> Interaction {
    let over = scrollbars_of(state, direction, bounds, content_bounds).spec_is_mouse_over(cursor);
    if over.0 || over.1 || state.spec_scrollers_grabbed() {
        Interaction::Idle
    } else {
        Interaction::Content {
            cursor: content_cursor_of(state, cursor, direction, bounds, content_bounds),
            viewport: content_viewport_of(state, direction, bounds, content_bounds),
        }
    }
}

/// Computes the current mouse interaction of a scrollable region.
pub fn mouse_interaction(
    state: &State,
    cursor: Option<Point>,
    direction: Direction,
    bounds: Rectangle,
    content_bounds: Rectangle,
) -> (interaction: Interaction)
    ensures
        interaction == interaction_of(*state, cursor, direction, bounds, content_bounds),
{
    let scrollbars = Scrollbars::new(state, direction, bounds, content_bounds);
    let over = scrollbars.is_mouse_over(cursor);
    if (over.0 || over.1) || state.scrollers_grabbed() {
        Interaction::Idle
    } else {
        let translation = state.translation(direction, bounds, content_bounds);
        Interaction::Content {
            cursor: moved_cursor(cursor, over, translation, bounds),
            viewport: moved_bounds(translation, bounds),
        }
    }
}

/// How a scrollbar is to look.
#[derive(Clone, Copy, Debug, PartialEq, Eq, Structural)]
pub enum Appearance {
    /// Its handle is held.
    Dragging,
    /// The cursor is over the region; the flag says whether it is over this
    /// scrollbar.
    Hovered { is_mouse_over_scrollbar: bool },
    /// The cursor is elsewhere.
    Active,
}

/// A scrollbar to draw.
#[derive(Clone, Copy, Debug, PartialEq, Eq, Structural)]
pub struct DrawnScrollbar {
    pub scrollbar: Scrollbar,
    pub appearance: Appearance,
    /// Whether the track has an area.
    pub track_visible: bool,
    /// Whether the handle has an area.
    pub scroller_visible: bool,
}

/// What there is to draw of a region.
#[derive(Clone, Copy, Debug, PartialEq, Eq, Structural)]
pub struct Drawing {
    /// Whether the content is clipped to the bounds of the region and moved
    /// against its translation: so it is wherever a scrollbar is shown.
    pub clipped: bool,
    pub translation: Translation,
    /// The cursor as the content sees it.
    pub cursor: Option<ContentPoint>,
    /// The part of the content that is visible.
    pub viewport: Frame,
    pub y: Option<DrawnScrollbar>,
    pub x: Option<DrawnScrollbar>,
}

/// Whether a frame has an area.
pub open spec fn has_area(frame: Frame) -> bool {
    frame.width > 0 && frame.height > 0
}

/// How a scrollbar looks: dragged while its handle is held, else hovered
/// while the cursor is over the region, else plain.
pub open spec fn appearance_of(grabbed: bool, over_region: bool, over_scrollbar: bool) -> Appearance {
    if grabbed {
        Appearance::Dragging
    } else if over_region {
        Appearance::Hovered { is_mouse_over_scrollbar: over_scrollbar }
    } else {
        Appearance::Active
    }
}

/// A scrollbar with its looks.
pub open spec fn drawn(
    scrollbar: Option<Scrollbar>,
    grabbed: bool,
    over_region: bool,
    over_scrollbar: bool,
) -> Option<DrawnScrollbar> {
    match scrollbar {
        Some(scrollbar) => Some(
            DrawnScrollbar {
                scrollbar,
                appearance: appearance_of(grabbed, over_region, over_scrollbar),
                track_visible: has_area(scrollbar.bounds),
                scroller_visible: has_area(scrollbar.scroller.bounds),
            },
        ),
        None => None,
    }
}

/// What there is to draw of a region in a given state.
pub open spec fn drawing_of(
    state: State,
    cursor: Option<Point>,
    direction: Direction,
    bounds: Rectangle,
    content_bounds: Rectangle,
) -> Drawing {
    let scrollbars = scrollbars_of(state, direction, bounds, content_bounds);
    let over = scrollbars.spec_is_mouse_over(cursor);
    let over_region = cursor_over(cursor, bounds) is Some;
    Drawing {
        clipped: scrollbars.spec_active(),
        translation: state.spec_translation(direction, bounds, content_bounds),
        cursor: content_cursor_of(state, cursor, direction, bounds, content_bounds),
        viewport: content_viewport_of(state, direction, bounds, content_bounds),
        y: drawn(scrollbars.y, state.y_scroller_grabbed_at is Some, over_region, over.0),
        x: drawn(scrollbars.x, state.x_scroller_grabbed_at is Some, over_region, over.1),
    }
}

fn draw_scrollbar(
    scrollbar: Option<Scrollbar>,
    grabbed: bool,
    over_region: bool,
    over_scrollbar: bool,
) -> (result: Option<DrawnScrollbar>)
    ensures
        result == drawn(scrollbar, grabbed, over_region, over_scrollbar),
{
    match scrollbar {
        Some(scrollbar) => {
            let appearance = if grabbed {
                Appearance::Dragging
            } else if over_region {
                Appearance::Hovered { is_mouse_over_scrollbar: over_scrollbar }
            } else {
                Appearance::Active
            };
            Some(
                DrawnScrollbar {
                    scrollbar,
                    appearance,
                    track_visible: scrollbar.bounds.width > 0 && scrollbar.bounds.height > 0,
                    scroller_visible: scrollbar.scroller.bounds.width > 0
                        && scrollbar.scroller.bounds.height > 0,
                },
            )
        },
        None => None,
    }
}

/// Says what is to be drawn of a scrollable region: the content with its
/// translation, and each scrollbar that is shown with its looks.
pub fn draw(
    state: &State,
    cursor: Option<Point>,
    direction: Direction,
    bounds: Rectangle,
    content_bounds: Rectangle,
) -> (drawing: Drawing)
    ensures
        drawing == drawing_of(*state, cursor, direction, bounds, content_bounds),
{
    let scrollbars = Scrollbars::new(state, direction, bounds, content_bounds);
    let over_region: bool = match cursor {
        Some(position) => bounds.contains(position),
        None => false,
    };
    let over = scrollbars.is_mouse_over(cursor);
    let translation = state.translation(direction, bounds, content_bounds);
    Drawing {
        clipped: scrollbars.active(),
        translation,
        cursor: moved_cursor(cursor, over, translation, bounds),
        viewport: moved_bounds(translation, bounds),
        y: draw_scrollbar(
            scrollbars.y,
            state.y_scroller_grabbed_at.is_some(),
            over_region,
            over.0,
        ),
        x: draw_scrollbar(
            scrollbars.x,
            state.x_scroller_grabbed_at.is_some(),
            over_region,
            over.1,
        ),
    }
}

/// The room that a region offers to its content.
#[derive(Clone, Copy, Debug, PartialEq, Eq, Structural)]
pub struct ContentLimits {
    pub min_width: u32,
    pub min_height: u32,
    /// The greatest width; `None` where the content may be as wide as it
    /// likes.
    pub max_width: Option<u32>,
    /// The greatest height; `None` where the content may be as high as it
    /// likes.
    pub max_height: Option<u32>,
}

/// Computes the room for the content of a scrollable region from the room
/// of the region itself: along an axis that scrolls the content is not
/// limited.
pub fn layout(
    min_width: u32,
    min_height: u32,
    max_width: u32,
    max_height: u32,
    direction: &Direction,
) -> (limits: ContentLimits)
    ensures
        limits == (ContentLimits {
            min_width,
            min_height,
            max_width: if direction.spec_horizontal() is Some {
                None
            } else {
                Some(max_width)
            },
            max_height: if direction.spec_vertical() is Some {
                None
            } else {
                Some(max_height)
            },
        }),
{
    ContentLimits {
        min_width,
        min_height,
        max_width: if direction.horizontal().is_some() {
            None
        } else {
            Some(max_width)
        },
        max_height: if direction.vertical().is_some() {
            None
        } else {
            Some(max_height)
        },
    }
}

} // verus!
